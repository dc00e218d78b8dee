//! Resolve a glob pattern at build time to exactly one file and emit that
//! file's contents, or its bare file name, as a literal token sequence.
//!
//! The crate is one pipeline: the pattern extractor takes the invocation's
//! tokens apart ([`extract_pattern`]), the path resolver holds the
//! filesystem's candidates to a single match ([`get_path`]), and the
//! emitters turn raw bytes or a file name into output tokens
//! ([`bytes_to_token_stream`], [`str_to_token_stream`], [`glob`]). The first
//! failure at any stage aborts the whole expansion; [`Error::message`] gives
//! each failure its fixed diagnostic text.
//!
//! Reading a resolved file is plain I/O and stays with the caller: it feeds
//! the bytes it read back into the emitters.

use vstd::prelude::*;

mod emit;
mod error;
mod outside;
mod resolve;
mod token;

pub use crate::emit::byte_tokens;
pub use crate::emit::bytes_to_token_stream;
pub use crate::emit::file_name_token;
pub use crate::emit::group_bytes;
pub use crate::emit::is_name_token_of;
pub use crate::emit::name_token_error;
pub use crate::emit::lemma_byte_tokens_round_trip;
pub use crate::emit::lemma_str_tokens_round_trip;
pub use crate::emit::str_to_token_stream;
pub use crate::error::Error;
pub use crate::error::spec_message;
pub use crate::outside::file_name_of;
pub use crate::outside::glob_syntax_ok;
pub use crate::outside::path_text_of;
pub use crate::resolve::get_path;
pub use crate::resolve::is_resolver_error;
pub use crate::resolve::select_single;
pub use crate::token::InputToken;
pub use crate::token::Token;
pub use crate::token::extract_pattern;
pub use crate::token::is_string_rendering;
pub use crate::token::pattern_of;
pub use crate::token::spec_extract;

verus! {

/// Resolves an invocation's pattern to a single file and emits that file's
/// own name — the final path segment, not its directories — as a string
/// literal token. A success is the emitted name of the one resolved path; a
/// failure is a usage error passed through exactly, a resolver failure, or
/// the filename emitter's failure for that resolved path.
pub fn glob(input: &Vec<InputToken>) -> (r: Result<Vec<Token>, Error>)
    ensures
        spec_extract(input@) matches Err(e) ==> r == Err::<Vec<Token>, Error>(e),
        spec_extract(input@) matches Ok(pat) ==> match r {
            Ok(ts) => glob_syntax_ok(pat) && (exists|p: std::path::PathBuf|
                #[trigger] is_name_token_of(ts@, p)),
            Err(e) => is_resolver_error(e, pat) || (glob_syntax_ok(pat) && (exists|
                p: std::path::PathBuf,
            | #[trigger] name_token_error(e, p))),
        },
{
    let path = match get_path(input) {
        Ok(path) => path,
        Err(e) => {
            return Err(e);
        },
    };
    file_name_token(&path)
}

} // verus!
