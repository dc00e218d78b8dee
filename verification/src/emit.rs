//! The literal emitters: raw bytes to a byte-array-reference token sequence,
//! raw bytes to a UTF-8 string literal, and a resolved path to its bare file
//! name as a string literal.

use vstd::prelude::*;
use vstd::utf8::decode_utf8;
use vstd::utf8::encode_utf8;
use vstd::utf8::valid_utf8;

use crate::error::Error;
use crate::outside::file_name_of;
use crate::outside::path_file_name;
use crate::outside::path_text_of;
use crate::outside::path_to_string;
use crate::outside::string_from_utf8;
use crate::token::Token;

verus! {

/// The token form of a byte sequence inside the emitted array: one unsuffixed
/// byte literal per byte, each followed by a comma.
pub open spec fn byte_tokens(bytes: Seq<u8>) -> Seq<Token>
    decreases bytes.len(),
{
    if bytes.len() == 0 {
        Seq::empty()
    } else {
        byte_tokens(bytes.drop_last()) + seq![Token::Byte(bytes.last()), Token::Punct(',')]
    }
}

/// The byte values a comma-separated byte token group decodes to: the byte
/// literal standing before each separator.
pub open spec fn group_bytes(tokens: Seq<Token>) -> Seq<u8>
    decreases tokens.len(),
{
    if tokens.len() < 2 {
        Seq::empty()
    } else {
        group_bytes(tokens.drop_last().drop_last()) + match tokens[tokens.len() - 2] {
            Token::Byte(b) => seq![b],
            _ => Seq::empty(),
        }
    }
}

proof fn lemma_byte_tokens_len(bytes: Seq<u8>)
    ensures
        byte_tokens(bytes).len() == 2 * bytes.len(),
    decreases bytes.len(),
{
    if bytes.len() > 0 {
        lemma_byte_tokens_len(bytes.drop_last());
    }
}

/// Law: decoding the emitted byte token group gives back exactly the bytes
/// that were embedded, whatever they are.
pub proof fn lemma_byte_tokens_round_trip(bytes: Seq<u8>)
    ensures
        group_bytes(byte_tokens(bytes)) == bytes,
    decreases bytes.len(),
{
    if bytes.len() == 0 {
        assert(group_bytes(byte_tokens(bytes)) =~= bytes);
    } else {
        lemma_byte_tokens_round_trip(bytes.drop_last());
        lemma_byte_tokens_len(bytes.drop_last());
        let whole = byte_tokens(bytes);
        assert(whole.drop_last().drop_last() =~= byte_tokens(bytes.drop_last()));
        assert(group_bytes(whole) =~= bytes);
    }
}

/// Law: a text encoded as UTF-8 bytes and embedded again comes back as the
/// same text, with the encoding always accepted.
pub proof fn lemma_str_tokens_round_trip(text: Seq<char>)
    ensures
        valid_utf8(encode_utf8(text)),
        decode_utf8(encode_utf8(text)) == text,
{
    broadcast use vstd::utf8::encode_utf8_valid_utf8;
    broadcast use vstd::utf8::encode_utf8_decode_utf8;
}

/// Renders file contents as a reference to a literal byte array: a `&`
/// punct followed by one bracketed group of byte literals and separators.
pub fn bytes_to_token_stream(bytes: &Vec<u8>) -> (ts: Vec<Token>)
    ensures
        ts@.len() == 2,
        ts@[0] == Token::Punct('&'),
        ts@[1] matches Token::Group(g) && g@ == byte_tokens(bytes@),
{
    let mut group: Vec<Token> = Vec::new();
    let n = bytes.len();
    for i in 0..n
        invariant
            n == bytes@.len(),
            group@ == byte_tokens(bytes@.take(i as int)),
    {
        group.push(Token::Byte(bytes[i]));
        group.push(Token::Punct(','));
        proof {
            assert(bytes@.take(i + 1).drop_last() =~= bytes@.take(i as int));
            assert(group@ =~= byte_tokens(bytes@.take(i + 1)));
        }
    }
    proof {
        assert(bytes@.take(n as int) =~= bytes@);
    }
    let mut ts: Vec<Token> = Vec::new();
    ts.push(Token::Punct('&'));
    ts.push(Token::Group(group));
    ts
}

/// Validates file contents as UTF-8 and renders them as a single string
/// literal holding exactly the decoded text; invalid contents are a hard
/// failure, never a lossy decode.
pub fn str_to_token_stream(bytes: Vec<u8>) -> (r: Result<Vec<Token>, Error>)
    ensures
        valid_utf8(bytes@) ==> ({
            &&& r matches Ok(ts)
            &&& ts@.len() == 1
            &&& ts@[0] matches Token::Str(s)
            &&& s@ == decode_utf8(bytes@)
        }),
        !valid_utf8(bytes@) ==> (r matches Err(e) && e matches Error::NotUtf8 { .. }),
{
    match string_from_utf8(bytes) {
        Ok(s) => {
            let mut ts: Vec<Token> = Vec::new();
            ts.push(Token::Str(s));
            Ok(ts)
        },
        Err(cause) => Err(Error::NotUtf8 { cause }),
    }
}

/// Whether a token sequence is the emitted file name of the path `p`: one
/// string literal holding exactly the text of `p`'s final segment.
pub open spec fn is_name_token_of(ts: Seq<Token>, p: std::path::PathBuf) -> bool {
    &&& file_name_of(p) matches Some(n)
    &&& path_text_of(n) matches Some(t)
    &&& ts.len() == 1
    &&& ts[0] matches Token::Str(s)
    &&& s@ == t
}

/// Whether `e` is the failure the filename emitter owes for the path `p`:
/// the no-file-name error exactly for a path with no final segment, and the
/// undecodable-name error exactly for a final segment that is not UTF-8 text.
pub open spec fn name_token_error(e: Error, p: std::path::PathBuf) -> bool {
    match e {
        Error::NoFileName => file_name_of(p) is None,
        Error::FileNameNotUtf8 => file_name_of(p) matches Some(n) && path_text_of(n) is None,
        _ => false,
    }
}

/// Renders a resolved path's own file name as a single string literal,
/// provided the path has a final segment and that segment is UTF-8 text.
pub fn file_name_token(path: &std::path::PathBuf) -> (r: Result<Vec<Token>, Error>)
    ensures
        r matches Ok(ts) ==> is_name_token_of(ts@, *path),
        r matches Err(e) ==> name_token_error(e, *path),
        file_name_of(*path) is None ==> r == Err::<Vec<Token>, Error>(Error::NoFileName),
        (file_name_of(*path) matches Some(n) && path_text_of(n) is None) ==> r == Err::<
            Vec<Token>,
            Error,
        >(Error::FileNameNotUtf8),
        (file_name_of(*path) matches Some(n) && path_text_of(n) is Some) ==> r is Ok,
{
    match path_file_name(path) {
        None => Err(Error::NoFileName),
        Some(name) => match path_to_string(&name) {
            None => Err(Error::FileNameNotUtf8),
            Some(text) => {
                let mut ts: Vec<Token> = Vec::new();
                ts.push(Token::Str(text));
                Ok(ts)
            },
        },
    }
}

} // verus!
