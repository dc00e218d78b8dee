//! The path resolver: hand the pattern to the glob matcher, consume the
//! candidate sequence lazily, and hold it to exactly one successful match.
//! Zero matches and more than one match are both hard failures — the second
//! candidate is pulled purely to test for its presence, never to pick from.

use vstd::prelude::*;

use crate::error::Error;
use crate::outside::glob_next;
use crate::outside::glob_open;
use crate::outside::glob_syntax_ok;
use crate::token::InputToken;
use crate::token::extract_pattern;
use crate::token::spec_extract;

verus! {

/// The failures the resolver may hand back once a well-formed invocation has
/// produced the pattern `pat`: a syntax rejection exactly when the matcher
/// refuses the pattern, a no-match failure naming that very pattern, a read
/// failure on a candidate, or an ambiguity failure. Usage errors never come
/// out of the resolver.
pub open spec fn is_resolver_error(e: Error, pat: Seq<char>) -> bool {
    match e {
        Error::InvalidPattern { cause } => !glob_syntax_ok(pat),
        Error::NoMatch { pattern } => glob_syntax_ok(pat) && pattern@ == pat,
        Error::Read { .. } => glob_syntax_ok(pat),
        Error::MultipleMatches => glob_syntax_ok(pat),
        _ => false,
    }
}

/// Chooses the resolver's outcome from what the candidate sequence yielded:
/// the first pull, and whether a second pull found anything at all. The
/// second pull's value never matters — any further candidate, path or error,
/// makes the pattern ambiguous. This decision table is the single-match
/// invariant: zero candidates fail as "no file found", two or more fail as
/// ambiguous, and only a lone successful candidate resolves.
pub fn select_single(
    pattern: &str,
    first: Option<Result<std::path::PathBuf, (String, String)>>,
    more: bool,
) -> (r: Result<std::path::PathBuf, Error>)
    ensures
        first is None ==> (r matches Err(e) && e matches Error::NoMatch { pattern: p } && p@
            == pattern@),
        first matches Some(Err(pc)) ==> r == Err::<std::path::PathBuf, Error>(
            Error::Read { path: pc.0, cause: pc.1 },
        ),
        first matches Some(Ok(p)) ==> r == (if more {
            Err::<std::path::PathBuf, Error>(Error::MultipleMatches)
        } else {
            Ok::<std::path::PathBuf, Error>(p)
        }),
{
    match first {
        None => Err(Error::NoMatch { pattern: pattern.to_owned() }),
        Some(Err((path, cause))) => Err(Error::Read { path, cause }),
        Some(Ok(path)) => if more {
            Err(Error::MultipleMatches)
        } else {
            Ok(path)
        },
    }
}

/// Resolves an invocation's tokens to the single path its pattern matches.
///
/// Usage errors of the pattern extractor pass through unchanged; past that,
/// the matcher's candidates decide between the one resolved path and a
/// resolver failure, never a silent choice among several matches.
pub fn get_path(input: &Vec<InputToken>) -> (r: Result<std::path::PathBuf, Error>)
    ensures
        spec_extract(input@) matches Err(e) ==> r == Err::<std::path::PathBuf, Error>(e),
        spec_extract(input@) matches Ok(pat) ==> match r {
            Ok(_) => glob_syntax_ok(pat),
            Err(e) => is_resolver_error(e, pat),
        },
{
    let pattern = match extract_pattern(input) {
        Ok(p) => p,
        Err(e) => {
            return Err(e);
        },
    };
    let mut paths = match glob_open(pattern.as_str()) {
        Ok(paths) => paths,
        Err(cause) => {
            return Err(Error::InvalidPattern { cause });
        },
    };
    let first = glob_next(&mut paths);
    let more = match &first {
        Some(Ok(_)) => glob_next(&mut paths).is_some(),
        _ => false,
    };
    select_single(pattern.as_str(), first, more)
}

} // verus!
