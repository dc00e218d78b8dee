//! The trusted boundary: declarations and thin wrappers for the outside
//! collaborators — the glob matcher, opaque filesystem paths, and std's
//! UTF-8 validation. Everything else in the crate is verified against the
//! contracts stated here.

use vstd::prelude::*;

verus! {

#[verifier::external_type_specification]
#[verifier::external_body]
pub struct ExPathBuf(std::path::PathBuf);

#[verifier::external_type_specification]
#[verifier::external_body]
pub struct ExPaths(glob::Paths);

#[verifier::external_type_specification]
#[verifier::external_body]
pub struct ExGlobError(glob::GlobError);

/// Whether the glob matcher accepts a pattern's syntax. `glob::glob` decides
/// this from the pattern text alone, before it looks at the filesystem, so
/// the outcome is a function of the pattern.
pub uninterp spec fn glob_syntax_ok(pattern: Seq<char>) -> bool;

/// Relies on `glob::glob`: it returns the candidate iterator exactly when the
/// pattern's syntax is acceptable, and a pattern error otherwise; the error's
/// rendering is handed back as the cause text.
#[verifier::external_body]
pub(crate) fn glob_open(pattern: &str) -> (r: Result<glob::Paths, String>)
    ensures
        r is Ok <==> glob_syntax_ok(pattern@),
{
    match glob::glob(pattern) {
        Ok(paths) => Ok(paths),
        Err(e) => Err(format!("{}", e)),
    }
}

/// Relies on `<glob::Paths as Iterator>::next`: it yields the next candidate —
/// a matched path, or a glob error for a path the matcher could not examine,
/// handed back as that path's rendering and the error's rendering — and
/// `None` once the candidates are exhausted. What comes back depends on the
/// filesystem, so nothing is promised of it.
#[verifier::external_body]
pub(crate) fn glob_next(paths: &mut glob::Paths) -> (r: Option<
    Result<std::path::PathBuf, (String, String)>,
>) {
    match paths.next() {
        None => None,
        Some(Ok(path)) => Some(Ok(path)),
        Some(Err(e)) => Some(Err((format!("{}", e.path().display()), format!("{}", e)))),
    }
}

/// The final segment of a path, when it has one, as an owned path: what
/// `std::path::Path::file_name` yields, a function of the path value alone.
pub uninterp spec fn file_name_of(p: std::path::PathBuf) -> Option<std::path::PathBuf>;

/// A path's text, when its bytes are valid UTF-8: what
/// `std::path::Path::to_str` yields, a function of the path value alone.
pub uninterp spec fn path_text_of(p: std::path::PathBuf) -> Option<Seq<char>>;

/// Relies on `std::path::Path::file_name`: the path's final segment, when it
/// has one, carried over as an owned path.
#[verifier::external_body]
pub(crate) fn path_file_name(path: &std::path::PathBuf) -> (r: Option<std::path::PathBuf>)
    ensures
        r == file_name_of(*path),
{
    path.file_name().map(std::path::PathBuf::from)
}

/// Relies on `std::path::Path::to_str`: the path as text, when its bytes are
/// valid UTF-8.
#[verifier::external_body]
pub(crate) fn path_to_string(path: &std::path::PathBuf) -> (r: Option<String>)
    ensures
        r matches Some(s) ==> path_text_of(*path) == Some(s@),
        r is None ==> path_text_of(*path) is None,
{
    path.to_str().map(str::to_owned)
}

/// Relies on `String::from_utf8`: it succeeds exactly on valid UTF-8 input
/// and decodes it; the error's rendering is handed back as the cause text.
#[verifier::external_body]
pub(crate) fn string_from_utf8(bytes: Vec<u8>) -> (r: Result<String, String>)
    ensures
        r matches Ok(s) ==> vstd::utf8::valid_utf8(bytes@) && s@ == vstd::utf8::decode_utf8(
            bytes@,
        ),
        r is Err ==> !vstd::utf8::valid_utf8(bytes@),
{
    match String::from_utf8(bytes) {
        Ok(s) => Ok(s),
        Err(e) => Err(format!("{}", e)),
    }
}

} // verus!
