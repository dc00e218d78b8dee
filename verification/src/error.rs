use vstd::prelude::*;
use vstd::string::StringExecFns;

verus! {

/// Why a macro expansion failed. Every failure aborts the whole expansion;
/// the message templates are fixed so a build log can be matched verbatim.
#[derive(Debug, PartialEq, Eq)]
pub enum Error {
    /// The invocation input was empty or its first token was not a literal.
    NeedsString,
    /// The invocation input held more than one token.
    ExtraInput,
    /// The single literal was not a plain quoted string.
    NotAString,
    /// The glob pattern itself was malformed.
    InvalidPattern { cause: String },
    /// No file matched the pattern.
    NoMatch { pattern: String },
    /// More than one file matched the pattern.
    MultipleMatches,
    /// A matched path could not be read.
    Read { path: String, cause: String },
    /// The file's contents were not valid UTF-8.
    NotUtf8 { cause: String },
    /// The resolved path had no final segment.
    NoFileName,
    /// The resolved file's name was not valid UTF-8.
    FileNameNotUtf8,
}

/// The diagnostic text that belongs to each failure.
pub open spec fn spec_message(e: Error) -> Seq<char> {
    match e {
        Error::NeedsString => "input needs to be a string"@,
        Error::ExtraInput => "input can only be one string"@,
        Error::NotAString => "this macro only accepts a string argument"@,
        Error::InvalidPattern { cause } => "invalid glob pattern: "@ + cause@,
        Error::NoMatch { pattern } => "no file found that matches pattern "@ + pattern@,
        Error::MultipleMatches => "pattern is valid for multiple files"@,
        Error::Read { path, cause } => "couldn't read "@ + path@ + ": "@ + cause@,
        Error::NotUtf8 { cause } => "file is not valid utf8: "@ + cause@,
        Error::NoFileName => "couldn't read file name"@,
        Error::FileNameNotUtf8 => "file name is not valid utf8"@,
    }
}

impl Error {
    /// The diagnostic message for this failure, exactly as a build step
    /// would report it.
    pub fn message(&self) -> (r: String)
        ensures
            r@ == spec_message(*self),
    {
        match self {
            Error::NeedsString => "input needs to be a string".to_owned(),
            Error::ExtraInput => "input can only be one string".to_owned(),
            Error::NotAString => "this macro only accepts a string argument".to_owned(),
            Error::InvalidPattern { cause } => {
                let mut m = "invalid glob pattern: ".to_owned();
                m.append(cause.as_str());
                m
            },
            Error::NoMatch { pattern } => {
                let mut m = "no file found that matches pattern ".to_owned();
                m.append(pattern.as_str());
                m
            },
            Error::MultipleMatches => "pattern is valid for multiple files".to_owned(),
            Error::Read { path, cause } => {
                let mut m = "couldn't read ".to_owned();
                m.append(path.as_str());
                m.append(": ");
                m.append(cause.as_str());
                m
            },
            Error::NotUtf8 { cause } => {
                let mut m = "file is not valid utf8: ".to_owned();
                m.append(cause.as_str());
                m
            },
            Error::NoFileName => "couldn't read file name".to_owned(),
            Error::FileNameNotUtf8 => "file name is not valid utf8".to_owned(),
        }
    }
}

} // verus!
