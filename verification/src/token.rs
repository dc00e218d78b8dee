use vstd::prelude::*;
use vstd::string::StrSliceExecFns;

use crate::error::Error;

verus! {

/// One token of the invocation input, as the host build step hands it over.
///
/// The pipeline only ever asks how many tokens there are and whether a token
/// is a literal, so every non-literal token collapses into [`InputToken::Other`].
#[derive(Debug, PartialEq, Eq)]
pub enum InputToken {
    /// A literal token, carried as its textual rendering; a string literal
    /// renders with its surrounding double quotes.
    Literal(String),
    /// Any other token: an identifier, punctuation, a group, and so on.
    Other,
}

/// One token of an emitted literal.
#[derive(Debug, PartialEq, Eq)]
pub enum Token {
    /// An unsuffixed integer literal holding one byte value.
    Byte(u8),
    /// A string literal holding exactly the given text.
    Str(String),
    /// A single punctuation character.
    Punct(char),
    /// A bracket-delimited group of tokens.
    Group(Vec<Token>),
}

/// Whether a literal's rendering is that of a plain quoted string: at least
/// two characters, the first and last a double quote.
pub open spec fn is_string_rendering(s: Seq<char>) -> bool {
    s.len() >= 2 && s.first() == '"' && s.last() == '"'
}

/// The pattern inside a quoted rendering: everything between the quotes.
pub open spec fn pattern_of(s: Seq<char>) -> Seq<char>
    recommends
        is_string_rendering(s),
{
    s.subrange(1, s.len() - 1)
}

/// What extracting the pattern from an invocation's tokens yields: the lone
/// string literal's unquoted text, or the usage error the input shape earns.
pub open spec fn spec_extract(toks: Seq<InputToken>) -> Result<Seq<char>, Error> {
    if toks.len() == 0 {
        Err(Error::NeedsString)
    } else {
        match toks[0] {
            InputToken::Other => Err(Error::NeedsString),
            InputToken::Literal(lit) => if toks.len() > 1 {
                Err(Error::ExtraInput)
            } else if !is_string_rendering(lit@) {
                Err(Error::NotAString)
            } else {
                Ok(pattern_of(lit@))
            },
        }
    }
}

/// Takes the invocation input apart: exactly one token, which must be a
/// string literal, whose quotes are stripped to obtain the glob pattern.
pub fn extract_pattern(input: &Vec<InputToken>) -> (r: Result<String, Error>)
    ensures
        match r {
            Ok(p) => spec_extract(input@) matches Ok(q) && p@ == q,
            Err(e) => spec_extract(input@) == Err::<Seq<char>, Error>(e),
        },
{
    if input.len() == 0 {
        return Err(Error::NeedsString);
    }
    let lit: &String = match &input[0] {
        InputToken::Literal(lit) => lit,
        InputToken::Other => {
            return Err(Error::NeedsString);
        },
    };
    if input.len() > 1 {
        return Err(Error::ExtraInput);
    }
    let n = lit.as_str().unicode_len();
    if n < 2 {
        return Err(Error::NotAString);
    }
    if lit.as_str().get_char(0) != '"' || lit.as_str().get_char(n - 1) != '"' {
        return Err(Error::NotAString);
    }
    Ok(lit.as_str().substring_char(1, n - 1).to_owned())
}

} // verus!
