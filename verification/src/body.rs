//! Resolution of the request-body source specifier.
//!
//! A specifier beginning with `@` and longer than one character selects a
//! file (the remainder is the path) or standard input (when the remainder is
//! exactly `-`). Every other specifier, a bare `@` included, is an inline
//! literal taken verbatim.

use vstd::prelude::*;
use vstd::string::*;
use vstd::utf8::encode_utf8;

use crate::error::Error;

verus! {

/// Where the request body comes from, as selected by the specifier string.
#[derive(Debug, PartialEq, Eq)]
pub enum BodySource {
    /// The body is the UTF-8 bytes of this text, taken verbatim.
    Literal(String),
    /// The body is the whole content of the file at this path.
    File(String),
    /// The body is everything read from standard input.
    Stdin,
}

/// The mathematical shape of a [`BodySource`].
pub enum BodyClass {
    Literal(Seq<char>),
    File(Seq<char>),
    Stdin,
}

impl View for BodySource {
    type V = BodyClass;

    open spec fn view(&self) -> BodyClass {
        match self {
            BodySource::Literal(t) => BodyClass::Literal(t@),
            BodySource::File(p) => BodyClass::File(p@),
            BodySource::Stdin => BodyClass::Stdin,
        }
    }
}

/// Which body source a specifier string selects: `@-` selects standard
/// input, `@` followed by anything else selects that remainder as a file
/// path, and everything else is an inline literal, verbatim.
pub open spec fn classify_spec(s: Seq<char>) -> BodyClass {
    if s.len() > 1 && s[0] == '@' {
        if s.len() == 2 && s[1] == '-' {
            BodyClass::Stdin
        } else {
            BodyClass::File(s.subrange(1, s.len() as int))
        }
    } else {
        BodyClass::Literal(s)
    }
}

/// Classifies a body-source specifier string.
pub fn classify(s: &str) -> (r: BodySource)
    ensures
        r@ == classify_spec(s@),
{
    let n = s.unicode_len();
    if n > 1 && s.get_char(0) == '@' {
        if n == 2 && s.get_char(1) == '-' {
            BodySource::Stdin
        } else {
            let rest = s.substring_char(1, n);
            BodySource::File(rest.to_owned())
        }
    } else {
        BodySource::Literal(s.to_owned())
    }
}

/// Combines a classified body source with the outcome of the read that the
/// caller performed for it: a literal resolves to its own UTF-8 bytes and
/// never fails, while a file or standard-input source resolves to exactly
/// what was read, or to the read failure.
pub fn resolve(source: BodySource, read: Result<Vec<u8>, Error>) -> (r: Result<Vec<u8>, Error>)
    ensures
        source matches BodySource::Literal(t) ==> (r matches Ok(b) && b@ == encode_utf8(t@)),
        !(source is Literal) ==> r == read,
{
    match source {
        BodySource::Literal(t) => Ok(t.as_str().as_bytes_vec()),
        BodySource::File(_) => read,
        BodySource::Stdin => read,
    }
}

/// Law: the specifier `@-` selects standard input, so resolution hands back
/// exactly the bytes read from it, whatever they are.
pub proof fn lemma_stdin_specifier(s: Seq<char>)
    ensures
        s == "@-"@ ==> classify_spec(s) is Stdin,
{
    reveal_strlit("@-");
}

/// Law: a specifier that does not match `@` followed by a nonempty remainder
/// is classified as a literal holding the specifier itself, so resolution
/// returns its own bytes unchanged.
pub proof fn lemma_literal_specifier(s: Seq<char>)
    ensures
        !(s.len() > 1 && s[0] == '@') ==> classify_spec(s) == BodyClass::Literal(s),
{
}

} // verus!
