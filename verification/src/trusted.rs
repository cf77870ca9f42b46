//! The calls this crate makes into code it does not verify.
//!
//! Each function here wraps exactly one outside function. Verus takes the
//! contract written on the wrapper for granted, so each doc comment says what
//! is claimed of the outside function and on what ground.

use vstd::prelude::*;
use vstd::utf8::is_ascii_chars;

verus! {

/// What `str::to_lowercase` returns for a string with the given characters:
/// its lowercase equivalent under the Unicode case mapping.
pub uninterp spec fn lowercase(s: Seq<char>) -> Seq<char>;

/// The ASCII lowercase form of one character: `'A'..='Z'` go to `'a'..='z'`,
/// every other character stays.
pub open spec fn ascii_lower_char(c: char) -> char {
    if 'A' <= c && c <= 'Z' {
        ((c as u8 + 32) as u8) as char
    } else {
        c
    }
}

/// The ASCII lowercase form of a string, character by character.
pub open spec fn ascii_lowercase(s: Seq<char>) -> Seq<char> {
    Seq::new(s.len(), |i: int| ascii_lower_char(s[i]))
}

/// Calls `str::to_lowercase`.
///
/// The result depends on the characters of `s` alone, so it has a name,
/// [`lowercase`]. Of the name one thing is claimed: on a string of ASCII
/// characters the Unicode mapping is the ASCII one, which maps the 26 capital
/// letters to their small forms and leaves everything else in place.
#[verifier::external_body]
pub(crate) fn to_lowercase(s: &str) -> (lower: String)
    ensures
        lower@ == lowercase(s@),
        is_ascii_chars(s@) ==> lower@ == ascii_lowercase(s@),
{
    s.to_lowercase()
}

/// What the base64 crate's standard engine returns for the given bytes: their
/// encoding in the standard alphabet, with padding.
pub uninterp spec fn base64_standard(input: Seq<u8>) -> Seq<char>;

/// Calls `Engine::encode` of the base64 crate on its `STANDARD` engine.
///
/// The encoding is a function of the bytes alone and is named
/// [`base64_standard`]. The call computes the length of its output with checked
/// arithmetic and panics if that overflows `usize`; four thirds of a slice's
/// length never do, a slice being at most `isize::MAX` bytes long.
#[verifier::external_body]
pub(crate) fn base64_encode(input: &[u8]) -> (encoded: String)
    ensures
        encoded@ == base64_standard(input@),
{
    base64::Engine::encode(&base64::engine::general_purpose::STANDARD, input)
}

/// What `reqwest::StatusCode` displays for a status code between 100 and 999:
/// the number, a space, and the reason phrase registered for it, if any.
pub uninterp spec fn status_line(code: u16) -> Seq<char>;

/// Calls `reqwest::StatusCode::from_u16` and displays what it returns.
///
/// `from_u16` accepts exactly the codes from 100 to 999, so a line comes back
/// exactly for those. What is displayed depends on the code alone and is named
/// [`status_line`].
#[verifier::external_body]
pub(crate) fn status_to_string(code: u16) -> (line: Option<String>)
    ensures
        line is Some <==> 100 <= code <= 999,
        line matches Some(text) ==> text@ == status_line(code),
{
    match reqwest::StatusCode::from_u16(code) {
        Ok(status) => Some(status.to_string()),
        Err(_) => None,
    }
}

} // verus!
