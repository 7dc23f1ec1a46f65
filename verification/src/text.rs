//! Text decoding and URL parsing, both done by code outside this crate.
//!
//! Nothing in this file is proved: each function states what the library
//! relies on, and the rest of the crate is verified against those statements.

use vstd::prelude::*;

verus! {

/// The text obtained from `bytes` by UTF-8 decoding in which every invalid
/// sequence is replaced by U+FFFD.
pub uninterp spec fn lossy_text(bytes: Seq<u8>) -> Seq<char>;

/// The normalised serialisation of the absolute URL written in `text`, or
/// `None` where `text` is not an absolute URL.
pub uninterp spec fn parsed_url(text: Seq<char>) -> Option<Seq<char>>;

#[verifier::external_type_specification]
#[verifier::external_body]
pub struct ExParseError(url::ParseError);

/// Calls `String::from_utf8_lossy` and takes ownership of the text.
///
/// Trusted: the text returned is `lossy_text` of the bytes, that is, the
/// decoding depends on the bytes alone; and bytes that are valid UTF-8 are
/// decoded as they stand, with nothing replaced.
#[verifier::external_body]
pub(crate) fn decode_lossy(bytes: &[u8]) -> (text: String)
    ensures
        text@ == lossy_text(bytes@),
        vstd::utf8::valid_utf8(bytes@) ==> text@ == vstd::utf8::decode_utf8(bytes@),
{
    String::from_utf8_lossy(bytes).into_owned()
}

/// Calls `url::Url::parse` and, on success, takes the URL's serialisation.
///
/// Trusted: the outcome is `parsed_url` of the text, that is, whether the
/// text parses and what it serialises to depend on the text alone.
#[verifier::external_body]
pub(crate) fn parse_url(text: &str) -> (parsed: Result<String, url::ParseError>)
    ensures
        parsed matches Ok(s) ==> parsed_url(text@) == Some(s@),
        parsed is Err ==> parsed_url(text@) is None,
{
    match url::Url::parse(text) {
        Ok(u) => Ok(String::from(u)),
        Err(e) => Err(e),
    }
}

} // verus!
