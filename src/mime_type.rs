//! The MIME type of Gemini documents, parsed by the `mime` crate.
use vstd::prelude::*;

verus! {

#[verifier::external_type_specification]
#[verifier::external_body]
pub struct ExMime(mime::Mime);

#[verifier::external_type_specification]
#[verifier::external_body]
pub struct ExFromStrError(mime::FromStrError);

/// The MIME type of Gemini documents, as text.
pub const GEMINI_MIME_STR: &'static str = "text/gemini";

/// The media type that `mime` parses from a text.
pub uninterp spec fn mime_of(s: Seq<char>) -> mime::Mime;

pub open spec fn is_lower_alpha(c: char) -> bool {
    'a' <= c && c <= 'z'
}

/// A type and a subtype of lowercase ASCII letters, parted by one slash, the
/// type not empty, and no parameters.
pub open spec fn is_simple_media_type(s: Seq<char>) -> bool {
    exists|k: int|
        0 < k < s.len() && s[k] == '/' && forall|j: int|
            0 <= j < s.len() && j != k ==> #[trigger] is_lower_alpha(s[j])
}

/// Relies on `mime::Mime`'s `FromStr` (`mime::parse::parse`): a non-empty run
/// of token bytes, a slash, and a run of token bytes with no parameters parse,
/// and ASCII letters are token bytes. What it parses depends on the text alone.
#[verifier::external_body]
fn parse_mime(s: &str) -> (r: Result<mime::Mime, mime::FromStrError>)
    ensures
        is_simple_media_type(s@) ==> r is Ok,
        r matches Ok(m) ==> m == mime_of(s@),
{
    s.parse::<mime::Mime>()
}

/// The MIME type of Gemini documents, parsed from `GEMINI_MIME_STR`. It
/// always parses, and every call gives the same value.
pub fn gemini_mime() -> (r: Result<mime::Mime, mime::FromStrError>)
    ensures
        r matches Ok(m) && m == mime_of(GEMINI_MIME_STR@),
{
    proof {
        reveal_strlit("text/gemini");
        let s = GEMINI_MIME_STR@;
        assert(s[4] == '/');
        assert forall|j: int| 0 <= j < s.len() && j != 4 implies #[trigger] is_lower_alpha(s[j]) by {}
        assert(is_simple_media_type(s));
    }
    parse_mime(GEMINI_MIME_STR)
}

} // verus!
