//! What the library relies on from the `uriparse` crate.
use vstd::prelude::*;
use std::convert::TryFrom;

verus! {

/// Whether the bytes form a URI reference, as `uriparse` decides it.
pub uninterp spec fn is_uri_reference(b: Seq<u8>) -> bool;

/// The path segments that `uriparse` finds in a URI reference.
pub uninterp spec fn uri_path_segments(b: Seq<u8>) -> Seq<Seq<char>>;

/// Relies on `uriparse::URIReference::try_from(&[u8])`, which accepts exactly
/// the URI references, and on `Path::segments` of the parsed value, which
/// lists its path segments. `None` when the bytes are no URI reference.
#[verifier::external_body]
pub(crate) fn parse_uri_reference(b: &[u8]) -> (r: Option<Vec<String>>)
    ensures
        r is Some <==> is_uri_reference(b@),
        r matches Some(segs) ==> segs@.map_values(|s: String| s@) == uri_path_segments(b@),
{
    match uriparse::URIReference::try_from(b) {
        Ok(uri) => Some(uri.path().segments().iter().map(|s| s.as_str().to_string()).collect()),
        Err(_) => None,
    }
}

} // verus!
