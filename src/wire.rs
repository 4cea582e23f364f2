//! The parts of `hyper` (through its `http` re-exports) that the rewriting
//! logic relies on: the header map, the target URI, and their operations.
use vstd::prelude::*;

verus! {

#[verifier::external_type_specification]
#[verifier::external_body]
#[verifier::reject_recursive_types(T)]
pub struct ExHeaderMap<T>(hyper::HeaderMap<T>);

#[verifier::external_type_specification]
#[verifier::external_body]
pub struct ExHeaderValue(hyper::header::HeaderValue);

#[verifier::external_type_specification]
#[verifier::external_body]
pub struct ExUri(hyper::Uri);

#[verifier::external_type_specification]
#[verifier::external_body]
pub struct ExInvalidUri(hyper::http::uri::InvalidUri);

/// What a header map holds: for each header name, in its lower-case form,
/// the values stored under it in insertion order.
pub uninterp spec fn header_entries(h: hyper::HeaderMap) -> Map<Seq<char>, Seq<Seq<u8>>>;

/// Whether `http`'s URI parser accepts the text as a URI.
pub uninterp spec fn uri_parses(s: Seq<char>) -> bool;

/// A header name written in lower case letters, digits and dashes, and so
/// already in the normal form that the header map stores names in.
pub open spec fn is_plain_header_name(k: Seq<char>) -> bool {
    &&& k.len() > 0
    &&& forall|i: int|
        0 <= i < k.len() ==> {
            let c = #[trigger] k[i];
            ('a' <= c && c <= 'z') || ('0' <= c && c <= '9') || c == '-'
        }
}

/// Relies on `HeaderMap::remove`: every value stored under the name is
/// removed, and no other entry is touched. A `&str` key is looked up after
/// lower-casing, which leaves a plain name as it is.
#[verifier::external_body]
pub(crate) fn remove_header(h: &mut hyper::HeaderMap, key: &str)
    requires
        is_plain_header_name(key@),
    ensures
        header_entries(*final(h)) == header_entries(*old(h)).remove(key@),
{
    h.remove(key);
}

/// Relies on `Uri`'s `FromStr` impl: it succeeds exactly on the texts that
/// the `http` URI grammar accepts.
#[verifier::external_body]
pub(crate) fn parse_uri(s: &str) -> (r: Result<hyper::Uri, hyper::http::uri::InvalidUri>)
    ensures
        r.is_ok() == uri_parses(s@),
{
    s.parse::<hyper::Uri>()
}

} // verus!
