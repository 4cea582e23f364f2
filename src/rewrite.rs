//! Rewriting an inbound request so that it targets the upstream host.
use vstd::prelude::*;
use vstd::string::*;
use crate::wire::{header_entries, parse_uri, remove_header, uri_parses};

verus! {

/// The single host that every forwarded request is sent to.
pub const UPSTREAM_HOST: &'static str = "httpbin.org";

/// Why a request could not be rewritten.
#[derive(Debug, Clone, Copy, PartialEq, Eq, Structural)]
pub enum RewriteError {
    /// The reassembled target is not a valid URI.
    InvalidTarget,
}

/// The headers whose inbound values are meaningless once the request is
/// re-sent on a new connection to another host.
pub open spec fn stripped_names() -> Set<Seq<char>> {
    set!["content-length"@, "transfer-encoding"@, "accept-encoding"@, "content-encoding"@]
}

/// The target that a request with this path and query is sent to. A
/// request with a query goes to the `www.` form of the upstream host, one
/// without goes to the bare host; the asymmetry is long-standing behaviour
/// that clients may depend on, so it is kept.
pub open spec fn target_text(path: Seq<char>, query: Option<Seq<char>>) -> Seq<char> {
    match query {
        None => "https://"@ + UPSTREAM_HOST@ + path,
        Some(q) => "https://www."@ + UPSTREAM_HOST@ + path + "?"@ + q,
    }
}

/// Removes every value of the transport and encoding headers, whatever
/// case they arrived in, and leaves every other header as it was.
pub fn strip_headers(headers: &mut hyper::HeaderMap)
    ensures
        header_entries(*final(headers)) == header_entries(*old(headers)).remove_keys(
            stripped_names(),
        ),
        forall|k: Seq<char>| #[trigger]
            stripped_names().contains(k) ==> !header_entries(*final(headers)).contains_key(k),
{
    proof {
        reveal_strlit("content-length");
        reveal_strlit("transfer-encoding");
        reveal_strlit("accept-encoding");
        reveal_strlit("content-encoding");
    }
    remove_header(headers, "content-length");
    remove_header(headers, "transfer-encoding");
    remove_header(headers, "accept-encoding");
    remove_header(headers, "content-encoding");
    assert(header_entries(*headers) =~= header_entries(*old(headers)).remove_keys(stripped_names()));
}

/// The characters of an optional query string.
pub open spec fn query_view(query: Option<&str>) -> Option<Seq<char>> {
    match query {
        Some(q) => Some(q@),
        None => None,
    }
}

/// Builds the text of the upstream target for an inbound path and query.
pub fn target_uri_text(path: &str, query: Option<&str>) -> (r: String)
    ensures
        r@ == target_text(path@, query_view(query)),
{
    match query {
        None => {
            let mut s = String::from_str("https://");
            s.append(UPSTREAM_HOST);
            s.append(path);
            s
        },
        Some(q) => {
            let mut s = String::from_str("https://www.");
            s.append(UPSTREAM_HOST);
            s.append(path);
            s.append("?");
            s.append(q);
            s
        },
    }
}

/// The target URI for an inbound path and query, or `InvalidTarget` when
/// the reassembled text is not a URI.
pub fn rewrite_target(path: &str, query: Option<&str>) -> (r: Result<hyper::Uri, RewriteError>)
    ensures
        r.is_ok() == uri_parses(target_text(path@, query_view(query))),
        r.is_err() ==> r == Err::<hyper::Uri, RewriteError>(RewriteError::InvalidTarget),
{
    let text = target_uri_text(path, query);
    match parse_uri(text.as_str()) {
        Ok(uri) => Ok(uri),
        Err(_) => Err(RewriteError::InvalidTarget),
    }
}

/// Prepares a request for the upstream host: strips the transport and
/// encoding headers and returns the new target for its path and query.
/// The headers are stripped whether or not the target is valid.
pub fn mutate_request(headers: &mut hyper::HeaderMap, path: &str, query: Option<&str>) -> (r: Result<
    hyper::Uri,
    RewriteError,
>)
    ensures
        header_entries(*final(headers)) == header_entries(*old(headers)).remove_keys(
            stripped_names(),
        ),
        forall|k: Seq<char>| #[trigger]
            stripped_names().contains(k) ==> !header_entries(*final(headers)).contains_key(k),
        r.is_ok() == uri_parses(target_text(path@, query_view(query))),
        r.is_err() ==> r == Err::<hyper::Uri, RewriteError>(RewriteError::InvalidTarget),
{
    strip_headers(headers);
    rewrite_target(path, query)
}

} // verus!
