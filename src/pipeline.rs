//! The per-request decision: report the statistics, or count the request
//! and prepare it for the upstream host.
use vstd::prelude::*;
use crate::rewrite::{mutate_request, query_view, stripped_names, target_text, RewriteError};
use crate::stats::Stats;
use crate::wire::{header_entries, uri_parses};

verus! {

/// The path answered with the statistics instead of being forwarded.
pub const STATUS_PATH: &'static str = "/status";

/// What is done with an inbound request.
#[derive(Debug, Clone, Copy, PartialEq, Eq, Structural)]
pub enum Route {
    /// Answer with the statistics report; nothing is counted or forwarded.
    Status,
    /// Count the request, rewrite it and send it upstream.
    Forward,
}

/// Whether a request path is the status path.
pub open spec fn is_status_path(path: Seq<char>) -> bool {
    path == STATUS_PATH@
}

/// The forwarded count after requests with these paths were handled one
/// after another, starting from `start`.
pub open spec fn count_after(start: nat, paths: Seq<Seq<char>>) -> nat
    decreases paths.len(),
{
    if paths.len() == 0 {
        start
    } else {
        let before = count_after(start, paths.drop_last());
        if is_status_path(paths.last()) {
            before
        } else {
            before + 1
        }
    }
}

/// How many of these paths are not the status path.
pub open spec fn forwarded_count(paths: Seq<Seq<char>>) -> nat {
    paths.filter(|p: Seq<char>| !is_status_path(p)).len()
}

/// Decides, from the path alone, whether a request is answered with the
/// statistics or forwarded. Method, query and headers play no part.
pub fn route(path: &str) -> (r: Route)
    ensures
        (r == Route::Status) == is_status_path(path@),
{
    let status = STATUS_PATH;
    let n = path.unicode_len();
    if n != status.unicode_len() {
        return Route::Forward;
    }
    let mut i: usize = 0;
    while i < n
        invariant
            n == path@.len(),
            n == status@.len(),
            0 <= i <= n,
            status@ == STATUS_PATH@,
            forall|j: int| 0 <= j < i ==> path@[j] == status@[j],
        decreases n - i,
    {
        if path.get_char(i) != status.get_char(i) {
            return Route::Forward;
        }
        i = i + 1;
    }
    assert(path@ =~= status@);
    Route::Status
}

/// Handles a request that is not for the status path, up to the point of
/// dispatch: counts it, strips its transport headers and computes its
/// upstream target. The count goes up by one whether or not the target is
/// valid, so a malformed request leaves the count consistent for the
/// requests after it.
pub fn forward(
    stats: &mut Stats,
    headers: &mut hyper::HeaderMap,
    path: &str,
    query: Option<&str>,
) -> (r: Result<hyper::Uri, RewriteError>)
    requires
        old(stats).proxied < usize::MAX,
    ensures
        final(stats).proxied == old(stats).proxied + 1,
        header_entries(*final(headers)) == header_entries(*old(headers)).remove_keys(
            stripped_names(),
        ),
        forall|k: Seq<char>| #[trigger]
            stripped_names().contains(k) ==> !header_entries(*final(headers)).contains_key(k),
        r.is_ok() == uri_parses(target_text(path@, query_view(query))),
        r.is_err() ==> r == Err::<hyper::Uri, RewriteError>(RewriteError::InvalidTarget),
{
    stats.record_proxied();
    mutate_request(headers, path, query)
}

/// The count reported on the status path equals the number of earlier
/// requests that were not for the status path, in whatever order the
/// requests came.
pub proof fn lemma_status_reports_forwarded(paths: Seq<Seq<char>>)
    ensures
        count_after(0, paths) == forwarded_count(paths),
    decreases paths.len(),
{
    reveal(Seq::filter);
    if paths.len() > 0 {
        lemma_status_reports_forwarded(paths.drop_last());
    }
}

/// After any number of forwarded requests, each counted once under
/// exclusive access, the status path reports exactly that number: no
/// increment is lost.
pub proof fn lemma_no_lost_increments(paths: Seq<Seq<char>>)
    requires
        forall|i: int| 0 <= i < paths.len() ==> !is_status_path(#[trigger] paths[i]),
    ensures
        count_after(0, paths) == paths.len(),
    decreases paths.len(),
{
    if paths.len() > 0 {
        lemma_no_lost_increments(paths.drop_last());
    }
}

} // verus!
