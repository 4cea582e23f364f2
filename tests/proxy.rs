use hyper::header::{HeaderMap, HeaderName, HeaderValue};
use proxyer::lifecycle::{Lifecycle, Phase};
use proxyer::pipeline::{forward, route, Route, STATUS_PATH};
use proxyer::rewrite::{
    mutate_request, rewrite_target, strip_headers, target_uri_text, RewriteError, UPSTREAM_HOST,
};
use proxyer::stats::Stats;

fn header(name: &str, value: &str) -> (HeaderName, HeaderValue) {
    (
        HeaderName::from_bytes(name.as_bytes()).unwrap(),
        HeaderValue::from_str(value).unwrap(),
    )
}

fn sample_headers() -> HeaderMap {
    let mut h = HeaderMap::new();
    for (n, v) in [
        ("Content-Length", "12"),
        ("content-length", "13"),
        ("Transfer-Encoding", "chunked"),
        ("ACCEPT-ENCODING", "gzip"),
        ("accept-encoding", "br"),
        ("Content-Encoding", "gzip"),
        ("Host", "localhost:3000"),
        ("X-Trace", "one"),
        ("x-trace", "two"),
    ] {
        let (name, value) = header(n, v);
        h.append(name, value);
    }
    h
}

#[test]
fn upstream_host_is_fixed() {
    assert_eq!(UPSTREAM_HOST, "httpbin.org");
    assert_eq!(STATUS_PATH, "/status");
}

#[test]
fn target_without_query_uses_bare_host() {
    assert_eq!(target_uri_text("/foo", None), "https://httpbin.org/foo");
}

#[test]
fn target_with_query_uses_www_host() {
    assert_eq!(target_uri_text("/foo", Some("a=1")), "https://www.httpbin.org/foo?a=1");
}

#[test]
fn target_with_empty_query_still_uses_www_host() {
    assert_eq!(target_uri_text("/", Some("")), "https://www.httpbin.org/?");
}

#[test]
fn rewrite_target_parses_the_new_uri() {
    let uri = rewrite_target("/foo", None).unwrap();
    assert_eq!(uri.scheme_str(), Some("https"));
    assert_eq!(uri.host(), Some("httpbin.org"));
    assert_eq!(uri.path(), "/foo");
    assert_eq!(uri.query(), None);

    let uri = rewrite_target("/get", Some("a=1&b=2")).unwrap();
    assert_eq!(uri.host(), Some("www.httpbin.org"));
    assert_eq!(uri.path(), "/get");
    assert_eq!(uri.query(), Some("a=1&b=2"));
}

#[test]
fn rewrite_target_rejects_a_malformed_target() {
    assert_eq!(rewrite_target("/a b", None).unwrap_err(), RewriteError::InvalidTarget);
    assert_eq!(rewrite_target("/a<b", None).unwrap_err(), RewriteError::InvalidTarget);
    assert_eq!(rewrite_target("/x", Some("a b")).unwrap_err(), RewriteError::InvalidTarget);
}

#[test]
fn strip_headers_removes_the_four_names_in_any_case() {
    let mut h = sample_headers();
    strip_headers(&mut h);
    for name in ["content-length", "transfer-encoding", "accept-encoding", "content-encoding"] {
        assert!(!h.contains_key(name), "{} still present", name);
    }
    assert_eq!(h.get("host").unwrap(), "localhost:3000");
    let traces: Vec<&HeaderValue> = h.get_all("x-trace").iter().collect();
    assert_eq!(traces, vec!["one", "two"]);
    assert_eq!(h.len(), 3);
}

#[test]
fn strip_headers_on_empty_map_keeps_it_empty() {
    let mut h = HeaderMap::new();
    strip_headers(&mut h);
    assert!(h.is_empty());
}

#[test]
fn mutate_request_strips_even_when_target_is_invalid() {
    let mut h = sample_headers();
    let r = mutate_request(&mut h, "/a b", None);
    assert_eq!(r.unwrap_err(), RewriteError::InvalidTarget);
    assert!(!h.contains_key("content-length"));
    assert_eq!(h.len(), 3);

    let mut h = sample_headers();
    let uri = mutate_request(&mut h, "/foo", Some("a=1")).unwrap();
    assert_eq!(uri.to_string(), "https://www.httpbin.org/foo?a=1");
    assert!(!h.contains_key("transfer-encoding"));
}

#[test]
fn route_picks_status_only_for_exact_path() {
    assert_eq!(route("/status"), Route::Status);
    assert_eq!(route("/foo"), Route::Forward);
    assert_eq!(route("/status/"), Route::Forward);
    assert_eq!(route("/Status"), Route::Forward);
    assert_eq!(route("/statu"), Route::Forward);
    assert_eq!(route(""), Route::Forward);
}

#[test]
fn status_body_reports_the_count() {
    assert_eq!(Stats::new().status_body(), "Stats { proxied: 0 }");
    assert_eq!(Stats { proxied: 7 }.status_body(), "Stats { proxied: 7 }");
    assert_eq!(Stats { proxied: 12 }.status_body(), "Stats { proxied: 12 }");
    assert_eq!(Stats { proxied: 1234567890 }.status_body(), "Stats { proxied: 1234567890 }");
    let largest = Stats { proxied: usize::MAX };
    assert_eq!(largest.status_body(), format!("Stats {{ proxied: {} }}", usize::MAX));
}

#[test]
fn status_body_matches_debug_form() {
    let s = Stats { proxied: 42 };
    assert_eq!(s.status_body(), format!("{:?}", s));
}

#[test]
fn record_proxied_adds_one() {
    let mut s = Stats::new();
    s.record_proxied();
    s.record_proxied();
    assert_eq!(s.proxied(), 2);
}

fn handle(stats: &mut Stats, path: &str, query: Option<&str>) -> Option<String> {
    match route(path) {
        Route::Status => Some(stats.status_body()),
        Route::Forward => {
            let mut h = sample_headers();
            let _ = forward(stats, &mut h, path, query);
            None
        }
    }
}

#[test]
fn status_counts_only_earlier_forwarded_requests() {
    let mut stats = Stats::new();
    assert_eq!(handle(&mut stats, "/status", None).unwrap(), "Stats { proxied: 0 }");
    handle(&mut stats, "/a", None);
    handle(&mut stats, "/b", Some("x=1"));
    assert_eq!(handle(&mut stats, "/status", Some("q=1")).unwrap(), "Stats { proxied: 2 }");
    handle(&mut stats, "/status/", None);
    assert_eq!(handle(&mut stats, "/status", None).unwrap(), "Stats { proxied: 3 }");
}

#[test]
fn n_forwarded_requests_give_n() {
    let mut stats = Stats::new();
    let n = 250;
    for i in 0..n {
        handle(&mut stats, &format!("/item/{}", i), None);
    }
    assert_eq!(handle(&mut stats, "/status", None).unwrap(), format!("Stats {{ proxied: {} }}", n));
}

#[test]
fn malformed_request_is_counted_and_later_counts_stay_right() {
    let mut stats = Stats::new();
    let mut h = sample_headers();
    let r = forward(&mut stats, &mut h, "/bad path", None);
    assert_eq!(r.unwrap_err(), RewriteError::InvalidTarget);
    assert_eq!(stats.proxied, 1);
    assert!(!h.contains_key("accept-encoding"));
    let mut h = sample_headers();
    let uri = forward(&mut stats, &mut h, "/good", None).unwrap();
    assert_eq!(uri.to_string(), "https://httpbin.org/good");
    assert_eq!(stats.proxied, 2);
}

#[test]
fn lifecycle_takes_no_work_before_binding() {
    let mut l = Lifecycle::new();
    assert_eq!(l.phase, Phase::Starting);
    assert!(!l.begin());
    l.bound();
    assert_eq!(l.phase, Phase::Serving);
    assert!(l.begin());
    assert_eq!(l.in_flight, 1);
}

#[test]
fn lifecycle_drains_in_flight_handlers_after_signal() {
    let mut l = Lifecycle::new();
    l.bound();
    for _ in 0..3 {
        assert!(l.begin());
    }
    l.signal();
    assert_eq!(l.phase, Phase::Draining);
    assert!(!l.begin());
    assert_eq!(l.in_flight, 3);
    l.finish();
    l.finish();
    assert_eq!(l.phase, Phase::Draining);
    assert!(!l.is_stopped());
    l.finish();
    assert!(l.is_stopped());
    assert_eq!(l.in_flight, 0);
    assert!(!l.begin());
}

#[test]
fn lifecycle_stops_at_once_when_idle() {
    let mut l = Lifecycle::new();
    l.bound();
    l.signal();
    assert!(l.is_stopped());
    let mut s = Lifecycle::new();
    s.signal();
    assert_eq!(s.phase, Phase::Stopped);
    s.bound();
    assert_eq!(s.phase, Phase::Stopped);
}

#[test]
fn lifecycle_keeps_serving_after_handlers_finish() {
    let mut l = Lifecycle::new();
    l.bound();
    assert!(l.begin());
    l.finish();
    assert_eq!(l.phase, Phase::Serving);
    assert_eq!(l.in_flight, 0);
}
