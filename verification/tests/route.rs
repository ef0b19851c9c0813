use riotpool::retry::{should_retry, BIND_TIMEOUT_MS, RETRY_INTERVAL_MS};
use riotpool::route::{plan_request, plan_request_exact, BasicPlan, RequestPlan};

fn plan(line: &[u8]) -> RequestPlan {
    plan_request(&line.to_vec())
}

#[test]
fn root_serves_index() {
    assert!(matches!(
        plan(b"GET / HTTP/1.1"),
        RequestPlan::ServeIndex { sleep_first: false }
    ));
}

#[test]
fn empty_path_serves_index() {
    assert!(matches!(
        plan(b"GET  HTTP/1.1"),
        RequestPlan::ServeIndex { sleep_first: false }
    ));
}

#[test]
fn sleep_pauses_then_serves_index() {
    assert!(matches!(
        plan(b"GET /sleep HTTP/1.1"),
        RequestPlan::ServeIndex { sleep_first: true }
    ));
}

#[test]
fn path_is_trimmed() {
    assert!(matches!(
        plan(b"GET   /sleep\t HTTP/1.1"),
        RequestPlan::ServeIndex { sleep_first: true }
    ));
    assert!(matches!(
        plan(b"GET  /  HTTP/1.1"),
        RequestPlan::ServeIndex { sleep_first: false }
    ));
}

#[test]
fn other_paths_serve_files_under_public() {
    match plan(b"GET /style.css HTTP/1.1") {
        RequestPlan::ServeFile { path } => assert_eq!(path, b"public/style.css".to_vec()),
        _ => panic!("a file plan was expected"),
    }
    // A path without a leading slash is looked up under the root as well.
    match plan(b"GET style.css HTTP/1.1") {
        RequestPlan::ServeFile { path } => assert_eq!(path, b"public/style.css".to_vec()),
        _ => panic!("a file plan was expected"),
    }
}

#[test]
fn traversal_is_rejected() {
    assert!(matches!(plan(b"GET /../secret HTTP/1.1"), RequestPlan::BadRequest));
    assert!(matches!(plan(b"GET /a..b HTTP/1.1"), RequestPlan::BadRequest));
    assert!(matches!(plan(b"GET /a\\b HTTP/1.1"), RequestPlan::BadRequest));
}

#[test]
fn non_get_lines_are_bad_requests() {
    assert!(matches!(plan(b"POST / HTTP/1.1"), RequestPlan::BadRequest));
    assert!(matches!(plan(b"GET / HTTP/1.0"), RequestPlan::BadRequest));
    assert!(matches!(plan(b""), RequestPlan::BadRequest));
    // Too short to carry both markers without overlap.
    assert!(matches!(plan(b"GET HTTP/1.1"), RequestPlan::BadRequest));
}

#[test]
fn exact_routing_knows_two_lines() {
    assert_eq!(
        plan_request_exact(&b"GET / HTTP/1.1".to_vec()),
        BasicPlan::ServeHello { sleep_first: false }
    );
    assert_eq!(
        plan_request_exact(&b"GET /sleep HTTP/1.1".to_vec()),
        BasicPlan::ServeHello { sleep_first: true }
    );
    assert_eq!(plan_request_exact(&b"GET /x HTTP/1.1".to_vec()), BasicPlan::NotFound);
    assert_eq!(plan_request_exact(&b"GET  / HTTP/1.1".to_vec()), BasicPlan::NotFound);
    assert_eq!(plan_request_exact(&b"POST / HTTP/1.1".to_vec()), BasicPlan::NotFound);
}

#[test]
fn retry_while_the_timeout_is_not_reached() {
    assert!(should_retry(0, BIND_TIMEOUT_MS));
    assert!(should_retry(BIND_TIMEOUT_MS - 1, BIND_TIMEOUT_MS));
    assert!(!should_retry(BIND_TIMEOUT_MS, BIND_TIMEOUT_MS));
    assert!(!should_retry(BIND_TIMEOUT_MS + RETRY_INTERVAL_MS, BIND_TIMEOUT_MS));
}
