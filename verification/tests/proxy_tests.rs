use edge_router::headers::HeaderMap;
use edge_router::proxy::{
    forward_response, handle_request, method_not_allowed_response, not_found_response,
    preflight_response, rewrite_request_headers, Action, Body, Request,
};
use edge_router::router::{BackendId, Method};

fn cors_values(h: &HeaderMap) -> (Option<String>, Option<String>, Option<String>, Option<String>) {
    (
        h.get_header("Access-Control-Allow-Origin"),
        h.get_header("Access-Control-Allow-Methods"),
        h.get_header("Access-Control-Allow-Headers"),
        h.get_header("Access-Control-Max-Age"),
    )
}

#[test]
fn preflight_needs_no_backend_call() {
    // An OPTIONS request to a recognized prefix is answered locally.
    let req = Request { method: Method::Options, path: "/api/users".to_string(), headers: HeaderMap::new() };
    match handle_request(req) {
        Action::Respond(r) => {
            assert_eq!(r.status, 200);
            assert!(matches!(r.body, Body::Empty));
            let (origin, methods, allowed, max_age) = cors_values(&r.headers);
            assert_eq!(origin, Some("*".to_string()));
            assert_eq!(methods, Some("GET, POST, PUT, DELETE, PATCH, OPTIONS".to_string()));
            assert_eq!(allowed, Some("Content-Type, Authorization, X-Requested-With".to_string()));
            assert_eq!(max_age, Some("86400".to_string()));
            assert_eq!(r.headers.get_header("Content-Length"), Some("0".to_string()));
        }
        Action::Forward { .. } => panic!("preflight must not reach a backend"),
    }
}

#[test]
fn preflight_response_shape() {
    let r = preflight_response();
    assert_eq!(r.status, 200);
    assert!(matches!(r.body, Body::Empty));
    assert_eq!(r.headers.get_header("content-length"), Some("0".to_string()));
}

#[test]
fn sdk_responses_are_cacheable_for_an_hour() {
    let upstream = HeaderMap::new();
    let r = forward_response(200, upstream, &BackendId::Sdk);
    assert_eq!(r.headers.get_header("Cache-Control"), Some("public, max-age=3600".to_string()));
    assert_eq!(r.headers.get_header("Pragma"), None);
    assert_eq!(r.headers.get_header("Expires"), None);
    assert!(matches!(r.body, Body::Upstream));
}

#[test]
fn api_responses_carry_all_three_no_cache_headers() {
    let upstream = HeaderMap::new();
    let r = forward_response(200, upstream, &BackendId::Api);
    assert_eq!(
        r.headers.get_header("Cache-Control"),
        Some("no-cache, no-store, must-revalidate".to_string())
    );
    assert_eq!(r.headers.get_header("Pragma"), Some("no-cache".to_string()));
    assert_eq!(r.headers.get_header("Expires"), Some("0".to_string()));
}

#[test]
fn upstream_cache_header_is_overwritten() {
    let mut upstream = HeaderMap::new();
    upstream.set_header("cache-control", "private");
    let r = forward_response(200, upstream, &BackendId::Sdk);
    assert_eq!(r.headers.get_header("Cache-Control"), Some("public, max-age=3600".to_string()));
}

#[test]
fn other_upstream_headers_pass_through() {
    let mut upstream = HeaderMap::new();
    upstream.set_header("Content-Type", "application/json");
    upstream.set_header("ETag", "\"abc\"");
    let r = forward_response(304, upstream, &BackendId::Api);
    assert_eq!(r.status, 304);
    assert_eq!(r.headers.get_header("Content-Type"), Some("application/json".to_string()));
    assert_eq!(r.headers.get_header("ETag"), Some("\"abc\"".to_string()));
}

#[test]
fn user_agent_passes_through_unchanged() {
    let mut h = HeaderMap::new();
    h.set_header("User-Agent", "TestClient/1.0");
    rewrite_request_headers(&mut h, &BackendId::Api);
    assert_eq!(h.get_header("User-Agent"), Some("TestClient/1.0".to_string()));
    assert_eq!(h.get_header("Host"), Some("api.privacy-center.org".to_string()));
}

#[test]
fn missing_user_agent_gets_the_fixed_default() {
    let mut h = HeaderMap::new();
    rewrite_request_headers(&mut h, &BackendId::Sdk);
    assert_eq!(h.get_header("User-Agent"), Some("Fastly-Proxy/1.0".to_string()));
    assert_eq!(h.get_header("Host"), Some("sdk.privacy-center.org".to_string()));
}

#[test]
fn host_header_is_always_overwritten() {
    let mut h = HeaderMap::new();
    h.set_header("Host", "edge.example");
    rewrite_request_headers(&mut h, &BackendId::Api);
    assert_eq!(h.get_header("host"), Some("api.privacy-center.org".to_string()));
}

#[test]
fn end_to_end_get_api_users() {
    let req = Request {
        method: Method::Get,
        path: "/api/users/42".to_string(),
        headers: HeaderMap::new(),
    };
    let action = handle_request(req);
    let (backend, request) = match action {
        Action::Forward { backend, request } => (backend, request),
        Action::Respond(_) => panic!("a routable request must be forwarded"),
    };
    assert_eq!(backend, BackendId::Api);
    assert_eq!(request.method, Method::Get);
    assert_eq!(request.path, "/api/users/42");
    assert_eq!(request.headers.get_header("Host"), Some("api.privacy-center.org".to_string()));
    assert_eq!(request.headers.get_header("User-Agent"), Some("Fastly-Proxy/1.0".to_string()));

    // The backend replies 200; the returned response keeps the status and
    // carries the CORS set and the api no-cache directives.
    let reply = forward_response(200, HeaderMap::new(), &backend);
    assert_eq!(reply.status, 200);
    let (origin, methods, allowed, max_age) = cors_values(&reply.headers);
    assert_eq!(origin, Some("*".to_string()));
    assert_eq!(methods, Some("GET, POST, PUT, DELETE, PATCH, OPTIONS".to_string()));
    assert_eq!(allowed, Some("Content-Type, Authorization, X-Requested-With".to_string()));
    assert_eq!(max_age, Some("86400".to_string()));
    assert_eq!(
        reply.headers.get_header("Cache-Control"),
        Some("no-cache, no-store, must-revalidate".to_string())
    );
}

#[test]
fn end_to_end_post_unknown() {
    let req = Request {
        method: Method::Post,
        path: "/unknown".to_string(),
        headers: HeaderMap::new(),
    };
    match handle_request(req) {
        Action::Respond(r) => {
            assert_eq!(r.status, 404);
            let text = match r.body {
                Body::Text(t) => t,
                _ => panic!("the rejection carries a plain-text body"),
            };
            assert!(text.contains("/api/*"));
            assert!(text.contains("/sdk/*"));
            assert_eq!(r.headers.get_header("Access-Control-Allow-Origin"), Some("*".to_string()));
            assert_eq!(r.headers.get_header("Content-Type"), Some("text/plain".to_string()));
        }
        Action::Forward { .. } => panic!("an unmatched path must not be forwarded"),
    }
}

#[test]
fn end_to_end_trace_sdk_script() {
    let req = Request {
        method: Method::Trace,
        path: "/sdk/script.js".to_string(),
        headers: HeaderMap::new(),
    };
    match handle_request(req) {
        Action::Respond(r) => {
            assert_eq!(r.status, 405);
            assert_eq!(
                r.headers.get_header("Allow"),
                Some("GET, POST, PUT, DELETE, PATCH, OPTIONS".to_string())
            );
            assert_eq!(r.headers.get_header("Access-Control-Allow-Origin"), Some("*".to_string()));
        }
        Action::Forward { .. } => panic!("a disallowed method must not be forwarded"),
    }
}

#[test]
fn rejection_responses_have_fixed_shape() {
    let nf = not_found_response();
    assert_eq!(nf.status, 404);
    assert_eq!(nf.headers.get_header("Content-Type"), Some("text/plain".to_string()));

    let mna = method_not_allowed_response();
    assert_eq!(mna.status, 405);
    let text = match mna.body {
        Body::Text(t) => t,
        _ => panic!("the rejection carries a plain-text body"),
    };
    assert_eq!(text, "Method Not Allowed");
}
