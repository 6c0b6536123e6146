use edge_router::router::{backend_host, backend_name, route, BackendId, Method, Outcome};

#[test]
fn routable_methods_reach_api() {
    let methods = [Method::Get, Method::Post, Method::Put, Method::Delete, Method::Patch];
    for m in methods {
        assert_eq!(route(m, "/api/x"), Outcome::Forward(BackendId::Api));
    }
}

#[test]
fn routable_methods_reach_sdk() {
    let methods = [Method::Get, Method::Post, Method::Put, Method::Delete, Method::Patch];
    for m in methods {
        assert_eq!(route(m, "/sdk/loader.js"), Outcome::Forward(BackendId::Sdk));
    }
}

#[test]
fn unmatched_path_is_not_found() {
    assert_eq!(route(Method::Get, "/other"), Outcome::NotFound);
    assert_eq!(route(Method::Post, "/unknown"), Outcome::NotFound);
    assert_eq!(route(Method::Delete, "/"), Outcome::NotFound);
}

#[test]
fn empty_path_is_not_found() {
    assert_eq!(route(Method::Get, ""), Outcome::NotFound);
}

#[test]
fn prefix_without_trailing_content_still_forwards() {
    assert_eq!(route(Method::Get, "/api/"), Outcome::Forward(BackendId::Api));
    assert_eq!(route(Method::Get, "/sdk/"), Outcome::Forward(BackendId::Sdk));
}

#[test]
fn prefix_without_trailing_slash_does_not_match() {
    assert_eq!(route(Method::Get, "/api"), Outcome::NotFound);
    assert_eq!(route(Method::Get, "/sdk"), Outcome::NotFound);
}

#[test]
fn prefix_matching_is_case_sensitive() {
    assert_eq!(route(Method::Get, "/API/x"), Outcome::NotFound);
    assert_eq!(route(Method::Get, "/Sdk/x"), Outcome::NotFound);
}

#[test]
fn disallowed_methods_are_rejected_regardless_of_path() {
    assert_eq!(route(Method::Head, "/api/x"), Outcome::MethodNotAllowed);
    assert_eq!(route(Method::Trace, "/sdk/x"), Outcome::MethodNotAllowed);
    assert_eq!(route(Method::Connect, "/other"), Outcome::MethodNotAllowed);
    assert_eq!(route(Method::Other, "/api/x"), Outcome::MethodNotAllowed);
}

#[test]
fn options_with_recognized_prefix_forwards_to_preflight_handling() {
    assert_eq!(route(Method::Options, "/api/x"), Outcome::Forward(BackendId::Api));
    assert_eq!(route(Method::Options, "/nowhere"), Outcome::NotFound);
}

#[test]
fn routing_is_idempotent() {
    let first = route(Method::Get, "/api/users/42");
    let second = route(Method::Get, "/api/users/42");
    assert_eq!(first, second);
    let third = route(Method::Trace, "/sdk/script.js");
    let fourth = route(Method::Trace, "/sdk/script.js");
    assert_eq!(third, fourth);
}

#[test]
fn backend_table_is_fixed() {
    assert_eq!(backend_host(&BackendId::Api), "api.privacy-center.org");
    assert_eq!(backend_host(&BackendId::Sdk), "sdk.privacy-center.org");
    assert_eq!(backend_name(&BackendId::Api), "api");
    assert_eq!(backend_name(&BackendId::Sdk), "sdk");
}
