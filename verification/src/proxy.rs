//! The proxy forwarder: header rewriting around the backend call.
//!
//! For a routed request the library decides everything except the transport:
//! `handle_request` either produces a terminal [`Response`] (rejections and
//! `OPTIONS` preflight, no backend call), or an [`Action::Forward`] carrying
//! the rewritten request for the caller to send. The caller then hands the
//! backend's status and headers to [`forward_response`], which applies the
//! CORS and cache rules; the backend body passes through verbatim
//! ([`Body::Upstream`]).

use vstd::prelude::*;
use crate::headers::{
    HeaderMap, first_value, spec_set_header, name_eq, lemma_first_value_set, lemma_name_neq_len,
};
use crate::router::{
    Method, BackendId, Outcome, route_spec, route, spec_backend_host, backend_host,
};

verus! {

/// Substituted when the inbound request carries no `User-Agent`.
pub open spec fn spec_default_user_agent() -> Seq<char> {
    "Fastly-Proxy/1.0"@
}

/// The four CORS headers added to every response that leaves the proxy.
pub open spec fn spec_with_cors(s: Seq<(Seq<char>, Seq<char>)>) -> Seq<(Seq<char>, Seq<char>)> {
    spec_set_header(
        spec_set_header(
            spec_set_header(
                spec_set_header(s, "Access-Control-Allow-Origin"@, "*"@),
                "Access-Control-Allow-Methods"@,
                "GET, POST, PUT, DELETE, PATCH, OPTIONS"@,
            ),
            "Access-Control-Allow-Headers"@,
            "Content-Type, Authorization, X-Requested-With"@,
        ),
        "Access-Control-Max-Age"@,
        "86400"@,
    )
}

/// Backend-specific cache directives: the sdk backend is cacheable for an
/// hour, the api backend is explicitly uncacheable.
pub open spec fn spec_with_cache(
    s: Seq<(Seq<char>, Seq<char>)>,
    b: BackendId,
) -> Seq<(Seq<char>, Seq<char>)> {
    match b {
        BackendId::Sdk => spec_set_header(s, "Cache-Control"@, "public, max-age=3600"@),
        BackendId::Api => spec_set_header(
            spec_set_header(
                spec_set_header(s, "Cache-Control"@, "no-cache, no-store, must-revalidate"@),
                "Pragma"@,
                "no-cache"@,
            ),
            "Expires"@,
            "0"@,
        ),
    }
}

/// The `User-Agent` a forwarded request carries: the inbound value when
/// present, the fixed default otherwise.
pub open spec fn spec_forward_user_agent(s: Seq<(Seq<char>, Seq<char>)>) -> Seq<char> {
    match first_value(s, "User-Agent"@) {
        Some(v) => v,
        None => spec_default_user_agent(),
    }
}

/// Request-side rewriting before dispatch: `Host` is overwritten with the
/// backend's hostname, `User-Agent` is preserved or defaulted; every other
/// header is untouched.
pub open spec fn spec_rewrite_request(
    s: Seq<(Seq<char>, Seq<char>)>,
    b: BackendId,
) -> Seq<(Seq<char>, Seq<char>)> {
    spec_set_header(
        spec_set_header(s, "Host"@, spec_backend_host(b)),
        "User-Agent"@,
        spec_forward_user_agent(s),
    )
}

/// A response body. `Upstream` marks the backend's body, which the caller
/// streams through verbatim; the library never inspects it.
#[derive(Debug)]
pub enum Body {
    Empty,
    Text(String),
    Upstream,
}

/// A response as far as the library describes it: status, headers, and the
/// body choice.
#[derive(Debug)]
pub struct Response {
    pub status: u16,
    pub headers: HeaderMap,
    pub body: Body,
}

/// An inbound request as the library sees it; the body stays with the
/// caller and is forwarded untouched.
#[derive(Debug)]
pub struct Request {
    pub method: Method,
    pub path: String,
    pub headers: HeaderMap,
}

/// What the caller must do next: send the rewritten request to the named
/// backend, or return the response as is (no backend call).
#[derive(Debug)]
pub enum Action {
    Forward { backend: BackendId, request: Request },
    Respond(Response),
}

pub open spec fn spec_not_found_body() -> Seq<char> {
    "Not Found: only /api/* and /sdk/* are supported"@
}

pub open spec fn spec_method_not_allowed_body() -> Seq<char> {
    "Method Not Allowed"@
}

pub open spec fn spec_not_found_headers() -> Seq<(Seq<char>, Seq<char>)> {
    spec_set_header(
        spec_set_header(Seq::empty(), "Content-Type"@, "text/plain"@),
        "Access-Control-Allow-Origin"@,
        "*"@,
    )
}

pub open spec fn spec_method_not_allowed_headers() -> Seq<(Seq<char>, Seq<char>)> {
    spec_set_header(
        spec_set_header(
            spec_set_header(Seq::empty(), "Content-Type"@, "text/plain"@),
            "Allow"@,
            "GET, POST, PUT, DELETE, PATCH, OPTIONS"@,
        ),
        "Access-Control-Allow-Origin"@,
        "*"@,
    )
}

/// Preflight: the full CORS set plus an explicit zero `Content-Length`.
pub open spec fn spec_preflight_headers() -> Seq<(Seq<char>, Seq<char>)> {
    spec_set_header(spec_with_cors(Seq::empty()), "Content-Length"@, "0"@)
}

pub open spec fn is_not_found_response(r: Response) -> bool {
    &&& r.status == 404
    &&& r.headers@ == spec_not_found_headers()
    &&& r.body matches Body::Text(t) && t@ == spec_not_found_body()
}

pub open spec fn is_method_not_allowed_response(r: Response) -> bool {
    &&& r.status == 405
    &&& r.headers@ == spec_method_not_allowed_headers()
    &&& r.body matches Body::Text(t) && t@ == spec_method_not_allowed_body()
}

pub open spec fn is_preflight_response(r: Response) -> bool {
    &&& r.status == 200
    &&& r.headers@ == spec_preflight_headers()
    &&& r.body is Empty
}

/// Add the four CORS headers.
pub fn add_cors_headers(h: &mut HeaderMap)
    ensures
        final(h)@ == spec_with_cors(old(h)@),
{
    h.set_header("Access-Control-Allow-Origin", "*");
    h.set_header("Access-Control-Allow-Methods", "GET, POST, PUT, DELETE, PATCH, OPTIONS");
    h.set_header("Access-Control-Allow-Headers", "Content-Type, Authorization, X-Requested-With");
    h.set_header("Access-Control-Max-Age", "86400");
}

/// Add the cache directives of one backend.
pub fn add_cache_headers(h: &mut HeaderMap, b: &BackendId)
    ensures
        final(h)@ == spec_with_cache(old(h)@, *b),
{
    match b {
        BackendId::Sdk => {
            h.set_header("Cache-Control", "public, max-age=3600");
        },
        BackendId::Api => {
            h.set_header("Cache-Control", "no-cache, no-store, must-revalidate");
            h.set_header("Pragma", "no-cache");
            h.set_header("Expires", "0");
        },
    }
}

/// Rewrite the request headers for dispatch to backend `b`.
pub fn rewrite_request_headers(h: &mut HeaderMap, b: &BackendId)
    ensures
        final(h)@ == spec_rewrite_request(old(h)@, *b),
{
    let ua = match h.get_header("User-Agent") {
        Some(v) => v,
        None => "Fastly-Proxy/1.0".to_owned(),
    };
    let host = backend_host(b);
    h.set_header("Host", host.as_str());
    h.set_header("User-Agent", ua.as_str());
}

/// The terminal response for an unmatched path.
pub fn not_found_response() -> (r: Response)
    ensures
        is_not_found_response(r),
{
    let mut h = HeaderMap::new();
    h.set_header("Content-Type", "text/plain");
    h.set_header("Access-Control-Allow-Origin", "*");
    Response {
        status: 404,
        headers: h,
        body: Body::Text("Not Found: only /api/* and /sdk/* are supported".to_owned()),
    }
}

/// The terminal response for a method outside the handled set.
pub fn method_not_allowed_response() -> (r: Response)
    ensures
        is_method_not_allowed_response(r),
{
    let mut h = HeaderMap::new();
    h.set_header("Content-Type", "text/plain");
    h.set_header("Allow", "GET, POST, PUT, DELETE, PATCH, OPTIONS");
    h.set_header("Access-Control-Allow-Origin", "*");
    Response { status: 405, headers: h, body: Body::Text("Method Not Allowed".to_owned()) }
}

/// The synthetic preflight answer: never contacts a backend.
pub fn preflight_response() -> (r: Response)
    ensures
        is_preflight_response(r),
{
    let mut h = HeaderMap::new();
    add_cors_headers(&mut h);
    h.set_header("Content-Length", "0");
    Response { status: 200, headers: h, body: Body::Empty }
}

/// Decide one request: a terminal response, or the rewritten request with
/// the backend to send it to. Exactly one of the two is produced.
pub fn handle_request(req: Request) -> (a: Action)
    ensures
        route_spec(req.method, req.path@) is MethodNotAllowed ==> (a matches Action::Respond(r)
            && is_method_not_allowed_response(r)),
        route_spec(req.method, req.path@) is NotFound ==> (a matches Action::Respond(r)
            && is_not_found_response(r)),
        route_spec(req.method, req.path@) is Forward && req.method is Options ==> (a matches
            Action::Respond(r) && is_preflight_response(r)),
        route_spec(req.method, req.path@) matches Outcome::Forward(b) ==> !(req.method is Options)
            ==> (a matches Action::Forward { backend, request } && backend == b && request.method
            == req.method && request.path@ == req.path@ && request.headers@
            == spec_rewrite_request(req.headers@, b)),
{
    let Request { method, path, headers } = req;
    let outcome = route(method, path.as_str());
    match outcome {
        Outcome::MethodNotAllowed => Action::Respond(method_not_allowed_response()),
        Outcome::NotFound => Action::Respond(not_found_response()),
        Outcome::Forward(b) => {
            if method == Method::Options {
                Action::Respond(preflight_response())
            } else {
                let mut fwd_headers = headers;
                rewrite_request_headers(&mut fwd_headers, &b);
                Action::Forward {
                    backend: b,
                    request: Request { method, path, headers: fwd_headers },
                }
            }
        },
    }
}

/// Build the response returned for a backend reply: the upstream status and
/// body verbatim, the upstream headers with the CORS set and the backend's
/// cache directives applied.
pub fn forward_response(status: u16, headers: HeaderMap, b: &BackendId) -> (r: Response)
    ensures
        r.status == status,
        r.headers@ == spec_with_cache(spec_with_cors(headers@), *b),
        r.body is Upstream,
{
    let mut h = headers;
    add_cors_headers(&mut h);
    add_cache_headers(&mut h, b);
    Response { status, headers: h, body: Body::Upstream }
}

/// The `Allow-*` CORS names are distinct from one another: by length,
/// except for `Allow-Methods` against `Allow-Headers`, which have the same
/// length and differ at one character.
proof fn lemma_rewrite_names_distinct()
    ensures
        !name_eq("Access-Control-Allow-Origin"@, "Access-Control-Allow-Methods"@),
        !name_eq("Access-Control-Allow-Methods"@, "Access-Control-Allow-Headers"@),
        !name_eq("Access-Control-Allow-Origin"@, "Access-Control-Allow-Headers"@),
{
    reveal_strlit("Access-Control-Allow-Origin");
    reveal_strlit("Access-Control-Allow-Methods");
    reveal_strlit("Access-Control-Allow-Headers");
    lemma_name_neq_len("Access-Control-Allow-Origin"@, "Access-Control-Allow-Methods"@);
    lemma_name_neq_len("Access-Control-Allow-Origin"@, "Access-Control-Allow-Headers"@);
    assert("Access-Control-Allow-Methods"@[21] == 'M');
    assert("Access-Control-Allow-Headers"@[21] == 'H');
    crate::headers::lemma_name_neq_at(
        "Access-Control-Allow-Methods"@,
        "Access-Control-Allow-Headers"@,
        21,
    );
}

/// Lookup through the CORS set: a name that matches none of the four CORS
/// names keeps its first value.
pub proof fn lemma_cors_preserves_name(s: Seq<(Seq<char>, Seq<char>)>, n: Seq<char>)
    requires
        !name_eq("Access-Control-Allow-Origin"@, n),
        !name_eq("Access-Control-Allow-Methods"@, n),
        !name_eq("Access-Control-Allow-Headers"@, n),
        !name_eq("Access-Control-Max-Age"@, n),
    ensures
        first_value(spec_with_cors(s), n) == first_value(s, n),
{
    let s1 = spec_set_header(s, "Access-Control-Allow-Origin"@, "*"@);
    let s2 = spec_set_header(
        s1,
        "Access-Control-Allow-Methods"@,
        "GET, POST, PUT, DELETE, PATCH, OPTIONS"@,
    );
    let s3 = spec_set_header(
        s2,
        "Access-Control-Allow-Headers"@,
        "Content-Type, Authorization, X-Requested-With"@,
    );
    lemma_first_value_set(s, "Access-Control-Allow-Origin"@, "*"@, n);
    lemma_first_value_set(
        s1,
        "Access-Control-Allow-Methods"@,
        "GET, POST, PUT, DELETE, PATCH, OPTIONS"@,
        n,
    );
    lemma_first_value_set(
        s2,
        "Access-Control-Allow-Headers"@,
        "Content-Type, Authorization, X-Requested-With"@,
        n,
    );
    lemma_first_value_set(s3, "Access-Control-Max-Age"@, "86400"@, n);
}

/// The four CORS names each look up their fixed value in `spec_with_cors`.
pub proof fn lemma_cors_values(s: Seq<(Seq<char>, Seq<char>)>)
    ensures
        first_value(spec_with_cors(s), "Access-Control-Allow-Origin"@) == Some("*"@),
        first_value(spec_with_cors(s), "Access-Control-Allow-Methods"@)
            == Some("GET, POST, PUT, DELETE, PATCH, OPTIONS"@),
        first_value(spec_with_cors(s), "Access-Control-Allow-Headers"@)
            == Some("Content-Type, Authorization, X-Requested-With"@),
        first_value(spec_with_cors(s), "Access-Control-Max-Age"@) == Some("86400"@),
{
    reveal_strlit("Access-Control-Allow-Origin");
    reveal_strlit("Access-Control-Allow-Methods");
    reveal_strlit("Access-Control-Allow-Headers");
    reveal_strlit("Access-Control-Max-Age");
    lemma_rewrite_names_distinct();
    let s1 = spec_set_header(s, "Access-Control-Allow-Origin"@, "*"@);
    let s2 = spec_set_header(
        s1,
        "Access-Control-Allow-Methods"@,
        "GET, POST, PUT, DELETE, PATCH, OPTIONS"@,
    );
    let s3 = spec_set_header(
        s2,
        "Access-Control-Allow-Headers"@,
        "Content-Type, Authorization, X-Requested-With"@,
    );
    lemma_first_value_set(s3, "Access-Control-Max-Age"@, "86400"@, "Access-Control-Max-Age"@);
    lemma_name_neq_len("Access-Control-Max-Age"@, "Access-Control-Allow-Origin"@);
    lemma_name_neq_len("Access-Control-Max-Age"@, "Access-Control-Allow-Methods"@);
    lemma_name_neq_len("Access-Control-Max-Age"@, "Access-Control-Allow-Headers"@);
    lemma_first_value_set(s3, "Access-Control-Max-Age"@, "86400"@, "Access-Control-Allow-Origin"@);
    lemma_first_value_set(s3, "Access-Control-Max-Age"@, "86400"@, "Access-Control-Allow-Methods"@);
    lemma_first_value_set(s3, "Access-Control-Max-Age"@, "86400"@, "Access-Control-Allow-Headers"@);
    lemma_first_value_set(
        s2,
        "Access-Control-Allow-Headers"@,
        "Content-Type, Authorization, X-Requested-With"@,
        "Access-Control-Allow-Headers"@,
    );
    lemma_first_value_set(
        s2,
        "Access-Control-Allow-Headers"@,
        "Content-Type, Authorization, X-Requested-With"@,
        "Access-Control-Allow-Origin"@,
    );
    lemma_first_value_set(
        s2,
        "Access-Control-Allow-Headers"@,
        "Content-Type, Authorization, X-Requested-With"@,
        "Access-Control-Allow-Methods"@,
    );
    lemma_first_value_set(
        s1,
        "Access-Control-Allow-Methods"@,
        "GET, POST, PUT, DELETE, PATCH, OPTIONS"@,
        "Access-Control-Allow-Methods"@,
    );
    lemma_first_value_set(
        s1,
        "Access-Control-Allow-Methods"@,
        "GET, POST, PUT, DELETE, PATCH, OPTIONS"@,
        "Access-Control-Allow-Origin"@,
    );
    lemma_first_value_set(s, "Access-Control-Allow-Origin"@, "*"@, "Access-Control-Allow-Origin"@);
}

/// The cache directives never touch a CORS name: all pairs differ in
/// length.
proof fn lemma_cache_preserves_cors_name(
    c: Seq<(Seq<char>, Seq<char>)>,
    b: BackendId,
    n: Seq<char>,
)
    requires
        n == "Access-Control-Allow-Origin"@ || n == "Access-Control-Allow-Methods"@ || n
            == "Access-Control-Allow-Headers"@ || n == "Access-Control-Max-Age"@,
    ensures
        first_value(spec_with_cache(c, b), n) == first_value(c, n),
{
    reveal_strlit("Access-Control-Allow-Origin");
    reveal_strlit("Access-Control-Allow-Methods");
    reveal_strlit("Access-Control-Allow-Headers");
    reveal_strlit("Access-Control-Max-Age");
    reveal_strlit("Cache-Control");
    reveal_strlit("Pragma");
    reveal_strlit("Expires");
    lemma_name_neq_len("Cache-Control"@, n);
    lemma_name_neq_len("Pragma"@, n);
    lemma_name_neq_len("Expires"@, n);
    match b {
        BackendId::Sdk => {
            lemma_first_value_set(c, "Cache-Control"@, "public, max-age=3600"@, n);
        },
        BackendId::Api => {
            let a1 = spec_set_header(c, "Cache-Control"@, "no-cache, no-store, must-revalidate"@);
            let a2 = spec_set_header(a1, "Pragma"@, "no-cache"@);
            lemma_first_value_set(c, "Cache-Control"@, "no-cache, no-store, must-revalidate"@, n);
            lemma_first_value_set(a1, "Pragma"@, "no-cache"@, n);
            lemma_first_value_set(a2, "Expires"@, "0"@, n);
        },
    }
}

/// Law: every response built for a backend reply carries the four CORS
/// headers with their fixed values, whichever backend answered and
/// whatever the upstream reply held.
pub proof fn lemma_cors_header_values(s: Seq<(Seq<char>, Seq<char>)>, b: BackendId)
    ensures
        first_value(spec_with_cache(spec_with_cors(s), b), "Access-Control-Allow-Origin"@)
            == Some("*"@),
        first_value(spec_with_cache(spec_with_cors(s), b), "Access-Control-Allow-Methods"@)
            == Some("GET, POST, PUT, DELETE, PATCH, OPTIONS"@),
        first_value(spec_with_cache(spec_with_cors(s), b), "Access-Control-Allow-Headers"@)
            == Some("Content-Type, Authorization, X-Requested-With"@),
        first_value(spec_with_cache(spec_with_cors(s), b), "Access-Control-Max-Age"@)
            == Some("86400"@),
{
    lemma_cors_values(s);
    lemma_cache_preserves_cors_name(spec_with_cors(s), b, "Access-Control-Allow-Origin"@);
    lemma_cache_preserves_cors_name(spec_with_cors(s), b, "Access-Control-Allow-Methods"@);
    lemma_cache_preserves_cors_name(spec_with_cors(s), b, "Access-Control-Allow-Headers"@);
    lemma_cache_preserves_cors_name(spec_with_cors(s), b, "Access-Control-Max-Age"@);
}

/// Law: the preflight answer carries the four CORS headers with their
/// fixed values and an explicit zero `Content-Length`.
pub proof fn lemma_preflight_header_values()
    ensures
        first_value(spec_preflight_headers(), "Access-Control-Allow-Origin"@) == Some("*"@),
        first_value(spec_preflight_headers(), "Access-Control-Allow-Methods"@)
            == Some("GET, POST, PUT, DELETE, PATCH, OPTIONS"@),
        first_value(spec_preflight_headers(), "Access-Control-Allow-Headers"@)
            == Some("Content-Type, Authorization, X-Requested-With"@),
        first_value(spec_preflight_headers(), "Access-Control-Max-Age"@) == Some("86400"@),
        first_value(spec_preflight_headers(), "Content-Length"@) == Some("0"@),
{
    reveal_strlit("Access-Control-Allow-Origin");
    reveal_strlit("Access-Control-Allow-Methods");
    reveal_strlit("Access-Control-Allow-Headers");
    reveal_strlit("Access-Control-Max-Age");
    reveal_strlit("Content-Length");
    let e = Seq::<(Seq<char>, Seq<char>)>::empty();
    lemma_cors_values(e);
    lemma_first_value_set(spec_with_cors(e), "Content-Length"@, "0"@, "Content-Length"@);
    lemma_name_neq_len("Content-Length"@, "Access-Control-Allow-Origin"@);
    lemma_name_neq_len("Content-Length"@, "Access-Control-Allow-Methods"@);
    lemma_name_neq_len("Content-Length"@, "Access-Control-Allow-Headers"@);
    lemma_name_neq_len("Content-Length"@, "Access-Control-Max-Age"@);
    lemma_first_value_set(spec_with_cors(e), "Content-Length"@, "0"@, "Access-Control-Allow-Origin"@);
    lemma_first_value_set(spec_with_cors(e), "Content-Length"@, "0"@, "Access-Control-Allow-Methods"@);
    lemma_first_value_set(spec_with_cors(e), "Content-Length"@, "0"@, "Access-Control-Allow-Headers"@);
    lemma_first_value_set(spec_with_cors(e), "Content-Length"@, "0"@, "Access-Control-Max-Age"@);
}

/// Law: a reply forwarded from the sdk backend carries the one-hour public
/// cache directive, and its `Pragma` and `Expires` lookups are exactly
/// those of the upstream reply: nothing is overridden.
pub proof fn lemma_sdk_cache_headers(s: Seq<(Seq<char>, Seq<char>)>)
    ensures
        first_value(spec_with_cache(spec_with_cors(s), BackendId::Sdk), "Cache-Control"@)
            == Some("public, max-age=3600"@),
        first_value(spec_with_cache(spec_with_cors(s), BackendId::Sdk), "Pragma"@)
            == first_value(s, "Pragma"@),
        first_value(spec_with_cache(spec_with_cors(s), BackendId::Sdk), "Expires"@)
            == first_value(s, "Expires"@),
{
    reveal_strlit("Access-Control-Allow-Origin");
    reveal_strlit("Access-Control-Allow-Methods");
    reveal_strlit("Access-Control-Allow-Headers");
    reveal_strlit("Access-Control-Max-Age");
    reveal_strlit("Cache-Control");
    reveal_strlit("Pragma");
    reveal_strlit("Expires");
    let c = spec_with_cors(s);
    lemma_first_value_set(c, "Cache-Control"@, "public, max-age=3600"@, "Cache-Control"@);
    lemma_name_neq_len("Cache-Control"@, "Pragma"@);
    lemma_name_neq_len("Cache-Control"@, "Expires"@);
    lemma_first_value_set(c, "Cache-Control"@, "public, max-age=3600"@, "Pragma"@);
    lemma_first_value_set(c, "Cache-Control"@, "public, max-age=3600"@, "Expires"@);
    lemma_name_neq_len("Access-Control-Allow-Origin"@, "Pragma"@);
    lemma_name_neq_len("Access-Control-Allow-Methods"@, "Pragma"@);
    lemma_name_neq_len("Access-Control-Allow-Headers"@, "Pragma"@);
    lemma_name_neq_len("Access-Control-Max-Age"@, "Pragma"@);
    lemma_cors_preserves_name(s, "Pragma"@);
    lemma_name_neq_len("Access-Control-Allow-Origin"@, "Expires"@);
    lemma_name_neq_len("Access-Control-Allow-Methods"@, "Expires"@);
    lemma_name_neq_len("Access-Control-Allow-Headers"@, "Expires"@);
    lemma_name_neq_len("Access-Control-Max-Age"@, "Expires"@);
    lemma_cors_preserves_name(s, "Expires"@);
}

/// Law: a reply forwarded from the api backend carries all three no-cache
/// headers.
pub proof fn lemma_api_cache_headers(s: Seq<(Seq<char>, Seq<char>)>)
    ensures
        first_value(spec_with_cache(spec_with_cors(s), BackendId::Api), "Cache-Control"@)
            == Some("no-cache, no-store, must-revalidate"@),
        first_value(spec_with_cache(spec_with_cors(s), BackendId::Api), "Pragma"@)
            == Some("no-cache"@),
        first_value(spec_with_cache(spec_with_cors(s), BackendId::Api), "Expires"@)
            == Some("0"@),
{
    reveal_strlit("Cache-Control");
    reveal_strlit("Pragma");
    reveal_strlit("Expires");
    let c = spec_with_cors(s);
    let a1 = spec_set_header(c, "Cache-Control"@, "no-cache, no-store, must-revalidate"@);
    let a2 = spec_set_header(a1, "Pragma"@, "no-cache"@);
    lemma_first_value_set(a2, "Expires"@, "0"@, "Expires"@);
    lemma_name_neq_len("Expires"@, "Pragma"@);
    lemma_name_neq_len("Expires"@, "Cache-Control"@);
    lemma_name_neq_len("Pragma"@, "Cache-Control"@);
    lemma_first_value_set(a2, "Expires"@, "0"@, "Pragma"@);
    lemma_first_value_set(a1, "Pragma"@, "no-cache"@, "Pragma"@);
    lemma_first_value_set(a2, "Expires"@, "0"@, "Cache-Control"@);
    lemma_first_value_set(a1, "Pragma"@, "no-cache"@, "Cache-Control"@);
    lemma_first_value_set(
        c,
        "Cache-Control"@,
        "no-cache, no-store, must-revalidate"@,
        "Cache-Control"@,
    );
}

/// Law: a forwarded request reaches the backend with the upstream's `Host`
/// replaced by the backend hostname, and with the inbound `User-Agent`
/// unchanged when one was present, the fixed default otherwise. Every name
/// other than these two keeps its first value.
pub proof fn lemma_request_rewrite(s: Seq<(Seq<char>, Seq<char>)>, b: BackendId, n: Seq<char>)
    ensures
        first_value(spec_rewrite_request(s, b), "User-Agent"@)
            == Some(spec_forward_user_agent(s)),
        first_value(spec_rewrite_request(s, b), "Host"@) == Some(spec_backend_host(b)),
        first_value(s, "User-Agent"@) matches Some(v) ==> spec_forward_user_agent(s) == v,
        first_value(s, "User-Agent"@) is None ==> spec_forward_user_agent(s)
            == spec_default_user_agent(),
        !name_eq("Host"@, n) && !name_eq("User-Agent"@, n) ==> first_value(
            spec_rewrite_request(s, b),
            n,
        ) == first_value(s, n),
{
    reveal_strlit("Host");
    reveal_strlit("User-Agent");
    let s1 = spec_set_header(s, "Host"@, spec_backend_host(b));
    lemma_first_value_set(s1, "User-Agent"@, spec_forward_user_agent(s), "User-Agent"@);
    lemma_name_neq_len("User-Agent"@, "Host"@);
    lemma_first_value_set(s1, "User-Agent"@, spec_forward_user_agent(s), "Host"@);
    lemma_first_value_set(s, "Host"@, spec_backend_host(b), "Host"@);
    if !name_eq("Host"@, n) && !name_eq("User-Agent"@, n) {
        lemma_first_value_set(s1, "User-Agent"@, spec_forward_user_agent(s), n);
        lemma_first_value_set(s, "Host"@, spec_backend_host(b), n);
    }
}

/// Law: response rewriting touches only the four CORS names and the three
/// cache names; any other name keeps its first value from the upstream
/// reply.
pub proof fn lemma_response_rewrite_preserves_name(
    s: Seq<(Seq<char>, Seq<char>)>,
    b: BackendId,
    n: Seq<char>,
)
    requires
        !name_eq("Access-Control-Allow-Origin"@, n),
        !name_eq("Access-Control-Allow-Methods"@, n),
        !name_eq("Access-Control-Allow-Headers"@, n),
        !name_eq("Access-Control-Max-Age"@, n),
        !name_eq("Cache-Control"@, n),
        !name_eq("Pragma"@, n),
        !name_eq("Expires"@, n),
    ensures
        first_value(spec_with_cache(spec_with_cors(s), b), n) == first_value(s, n),
{
    let c = spec_with_cors(s);
    lemma_cors_preserves_name(s, n);
    match b {
        BackendId::Sdk => {
            lemma_first_value_set(c, "Cache-Control"@, "public, max-age=3600"@, n);
        },
        BackendId::Api => {
            let a1 = spec_set_header(c, "Cache-Control"@, "no-cache, no-store, must-revalidate"@);
            let a2 = spec_set_header(a1, "Pragma"@, "no-cache"@);
            lemma_first_value_set(c, "Cache-Control"@, "no-cache, no-store, must-revalidate"@, n);
            lemma_first_value_set(a1, "Pragma"@, "no-cache"@, n);
            lemma_first_value_set(a2, "Expires"@, "0"@, n);
        },
    }
}

} // verus!
