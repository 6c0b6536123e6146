//! The routing decision: classify a request by HTTP method and path prefix,
//! and pick a backend or reject the request.
//!
//! Matching is case-sensitive on the literal prefix string: `/api` does not
//! match the `/api/` rule. Prefixes are tried in a fixed order, first match
//! wins (the configured prefixes cannot both match one path).

use vstd::prelude::*;

verus! {

/// An HTTP request method. Methods outside the handled set are collapsed
/// into the variants below; `Other` stands for any extension method.
#[derive(Clone, Copy, PartialEq, Eq, Structural, Debug)]
pub enum Method {
    Get,
    Post,
    Put,
    Delete,
    Patch,
    Options,
    Head,
    Trace,
    Connect,
    Other,
}

/// A named upstream service. The set is closed and the identifier-to-host
/// table below is immutable.
#[derive(Clone, Copy, PartialEq, Eq, Structural, Debug)]
pub enum BackendId {
    Api,
    Sdk,
}

/// The three-way routing decision.
#[derive(Clone, Copy, PartialEq, Eq, Structural, Debug)]
pub enum Outcome {
    Forward(BackendId),
    NotFound,
    MethodNotAllowed,
}

/// Methods that may be forwarded to a backend.
pub open spec fn method_routable(m: Method) -> bool {
    m is Get || m is Post || m is Put || m is Delete || m is Patch
}

/// Methods the router accepts at all: the routable ones plus `OPTIONS`,
/// which is answered locally by the preflight response.
pub open spec fn method_handled(m: Method) -> bool {
    method_routable(m) || m is Options
}

pub open spec fn prefix_api() -> Seq<char> {
    "/api/"@
}

pub open spec fn prefix_sdk() -> Seq<char> {
    "/sdk/"@
}

/// Hostname of each backend, from the static lookup table.
pub open spec fn spec_backend_host(b: BackendId) -> Seq<char> {
    match b {
        BackendId::Api => "api.privacy-center.org"@,
        BackendId::Sdk => "sdk.privacy-center.org"@,
    }
}

/// Symbolic name of each backend.
pub open spec fn spec_backend_name(b: BackendId) -> Seq<char> {
    match b {
        BackendId::Api => "api"@,
        BackendId::Sdk => "sdk"@,
    }
}

/// The routing decision as a pure function of method and path.
pub open spec fn route_spec(m: Method, path: Seq<char>) -> Outcome {
    if !method_handled(m) {
        Outcome::MethodNotAllowed
    } else if prefix_api().is_prefix_of(path) {
        Outcome::Forward(BackendId::Api)
    } else if prefix_sdk().is_prefix_of(path) {
        Outcome::Forward(BackendId::Sdk)
    } else {
        Outcome::NotFound
    }
}

/// Whether `prefix` is a literal prefix of `s` (char for char, no
/// normalization).
pub fn str_starts_with(s: &str, prefix: &str) -> (r: bool)
    ensures
        r == prefix@.is_prefix_of(s@),
{
    let plen = prefix.unicode_len();
    let slen = s.unicode_len();
    if plen > slen {
        return false;
    }
    let mut i: usize = 0;
    while i < plen
        invariant
            plen == prefix@.len(),
            slen == s@.len(),
            plen <= slen,
            i <= plen,
            forall|j: int| 0 <= j < i ==> s@[j] == prefix@[j],
        decreases plen - i,
    {
        if s.get_char(i) != prefix.get_char(i) {
            assert(s@.subrange(0, plen as int)[i as int] != prefix@[i as int]);
            return false;
        }
        i += 1;
    }
    assert(prefix@ =~= s@.subrange(0, prefix@.len() as int));
    true
}

/// Route one request: returns exactly `route_spec` of the method and path.
pub fn route(m: Method, path: &str) -> (r: Outcome)
    ensures
        r == route_spec(m, path@),
{
    match m {
        Method::Get | Method::Post | Method::Put | Method::Delete | Method::Patch
        | Method::Options => {
            if str_starts_with(path, "/api/") {
                Outcome::Forward(BackendId::Api)
            } else if str_starts_with(path, "/sdk/") {
                Outcome::Forward(BackendId::Sdk)
            } else {
                Outcome::NotFound
            }
        },
        _ => Outcome::MethodNotAllowed,
    }
}

/// Hostname of a backend, as a value.
pub fn backend_host(b: &BackendId) -> (r: String)
    ensures
        r@ == spec_backend_host(*b),
{
    match b {
        BackendId::Api => "api.privacy-center.org".to_owned(),
        BackendId::Sdk => "sdk.privacy-center.org".to_owned(),
    }
}

/// Symbolic name of a backend, as a value.
pub fn backend_name(b: &BackendId) -> (r: String)
    ensures
        r@ == spec_backend_name(*b),
{
    match b {
        BackendId::Api => "api".to_owned(),
        BackendId::Sdk => "sdk".to_owned(),
    }
}

/// The two configured prefixes never match the same path: they differ at
/// the second character.
pub proof fn lemma_prefixes_disjoint(path: Seq<char>)
    ensures
        !(prefix_api().is_prefix_of(path) && prefix_sdk().is_prefix_of(path)),
{
    reveal_strlit("/api/");
    reveal_strlit("/sdk/");
    if prefix_api().is_prefix_of(path) && prefix_sdk().is_prefix_of(path) {
        assert(path.subrange(0, 5)[1] == path[1]);
        assert(prefix_api()[1] == 'a');
        assert(prefix_sdk()[1] == 's');
        assert(path[1] == 'a');
        assert(path[1] == 's');
    }
}

/// Law: a routable method with a path under `/api/` always forwards to the
/// api backend.
pub proof fn lemma_route_api(m: Method, path: Seq<char>)
    requires
        method_routable(m),
        prefix_api().is_prefix_of(path),
    ensures
        route_spec(m, path) == Outcome::Forward(BackendId::Api),
{
}

/// Law: a routable method with a path under `/sdk/` always forwards to the
/// sdk backend.
pub proof fn lemma_route_sdk(m: Method, path: Seq<char>)
    requires
        method_routable(m),
        prefix_sdk().is_prefix_of(path),
    ensures
        route_spec(m, path) == Outcome::Forward(BackendId::Sdk),
{
    lemma_prefixes_disjoint(path);
}

/// Law: a handled method with a path under neither prefix yields `NotFound`.
pub proof fn lemma_route_not_found(m: Method, path: Seq<char>)
    requires
        method_handled(m),
        !prefix_api().is_prefix_of(path),
        !prefix_sdk().is_prefix_of(path),
    ensures
        route_spec(m, path) == Outcome::NotFound,
{
}

/// Law: a method outside the handled set yields `MethodNotAllowed`,
/// whatever the path.
pub proof fn lemma_route_method_not_allowed(m: Method, path: Seq<char>)
    requires
        !method_handled(m),
    ensures
        route_spec(m, path) == Outcome::MethodNotAllowed,
{
}

/// Law: routing is stateless. Any two outcomes obtained for the same method
/// and path are equal; `route` ensures each call returns `route_spec`.
pub proof fn lemma_route_deterministic(m: Method, path: Seq<char>, o1: Outcome, o2: Outcome)
    requires
        o1 == route_spec(m, path),
        o2 == route_spec(m, path),
    ensures
        o1 == o2,
{
}

} // verus!
