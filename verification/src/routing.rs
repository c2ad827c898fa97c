//! Which requests reach the relay, and what the others are answered with.
//!
//! Exactly one route exists: GET on the relay path. Anything else falls
//! back to a plain 404 (unknown path) or 405 (known path, wrong method),
//! with no body and none of the relay's headers.

use vstd::prelude::*;

use crate::response::{HttpResponse, ResponseModel};

verus! {

/// What the listener should do with an incoming request.
#[derive(Clone, Copy, Debug, PartialEq, Eq, Structural)]
pub enum RouteDecision {
    /// GET on the relay path: fetch upstream and relay the outcome.
    Relay,
    /// Any other path: answer 404.
    NotFound,
    /// The relay path with any other method: answer 405.
    MethodNotAllowed,
}

/// The routing rule: the relay path with GET is relayed, the relay path
/// with any other method is refused 405, and every other path is 404.
pub open spec fn spec_route(method: Seq<char>, path: Seq<char>) -> RouteDecision {
    if path != "/dhmz"@ {
        RouteDecision::NotFound
    } else if method != "GET"@ {
        RouteDecision::MethodNotAllowed
    } else {
        RouteDecision::Relay
    }
}

/// String equality over the views, through owned copies, since `String`
/// equality is what the standard library's specification covers.
fn str_eq(a: &str, b: &str) -> (r: bool)
    ensures
        r == (a@ == b@),
{
    let a_owned: String = a.to_owned();
    let b_owned: String = b.to_owned();
    a_owned == b_owned
}

/// Decide a request line. The decision is exactly `spec_route` on the
/// method's and path's characters.
pub fn route(method: &str, path: &str) -> (r: RouteDecision)
    ensures
        r == spec_route(method@, path@),
{
    if !str_eq(path, "/dhmz") {
        RouteDecision::NotFound
    } else if !str_eq(method, "GET") {
        RouteDecision::MethodNotAllowed
    } else {
        RouteDecision::Relay
    }
}

/// The model of the not-found fallback: 404, empty body, no headers.
pub open spec fn not_found_model() -> ResponseModel {
    ResponseModel {
        status: 404,
        content_type: Option::None,
        allow_origin: Option::None,
        body: Seq::empty(),
    }
}

/// The model of the wrong-method fallback: 405, empty body, no headers.
pub open spec fn method_not_allowed_model() -> ResponseModel {
    ResponseModel {
        status: 405,
        content_type: Option::None,
        allow_origin: Option::None,
        body: Seq::empty(),
    }
}

/// The response for a path the relay does not serve.
pub fn not_found_response() -> (r: HttpResponse)
    ensures
        r@ == not_found_model(),
{
    HttpResponse { status: 404, content_type: Option::None, allow_origin: Option::None, body: Vec::new() }
}

/// The response for the relay path with a method other than GET.
pub fn method_not_allowed_response() -> (r: HttpResponse)
    ensures
        r@ == method_not_allowed_model(),
{
    HttpResponse { status: 405, content_type: Option::None, allow_origin: Option::None, body: Vec::new() }
}

/// A request outside GET on the relay path is never relayed.
pub proof fn lemma_non_relay_request(method: Seq<char>, path: Seq<char>)
    requires
        path != "/dhmz"@ || method != "GET"@,
    ensures
        spec_route(method, path) != RouteDecision::Relay,
        spec_route(method, path) == RouteDecision::NotFound
            || spec_route(method, path) == RouteDecision::MethodNotAllowed,
{
}

/// Neither fallback response looks like the relay's: their statuses are
/// 404 and 405 — in particular neither 200 nor 502 — and neither carries
/// the relay's headers or a body.
pub proof fn lemma_fallbacks_not_relay_shaped()
    ensures
        not_found_model().status == 404,
        method_not_allowed_model().status == 405,
        not_found_model().status != 200 && not_found_model().status != 502,
        method_not_allowed_model().status != 200 && method_not_allowed_model().status != 502,
        not_found_model().content_type is None,
        not_found_model().allow_origin is None,
        not_found_model().body == Seq::<u8>::empty(),
        method_not_allowed_model().content_type is None,
        method_not_allowed_model().allow_origin is None,
        method_not_allowed_model().body == Seq::<u8>::empty(),
{
}

} // verus!
