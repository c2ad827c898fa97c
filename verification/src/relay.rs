//! The relay rule: what each outcome of the outbound fetch turns into.
//!
//! The upstream's own status code is deliberately never inspected: a 404
//! or 500 from upstream is still relayed as a local 200 with whatever
//! body came back. A body that could not be read after the headers
//! arrived is silently captured as empty — best-effort body capture —
//! rather than surfaced as an error. Only a transport-level failure of
//! the request itself becomes a 502.

use vstd::prelude::*;

use crate::response::{HttpResponse, ResponseModel};

verus! {

/// The outcome of the one outbound GET, as plain values: either the
/// upstream replied (with its status code, and the body bytes if the
/// body could be read in full), or the request itself failed at the
/// transport level (DNS, connect, TLS, timeout).
pub enum FetchOutcome {
    Reply { status: u16, body: Option<Vec<u8>> },
    TransportFailure,
}

/// The model of a fetch outcome.
pub enum OutcomeModel {
    Reply { status: int, body: Option<Seq<u8>> },
    TransportFailure,
}

impl View for FetchOutcome {
    type V = OutcomeModel;

    open spec fn view(&self) -> OutcomeModel {
        match self {
            FetchOutcome::Reply { status, body } => OutcomeModel::Reply {
                status: *status as int,
                body: match body {
                    Option::Some(bytes) => Option::Some(bytes@),
                    Option::None => Option::None,
                },
            },
            FetchOutcome::TransportFailure => OutcomeModel::TransportFailure,
        }
    }
}

/// Best-effort body capture: a body that could not be read counts as
/// empty, not as an error.
pub open spec fn best_effort_body(body: Option<Seq<u8>>) -> Seq<u8> {
    match body {
        Option::Some(bytes) => bytes,
        Option::None => Seq::empty(),
    }
}

/// The response when the upstream replied: always 200, the captured
/// body unchanged, and the two fixed headers.
pub open spec fn relay_success_model(body: Seq<u8>) -> ResponseModel {
    ResponseModel {
        status: 200,
        content_type: Option::Some("text/xml"@),
        allow_origin: Option::Some("*"@),
        body,
    }
}

/// The response when the outbound request failed: 502, empty body, no
/// headers.
pub open spec fn relay_failure_model() -> ResponseModel {
    ResponseModel {
        status: 502,
        content_type: Option::None,
        allow_origin: Option::None,
        body: Seq::empty(),
    }
}

/// The whole relay rule, one outcome to one response. The upstream
/// status code does not appear on the right-hand side: it is ignored.
pub open spec fn spec_relay_response(outcome: OutcomeModel) -> ResponseModel {
    match outcome {
        OutcomeModel::Reply { body, .. } => relay_success_model(best_effort_body(body)),
        OutcomeModel::TransportFailure => relay_failure_model(),
    }
}

/// Turn one fetch outcome into the response the caller gets. The result
/// is exactly `spec_relay_response` of the outcome.
pub fn relay_response(outcome: FetchOutcome) -> (r: HttpResponse)
    ensures
        r@ == spec_relay_response(outcome@),
{
    match outcome {
        FetchOutcome::Reply { status: _, body } => {
            let captured: Vec<u8> = match body {
                Option::Some(bytes) => bytes,
                Option::None => Vec::new(),
            };
            HttpResponse {
                status: 200,
                content_type: Option::Some("text/xml".to_owned()),
                allow_origin: Option::Some("*".to_owned()),
                body: captured,
            }
        }
        FetchOutcome::TransportFailure => HttpResponse {
            status: 502,
            content_type: Option::None,
            allow_origin: Option::None,
            body: Vec::new(),
        },
    }
}

/// Whatever status code the upstream returned, a readable body is
/// relayed unchanged: the response is 200, carries exactly that body,
/// and both fixed headers.
pub proof fn lemma_readable_body_relayed(status: int, body: Seq<u8>)
    ensures
        spec_relay_response(OutcomeModel::Reply { status, body: Option::Some(body) })
            == relay_success_model(body),
        relay_success_model(body).status == 200,
        relay_success_model(body).body == body,
        relay_success_model(body).content_type == Option::Some("text/xml"@),
        relay_success_model(body).allow_origin == Option::Some("*"@),
{
}

/// The upstream status code never influences the relayed response: two
/// replies that differ only in status relay identically.
pub proof fn lemma_upstream_status_ignored(status_a: int, status_b: int, body: Option<Seq<u8>>)
    ensures
        spec_relay_response(OutcomeModel::Reply { status: status_a, body })
            == spec_relay_response(OutcomeModel::Reply { status: status_b, body }),
{
}

/// A transport-level failure of the outbound request is always answered
/// with 502, an empty body, and neither of the relay's headers.
pub proof fn lemma_transport_failure_is_bad_gateway()
    ensures
        spec_relay_response(OutcomeModel::TransportFailure).status == 502,
        spec_relay_response(OutcomeModel::TransportFailure).body == Seq::<u8>::empty(),
        spec_relay_response(OutcomeModel::TransportFailure).content_type is None,
        spec_relay_response(OutcomeModel::TransportFailure).allow_origin is None,
{
}

} // verus!
