//! Mapping an upstream dispatch outcome to the ingress response.

use vstd::prelude::*;

verus! {

/// What came of one upstream dispatch, as the forwarder sees it: either
/// the whole response body was read, or the dispatch failed somewhere
/// between connecting and reading the body. The upstream status code is
/// deliberately not part of the outcome: the forwarder never inspects it.
pub enum UpstreamOutcome {
    BodyRead(Vec<u8>),
    DispatchFailed,
}

/// A reply to the ingress client: a status code and a body.
pub struct IngressResponse {
    pub status: u16,
    pub body: Vec<u8>,
}

/// The status the forwarder answers with for a given upstream outcome.
pub open spec fn relay_status(o: UpstreamOutcome) -> u16 {
    match o {
        UpstreamOutcome::BodyRead(_) => 200,
        UpstreamOutcome::DispatchFailed => 500,
    }
}

/// The body the forwarder answers with: the upstream bytes verbatim on
/// success, empty on failure.
pub open spec fn relay_body(o: UpstreamOutcome) -> Seq<u8> {
    match o {
        UpstreamOutcome::BodyRead(b) => b@,
        UpstreamOutcome::DispatchFailed => Seq::empty(),
    }
}

/// Map an upstream outcome to the ingress response.
pub fn relay_response(o: UpstreamOutcome) -> (r: IngressResponse)
    ensures
        r.status == relay_status(o),
        r.body@ == relay_body(o),
{
    match o {
        UpstreamOutcome::BodyRead(b) => IngressResponse { status: 200, body: b },
        UpstreamOutcome::DispatchFailed => IngressResponse { status: 500, body: Vec::new() },
    }
}

/// Pass-through body equality: for every upstream body, a successful
/// dispatch is relayed with status 200 and exactly those bytes.
pub proof fn lemma_pass_through(b: Vec<u8>)
    ensures
        relay_status(UpstreamOutcome::BodyRead(b)) == 200,
        relay_body(UpstreamOutcome::BodyRead(b)) == b@,
{
}

/// Error mapping totality: every failed dispatch, whatever its cause,
/// is answered with status 500 and an empty body.
pub proof fn lemma_error_mapping(o: UpstreamOutcome)
    requires
        o is DispatchFailed,
    ensures
        relay_status(o) == 500,
        relay_body(o) == Seq::<u8>::empty(),
{
}

} // verus!
