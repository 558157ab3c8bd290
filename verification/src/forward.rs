//! The forwarder's per-request step, up to the upstream dispatch.

use vstd::prelude::*;
use crate::ingress::IngressRequest;
use crate::relay::IngressResponse;
use crate::route::is_forward;
use crate::route::route_request;
use crate::summary::request_summary;
use crate::summary::summary_of;
use crate::upstream::UpstreamRequest;
use crate::upstream::is_synthesized;
use crate::upstream::upstream_request;

verus! {

/// What the forwarder does with one ingress request: dispatch the
/// synthesized upstream call after logging the summary, or answer
/// not-found at once. A rejected request carries no upstream request,
/// so no upstream call can be issued for it.
pub enum ForwardStep {
    Dispatch { summary: String, upstream: UpstreamRequest },
    Reject { response: IngressResponse },
}

/// Decide the step for one ingress request. Exactly the requests
/// `GET /` are dispatched, with the request summary to log first and
/// an upstream request synthesized afresh — its method, URL and both
/// headers are fixed, whatever the ingress request held. Every other
/// request is rejected with status 404 and an empty body.
pub fn handle_ingress(req: &IngressRequest) -> (step: ForwardStep)
    ensures
        match step {
            ForwardStep::Dispatch { summary, upstream } => {
                &&& is_forward(req.method@, req.path@)
                &&& summary@ == summary_of(*req)
                &&& is_synthesized(upstream)
            },
            ForwardStep::Reject { response } => {
                &&& !is_forward(req.method@, req.path@)
                &&& response.status == 404
                &&& response.body@ == Seq::<u8>::empty()
            },
        },
{
    if route_request(req) {
        let summary = request_summary(req);
        let upstream = upstream_request();
        ForwardStep::Dispatch { summary, upstream }
    } else {
        ForwardStep::Reject { response: IngressResponse { status: 404, body: Vec::new() } }
    }
}

} // verus!
