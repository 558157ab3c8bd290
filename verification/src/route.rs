//! Routing: which requests reach the forward path.

use vstd::prelude::*;
use crate::ingress::IngressRequest;
use crate::text::str_eq;

verus! {

/// The only routed request is `GET /`; everything else falls through
/// to the not-found reply.
pub open spec fn is_forward(method: Seq<char>, path: Seq<char>) -> bool {
    method == "GET"@ && path == "/"@
}

/// Decide whether a request reaches the forward path.
pub fn route_request(req: &IngressRequest) -> (r: bool)
    ensures
        r == is_forward(req.method@, req.path@),
{
    str_eq(req.method.as_str(), "GET") && str_eq(req.path.as_str(), "/")
}

} // verus!
