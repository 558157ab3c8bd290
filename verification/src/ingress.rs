//! The ingress request, reduced to the values the logic reads.

use vstd::prelude::*;

verus! {

/// One inbound HTTP request as the forwarder and the backend see it:
/// the peer address (empty when unknown), the request line, and the
/// three headers the echo summary reports. A header a client omitted
/// is `None`.
pub struct IngressRequest {
    pub peer: String,
    pub method: String,
    pub path: String,
    pub version: String,
    pub host: Option<String>,
    pub user_agent: Option<String>,
    pub accept: Option<String>,
}

} // verus!
