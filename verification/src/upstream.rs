//! The upstream request the forwarder synthesizes.

use vstd::prelude::*;
use vstd::string::StringExecFns;

verus! {

/// The outbound call to the backend. It is synthesized anew for every
/// forwarded request; nothing of the ingress request flows into it.
pub struct UpstreamRequest {
    pub method: String,
    pub url: String,
    pub user_agent: String,
    pub accept: String,
}

/// The scheme prepended to the upstream authority.
pub open spec fn upstream_scheme() -> Seq<char> {
    "http://"@
}

/// The fixed upstream authority the forwarder dispatches to.
pub open spec fn upstream_authority() -> Seq<char> {
    "localhost:8081"@
}

/// The full upstream URL: the scheme followed by the authority.
pub open spec fn upstream_url() -> Seq<char> {
    upstream_scheme() + upstream_authority()
}

/// The `User-Agent` header every upstream request carries.
pub open spec fn upstream_user_agent() -> Seq<char> {
    "awc/3.0"@
}

/// The `Accept` header every upstream request carries.
pub open spec fn upstream_accept() -> Seq<char> {
    "*/*"@
}

/// A request is synthesized when it is the fixed `GET` to the fixed
/// URL with exactly the two fixed headers, independent of any ingress
/// value.
pub open spec fn is_synthesized(r: UpstreamRequest) -> bool {
    &&& r.method@ == "GET"@
    &&& r.url@ == upstream_url()
    &&& r.user_agent@ == upstream_user_agent()
    &&& r.accept@ == upstream_accept()
}

/// Build the one upstream request the forwarder ever issues.
pub fn upstream_request() -> (r: UpstreamRequest)
    ensures
        is_synthesized(r),
{
    let mut url = String::from_str("http://");
    url.append("localhost:8081");
    UpstreamRequest {
        method: String::from_str("GET"),
        url,
        user_agent: String::from_str("awc/3.0"),
        accept: String::from_str("*/*"),
    }
}

} // verus!
