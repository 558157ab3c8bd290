//! The five-line request summary: the backend's echo body, and the
//! forwarder's per-request log record.

use vstd::prelude::*;
use vstd::string::StringExecFns;
use crate::ingress::IngressRequest;

verus! {

/// How a header value is rendered in the summary: quoted when the
/// client sent it, the diagnostic `missing` when it did not.
pub open spec fn header_field(v: Option<Seq<char>>) -> Seq<char> {
    match v {
        Some(s) => "\""@ + s + "\""@,
        None => "missing"@,
    }
}

/// The view of an optional header value.
pub open spec fn opt_view(v: Option<String>) -> Option<Seq<char>> {
    match v {
        Some(s) => Some(s@),
        None => None,
    }
}

/// The summary of one request: five lines, each ended by a newline —
/// the peer address, the request line, and the `Host`, `User-Agent`
/// and `Accept` headers.
pub open spec fn summary_spec(
    peer: Seq<char>,
    method: Seq<char>,
    path: Seq<char>,
    version: Seq<char>,
    host: Option<Seq<char>>,
    user_agent: Option<Seq<char>>,
    accept: Option<Seq<char>>,
) -> Seq<char> {
    "Received request from "@ + peer + "\n"@ + method + " "@ + path + " "@ + version + "\n"@
        + "Host: "@ + header_field(host) + "\n"@ + "User-Agent: "@ + header_field(user_agent)
        + "\n"@ + "Accept: "@ + header_field(accept) + "\n"@
}

/// The summary of a whole ingress request.
pub open spec fn summary_of(req: IngressRequest) -> Seq<char> {
    summary_spec(
        req.peer@,
        req.method@,
        req.path@,
        req.version@,
        opt_view(req.host),
        opt_view(req.user_agent),
        opt_view(req.accept),
    )
}

/// Append one header line: the header's name and colon, then its
/// rendered value, then a newline.
fn append_header_line(s: &mut String, name: &str, v: &Option<String>)
    ensures
        final(s)@ == old(s)@ + name@ + header_field(opt_view(*v)) + "\n"@,
{
    s.append(name);
    match v {
        Some(val) => {
            s.append("\"");
            s.append(val.as_str());
            s.append("\"");
        },
        None => {
            s.append("missing");
        },
    }
    s.append("\n");
    proof {
        assert(s@ =~= old(s)@ + name@ + header_field(opt_view(*v)) + "\n"@);
    }
}

/// Render the five-line summary of a request.
pub fn request_summary(req: &IngressRequest) -> (s: String)
    ensures
        s@ == summary_of(*req),
{
    let mut s = String::from_str("Received request from ");
    s.append(req.peer.as_str());
    s.append("\n");
    s.append(req.method.as_str());
    s.append(" ");
    s.append(req.path.as_str());
    s.append(" ");
    s.append(req.version.as_str());
    s.append("\n");
    append_header_line(&mut s, "Host: ", &req.host);
    append_header_line(&mut s, "User-Agent: ", &req.user_agent);
    append_header_line(&mut s, "Accept: ", &req.accept);
    proof {
        assert(s@ =~= summary_of(*req));
    }
    s
}

} // verus!
