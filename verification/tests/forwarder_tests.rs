use forwarder::forward::ForwardStep;
use forwarder::forward::handle_ingress;
use forwarder::ingress::IngressRequest;
use forwarder::relay::UpstreamOutcome;
use forwarder::relay::relay_response;
use forwarder::startup::env_file_name;
use forwarder::startup::log_directive;
use forwarder::startup::startup_address;
use forwarder::summary::request_summary;
use forwarder::text::str_eq;
use forwarder::upstream::upstream_request;
use forwarder::MessageResponse;

fn request(method: &str, path: &str) -> IngressRequest {
    IngressRequest {
        peer: String::from("127.0.0.1:9999"),
        method: String::from(method),
        path: String::from(path),
        version: String::from("HTTP/1.1"),
        host: Some(String::from("localhost:8080")),
        user_agent: Some(String::from("curl/8.0")),
        accept: Some(String::from("*/*")),
    }
}

#[test]
fn s1_get_root_dispatches_and_relays_body() {
    let step = handle_ingress(&request("GET", "/"));
    match step {
        ForwardStep::Dispatch { upstream, .. } => {
            assert_eq!(upstream.method, "GET");
            assert_eq!(upstream.url, "http://localhost:8081");
        }
        ForwardStep::Reject { .. } => panic!("GET / must reach the forward path"),
    }
    let reply = relay_response(UpstreamOutcome::BodyRead(b"hello".to_vec()));
    assert_eq!(reply.status, 200);
    assert_eq!(reply.body, b"hello".to_vec());
}

#[test]
fn s2_failed_dispatch_answers_500_with_empty_body() {
    let reply = relay_response(UpstreamOutcome::DispatchFailed);
    assert_eq!(reply.status, 500);
    assert!(reply.body.is_empty());
}

#[test]
fn s3_post_is_rejected_without_dispatch() {
    let step = handle_ingress(&request("POST", "/"));
    match step {
        ForwardStep::Dispatch { .. } => panic!("POST must not reach the forward path"),
        ForwardStep::Reject { response } => {
            assert_eq!(response.status, 404);
            assert!(response.body.is_empty());
        }
    }
}

#[test]
fn s4_other_path_is_rejected_without_dispatch() {
    let step = handle_ingress(&request("GET", "/other"));
    match step {
        ForwardStep::Dispatch { .. } => panic!("GET /other must not reach the forward path"),
        ForwardStep::Reject { response } => {
            assert_eq!(response.status, 404);
            assert!(response.body.is_empty());
        }
    }
}

#[test]
fn s5_upstream_error_body_is_still_relayed_as_200() {
    // The upstream status is never inspected: a body that was read in
    // full is relayed with status 200, even if the upstream said 500.
    let reply = relay_response(UpstreamOutcome::BodyRead(b"oops".to_vec()));
    assert_eq!(reply.status, 200);
    assert_eq!(reply.body, b"oops".to_vec());
}

#[test]
fn s6_missing_listener_variable_is_fatal_and_named() {
    let decision = startup_address("LB_SERVER_HOST", None);
    match decision {
        Ok(_) => panic!("startup must fail without the listener variable"),
        Err(diagnostic) => {
            assert!(diagnostic.contains("LB_SERVER_HOST"));
            assert_eq!(diagnostic, "Missed 'LB_SERVER_HOST' environment variable");
        }
    }
}

#[test]
fn pass_through_keeps_arbitrary_bytes() {
    let body: Vec<u8> = (0u16..=255u16).map(|b| b as u8).collect();
    let reply = relay_response(UpstreamOutcome::BodyRead(body.clone()));
    assert_eq!(reply.status, 200);
    assert_eq!(reply.body, body);
}

#[test]
fn upstream_request_is_fixed() {
    let up = upstream_request();
    assert_eq!(up.method, "GET");
    assert_eq!(up.url, "http://localhost:8081");
    assert_eq!(up.user_agent, "awc/3.0");
    assert_eq!(up.accept, "*/*");
}

#[test]
fn upstream_headers_ignore_ingress_headers() {
    let mut req = request("GET", "/");
    req.host = Some(String::from("evil.example"));
    req.user_agent = Some(String::from("bot/0.1"));
    req.accept = Some(String::from("text/html"));
    match handle_ingress(&req) {
        ForwardStep::Dispatch { upstream, .. } => {
            assert_eq!(upstream.user_agent, "awc/3.0");
            assert_eq!(upstream.accept, "*/*");
            assert_eq!(upstream.url, "http://localhost:8081");
            assert_eq!(upstream.method, "GET");
        }
        ForwardStep::Reject { .. } => panic!("GET / must reach the forward path"),
    }
}

#[test]
fn summary_has_five_exact_lines() {
    let summary = request_summary(&request("GET", "/"));
    assert_eq!(
        summary,
        "Received request from 127.0.0.1:9999\n\
         GET / HTTP/1.1\n\
         Host: \"localhost:8080\"\n\
         User-Agent: \"curl/8.0\"\n\
         Accept: \"*/*\"\n"
    );
}

#[test]
fn summary_renders_absent_headers_as_missing() {
    let mut req = request("GET", "/");
    req.host = None;
    req.user_agent = None;
    req.accept = None;
    let summary = request_summary(&req);
    assert_eq!(
        summary,
        "Received request from 127.0.0.1:9999\n\
         GET / HTTP/1.1\n\
         Host: missing\n\
         User-Agent: missing\n\
         Accept: missing\n"
    );
}

#[test]
fn summary_is_logged_before_dispatch_on_the_forward_path() {
    let req = request("GET", "/");
    match handle_ingress(&req) {
        ForwardStep::Dispatch { summary, .. } => {
            assert_eq!(summary, request_summary(&req));
        }
        ForwardStep::Reject { .. } => panic!("GET / must reach the forward path"),
    }
}

#[test]
fn startup_with_value_uses_it_unchanged() {
    let decision = startup_address("LB_SERVER_HOST", Some(String::from("127.0.0.1:8080")));
    assert_eq!(decision, Ok(String::from("127.0.0.1:8080")));
}

#[test]
fn bootstrap_constants_match_the_contract() {
    assert_eq!(log_directive(), "debug, actix_web=debug");
    assert_eq!(env_file_name(), ".env");
}

#[test]
fn str_eq_agrees_with_string_equality() {
    assert!(str_eq("GET", "GET"));
    assert!(!str_eq("GET", "GE"));
    assert!(!str_eq("GET", "PUT"));
    assert!(str_eq("", ""));
    assert!(!str_eq("", "/"));
}

#[test]
fn message_response_clone_keeps_fields() {
    let original = MessageResponse {
        status: String::from("Ok"),
        message: String::from("hello"),
    };
    let copy = original.clone();
    assert_eq!(copy.status, "Ok");
    assert_eq!(copy.message, "hello");
}
