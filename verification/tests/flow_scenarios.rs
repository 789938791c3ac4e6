use loopback_oauth::errors::FlowError;
use loopback_oauth::flow::{Flow, FlowOutcome, FlowStage};
use loopback_oauth::secrets::{ClientCredentials, CsrfState};
use loopback_oauth::authurl::ProviderEndpoints;

fn credentials() -> ClientCredentials {
    ClientCredentials::new("client-id-123".to_string(), "client-secret-456".to_string())
}

fn endpoints() -> ProviderEndpoints {
    ProviderEndpoints::new(
        "https://github.com/login/oauth/authorize".to_string(),
        "https://github.com/login/oauth/access_token".to_string(),
    )
}

fn scopes() -> Vec<String> {
    vec!["public_repo".to_string(), "user:email".to_string()]
}

fn started_flow() -> (Flow, String) {
    Flow::start(
        credentials(),
        endpoints(),
        "http://localhost:8080".to_string(),
        scopes(),
    )
    .ok()
    .expect("a well-formed configuration must start")
}

fn awaiting_flow() -> (Flow, String) {
    let (flow, url) = started_flow();
    let (flow, bound) = flow.on_listener_bound();
    assert!(bound);
    (flow, url)
}

#[test]
fn fresh_states_are_distinct() {
    let mut seen: Vec<String> = Vec::new();
    for _ in 0..64 {
        let s = CsrfState::new_random();
        let v = s.reveal_value().clone();
        assert_eq!(v.len(), 22);
        assert!(
            v.chars().all(|c| c.is_ascii_alphanumeric() || c == '-' || c == '_'),
            "a generated state held a character outside the URL-safe alphabet"
        );
        assert!(!seen.contains(&v), "two generated states were equal");
        seen.push(v);
    }
}

#[test]
fn fresh_flows_embed_distinct_states() {
    let (flow_a, _) = started_flow();
    let (flow_b, _) = started_flow();
    assert_ne!(
        flow_a.request.state.reveal_value(),
        flow_b.request.state.reveal_value()
    );
}

#[test]
fn matching_state_and_stub_token_succeed() {
    let (flow, _url) = awaiting_flow();
    let state = flow.request.state.reveal_value().clone();
    let line = format!("GET /?code=goodcode&state={} HTTP/1.1\r\n", state);
    let (flow, consumed) = flow.on_redirect_line(&line);
    assert!(consumed);
    let (flow, valid) = flow.validate_state();
    assert!(valid);
    let (flow, code) = flow.begin_exchange();
    assert_eq!(code.as_deref(), Some("goodcode"));
    let (flow, accepted) = flow.on_exchange_ok(
        "abc123".to_string(),
        "bearer".to_string(),
        vec!["public_repo".to_string()],
    );
    assert!(accepted);
    match flow.take_outcome() {
        Some(FlowOutcome::Success(token)) => {
            assert_eq!(token.reveal_secret().as_str(), "abc123");
            assert_eq!(token.token_type().as_str(), "bearer");
            assert_eq!(token.granted_scopes(), &vec!["public_repo".to_string()]);
        }
        _ => panic!("the flow must succeed"),
    }
}

#[test]
fn mismatched_state_fails_without_exchange() {
    let (flow, _url) = awaiting_flow();
    let line = "GET /?code=stolencode&state=forgedstate HTTP/1.1\r\n";
    let (flow, consumed) = flow.on_redirect_line(line);
    assert!(consumed);
    let (flow, valid) = flow.validate_state();
    assert!(!valid);
    // The exchange must never be invoked: no code is handed out.
    let (flow, code) = flow.begin_exchange();
    assert!(code.is_none());
    match flow.take_outcome() {
        Some(FlowOutcome::Failure(FlowError::CsrfMismatchError)) => {}
        _ => panic!("the flow must fail with a csrf mismatch"),
    }
}

#[test]
fn missing_code_fails_before_exchange() {
    let (flow, _url) = awaiting_flow();
    let state = flow.request.state.reveal_value().clone();
    let line = format!("GET /?state={} HTTP/1.1\r\n", state);
    let (flow, consumed) = flow.on_redirect_line(&line);
    assert!(consumed);
    let (flow, code) = flow.begin_exchange();
    assert!(code.is_none());
    match flow.take_outcome() {
        Some(FlowOutcome::Failure(FlowError::MalformedRedirectError)) => {}
        _ => panic!("a redirect without a code is malformed"),
    }
}

#[test]
fn missing_state_fails_before_exchange() {
    let (flow, _url) = awaiting_flow();
    let line = "GET /?code=onlyacode HTTP/1.1\r\n";
    let (flow, consumed) = flow.on_redirect_line(line);
    assert!(consumed);
    let (flow, code) = flow.begin_exchange();
    assert!(code.is_none());
    match flow.take_outcome() {
        Some(FlowOutcome::Failure(FlowError::MalformedRedirectError)) => {}
        _ => panic!("a redirect without a state is malformed"),
    }
}

#[test]
fn garbage_request_line_is_malformed() {
    let (flow, _url) = awaiting_flow();
    let (flow, consumed) = flow.on_redirect_line("\r\n");
    assert!(consumed);
    match flow.take_outcome() {
        Some(FlowOutcome::Failure(FlowError::MalformedRedirectError)) => {}
        _ => panic!("an empty request line is malformed"),
    }
}

#[test]
fn exchange_error_carries_provider_diagnostic_only() {
    let (flow, _url) = awaiting_flow();
    let state = flow.request.state.reveal_value().clone();
    let line = format!("GET /?code=secretcode&state={} HTTP/1.1\r\n", state);
    let (flow, _) = flow.on_redirect_line(&line);
    let (flow, valid) = flow.validate_state();
    assert!(valid);
    let (flow, code) = flow.begin_exchange();
    assert_eq!(code.as_deref(), Some("secretcode"));
    let flow = flow.on_exchange_err("HTTP status 400: bad_verification_code".to_string());
    match flow.take_outcome() {
        Some(FlowOutcome::Failure(err)) => {
            match &err {
                FlowError::TokenExchangeFailed(d) => {
                    assert_eq!(d.as_str(), "HTTP status 400: bad_verification_code");
                }
                _ => panic!("the failure must be a token exchange failure"),
            }
            let shown = err.describe();
            assert_eq!(shown, "token exchange failed: HTTP status 400: bad_verification_code");
            assert!(!shown.contains("secretcode"), "the code must not leak");
        }
        _ => panic!("the flow must fail"),
    }
}

#[test]
fn second_redirect_line_is_not_consumed() {
    let (flow, _url) = awaiting_flow();
    let state = flow.request.state.reveal_value().clone();
    let first = format!("GET /?code=first&state={} HTTP/1.1\r\n", state);
    let (flow, consumed_first) = flow.on_redirect_line(&first);
    assert!(consumed_first);
    let second = format!("GET /?code=second&state={} HTTP/1.1\r\n", state);
    let (flow, consumed_second) = flow.on_redirect_line(&second);
    assert!(!consumed_second, "only the first connection may be read");
    match &flow.stage {
        FlowStage::RedirectReceived(rr) => assert_eq!(rr.code, "first"),
        _ => panic!("the first redirect must still be held"),
    }
}

#[test]
fn malformed_endpoint_is_a_configuration_error() {
    let result = Flow::start(
        credentials(),
        ProviderEndpoints::new("not a url".to_string(), "also not a url".to_string()),
        "http://localhost:8080".to_string(),
        scopes(),
    );
    match result {
        Err(FlowError::ConfigurationError) => {}
        _ => panic!("a malformed endpoint must fail fast"),
    }
}

#[test]
fn malformed_redirect_uri_is_a_configuration_error() {
    let result = Flow::start(
        credentials(),
        endpoints(),
        "::::".to_string(),
        scopes(),
    );
    match result {
        Err(FlowError::ConfigurationError) => {}
        _ => panic!("a malformed redirect URI must fail fast"),
    }
}

#[test]
fn bind_failure_ends_the_flow() {
    let (flow, _url) = started_flow();
    let flow = flow.on_bind_failed();
    match flow.take_outcome() {
        Some(FlowOutcome::Failure(FlowError::ListenerBindError)) => {}
        _ => panic!("a bind failure is fatal for the flow"),
    }
}

#[test]
fn accept_failure_ends_the_flow() {
    let (flow, _url) = awaiting_flow();
    let flow = flow.on_accept_failed();
    match flow.take_outcome() {
        Some(FlowOutcome::Failure(FlowError::ListenerAcceptError)) => {}
        _ => panic!("an accept failure is fatal for the flow"),
    }
}

#[test]
fn timeout_ends_the_flow() {
    let (flow, _url) = awaiting_flow();
    let flow = flow.on_timeout();
    match flow.take_outcome() {
        Some(FlowOutcome::Failure(FlowError::TimeoutError)) => {}
        _ => panic!("an expired deadline is fatal for the flow"),
    }
}

#[test]
fn events_out_of_order_change_nothing() {
    let (flow, _url) = started_flow();
    // Not yet awaiting a redirect: these events must be ignored.
    let (flow, consumed) = flow.on_redirect_line("GET /?code=a&state=b HTTP/1.1\r\n");
    assert!(!consumed);
    let (flow, valid) = flow.validate_state();
    assert!(!valid);
    let (flow, code) = flow.begin_exchange();
    assert!(code.is_none());
    let (flow, accepted) =
        flow.on_exchange_ok("x".to_string(), "bearer".to_string(), Vec::new());
    assert!(!accepted);
    assert!(matches!(flow.stage, FlowStage::BuiltAuthorizationUrl));
    assert!(flow.take_outcome().is_none());
}

#[test]
fn error_descriptions_name_the_stage() {
    assert_eq!(
        FlowError::ConfigurationError.describe(),
        "configuration error: malformed endpoint or redirect URL"
    );
    assert_eq!(
        FlowError::ListenerBindError.describe(),
        "listener error: could not bind the loopback address"
    );
    assert_eq!(
        FlowError::ListenerAcceptError.describe(),
        "listener error: could not accept the redirect connection"
    );
    assert_eq!(
        FlowError::MalformedRedirectError.describe(),
        "malformed redirect: request line or code/state parameter missing"
    );
    assert_eq!(
        FlowError::CsrfMismatchError.describe(),
        "csrf mismatch: the redirect state does not equal the generated state"
    );
    assert_eq!(
        FlowError::TimeoutError.describe(),
        "timed out awaiting the redirect"
    );
    assert_eq!(
        FlowError::ResourceRequestFailed("HTTP status 500".to_string()).describe(),
        "resource request failed: HTTP status 500"
    );
}
