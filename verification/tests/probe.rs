use ws_probe::probe::ProbeOutcome;
use ws_probe::probe::Transport;
use ws_probe::probe::dispatch;
use ws_probe::probe::settle;
use ws_probe::respond::RequestOutcome;
use ws_probe::respond::conclude;
use ws_probe::respond::handle_request;
use ws_probe::respond::render;
use ws_probe::target::validate;

#[test]
fn invalid_url_is_bad_request() {
    let reply = handle_request(Some("not-a-url")).unwrap_err();
    let detail = url::Url::parse("not-a-url").unwrap_err();
    assert_eq!(reply.code, 400);
    assert_eq!(reply.status, "failed");
    assert_eq!(reply.error, Some(format!("Invalid URL: {}", detail)));
}

#[test]
fn validate_carries_parser_message() {
    let err = validate("http://[bad").unwrap_err();
    let detail = url::Url::parse("http://[bad").unwrap_err();
    assert_eq!(err.message, format!("Invalid URL: {}", detail));
}

#[test]
fn unsupported_scheme_is_rejected_at_dispatch() {
    let addr = validate("ftp://example.com/").unwrap();
    let outcome = dispatch(&addr).unwrap_err();
    match outcome {
        ProbeOutcome::Failure { message } => assert_eq!(message, "Invalid scheme: ftp"),
        ProbeOutcome::Success => panic!("an unsupported scheme must not succeed"),
    }
}

#[test]
fn unsupported_scheme_reply_is_not_found() {
    let reply = handle_request(Some("https://example.com/")).unwrap_err();
    assert_eq!(reply.code, 404);
    assert_eq!(reply.status, "failed");
    assert_eq!(reply.error, Some("Invalid scheme: https".to_string()));
}

#[test]
fn plain_scheme_selects_plain_transport() {
    let (addr, transport) = handle_request(Some("ws://echo.example.test:80/")).unwrap();
    assert_eq!(transport, Transport::Plain);
    assert_eq!(addr.scheme().as_str(), "ws");
}

#[test]
fn secure_scheme_selects_secure_transport() {
    let (addr, transport) = handle_request(Some("wss://example.com/socket")).unwrap();
    assert_eq!(transport, Transport::Secure);
    assert_eq!(addr.scheme().as_str(), "wss");
}

#[test]
fn completed_handshake_is_success_reply() {
    let reply = conclude(Ok(()));
    assert_eq!(reply.code, 200);
    assert_eq!(reply.status, "success");
    assert_eq!(reply.error, None);
}

#[test]
fn failed_attempt_is_not_found_reply() {
    let reply = conclude(Err("Connection refused (os error 111)".to_string()));
    assert_eq!(reply.code, 404);
    assert_eq!(reply.status, "failed");
    assert_eq!(reply.error, Some("Connection refused (os error 111)".to_string()));
}

#[test]
fn handshake_rejection_is_failure() {
    // The target accepts TCP on port 80 but answers the upgrade request
    // with a plain HTTP response instead of switching protocols.
    let (_, transport) = handle_request(Some("ws://echo.example.test:80/")).unwrap();
    assert_eq!(transport, Transport::Plain);
    let outcome = settle(Err("HTTP error: 200 OK".to_string()));
    match outcome {
        ProbeOutcome::Failure { message } => assert!(message.contains("200 OK")),
        ProbeOutcome::Success => panic!("a rejected upgrade must not succeed"),
    }
}

#[test]
fn missing_param_is_bad_request() {
    let reply = handle_request(None).unwrap_err();
    assert_eq!(reply.code, 400);
    assert_eq!(reply.status, "failed");
    assert_eq!(reply.error, Some("url parameter is required".to_string()));
}

#[test]
fn settle_keeps_diagnostic_verbatim() {
    match settle(Err("name resolution failed".to_string())) {
        ProbeOutcome::Failure { message } => assert_eq!(message, "name resolution failed"),
        ProbeOutcome::Success => panic!("an error must settle as a failure"),
    }
}

#[test]
fn repeated_probe_has_same_outcome_class() {
    // Two probes of a stable target: the attempts end the same way, the
    // diagnostics need not match, the status code must.
    let first = conclude(Err("timed out after 10s".to_string()));
    let second = conclude(Err("timed out after 11s".to_string()));
    assert_eq!(first.code, second.code);
    assert_eq!(first.status, second.status);

    let ok_first = conclude(Ok(()));
    let ok_second = conclude(Ok(()));
    assert_eq!(ok_first.code, ok_second.code);
    assert_eq!(ok_first.status, ok_second.status);
}

#[test]
fn scheme_is_parsed_not_echoed() {
    // The parser lowercases the scheme, so the stored scheme differs from
    // the slice of the raw input.
    let addr = validate("WS://Example.COM/path").unwrap();
    assert_eq!(addr.scheme().as_str(), "ws");
    let (_, transport) = handle_request(Some("WS://Example.COM/path")).unwrap();
    assert_eq!(transport, Transport::Plain);
}

#[test]
fn url_is_carried_for_handshake() {
    let addr = validate("ws://host.example:1234/p?q=1").unwrap();
    let direct = url::Url::parse("ws://host.example:1234/p?q=1").unwrap();
    assert_eq!(addr.url().as_str(), direct.as_str());
}

#[test]
fn render_covers_every_outcome() {
    let missing = render(RequestOutcome::MissingParam);
    assert_eq!(
        (missing.code, missing.status.as_str()),
        (400, "failed"),
    );

    let bad = render(RequestOutcome::BadAddress(validate(":::").unwrap_err()));
    assert_eq!(bad.code, 400);
    assert!(bad.error.unwrap().starts_with("Invalid URL: "));

    let ok = render(RequestOutcome::Probed(ProbeOutcome::Success));
    assert_eq!((ok.code, ok.status.as_str(), ok.error), (200, "success", None));

    let failed = render(RequestOutcome::Probed(ProbeOutcome::Failure {
        message: "no route to host".to_string(),
    }));
    assert_eq!(failed.code, 404);
    assert_eq!(failed.error, Some("no route to host".to_string()));
}
