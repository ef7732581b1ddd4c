use logging::control::InternalRequest;
use logging::dispatch::{handle_message, InboundMessage, Outcome, Req};
use logging::errors::HandleError;
use logging::filter::DenyReason;
use logging::identity::{PackageId, SenderIdentity};
use logging::router::LoggingRequest;
use logging::state::State;

fn sender(node: &str, pkg: &str, publisher: &str, process: &str) -> SenderIdentity {
    SenderIdentity::new(
        node.to_string(),
        PackageId::new(pkg.to_string(), publisher.to_string()),
        process.to_string(),
    )
}

fn log_write(source: &SenderIdentity, payload: &[u8]) -> InboundMessage {
    InboundMessage {
        is_request: true,
        source: source.clone(),
        body: Some(Req::LoggingRequest(LoggingRequest::Log(payload.to_vec()))),
    }
}

fn control(source: &SenderIdentity, request: InternalRequest) -> InboundMessage {
    InboundMessage {
        is_request: true,
        source: source.clone(),
        body: Some(Req::InternalRequest(request)),
    }
}

#[test]
fn empty_filters_any_log_write_is_appended() {
    let our = sender("our-node", "logging", "pub", "main");
    let anyone = sender("faraway", "pkg", "pub", "proc");
    let mut state = State::new("remote_log".to_string());
    let r = handle_message(&our, log_write(&anyone, b"{\"msg\":\"hello\"}"), &mut state);
    match r {
        Ok(Outcome::Logged(act)) => {
            assert!(act.created);
            assert_eq!(act.target.file_path.as_str(), "remote_log/pkg:pub/proc.log");
        },
        _ => panic!("expected an appended record"),
    }
    assert_eq!(state.log_files.len(), 1);
}

#[test]
fn blacklisted_node_is_dropped_while_other_node_succeeds() {
    let our = sender("our-node", "logging", "pub", "main");
    let mut state = State::new("remote_log".to_string());
    let r = handle_message(
        &our,
        control(&our, InternalRequest::BlacklistNode("node-x".to_string())),
        &mut state,
    );
    assert!(matches!(r, Ok(Outcome::ControlApplied)));

    let x = sender("node-x", "pkg", "pub", "proc");
    let rx = handle_message(&our, log_write(&x, b"{\"msg\":\"nope\"}"), &mut state);
    assert!(matches!(rx, Ok(Outcome::Skipped(DenyReason::BlacklistedNode))));
    assert_eq!(state.log_files.len(), 0);

    let y = sender("node-y", "pkg", "pub", "proc");
    let ry = handle_message(&our, log_write(&y, b"{\"msg\":\"yes\"}"), &mut state);
    assert!(matches!(ry, Ok(Outcome::Logged(_))));
    assert_eq!(state.log_files.len(), 1);
}

#[test]
fn a_response_is_a_protocol_violation() {
    let our = sender("our-node", "logging", "pub", "main");
    let mut state = State::new("remote_log".to_string());
    let msg = InboundMessage { is_request: false, source: our.clone(), body: None };
    let r = handle_message(&our, msg, &mut state);
    assert!(matches!(r, Err(HandleError::UnexpectedResponse)));
}

#[test]
fn a_body_matching_neither_shape_is_an_error() {
    let our = sender("our-node", "logging", "pub", "main");
    let anyone = sender("faraway", "pkg", "pub", "proc");
    let mut state = State::new("remote_log".to_string());
    let msg = InboundMessage { is_request: true, source: anyone, body: None };
    let r = handle_message(&our, msg, &mut state);
    assert!(matches!(r, Err(HandleError::UnrecognizedRequest)));
    assert_eq!(state.log_files.len(), 0);
}

#[test]
fn foreign_control_command_is_rejected_at_dispatch() {
    let our = sender("our-node", "logging", "pub", "main");
    let remote = sender("remote-node", "logging", "pub", "main");
    let mut state = State::new("remote_log".to_string());
    let r = handle_message(
        &our,
        control(&remote, InternalRequest::WhitelistNode("remote-node".to_string())),
        &mut state,
    );
    assert!(matches!(r, Err(HandleError::ForeignSender)));
    assert_eq!(state.whitelist.len(), 0);
}

#[test]
fn filter_is_evaluated_before_the_body_is_inspected() {
    let our = sender("our-node", "logging", "pub", "main");
    let eve = sender("eve", "pkg", "pub", "proc");
    let mut state = State::new("remote_log".to_string());
    state.blacklist_node("eve".to_string());
    // even an unrecognizable body from a denied sender is a silent skip
    let msg = InboundMessage { is_request: true, source: eve, body: None };
    let r = handle_message(&our, msg, &mut state);
    assert!(matches!(r, Ok(Outcome::Skipped(DenyReason::BlacklistedNode))));
}

#[test]
fn handle_error_texts() {
    assert_eq!(HandleError::UnexpectedResponse.text().as_str(), "unexpected Response");
    assert_eq!(
        HandleError::ForeignSender.text().as_str(),
        "rejecting InternalRequest from remote node"
    );
}
