use logging::control::{handle_internal_request, InternalRequest};
use logging::errors::HandleError;
use logging::identity::{PackageId, SenderIdentity};
use logging::state::State;

fn sender(node: &str, pkg: &str, publisher: &str, process: &str) -> SenderIdentity {
    SenderIdentity::new(
        node.to_string(),
        PackageId::new(pkg.to_string(), publisher.to_string()),
        process.to_string(),
    )
}

fn pkg(name: &str, publisher: &str) -> PackageId {
    PackageId::new(name.to_string(), publisher.to_string())
}

#[test]
fn add_allowed_package_twice_is_add_once() {
    let our = sender("our-node", "logging", "pub", "main");
    let mut state = State::new("remote_log".to_string());
    let r1 = handle_internal_request(
        &our,
        &our.clone(),
        InternalRequest::AddAllowedPackage(pkg("p", "pub")),
        &mut state,
    );
    assert_eq!(r1, Ok(()));
    let r2 = handle_internal_request(
        &our,
        &our.clone(),
        InternalRequest::AddAllowedPackage(pkg("p", "pub")),
        &mut state,
    );
    assert_eq!(r2, Ok(()));
    assert_eq!(state.allowed_packages.len(), 1);
    assert!(state.allowed_packages_contains(&pkg("p", "pub")));
}

#[test]
fn remove_absent_package_is_noop_without_error() {
    let our = sender("our-node", "logging", "pub", "main");
    let mut state = State::new("remote_log".to_string());
    state.add_allowed_package(pkg("kept", "pub"));
    let r = handle_internal_request(
        &our,
        &our.clone(),
        InternalRequest::RemoveAllowedPackage(pkg("absent", "pub")),
        &mut state,
    );
    assert_eq!(r, Ok(()));
    assert_eq!(state.allowed_packages.len(), 1);
    assert!(state.allowed_packages_contains(&pkg("kept", "pub")));
}

#[test]
fn whitelist_twice_then_unwhitelist_empties() {
    let mut state = State::new("remote_log".to_string());
    state.whitelist_node("alice".to_string());
    state.whitelist_node("alice".to_string());
    assert_eq!(state.whitelist.len(), 1);
    state.unwhitelist_node(&"alice".to_string());
    assert_eq!(state.whitelist.len(), 0);
    state.unwhitelist_node(&"alice".to_string());
    assert_eq!(state.whitelist.len(), 0);
}

#[test]
fn blacklist_and_unblacklist_round_trip() {
    let mut state = State::new("remote_log".to_string());
    state.blacklist_node("eve".to_string());
    assert!(state.blacklist_contains(&"eve".to_string()));
    state.unblacklist_node(&"eve".to_string());
    assert!(!state.blacklist_contains(&"eve".to_string()));
}

#[test]
fn foreign_control_command_is_error_and_changes_nothing() {
    let our = sender("our-node", "logging", "pub", "main");
    let remote = sender("remote-node", "logging", "pub", "main");
    let mut state = State::new("remote_log".to_string());
    let r = handle_internal_request(
        &our,
        &remote,
        InternalRequest::AddAllowedPackage(pkg("p", "pub")),
        &mut state,
    );
    assert_eq!(r, Err(HandleError::ForeignSender));
    assert_eq!(state.allowed_packages.len(), 0);
    assert_eq!(state.whitelist.len(), 0);
    assert_eq!(state.blacklist.len(), 0);
    assert_eq!(state.log_files.len(), 0);
}

#[test]
fn same_identity_differing_process_is_foreign() {
    let our = sender("our-node", "logging", "pub", "main");
    let other = sender("our-node", "logging", "pub", "other-process");
    let mut state = State::new("remote_log".to_string());
    let r = handle_internal_request(
        &our,
        &other,
        InternalRequest::WhitelistNode("alice".to_string()),
        &mut state,
    );
    assert_eq!(r, Err(HandleError::ForeignSender));
    assert_eq!(state.whitelist.len(), 0);
}
