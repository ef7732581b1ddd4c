use logging::filter::{check_sender, is_node_allowed, is_package_allowed, DenyReason};
use logging::identity::{PackageId, SenderIdentity};
use logging::state::State;

fn sender(node: &str, pkg: &str, publisher: &str, process: &str) -> SenderIdentity {
    SenderIdentity::new(
        node.to_string(),
        PackageId::new(pkg.to_string(), publisher.to_string()),
        process.to_string(),
    )
}

#[test]
fn whitelist_misses_bob_and_passes_alice() {
    let mut state = State::new("remote_log".to_string());
    state.whitelist_node("alice".to_string());
    let bob = sender("bob", "pkg", "pub", "proc");
    assert_eq!(is_node_allowed(&bob, &state), Some(DenyReason::UnWhitelistedNode));
    assert_eq!(check_sender(&bob, &state), Some(DenyReason::UnWhitelistedNode));
    let alice = sender("alice", "pkg", "pub", "proc");
    assert_eq!(is_node_allowed(&alice, &state), None);
    assert_eq!(check_sender(&alice, &state), None);
}

#[test]
fn blacklist_denies_eve_regardless_of_package() {
    let mut state = State::new("remote_log".to_string());
    state.blacklist_node("eve".to_string());
    let eve_a = sender("eve", "pkg-a", "pub", "proc");
    let eve_b = sender("eve", "pkg-b", "pub", "proc");
    assert_eq!(check_sender(&eve_a, &state), Some(DenyReason::BlacklistedNode));
    assert_eq!(check_sender(&eve_b, &state), Some(DenyReason::BlacklistedNode));
    state.add_allowed_package(PackageId::new("pkg-a".to_string(), "pub".to_string()));
    assert_eq!(check_sender(&eve_a, &state), Some(DenyReason::BlacklistedNode));
}

#[test]
fn package_gate_denies_mismatch_with_package_reason() {
    let mut state = State::new("remote_log".to_string());
    state.add_allowed_package(PackageId::new("pkgA".to_string(), "pub".to_string()));
    let s = sender("alice", "pkgB", "pub", "proc");
    assert_eq!(is_node_allowed(&s, &state), None);
    assert_eq!(is_package_allowed(&s, &state), Some(DenyReason::PackageNotAllowed));
    assert_eq!(check_sender(&s, &state), Some(DenyReason::PackageNotAllowed));
    let ok = sender("alice", "pkgA", "pub", "proc");
    assert_eq!(check_sender(&ok, &state), None);
}

#[test]
fn whitelist_narrows_then_blacklist_excludes() {
    let mut state = State::new("remote_log".to_string());
    state.whitelist_node("alice".to_string());
    state.whitelist_node("mallory".to_string());
    state.blacklist_node("mallory".to_string());
    let mallory = sender("mallory", "pkg", "pub", "proc");
    assert_eq!(check_sender(&mallory, &state), Some(DenyReason::BlacklistedNode));
    let alice = sender("alice", "pkg", "pub", "proc");
    assert_eq!(check_sender(&alice, &state), None);
}

#[test]
fn empty_filters_allow_any_sender() {
    let state = State::new("remote_log".to_string());
    let s = sender("anyone", "pkg", "pub", "proc");
    assert_eq!(check_sender(&s, &state), None);
}

#[test]
fn deny_reason_texts() {
    let bob = sender("bob", "pkg", "pub", "proc");
    assert_eq!(
        DenyReason::UnWhitelistedNode.text(&bob).as_str(),
        "dropping log Request from un-whitelisted node bob"
    );
    assert_eq!(
        DenyReason::BlacklistedNode.text(&bob).as_str(),
        "dropping log Request from blacklisted node bob"
    );
    assert_eq!(
        DenyReason::PackageNotAllowed.text(&bob).as_str(),
        "dropping log Request from package pkg:pub; not amongst allowed packages"
    );
}
