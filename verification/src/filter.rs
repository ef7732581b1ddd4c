//! The access filter: given a sender and the current filter sets, either
//! "allowed" or "denied with a reason". Evaluation order is fixed and
//! short-circuiting: whitelist, then blacklist among whitelist survivors,
//! then the package gate. A denial is a normal outcome, never an error.

use vstd::prelude::*;
use crate::identity::{pkg_dir_text, SenderIdentity, SenderIdentityView};
use crate::members::member;
use crate::state::{State, StateView};

verus! {

/// Why a sender was denied.
#[derive(Clone, Copy, Debug, PartialEq, Eq, Structural)]
pub enum DenyReason {
    UnWhitelistedNode,
    BlacklistedNode,
    PackageNotAllowed,
}

/// The node gates: an origin node fails when a non-empty whitelist misses it,
/// or else when a non-empty blacklist holds it.
pub open spec fn node_denial(s: StateView, sender: SenderIdentityView) -> Option<DenyReason> {
    if s.whitelist.len() > 0 && !member(s.whitelist, sender.node) {
        Some(DenyReason::UnWhitelistedNode)
    } else if s.blacklist.len() > 0 && member(s.blacklist, sender.node) {
        Some(DenyReason::BlacklistedNode)
    } else {
        None
    }
}

/// The package gate: a package fails when a non-empty allowed-package set
/// misses it.
pub open spec fn package_denial(s: StateView, sender: SenderIdentityView) -> Option<DenyReason> {
    if s.allowed_packages.len() > 0 && !member(s.allowed_packages, sender.package) {
        Some(DenyReason::PackageNotAllowed)
    } else {
        None
    }
}

/// The whole filter decision, node gates first, package gate last.
pub open spec fn denial(s: StateView, sender: SenderIdentityView) -> Option<DenyReason> {
    if node_denial(s, sender) is Some {
        node_denial(s, sender)
    } else {
        package_denial(s, sender)
    }
}

/// Checks the node gates.
///
/// `None` means the origin node is allowed; `Some` carries why it is not.
pub fn is_node_allowed(source: &SenderIdentity, state: &State) -> (r: Option<DenyReason>)
    ensures
        r == node_denial(state@, source@),
{
    if state.whitelist.len() > 0 && !state.whitelist_contains(&source.node) {
        return Some(DenyReason::UnWhitelistedNode);
    }
    if state.blacklist.len() > 0 && state.blacklist_contains(&source.node) {
        return Some(DenyReason::BlacklistedNode);
    }
    None
}

/// Checks the package gate.
///
/// `None` means the package is allowed; `Some` carries why it is not.
pub fn is_package_allowed(source: &SenderIdentity, state: &State) -> (r: Option<DenyReason>)
    ensures
        r == package_denial(state@, source@),
{
    if state.allowed_packages.len() > 0 && !state.allowed_packages_contains(&source.package) {
        return Some(DenyReason::PackageNotAllowed);
    }
    None
}

/// The whole filter: node gates first, then the package gate.
pub fn check_sender(source: &SenderIdentity, state: &State) -> (r: Option<DenyReason>)
    ensures
        r == denial(state@, source@),
{
    let node = is_node_allowed(source, state);
    if node.is_some() {
        return node;
    }
    is_package_allowed(source, state)
}

impl DenyReason {
    /// The informational text a denial is recorded with.
    pub open spec fn text_spec(self, sender: SenderIdentityView) -> Seq<char> {
        match self {
            DenyReason::UnWhitelistedNode => "dropping log Request from un-whitelisted node "@
                + sender.node,
            DenyReason::BlacklistedNode => "dropping log Request from blacklisted node "@
                + sender.node,
            DenyReason::PackageNotAllowed => "dropping log Request from package "@ + pkg_dir_text(
                sender.package,
            ) + "; not amongst allowed packages"@,
        }
    }

    /// Renders the informational text a denial is recorded with.
    pub fn text(&self, sender: &SenderIdentity) -> (r: String)
        ensures
            r@ == self.text_spec(sender@),
    {
        match self {
            DenyReason::UnWhitelistedNode => {
                let mut r = "dropping log Request from un-whitelisted node ".to_owned();
                r.append(sender.node.as_str());
                r
            },
            DenyReason::BlacklistedNode => {
                let mut r = "dropping log Request from blacklisted node ".to_owned();
                r.append(sender.node.as_str());
                r
            },
            DenyReason::PackageNotAllowed => {
                let mut r = "dropping log Request from package ".to_owned();
                let dir = sender.package.dir_name();
                r.append(dir.as_str());
                r.append("; not amongst allowed packages");
                r
            },
        }
    }
}

/// With an empty whitelist, a blacklisted origin node is denied as
/// blacklisted, whatever its package and whatever the allowed-package set.
pub proof fn lemma_blacklist_denies(s: StateView, sender: SenderIdentityView)
    requires
        s.whitelist.len() == 0,
        member(s.blacklist, sender.node),
    ensures
        denial(s, sender) == Some(DenyReason::BlacklistedNode),
{
}

/// A sender that passes both node gates but carries a package missing from a
/// non-empty allowed-package set is denied with the package-mismatch reason.
pub proof fn lemma_package_gate(s: StateView, sender: SenderIdentityView)
    requires
        node_denial(s, sender) is None,
        s.allowed_packages.len() > 0,
        !member(s.allowed_packages, sender.package),
    ensures
        denial(s, sender) == Some(DenyReason::PackageNotAllowed),
{
}

/// With all three filter sets empty, every sender is allowed.
pub proof fn lemma_empty_filters_allow(s: StateView, sender: SenderIdentityView)
    requires
        s.whitelist.len() == 0,
        s.blacklist.len() == 0,
        s.allowed_packages.len() == 0,
    ensures
        denial(s, sender) is None,
{
}

/// The filter decision is a function of the members of the three filter sets
/// and of the sender's origin node and package alone: two states whose sets
/// agree member for member, and two senders with the same node and package,
/// are decided the same way.
pub proof fn lemma_denial_deterministic(
    s1: StateView,
    s2: StateView,
    a: SenderIdentityView,
    b: SenderIdentityView,
)
    requires
        forall|n: Seq<char>|
            #![trigger member(s1.whitelist, n)]
            #![trigger member(s2.whitelist, n)]
            member(s1.whitelist, n) == member(s2.whitelist, n),
        forall|n: Seq<char>|
            #![trigger member(s1.blacklist, n)]
            #![trigger member(s2.blacklist, n)]
            member(s1.blacklist, n) == member(s2.blacklist, n),
        forall|p: crate::identity::PackageIdView|
            #![trigger member(s1.allowed_packages, p)]
            #![trigger member(s2.allowed_packages, p)]
            member(s1.allowed_packages, p) == member(s2.allowed_packages, p),
        a.node == b.node,
        a.package == b.package,
    ensures
        denial(s1, a) == denial(s2, b),
{
    assert((s1.whitelist.len() == 0) == (s2.whitelist.len() == 0)) by {
        if s1.whitelist.len() > 0 {
            assert(member(s1.whitelist, s1.whitelist[0]));
        }
        if s2.whitelist.len() > 0 {
            assert(member(s2.whitelist, s2.whitelist[0]));
        }
    }
    assert((s1.blacklist.len() == 0) == (s2.blacklist.len() == 0)) by {
        if s1.blacklist.len() > 0 {
            assert(member(s1.blacklist, s1.blacklist[0]));
        }
        if s2.blacklist.len() > 0 {
            assert(member(s2.blacklist, s2.blacklist[0]));
        }
    }
    assert((s1.allowed_packages.len() == 0) == (s2.allowed_packages.len() == 0)) by {
        if s1.allowed_packages.len() > 0 {
            assert(member(s1.allowed_packages, s1.allowed_packages[0]));
        }
        if s2.allowed_packages.len() > 0 {
            assert(member(s2.allowed_packages, s2.allowed_packages[0]));
        }
    }
    assert(member(s1.whitelist, a.node) == member(s2.whitelist, b.node));
    assert(member(s1.blacklist, a.node) == member(s2.blacklist, b.node));
    assert(member(s1.allowed_packages, a.package) == member(s2.allowed_packages, b.package));
}

} // verus!
