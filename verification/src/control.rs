//! The control handler: the six administrative commands that mutate the
//! access filter's sets. Only the service's own identity may administer
//! itself; a control command from any other identity is an error and changes
//! nothing. Mutations are idempotent: adding a present member or removing an
//! absent one is a no-op.

use vstd::prelude::*;
use crate::errors::HandleError;
use crate::identity::{PackageId, PackageIdView, SenderIdentity};
use crate::members::{
    lemma_distinct_push, lemma_distinct_remove, lemma_member_index, lemma_with_member, member,
    with_member, without_member,
};
use crate::state::{State, StateView};

verus! {

/// Mathematical image of an `InternalRequest`.
pub enum InternalRequestView {
    AddAllowedPackage(PackageIdView),
    RemoveAllowedPackage(PackageIdView),
    WhitelistNode(Seq<char>),
    UnwhitelistNode(Seq<char>),
    BlacklistNode(Seq<char>),
    UnblacklistNode(Seq<char>),
}

/// One of the six administrative mutation commands.
pub enum InternalRequest {
    AddAllowedPackage(PackageId),
    RemoveAllowedPackage(PackageId),
    WhitelistNode(String),
    UnwhitelistNode(String),
    BlacklistNode(String),
    UnblacklistNode(String),
}

impl View for InternalRequest {
    type V = InternalRequestView;

    open spec fn view(&self) -> InternalRequestView {
        match self {
            InternalRequest::AddAllowedPackage(p) => InternalRequestView::AddAllowedPackage(p@),
            InternalRequest::RemoveAllowedPackage(p) => InternalRequestView::RemoveAllowedPackage(
                p@,
            ),
            InternalRequest::WhitelistNode(n) => InternalRequestView::WhitelistNode(n@),
            InternalRequest::UnwhitelistNode(n) => InternalRequestView::UnwhitelistNode(n@),
            InternalRequest::BlacklistNode(n) => InternalRequestView::BlacklistNode(n@),
            InternalRequest::UnblacklistNode(n) => InternalRequestView::UnblacklistNode(n@),
        }
    }
}

/// What one control command does to the state: the named set is updated with
/// set semantics; nothing else moves.
pub open spec fn control_applied(pre: StateView, cmd: InternalRequestView) -> StateView {
    match cmd {
        InternalRequestView::AddAllowedPackage(p) => StateView {
            allowed_packages: with_member(pre.allowed_packages, p),
            ..pre
        },
        InternalRequestView::RemoveAllowedPackage(p) => StateView {
            allowed_packages: without_member(pre.allowed_packages, p),
            ..pre
        },
        InternalRequestView::WhitelistNode(n) => StateView {
            whitelist: with_member(pre.whitelist, n),
            ..pre
        },
        InternalRequestView::UnwhitelistNode(n) => StateView {
            whitelist: without_member(pre.whitelist, n),
            ..pre
        },
        InternalRequestView::BlacklistNode(n) => StateView {
            blacklist: with_member(pre.blacklist, n),
            ..pre
        },
        InternalRequestView::UnblacklistNode(n) => StateView {
            blacklist: without_member(pre.blacklist, n),
            ..pre
        },
    }
}

impl State {
    /// Adds a package to the allowed set; a no-op when already present.
    pub fn add_allowed_package(&mut self, pkg: PackageId)
        requires
            old(self)@.wf(),
        ensures
            final(self)@ == (StateView {
                allowed_packages: with_member(old(self)@.allowed_packages, pkg@),
                ..old(self)@
            }),
            final(self)@.wf(),
    {
        if !self.allowed_packages_contains(&pkg) {
            proof {
                lemma_distinct_push(self@.allowed_packages, pkg@);
            }
            self.allowed_packages.push(pkg);
            proof {
                assert(self@.allowed_packages =~= old(self)@.allowed_packages.push(pkg@));
            }
        }
    }

    /// Removes a package from the allowed set; a no-op when absent.
    pub fn remove_allowed_package(&mut self, pkg: &PackageId)
        requires
            old(self)@.wf(),
        ensures
            final(self)@ == (StateView {
                allowed_packages: without_member(old(self)@.allowed_packages, pkg@),
                ..old(self)@
            }),
            final(self)@.wf(),
    {
        let mut i: usize = 0;
        while i < self.allowed_packages.len()
            invariant
                self == old(self),
                old(self)@.wf(),
                0 <= i <= self.allowed_packages.len(),
                forall|j: int| 0 <= j < i ==> self@.allowed_packages[j] != pkg@,
            decreases self.allowed_packages.len() - i,
        {
            if self.allowed_packages[i].same_package(pkg) {
                proof {
                    lemma_member_index(self@.allowed_packages, pkg@, i as int);
                    lemma_distinct_remove(self@.allowed_packages, i as int);
                }
                self.allowed_packages.remove(i);
                proof {
                    assert(self@.allowed_packages =~= old(self)@.allowed_packages.remove(
                        i as int,
                    ));
                }
                return;
            }
            i += 1;
        }
    }

    /// Adds a node to the whitelist; a no-op when already present.
    pub fn whitelist_node(&mut self, node: String)
        requires
            old(self)@.wf(),
        ensures
            final(self)@ == (StateView {
                whitelist: with_member(old(self)@.whitelist, node@),
                ..old(self)@
            }),
            final(self)@.wf(),
    {
        if !self.whitelist_contains(&node) {
            proof {
                lemma_distinct_push(self@.whitelist, node@);
            }
            self.whitelist.push(node);
            proof {
                assert(self@.whitelist =~= old(self)@.whitelist.push(node@));
            }
        }
    }

    /// Removes a node from the whitelist; a no-op when absent.
    pub fn unwhitelist_node(&mut self, node: &String)
        requires
            old(self)@.wf(),
        ensures
            final(self)@ == (StateView {
                whitelist: without_member(old(self)@.whitelist, node@),
                ..old(self)@
            }),
            final(self)@.wf(),
    {
        let mut i: usize = 0;
        while i < self.whitelist.len()
            invariant
                self == old(self),
                old(self)@.wf(),
                0 <= i <= self.whitelist.len(),
                forall|j: int| 0 <= j < i ==> self@.whitelist[j] != node@,
            decreases self.whitelist.len() - i,
        {
            if self.whitelist[i] == *node {
                proof {
                    lemma_member_index(self@.whitelist, node@, i as int);
                    lemma_distinct_remove(self@.whitelist, i as int);
                }
                self.whitelist.remove(i);
                proof {
                    assert(self@.whitelist =~= old(self)@.whitelist.remove(i as int));
                }
                return;
            }
            i += 1;
        }
    }

    /// Adds a node to the blacklist; a no-op when already present.
    pub fn blacklist_node(&mut self, node: String)
        requires
            old(self)@.wf(),
        ensures
            final(self)@ == (StateView {
                blacklist: with_member(old(self)@.blacklist, node@),
                ..old(self)@
            }),
            final(self)@.wf(),
    {
        if !self.blacklist_contains(&node) {
            proof {
                lemma_distinct_push(self@.blacklist, node@);
            }
            self.blacklist.push(node);
            proof {
                assert(self@.blacklist =~= old(self)@.blacklist.push(node@));
            }
        }
    }

    /// Removes a node from the blacklist; a no-op when absent.
    pub fn unblacklist_node(&mut self, node: &String)
        requires
            old(self)@.wf(),
        ensures
            final(self)@ == (StateView {
                blacklist: without_member(old(self)@.blacklist, node@),
                ..old(self)@
            }),
            final(self)@.wf(),
    {
        let mut i: usize = 0;
        while i < self.blacklist.len()
            invariant
                self == old(self),
                old(self)@.wf(),
                0 <= i <= self.blacklist.len(),
                forall|j: int| 0 <= j < i ==> self@.blacklist[j] != node@,
            decreases self.blacklist.len() - i,
        {
            if self.blacklist[i] == *node {
                proof {
                    lemma_member_index(self@.blacklist, node@, i as int);
                    lemma_distinct_remove(self@.blacklist, i as int);
                }
                self.blacklist.remove(i);
                proof {
                    assert(self@.blacklist =~= old(self)@.blacklist.remove(i as int));
                }
                return;
            }
            i += 1;
        }
    }
}

/// Applies one control command. Self-only administration: a command whose
/// apparent sender is not the service's own identity is rejected as an error
/// and mutates nothing.
pub fn handle_internal_request(
    our: &SenderIdentity,
    source: &SenderIdentity,
    request: InternalRequest,
    state: &mut State,
) -> (r: Result<(), HandleError>)
    requires
        old(state)@.wf(),
    ensures
        our@ != source@ ==> r == Result::<(), HandleError>::Err(HandleError::ForeignSender)
            && final(state)@ == old(state)@,
        our@ == source@ ==> r == Result::<(), HandleError>::Ok(()) && final(state)@
            == control_applied(old(state)@, request@),
        final(state)@.wf(),
{
    if !our.same_identity(source) {
        return Err(HandleError::ForeignSender);
    }
    match request {
        InternalRequest::AddAllowedPackage(p) => state.add_allowed_package(p),
        InternalRequest::RemoveAllowedPackage(p) => state.remove_allowed_package(&p),
        InternalRequest::WhitelistNode(n) => state.whitelist_node(n),
        InternalRequest::UnwhitelistNode(n) => state.unwhitelist_node(&n),
        InternalRequest::BlacklistNode(n) => state.blacklist_node(n),
        InternalRequest::UnblacklistNode(n) => state.unblacklist_node(&n),
    }
    Ok(())
}

/// Adding an allowed package twice yields the same set as adding it once.
pub proof fn lemma_add_package_idempotent(s: StateView, p: PackageIdView)
    ensures
        control_applied(control_applied(s, InternalRequestView::AddAllowedPackage(p)),
            InternalRequestView::AddAllowedPackage(p),
        ) == control_applied(s, InternalRequestView::AddAllowedPackage(p)),
{
    lemma_with_member(s.allowed_packages, p);
}

/// Removing an absent package leaves the state unchanged.
pub proof fn lemma_remove_absent_package(s: StateView, p: PackageIdView)
    requires
        !member(s.allowed_packages, p),
    ensures
        control_applied(s, InternalRequestView::RemoveAllowedPackage(p)) == s,
{
}

} // verus!
