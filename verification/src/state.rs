//! The single long-lived service state: the three filter sets, the cache of
//! per-sender append targets, and the fixed storage root. The sets have set
//! semantics (no duplicates, membership only); the target cache grows
//! monotonically and never holds two targets for one identity.

use vstd::prelude::*;
use crate::identity::{PackageId, PackageIdView, SenderIdentity, SenderIdentityView};
use crate::members::{distinct_members, member};

verus! {

/// Mathematical image of a `LogTarget`.
pub struct LogTargetView {
    pub dir_path: Seq<char>,
    pub file_path: Seq<char>,
}

/// An open append-target: the directory and file a sender's records land in.
/// The storage substrate keeps the real handle; the state remembers which
/// path pair was resolved so it is reused for the life of the process.
pub struct LogTarget {
    pub dir_path: String,
    pub file_path: String,
}

impl View for LogTarget {
    type V = LogTargetView;

    open spec fn view(&self) -> LogTargetView {
        LogTargetView { dir_path: self.dir_path@, file_path: self.file_path@ }
    }
}

impl Clone for LogTarget {
    fn clone(&self) -> (r: Self)
        ensures
            r@ == self@,
    {
        LogTarget { dir_path: self.dir_path.clone(), file_path: self.file_path.clone() }
    }
}

/// Mathematical image of the whole service state.
pub struct StateView {
    pub drive_path: Seq<char>,
    pub log_files: Seq<(SenderIdentityView, LogTargetView)>,
    pub allowed_packages: Seq<PackageIdView>,
    pub whitelist: Seq<Seq<char>>,
    pub blacklist: Seq<Seq<char>>,
}

/// Whether a sender already has a cached append target.
pub open spec fn has_target(
    ts: Seq<(SenderIdentityView, LogTargetView)>,
    s: SenderIdentityView,
) -> bool {
    exists|i: int| 0 <= i < ts.len() && ts[i].0 == s
}

/// The cached append target of a sender (meaningful when `has_target` holds;
/// well defined because the cache never holds two targets for one identity).
pub open spec fn target_of(
    ts: Seq<(SenderIdentityView, LogTargetView)>,
    s: SenderIdentityView,
) -> LogTargetView {
    ts[choose|i: int| 0 <= i < ts.len() && ts[i].0 == s].1
}

impl StateView {
    /// Set semantics of the filter sets, and at most one target per sender.
    pub open spec fn wf(self) -> bool {
        &&& distinct_members(self.allowed_packages)
        &&& distinct_members(self.whitelist)
        &&& distinct_members(self.blacklist)
        &&& forall|i: int, j: int|
            0 <= i < j < self.log_files.len() ==> (#[trigger] self.log_files[i]).0
                != (#[trigger] self.log_files[j]).0
    }
}

/// The whole service state, owned exclusively by the dispatch loop.
pub struct State {
    pub drive_path: String,
    pub log_files: Vec<(SenderIdentity, LogTarget)>,
    pub allowed_packages: Vec<PackageId>,
    pub whitelist: Vec<String>,
    pub blacklist: Vec<String>,
}

impl View for State {
    type V = StateView;

    open spec fn view(&self) -> StateView {
        StateView {
            drive_path: self.drive_path@,
            log_files: self.log_files@.map_values(
                |p: (SenderIdentity, LogTarget)| (p.0@, p.1@),
            ),
            allowed_packages: self.allowed_packages@.map_values(|p: PackageId| p@),
            whitelist: self.whitelist@.map_values(|s: String| s@),
            blacklist: self.blacklist@.map_values(|s: String| s@),
        }
    }
}

/// With distinct cache keys, any index whose key matches `s` is the one the
/// cache lookup denotes.
pub proof fn lemma_target_at(
    ts: Seq<(SenderIdentityView, LogTargetView)>,
    s: SenderIdentityView,
    i: int,
)
    requires
        forall|a: int, b: int| 0 <= a < b < ts.len() ==> (#[trigger] ts[a]).0 != (#[trigger] ts[b]).0,
        0 <= i < ts.len(),
        ts[i].0 == s,
    ensures
        has_target(ts, s),
        target_of(ts, s) == ts[i].1,
{
    assert(has_target(ts, s));
    let k = choose|k: int| 0 <= k < ts.len() && ts[k].0 == s;
    if k < i {
        assert(ts[k].0 != ts[i].0);
    } else if k > i {
        assert(ts[i].0 != ts[k].0);
    }
}

impl State {
    /// A fresh state: empty filter sets, empty target cache, the given root.
    pub fn new(drive_path: String) -> (r: State)
        ensures
            r@.drive_path == drive_path@,
            r@.log_files =~= Seq::<(SenderIdentityView, LogTargetView)>::empty(),
            r@.allowed_packages =~= Seq::<PackageIdView>::empty(),
            r@.whitelist =~= Seq::<Seq<char>>::empty(),
            r@.blacklist =~= Seq::<Seq<char>>::empty(),
            r@.wf(),
    {
        State {
            drive_path,
            log_files: Vec::new(),
            allowed_packages: Vec::new(),
            whitelist: Vec::new(),
            blacklist: Vec::new(),
        }
    }

    /// Scans the whitelist for a node name.
    pub fn whitelist_contains(&self, node: &String) -> (r: bool)
        ensures
            r == member(self@.whitelist, node@),
    {
        let mut i: usize = 0;
        while i < self.whitelist.len()
            invariant
                0 <= i <= self.whitelist.len(),
                forall|j: int| 0 <= j < i ==> self@.whitelist[j] != node@,
            decreases self.whitelist.len() - i,
        {
            if self.whitelist[i] == *node {
                assert(self@.whitelist[i as int] == node@);
                return true;
            }
            i += 1;
        }
        false
    }

    /// Scans the blacklist for a node name.
    pub fn blacklist_contains(&self, node: &String) -> (r: bool)
        ensures
            r == member(self@.blacklist, node@),
    {
        let mut i: usize = 0;
        while i < self.blacklist.len()
            invariant
                0 <= i <= self.blacklist.len(),
                forall|j: int| 0 <= j < i ==> self@.blacklist[j] != node@,
            decreases self.blacklist.len() - i,
        {
            if self.blacklist[i] == *node {
                assert(self@.blacklist[i as int] == node@);
                return true;
            }
            i += 1;
        }
        false
    }

    /// Scans the allowed-package set for a package identifier.
    pub fn allowed_packages_contains(&self, pkg: &PackageId) -> (r: bool)
        ensures
            r == member(self@.allowed_packages, pkg@),
    {
        let mut i: usize = 0;
        while i < self.allowed_packages.len()
            invariant
                0 <= i <= self.allowed_packages.len(),
                forall|j: int| 0 <= j < i ==> self@.allowed_packages[j] != pkg@,
            decreases self.allowed_packages.len() - i,
        {
            if self.allowed_packages[i].same_package(pkg) {
                assert(self@.allowed_packages[i as int] == pkg@);
                return true;
            }
            i += 1;
        }
        false
    }

    /// Looks up the cached append target of a sender, if one exists.
    pub fn find_target(&self, sender: &SenderIdentity) -> (r: Option<LogTarget>)
        requires
            self@.wf(),
        ensures
            r is Some <==> has_target(self@.log_files, sender@),
            r is Some ==> r.unwrap()@ == target_of(self@.log_files, sender@),
    {
        let mut i: usize = 0;
        while i < self.log_files.len()
            invariant
                self@.wf(),
                0 <= i <= self.log_files.len(),
                forall|j: int| 0 <= j < i ==> (#[trigger] self@.log_files[j]).0 != sender@,
            decreases self.log_files.len() - i,
        {
            if self.log_files[i].0.same_identity(sender) {
                assert(self@.log_files[i as int].0 == sender@);
                let r = self.log_files[i].1.clone();
                proof {
                    lemma_target_at(self@.log_files, sender@, i as int);
                }
                return Some(r);
            }
            i += 1;
        }
        None
    }
}

} // verus!
