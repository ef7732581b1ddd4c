//! Sender identities: the origin node, package and process that a message
//! comes from. A `SenderIdentity` is the routing key of the log router and
//! the subject of every filter check.

use vstd::prelude::*;

verus! {

/// Mathematical image of a `PackageId`.
pub struct PackageIdView {
    pub package_name: Seq<char>,
    pub publisher_node: Seq<char>,
}

/// A namespace identifier grouping related processes; the coarse-grained
/// authorization unit of the access filter.
pub struct PackageId {
    pub package_name: String,
    pub publisher_node: String,
}

impl View for PackageId {
    type V = PackageIdView;

    open spec fn view(&self) -> PackageIdView {
        PackageIdView {
            package_name: self.package_name@,
            publisher_node: self.publisher_node@,
        }
    }
}

impl Clone for PackageId {
    fn clone(&self) -> (r: Self)
        ensures
            r@ == self@,
    {
        PackageId {
            package_name: self.package_name.clone(),
            publisher_node: self.publisher_node.clone(),
        }
    }
}

/// The directory name a package's logs live under: `package_name:publisher_node`.
pub open spec fn pkg_dir_text(p: PackageIdView) -> Seq<char> {
    p.package_name + ":"@ + p.publisher_node
}

impl PackageId {
    pub fn new(package_name: String, publisher_node: String) -> (r: PackageId)
        ensures
            r@.package_name == package_name@,
            r@.publisher_node == publisher_node@,
    {
        PackageId { package_name, publisher_node }
    }

    /// Value equality of two package identifiers.
    pub fn same_package(&self, other: &PackageId) -> (r: bool)
        ensures
            r == (self@ == other@),
    {
        let r = self.package_name == other.package_name
            && self.publisher_node == other.publisher_node;
        r
    }

    /// Renders the package directory name `package_name:publisher_node`.
    pub fn dir_name(&self) -> (r: String)
        ensures
            r@ == pkg_dir_text(self@),
    {
        let mut r = self.package_name.clone();
        r.append(":");
        r.append(self.publisher_node.as_str());
        r
    }
}

/// Mathematical image of a `SenderIdentity`.
pub struct SenderIdentityView {
    pub node: Seq<char>,
    pub package: PackageIdView,
    pub process: Seq<char>,
}

/// The composite identity a message carries: origin node, package and
/// process. Immutable once received; carried by value.
pub struct SenderIdentity {
    pub node: String,
    pub package: PackageId,
    pub process: String,
}

impl View for SenderIdentity {
    type V = SenderIdentityView;

    open spec fn view(&self) -> SenderIdentityView {
        SenderIdentityView { node: self.node@, package: self.package@, process: self.process@ }
    }
}

impl Clone for SenderIdentity {
    fn clone(&self) -> (r: Self)
        ensures
            r@ == self@,
    {
        SenderIdentity {
            node: self.node.clone(),
            package: self.package.clone(),
            process: self.process.clone(),
        }
    }
}

/// The self-describing form a sender is stamped into log records as:
/// `node@process:package_name:publisher_node`.
pub open spec fn source_text(s: SenderIdentityView) -> Seq<char> {
    s.node + "@"@ + s.process + ":"@ + s.package.package_name + ":"@ + s.package.publisher_node
}

impl SenderIdentity {
    pub fn new(node: String, package: PackageId, process: String) -> (r: SenderIdentity)
        ensures
            r@.node == node@,
            r@.package == package@,
            r@.process == process@,
    {
        SenderIdentity { node, package, process }
    }

    /// Value equality of two sender identities.
    pub fn same_identity(&self, other: &SenderIdentity) -> (r: bool)
        ensures
            r == (self@ == other@),
    {
        let r = self.node == other.node && self.package.same_package(&other.package)
            && self.process == other.process;
        r
    }

    /// Renders `node@process:package_name:publisher_node`.
    pub fn render(&self) -> (r: String)
        ensures
            r@ == source_text(self@),
    {
        let mut r = self.node.clone();
        r.append("@");
        r.append(self.process.as_str());
        r.append(":");
        r.append(self.package.package_name.as_str());
        r.append(":");
        r.append(self.package.publisher_node.as_str());
        r
    }
}

} // verus!
