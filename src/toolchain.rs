//! Identification of a toolchain: a semantic version and a target platform.
use vstd::prelude::*;

verus! {

/// A semantic version `major.minor.patch`.
#[derive(Clone, Copy, Debug, PartialEq, Eq, PartialOrd, Ord, Hash, Structural)]
pub struct Version {
    pub major: u64,
    pub minor: u64,
    pub patch: u64,
}

impl Version {
    pub fn new(major: u64, minor: u64, patch: u64) -> (r: Version)
        ensures
            r.major == major,
            r.minor == minor,
            r.patch == patch,
    {
        Version { major, minor, patch }
    }
}

/// A toolchain, named by its version and its target triple.
#[derive(Debug, Eq, PartialOrd, Ord, Hash)]
pub struct OwnedToolchainSpec {
    version: Version,
    target: String,
}

impl OwnedToolchainSpec {
    /// The version of the toolchain.
    pub closed spec fn spec_version(&self) -> Version {
        self.version
    }

    /// The target triple of the toolchain.
    pub closed spec fn spec_target(&self) -> Seq<char> {
        self.target@
    }

    /// Whether two toolchains have the same version and the same target.
    pub open spec fn same_as(&self, other: &OwnedToolchainSpec) -> bool {
        self.spec_version() == other.spec_version() && self.spec_target() == other.spec_target()
    }

    pub fn new(version: &Version, target: &str) -> (r: OwnedToolchainSpec)
        ensures
            r.spec_version() == *version,
            r.spec_target() == target@,
    {
        OwnedToolchainSpec { version: *version, target: target.to_owned() }
    }

    /// The version of the toolchain.
    pub fn version(&self) -> (r: &Version)
        ensures
            *r == self.spec_version(),
    {
        &self.version
    }

    /// The target triple of the toolchain.
    pub fn target(&self) -> (r: &str)
        ensures
            r@ == self.spec_target(),
    {
        self.target.as_str()
    }
}

/// Two toolchains are equal when their versions and their targets are.
impl PartialEq for OwnedToolchainSpec {
    fn eq(&self, other: &OwnedToolchainSpec) -> (r: bool)
        ensures
            r == self.same_as(other),
    {
        self.version == other.version && self.target == other.target
    }
}

impl vstd::std_specs::cmp::PartialEqSpecImpl for OwnedToolchainSpec {
    open spec fn obeys_eq_spec() -> bool {
        true
    }

    open spec fn eq_spec(&self, other: &OwnedToolchainSpec) -> bool {
        self.same_as(other)
    }
}

impl Clone for OwnedToolchainSpec {
    fn clone(&self) -> (r: OwnedToolchainSpec)
        ensures
            r == *self,
    {
        OwnedToolchainSpec { version: self.version, target: self.target.clone() }
    }
}

} // verus!
