//! Kernel versions, used to gate options that older kernels do not know.
use vstd::prelude::*;

verus! {

/// A Linux kernel version, `major.minor`.
#[derive(Clone, Copy, Debug, PartialEq, Eq, Structural)]
pub struct Version {
    pub major: usize,
    pub minor: usize,
}

impl Version {
    /// Whether this version is `major.minor` or newer.
    pub open spec fn spec_at_least(self, major: usize, minor: usize) -> bool {
        self.major > major || (self.major == major && self.minor >= minor)
    }

    pub fn new(major: usize, minor: usize) -> (r: Version)
        ensures
            r.major == major,
            r.minor == minor,
    {
        Version { major, minor }
    }

    /// The oldest kernel the library supports.
    pub fn oldest() -> (r: Version)
        ensures
            r.major == 4 && r.minor == 0,
    {
        Version { major: 4, minor: 0 }
    }

    /// The newest kernel whose interface the library knows.
    pub fn latest() -> (r: Version)
        ensures
            r.major == 6 && r.minor == 13,
    {
        Version { major: 6, minor: 13 }
    }

    pub fn at_least(&self, major: usize, minor: usize) -> (r: bool)
        ensures
            r == self.spec_at_least(major, minor),
    {
        self.major > major || (self.major == major && self.minor >= minor)
    }

    /// Compares two versions, major number first.
    pub fn cmp(&self, other: &Version) -> (r: core::cmp::Ordering)
        ensures
            (r == core::cmp::Ordering::Less) == (self.major < other.major || (self.major
                == other.major && self.minor < other.minor)),
            (r == core::cmp::Ordering::Equal) == (self.major == other.major && self.minor
                == other.minor),
            (r == core::cmp::Ordering::Greater) == (self.major > other.major || (self.major
                == other.major && self.minor > other.minor)),
    {
        if self.major < other.major {
            core::cmp::Ordering::Less
        } else if self.major > other.major {
            core::cmp::Ordering::Greater
        } else if self.minor < other.minor {
            core::cmp::Ordering::Less
        } else if self.minor > other.minor {
            core::cmp::Ordering::Greater
        } else {
            core::cmp::Ordering::Equal
        }
    }
}

} // verus!
