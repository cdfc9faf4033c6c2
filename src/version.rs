//! The ABI version triple that a loadable model library reports.
use vstd::prelude::*;

use crate::error::LoadError;

verus! {

/// The major version of the foreign interface this bridge was written against.
pub const REQUIRED_MAJOR: u32 = 2;

/// The minor version of the foreign interface this bridge was written against.
pub const REQUIRED_MINOR: u32 = 0;

/// The patch version of the foreign interface this bridge was written against.
pub const REQUIRED_PATCH: u32 = 0;

/// A version triple (major, minor, patch).
#[derive(Clone, Copy, Debug, PartialEq, Eq, Structural)]
pub struct Version {
    pub major: u32,
    pub minor: u32,
    pub patch: u32,
}

/// The version that the bridge expects; reported back on a mismatch.
pub open spec fn expected_spec() -> Version {
    Version { major: REQUIRED_MAJOR, minor: REQUIRED_MINOR, patch: REQUIRED_PATCH }
}

/// A library is compatible when the triple it reports is exactly the one the
/// bridge expects.
pub open spec fn compatible(found: Version) -> bool {
    found == expected_spec()
}

impl Version {
    pub fn new(major: u32, minor: u32, patch: u32) -> (r: Version)
        ensures
            r == (Version { major, minor, patch }),
    {
        Version { major, minor, patch }
    }

    /// The version this bridge expects.
    pub fn expected() -> (r: Version)
        ensures
            r == expected_spec(),
    {
        Version { major: REQUIRED_MAJOR, minor: REQUIRED_MINOR, patch: REQUIRED_PATCH }
    }

    pub fn is_compatible(&self) -> (r: bool)
        ensures
            r == compatible(*self),
    {
        self.major == REQUIRED_MAJOR && self.minor == REQUIRED_MINOR && self.patch == REQUIRED_PATCH
    }
}

/// Validates a version read from a freshly opened library.
pub fn check_version(found: Version) -> (r: Result<(), LoadError>)
    ensures
        r is Ok <==> compatible(found),
        r is Err ==> r == Err::<(), LoadError>(
            LoadError::VersionMismatch { expected: expected_spec(), found },
        ),
{
    if found.is_compatible() {
        Ok(())
    } else {
        Err(LoadError::VersionMismatch { expected: Version::expected(), found })
    }
}

} // verus!
