//! The loaded library and its validated version.
use vstd::prelude::*;

use libloading::Library;

use crate::error::LoadError;
use crate::version::{check_version, compatible, expected_spec, Version};

verus! {

#[verifier::external_type_specification]
#[verifier::external_body]
pub struct ExLibrary(libloading::Library);

/// An opened library whose interface version has been checked.
///
/// The entry points resolved from it are held by the host beside this value;
/// they stay valid exactly as long as the library inside it stays loaded.
pub struct Bridgestan {
    library: Library,
    version: Version,
}

impl Bridgestan {
    pub closed spec fn version_spec(&self) -> Version {
        self.version
    }

    pub closed spec fn library_spec(&self) -> Library {
        self.library
    }

    /// Admits an opened library whose entry points resolved, given the version
    /// it reports. On a mismatch the library is dropped, which unloads it,
    /// before the error is returned.
    pub fn new(library: Library, found: Version) -> (r: Result<Bridgestan, LoadError>)
        ensures
            r is Ok <==> compatible(found),
            r is Ok ==> r->Ok_0.version_spec() == found && r->Ok_0.library_spec() == library,
            r is Err ==> r->Err_0 == (LoadError::VersionMismatch { expected: expected_spec(), found }),
    {
        match check_version(found) {
            Ok(()) => Ok(Bridgestan { library, version: found }),
            Err(e) => Err(e),
        }
    }

    /// The version the library reported when it was admitted.
    pub fn version(&self) -> (r: Version)
        ensures
            r == self.version_spec(),
    {
        self.version
    }

    /// Gives up the checked wrapper and hands back the library itself.
    pub fn into_library(self) -> (r: Library)
        ensures
            r == self.library_spec(),
    {
        self.library
    }
}

} // verus!
