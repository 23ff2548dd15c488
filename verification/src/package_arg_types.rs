//! The package-argument types of the `ds-package-arg` package: Entropic
//! and npm registry packages, directories and aliases.

use vstd::prelude::*;
use crate::host::Host;
use crate::version::Version;

verus! {

/// Why a package argument failed.
#[derive(Debug, Clone, Copy, PartialEq, Eq)]
pub enum PackageArgError {
    ParseError,
}

impl PackageArgError {
    /// The message of the error, as its display.
    pub fn message(&self) -> (r: String)
        ensures
            r@ == "Failed to parse package arg."@,
    {
        "Failed to parse package arg.".to_owned()
    }
}

/// What a registry argument requests: a dist-tag, an exact version or a
/// version range.
#[derive(Debug, PartialEq, Eq)]
pub enum VersionReq {
    Tag(String),
    Version(Version),
    Range(crate::version::VersionReq),
}

/// A package argument.
#[derive(Debug, PartialEq, Eq)]
pub enum PackageArg {
    /// A directory on disk.
    Dir { path: String },
    /// Another package argument under a new name.
    Alias { name: String, package: Box<PackageArg> },
    /// A package of an Entropic registry.
    Entropic { host: Host, name: String, requested: Option<VersionReq> },
    /// A package of the npm registry, optionally scoped.
    Npm { scope: Option<String>, name: String, requested: Option<VersionReq> },
}

} // verus!
