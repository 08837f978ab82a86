//! Error taxonomy for environment operations, with classification predicates.
//!
//! Errors form a flat set of kinds; each carries a rendered source message
//! where one applies.  Two predicates classify backend failures by the
//! package database's exit code so that callers can present actionable
//! messages without inspecting the error's internals.

use vstd::prelude::*;

verus! {

/// Exit code of the package-database binary: the lockfile's systems do not
/// include the host system.
pub const LOCKFILE_INCOMPATIBLE_SYSTEM: u64 = 122;

/// Exit code of the package-database binary: a package failed to build.
pub const PACKAGE_BUILD_FAILURE: u64 = 121;

/// Exit code of the package-database binary: a package failed to evaluate.
pub const PACKAGE_EVAL_FAILURE: u64 = 105;

/// Exit code of the package-database binary: a package does not support the
/// host system.
pub const PACKAGE_EVAL_INCOMPATIBLE_SYSTEM: u64 = 106;

/// A structured failure reported by the package-database binary:
/// its exit code together with the message it printed.
#[derive(Debug)]
pub struct PkgDbError {
    pub exit_code: u64,
    pub category_message: String,
}

/// Outcome of invoking the package-database binary that did not produce a
/// usable result: either a structured error with an exit code, or some other
/// failure (the binary could not be run, its output was not understood).
#[derive(Debug)]
pub enum CallPkgDbError {
    PkgDbError(PkgDbError),
    Other(String),
}

/// Failure of the resolver or builder facade.
#[derive(Debug)]
pub enum LockedManifestError {
    /// `manifest lock` failed.
    LockManifest(CallPkgDbError),
    /// `manifest update` failed.
    UpdateManifest(CallPkgDbError),
    /// `buildenv` failed.
    BuildEnv(CallPkgDbError),
    /// The catalog client failed to resolve.
    ResolveFailed(String),
}

/// Every failure a caller of an environment operation can see.
#[derive(Debug)]
pub enum CoreEnvironmentError {
    // immutable manifest errors
    ModifyToml(String),
    DeserializeManifest(String),

    // transaction errors
    MakeSandbox(String),
    WriteLockfile(String),
    MakeTemporaryEnv(String),
    /// A backup directory from a prior transaction exists; it must be
    /// resolved out of band before any further mutation.
    PriorTransaction(String),
    BackupTransaction(String),
    AbortTransaction(String),
    Move(String),
    RemoveBackup(String),

    // mutable manifest errors
    OpenManifest(String),
    UpdateManifest(String),

    // resolver and builder errors
    LockedManifest(LockedManifestError),
    BadLockfilePath(String),
    ParseUpgradeOutput(String),
    UpgradeFailed(CallPkgDbError),

    // policy errors
    ContainerizeUnsupportedSystem(String),
    CatalogClientMissing,
}

impl CoreEnvironmentError {
    /// The package-database exit code carried by this error, if the error
    /// is a structured builder failure.
    pub open spec fn spec_pkgdb_exit_code(&self) -> Option<u64> {
        match self {
            CoreEnvironmentError::LockedManifest(
                LockedManifestError::BuildEnv(CallPkgDbError::PkgDbError(p)),
            ) => Some(p.exit_code),
            _ => None,
        }
    }

    /// If the error contains a structured package-database error with an
    /// exit code, return the code; otherwise return None.
    pub fn pkgdb_exit_code(&self) -> (r: Option<u64>)
        ensures
            r == self.spec_pkgdb_exit_code(),
    {
        match self {
            CoreEnvironmentError::LockedManifest(
                LockedManifestError::BuildEnv(CallPkgDbError::PkgDbError(p)),
            ) => Some(p.exit_code),
            _ => None,
        }
    }

    /// The build failed because the environment's lockfile does not cover
    /// the host system.
    pub fn is_incompatible_system_error(&self) -> (r: bool)
        ensures
            r == (self.spec_pkgdb_exit_code() == Some(LOCKFILE_INCOMPATIBLE_SYSTEM)),
    {
        match self.pkgdb_exit_code() {
            Some(code) => code == LOCKFILE_INCOMPATIBLE_SYSTEM,
            None => false,
        }
    }

    /// The build failed because a package cannot be built or evaluated on
    /// the host system.
    pub fn is_incompatible_package_error(&self) -> (r: bool)
        ensures
            r == match self.spec_pkgdb_exit_code() {
                Some(code) => code == PACKAGE_BUILD_FAILURE || code == PACKAGE_EVAL_FAILURE
                    || code == PACKAGE_EVAL_INCOMPATIBLE_SYSTEM,
                None => false,
            },
    {
        match self.pkgdb_exit_code() {
            Some(code) => code == PACKAGE_BUILD_FAILURE || code == PACKAGE_EVAL_FAILURE
                || code == PACKAGE_EVAL_INCOMPATIBLE_SYSTEM,
            None => false,
        }
    }
}

} // verus!
