//! The error taxonomy of the orchestrator, and how a secondary cleanup
//! failure is attached to — never replaces — the primary failure.

use vstd::prelude::*;
use crate::process::FailureCause;

verus! {

/// Every failure class a run can end in.
#[derive(Clone, Copy, PartialEq, Eq, Structural, Debug)]
pub enum ErrorKind {
    /// The host could not create a process.
    SpawnError,
    /// The configured package manager is not a recognized one.
    InvalidConfig,
    /// The asset-bundling stage of the build failed.
    AssetBuildFailed,
    /// The native compile stage of the build failed.
    CompileFailed,
    /// The CPU architecture is outside the supported set.
    UnsupportedPlatform,
    /// The packaging stage of the build failed.
    PackageFailed,
    /// Removal of intermediate build state failed.
    CleanupFailed,
    /// A process exited with a failure not otherwise classified.
    SubprocessError,
}

/// The human-readable detail of each error kind.
pub open spec fn message_of(kind: ErrorKind) -> Seq<char> {
    match kind {
        ErrorKind::SpawnError => "SpawnError: failed to create the process"@,
        ErrorKind::InvalidConfig => "Invalid velox config"@,
        ErrorKind::AssetBuildFailed => "BundlerError: Failed to build assets."@,
        ErrorKind::CompileFailed => "BundlerError: Failed to build binary."@,
        ErrorKind::UnsupportedPlatform => (
            "Unsupported Arch: Your current cpu architecture is not supported."@
        ),
        ErrorKind::PackageFailed => "BundlerError: Failed to build installer."@,
        ErrorKind::CleanupFailed => "CleanupError: failed to remove intermediate build state"@,
        ErrorKind::SubprocessError => "SubprocessError: a child process failed"@,
    }
}

impl ErrorKind {
    /// The detail string written to the error stream for this kind.
    pub fn message(&self) -> (r: String)
        ensures
            r@ == message_of(*self),
    {
        match self {
            ErrorKind::SpawnError => "SpawnError: failed to create the process".to_owned(),
            ErrorKind::InvalidConfig => "Invalid velox config".to_owned(),
            ErrorKind::AssetBuildFailed => "BundlerError: Failed to build assets.".to_owned(),
            ErrorKind::CompileFailed => "BundlerError: Failed to build binary.".to_owned(),
            ErrorKind::UnsupportedPlatform => (
                "Unsupported Arch: Your current cpu architecture is not supported.".to_owned()
            ),
            ErrorKind::PackageFailed => "BundlerError: Failed to build installer.".to_owned(),
            ErrorKind::CleanupFailed => (
                "CleanupError: failed to remove intermediate build state".to_owned()
            ),
            ErrorKind::SubprocessError => "SubprocessError: a child process failed".to_owned(),
        }
    }

    /// Whether retry can ever be meaningful for this kind. Only an
    /// unsupported CPU architecture is a truly unrecoverable condition; it
    /// is surfaced through the same error channel as every other failure.
    pub fn is_unrecoverable(&self) -> (r: bool)
        ensures
            r == (*self is UnsupportedPlatform),
    {
        match self {
            ErrorKind::UnsupportedPlatform => true,
            _ => false,
        }
    }
}

/// The failure a build-pipeline run ends in: the primary error that decides
/// the exit classification, the exit cause of the stage that triggered it
/// (when a stage did), and a secondary note recording whether the cleanup
/// attempted on the way out itself failed.
#[derive(Clone, Copy, PartialEq, Eq, Debug)]
pub struct PipelineError {
    pub primary: ErrorKind,
    pub cause: Option<FailureCause>,
    pub cleanup_failed: bool,
}

} // verus!
