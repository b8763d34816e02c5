//! The startup error taxonomy.
//!
//! Every failure during setup is fatal: the shell aborts with a short
//! diagnostic identifying the failing step. Nothing is retried.

use vstd::prelude::*;

verus! {

/// The four ways release-mode startup can fail. Each aborts the shell.
#[derive(Clone, Copy, Debug, PartialEq, Eq, Structural)]
pub enum SetupError {
    /// The host provides no per-user application data directory.
    PathUnavailable,
    /// The filesystem refused to create the data directory.
    DirectoryCreateFailed,
    /// The bundled backend executable is absent.
    BinaryNotFound,
    /// The OS spawn call failed for another reason.
    SpawnFailed,
}

/// The diagnostic text that identifies the failing step of `e`.
pub open spec fn error_text(e: SetupError) -> Seq<char> {
    match e {
        SetupError::PathUnavailable => "failed to resolve the per-user app data directory"@,
        SetupError::DirectoryCreateFailed => "failed to create the app data directory"@,
        SetupError::BinaryNotFound => "bundled backend executable not found"@,
        SetupError::SpawnFailed => "failed to spawn the backend sidecar"@,
    }
}

impl SetupError {
    /// The short human-readable diagnostic for this error.
    pub fn message(&self) -> (r: String)
        ensures
            r@ == error_text(*self),
    {
        match self {
            SetupError::PathUnavailable => String::from_str(
                "failed to resolve the per-user app data directory",
            ),
            SetupError::DirectoryCreateFailed => String::from_str(
                "failed to create the app data directory",
            ),
            SetupError::BinaryNotFound => String::from_str(
                "bundled backend executable not found",
            ),
            SetupError::SpawnFailed => String::from_str("failed to spawn the backend sidecar"),
        }
    }
}

} // verus!
