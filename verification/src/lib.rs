//! Native-side helper core for a desktop document viewer: a file-lock table
//! that tracks per-path ownership of open handles, an elevated-script runner
//! protocol that reports results through a side-channel log file and cleans up
//! its temporary artifacts on every path, and a privileged printer lifecycle
//! built on top of the runner.

use vstd::prelude::*;

pub mod defaults;
pub mod elevate;
pub mod locks;
pub mod payload;
pub mod printer;
pub mod printing;
pub mod startup;
pub mod text;

verus! {

/// Outcome taxonomy for the privileged-operation subsystem. Every failure is
/// reported to the caller as one of these; nothing here terminates the process.
pub enum OpsError {
    /// A file open/read/write/delete failed; carries the full message.
    IoError(String),
    /// The elevated subprocess could not be started; carries the full message.
    LaunchFailure(String),
    /// The privileged script itself threw; carries the full message.
    ScriptError(String),
    /// The elevated script produced no log output, most often because the
    /// privilege prompt was declined.
    NoOutput,
    /// The operation has no implementation on the host platform.
    UnsupportedPlatform,
}

/// Model of an `OpsError` with the carried text as a sequence of characters.
pub enum ErrorModel {
    IoError(Seq<char>),
    LaunchFailure(Seq<char>),
    ScriptError(Seq<char>),
    NoOutput,
    UnsupportedPlatform,
}

impl View for OpsError {
    type V = ErrorModel;

    open spec fn view(&self) -> ErrorModel {
        match self {
            OpsError::IoError(m) => ErrorModel::IoError(m@),
            OpsError::LaunchFailure(m) => ErrorModel::LaunchFailure(m@),
            OpsError::ScriptError(m) => ErrorModel::ScriptError(m@),
            OpsError::NoOutput => ErrorModel::NoOutput,
            OpsError::UnsupportedPlatform => ErrorModel::UnsupportedPlatform,
        }
    }
}

/// The text an `ErrorModel` describes itself with.
pub open spec fn error_text(e: ErrorModel) -> Seq<char> {
    match e {
        ErrorModel::IoError(m) => m,
        ErrorModel::LaunchFailure(m) => m,
        ErrorModel::ScriptError(m) => m,
        ErrorModel::NoOutput => "Elevated script produced no output - user may have cancelled the privilege prompt"@,
        ErrorModel::UnsupportedPlatform => "Operation is not supported on this platform"@,
    }
}

impl OpsError {
    /// Descriptive text surfaced to the caller at the command boundary.
    pub fn message(&self) -> (r: String)
        ensures
            r@ == error_text(self@),
    {
        match self {
            OpsError::IoError(m) => m.clone(),
            OpsError::LaunchFailure(m) => m.clone(),
            OpsError::ScriptError(m) => m.clone(),
            OpsError::NoOutput => String::from_str(
                "Elevated script produced no output - user may have cancelled the privilege prompt",
            ),
            OpsError::UnsupportedPlatform => String::from_str(
                "Operation is not supported on this platform",
            ),
        }
    }
}

} // verus!
