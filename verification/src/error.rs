//! Error taxonomy for the focus tracker.
//!
//! Per-event irregularities (a vanished window, a malformed icon payload)
//! are absorbed by the callers and degrade to missing fields; only
//! source-establishment failures are reported through these variants.

use vstd::prelude::*;
use vstd::string::StringExecFns;

verus! {

/// Terminal and recoverable error kinds of the focus tracker.
#[derive(Debug)]
pub enum FerrousFocusError {
    /// Generic error carrying a caller-supplied message.
    Error(String),
    /// A shared lock was abandoned mid-panic on the producer side.
    StdSyncPoisonError(String),
    /// The platform or compositor combination is not implemented.
    Unsupported,
    /// Accessibility or automation permission was refused.
    PermissionDenied,
    /// No permission for accessibility features.
    NoPermission,
    /// No windowing session is reachable.
    NoDisplay,
    /// Not running inside an interactive desktop session.
    NotInteractiveSession,
    /// Generic OS-call failure with diagnostic text.
    Platform(String),
}

/// The human-readable description `message` returns for each variant.
pub open spec fn message_of(e: FerrousFocusError) -> Seq<char> {
    match e {
        FerrousFocusError::Error(s) => s@,
        FerrousFocusError::StdSyncPoisonError(s) => "StdSyncPoisonError "@ + s@,
        FerrousFocusError::Unsupported => "Unsupported"@,
        FerrousFocusError::PermissionDenied => "Permission denied"@,
        FerrousFocusError::NoPermission => "No permission for accessibility features"@,
        FerrousFocusError::NoDisplay => "No display available"@,
        FerrousFocusError::NotInteractiveSession => "Not running in interactive session"@,
        FerrousFocusError::Platform(s) => "Platform error: "@ + s@,
    }
}

impl FerrousFocusError {
    /// Wrap a displayable value's text in the generic `Error` variant.
    pub fn new<S: core::fmt::Display>(err: S) -> (r: Self)
        ensures
            r is Error,
    {
        FerrousFocusError::Error(err.to_string())
    }

    /// The human-readable description of this error.
    pub fn message(&self) -> (r: String)
        ensures
            r@ == message_of(*self),
    {
        match self {
            FerrousFocusError::Error(s) => s.clone(),
            FerrousFocusError::StdSyncPoisonError(s) => "StdSyncPoisonError ".to_string().concat(
                s.as_str(),
            ),
            FerrousFocusError::Unsupported => "Unsupported".to_string(),
            FerrousFocusError::PermissionDenied => "Permission denied".to_string(),
            FerrousFocusError::NoPermission => {
                "No permission for accessibility features".to_string()
            },
            FerrousFocusError::NoDisplay => "No display available".to_string(),
            FerrousFocusError::NotInteractiveSession => {
                "Not running in interactive session".to_string()
            },
            FerrousFocusError::Platform(s) => "Platform error: ".to_string().concat(s.as_str()),
        }
    }
}

pub type FerrousFocusResult<T> = Result<T, FerrousFocusError>;

} // verus!
