//! Domain errors returned by the use cases.

use vstd::prelude::*;

verus! {

/// Stable error codes, one per failure the application reports.
#[derive(Clone, Copy, Debug, PartialEq, Eq, Structural)]
pub enum DomainErrorCode {
    InternalError,
    IdentityUsernameInvalid,
    IdentityKeyGenerationFailed,
    TransportConnectionFailed,
    TransportPeerNotTrusted,
    PairingSessionExists,
    PairingSessionNotFound,
    PairingPinMismatch,
    PairingPinExpired,
    PairingTooManyAttempts,
    ClipboardPayloadTooLarge,
    WorkspaceMirrorImmutable,
    WorkspaceNotOwner,
    WorkspaceConflict,
}

/// An error code together with a human readable message.
#[derive(Clone, Debug)]
pub struct DomainError {
    pub code: DomainErrorCode,
    pub message: String,
}

impl DomainError {
    /// Builds an error from a code and a message.
    pub fn new(code: DomainErrorCode, message: &str) -> (e: DomainError)
        ensures
            e.code == code,
            e.message@ == message@,
    {
        DomainError { code, message: message.to_owned() }
    }
}

/// Whether `r` failed with error code `c`.
pub open spec fn fails_with<T>(r: Result<T, DomainError>, c: DomainErrorCode) -> bool {
    r matches Err(e) && e.code == c
}

} // verus!
