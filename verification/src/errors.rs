use vstd::prelude::*;

verus! {

/// The error kinds a session can report.
///
/// A fatal error unwinds the whole session; a recoverable one is logged and
/// the control loop continues unaffected.
#[derive(Clone, Copy, Debug, PartialEq, Eq, Structural)]
pub enum SessionError {
    /// The application was not found in the chosen install scope, or a data
    /// directory or template disk image could not be provisioned.
    StartupError,
    /// The control or agent channel could not be connected, or its version
    /// exchange failed or timed out.
    ProtocolHandshakeError,
    /// The guest rejected a shared-directory mount.
    MountError,
    /// The guest rejected the request to run the application.
    RuntimeRequestError,
    /// The agent sent an unrecognized event kind (a version mismatch).
    RuntimeProtocolViolation,
    /// A host notification call failed.
    NotificationDeliveryError,
    /// A host clipboard write failed.
    ClipboardStoreError,
    /// The process handle of the virtual machine was lost unexpectedly.
    ProcessWaitError,
}

impl SessionError {
    /// Whether this error unwinds the whole session. Only notification
    /// delivery and clipboard store failures are recoverable.
    pub open spec fn spec_is_fatal(self) -> bool {
        !(self is NotificationDeliveryError || self is ClipboardStoreError)
    }

    pub fn is_fatal(&self) -> (r: bool)
        ensures
            r == self.spec_is_fatal(),
    {
        match self {
            SessionError::NotificationDeliveryError => false,
            SessionError::ClipboardStoreError => false,
            _ => true,
        }
    }
}

} // verus!
