//! The failures a controller reports.

use vstd::prelude::*;

verus! {

/// Why an operation of the controller did not go through. Each stage of a log
/// write and each gate of a verification has a kind of its own, so a caller
/// can tell which one refused.
#[derive(Clone, Copy, Debug, PartialEq, Eq, Structural)]
pub enum Error {
    /// The storage of a log could not be opened.
    StorageInit,
    /// The signing provider failed to sign or to rotate.
    KeyManager,
    /// The key event log did not take the anchoring event, or took one that
    /// does not extend the log as the controller knows it.
    AnchorFailed,
    /// The credential has no events.
    NoSuchCredential,
    /// The event does not follow from the state of the log it is meant for.
    InvalidTransition,
    /// The credential was never issued.
    NotYetIssued,
    /// The credential was revoked.
    CredentialRevoked,
    /// The key event log cannot resolve the anchor a credential event names.
    HistoryUnavailable,
    /// The key event log holds no key state at all.
    NoKeyData,
}

} // verus!
