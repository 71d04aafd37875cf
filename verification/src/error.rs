//! The shared error taxonomy of the bridge.
//!
//! Every failure surfaced to the guest maps to one of a fixed, narrow set of
//! categories; no processor-internal detail leaks across the boundary.

use vstd::prelude::*;

verus! {

/// An error returned by a bridge operation.
#[derive(Clone, Copy, Debug, PartialEq, Eq, Structural)]
pub enum BridgeError {
    /// The requested name is absent from the capability table.
    NotFound,
    /// The requested open mode conflicts with the capability's registered
    /// permission mode, or an operation conflicts with the mode a handle
    /// was granted at open time.
    PermissionDenied,
    /// A structural operation was attempted against the fixed namespace, or
    /// a positional operation against a sequential stream.
    Unsupported,
    /// The registered processor rejected its input; the capability's state
    /// is left unchanged.
    ProcessingFailure,
    /// A synchronization guard around a capability's state was poisoned by
    /// an earlier crash inside its processor; the state is untrustworthy.
    Internal,
}

/// An error returned when registering a capability in a table.
#[derive(Clone, Copy, Debug, PartialEq, Eq, Structural)]
pub enum RegisterError {
    /// The name is already present in the table.
    DuplicateName,
    /// The table has been sealed; no further registration is possible.
    Sealed,
}

} // verus!
