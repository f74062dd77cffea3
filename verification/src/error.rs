//! The closed set of errors that socket operations report.

use vstd::prelude::*;

verus! {

/// Why a socket operation did not succeed.
///
/// `InvalidState`, `NotInProgress` and `NotSupported` are decided by the socket
/// itself. `WouldBlock` is the transient answer of a pending operation that has
/// not settled yet. Every other variant is a definitive failure that the
/// platform reported and that the socket passes on unchanged.
#[derive(Clone, Copy, Debug, PartialEq, Eq, Hash, Structural)]
pub enum ErrorCode {
    Unknown,
    AccessDenied,
    NotSupported,
    InvalidArgument,
    OutOfMemory,
    Timeout,
    ConcurrencyConflict,
    NotInProgress,
    WouldBlock,
    InvalidState,
    NewSocketLimit,
    AddressNotBindable,
    AddressInUse,
    RemoteUnreachable,
    ConnectionRefused,
    ConnectionReset,
    ConnectionAborted,
    DatagramTooLarge,
    NameUnresolvable,
    TemporaryResolverFailure,
    PermanentResolverFailure,
}

impl ErrorCode {
    /// Whether this is the transient answer: the operation is still pending and
    /// the caller should poll again.
    pub open spec fn is_transient(self) -> bool {
        self == ErrorCode::WouldBlock
    }

    /// Whether the caller misused the lifecycle: the operation is not legal in
    /// the socket's state, or a finish had no matching start.
    pub open spec fn is_misuse(self) -> bool {
        self == ErrorCode::InvalidState || self == ErrorCode::NotInProgress
    }

    /// Tells whether the operation is still pending.
    pub fn transient(self) -> (r: bool)
        ensures
            r == self.is_transient(),
    {
        matches!(self, ErrorCode::WouldBlock)
    }

    /// Tells whether the caller should try again differently, as opposed to a
    /// missing feature or a refusal by the network.
    pub fn misuse(self) -> (r: bool)
        ensures
            r == self.is_misuse(),
    {
        matches!(self, ErrorCode::InvalidState | ErrorCode::NotInProgress)
    }
}

} // verus!
