use vstd::prelude::*;

verus! {

/// The kinds of transport failure that the relay's rules tell apart.
#[derive(Clone, Copy, Debug, PartialEq, Eq, Structural)]
pub enum IoFailure {
    /// The address or port text could not be understood.
    InvalidInput,
    /// The local address is already bound by another endpoint.
    AddrInUse,
    /// The peer reset the connection.
    ConnectionReset,
    /// Anything else.
    Other,
}

/// A failure that ends a process before it enters its main loop.
#[derive(Clone, Copy, Debug, PartialEq, Eq, Structural)]
pub enum StartupError {
    /// The address or port given could not be parsed.
    InvalidAddress,
    /// The port is already bound by a live endpoint.
    AddressInUse,
    /// Any other transport failure.
    Io,
}

/// Exit status of a process that ends normally or on an interrupt.
pub const EXIT_OK: i32 = 0;

/// Exit status of a process that ends on a failure.
pub const EXIT_FAILURE: i32 = 1;

/// The startup error that a failure to bind the listening endpoint means.
pub fn classify_bind_failure(kind: IoFailure) -> (r: StartupError)
    ensures
        kind == IoFailure::InvalidInput <==> r == StartupError::InvalidAddress,
        kind == IoFailure::AddrInUse <==> r == StartupError::AddressInUse,
        kind != IoFailure::InvalidInput && kind != IoFailure::AddrInUse <==> r == StartupError::Io,
{
    match kind {
        IoFailure::InvalidInput => StartupError::InvalidAddress,
        IoFailure::AddrInUse => StartupError::AddressInUse,
        _ => StartupError::Io,
    }
}

/// The startup error that a failure to connect to the server means: only a
/// malformed address is told apart, every other failure is a transport error.
pub fn classify_connect_failure(kind: IoFailure) -> (r: StartupError)
    ensures
        kind == IoFailure::InvalidInput <==> r == StartupError::InvalidAddress,
        kind != IoFailure::InvalidInput <==> r == StartupError::Io,
{
    match kind {
        IoFailure::InvalidInput => StartupError::InvalidAddress,
        _ => StartupError::Io,
    }
}

impl StartupError {
    /// The status a process exits with on this error: always a failure.
    pub fn exit_code(&self) -> (r: i32)
        ensures
            r == EXIT_FAILURE,
    {
        EXIT_FAILURE
    }
}

} // verus!
