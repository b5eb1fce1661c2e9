//! Error kinds surfaced by the lifecycle core.

use vstd::prelude::*;

verus! {

/// Every rejected operation returns one of these kinds, so a failure is
/// always distinguishable from success and from other failures.
#[derive(Clone, Copy, Debug, PartialEq, Eq, Structural)]
pub enum KeepError {
    /// The requested backend's device node is absent from the host.
    BackendUnavailable,
    /// No Keep with the given identity is known to the registry.
    NotFound,
    /// The requested mutation is not in the lifecycle table, or would
    /// overwrite an immutable field.
    IllegalTransition,
    /// The channel to the loader could not be established.
    ConnectFailed,
    /// The channel operation did not complete in time.
    Timeout,
    /// The channel to the loader is closed.
    ChannelClosed,
    /// The Keep is not in the Ready state.
    NotReady,
}

impl KeepError {
    /// A short human-readable name for the error kind.
    pub fn describe(&self) -> (r: &'static str)
        ensures
            (*self is BackendUnavailable) ==> r@ == "backend unavailable"@,
            (*self is NotFound) ==> r@ == "keep not found"@,
            (*self is IllegalTransition) ==> r@ == "illegal transition"@,
            (*self is ConnectFailed) ==> r@ == "connect failed"@,
            (*self is Timeout) ==> r@ == "timeout"@,
            (*self is ChannelClosed) ==> r@ == "channel closed"@,
            (*self is NotReady) ==> r@ == "keep not ready"@,
    {
        match *self {
            KeepError::BackendUnavailable => "backend unavailable",
            KeepError::NotFound => "keep not found",
            KeepError::IllegalTransition => "illegal transition",
            KeepError::ConnectFailed => "connect failed",
            KeepError::Timeout => "timeout",
            KeepError::ChannelClosed => "channel closed",
            KeepError::NotReady => "keep not ready",
        }
    }
}

} // verus!
