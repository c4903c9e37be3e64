//! What the engine reports, what the transport reports, and what to do next.
use vstd::prelude::*;

verus! {

/// The outcome of one call into the engine.
#[derive(Clone, Copy, Debug, PartialEq, Eq, Structural)]
pub enum Signal {
    /// The call completed; the count is bytes moved (zero where the call moves none).
    Done(usize),
    /// The engine needs more input before the call can make progress.
    WantRead,
    /// The engine needs its output drained before the call can make progress.
    WantWrite,
    /// The peer closed the TLS session cleanly (close_notify was received).
    ZeroReturn,
    /// The engine saw end of stream from the transport, with no error to report.
    SyscallNoError,
    /// Anything else: the call failed for good.
    Fatal,
}

/// The outcome of one call to the engine's shutdown.
#[derive(Clone, Copy, Debug, PartialEq, Eq, Structural)]
pub enum ShutdownSignal {
    /// Our close_notify has been queued.
    Sent,
    /// The peer's close_notify has been observed.
    Received,
    WantRead,
    WantWrite,
    /// The transport was closed under the engine without a close_notify.
    SyscallNoError,
    Fatal,
}

/// What a machine is told: an engine outcome, or the result of a transport step.
#[derive(Clone, Copy, Debug, PartialEq, Eq, Structural)]
pub enum Event<S> {
    /// The engine call returned this outcome.
    Engine(S),
    /// The outbound transport buffer was flushed; the count is bytes sent.
    Flushed(usize),
    /// The inbound transport buffer was filled; the count is bytes received,
    /// zero meaning end of stream.
    Filled(usize),
}

/// What the caller must do next.
#[derive(Clone, Copy, Debug, PartialEq, Eq, Structural)]
pub enum Action {
    /// Make the same engine call again.
    CallEngine,
    /// Flush the outbound transport buffer (suspends), then report `Flushed`.
    Flush,
    /// Fill the inbound transport buffer (suspends), then report `Filled`.
    Fill,
    /// The operation succeeded with this count.
    Finish(usize),
    /// The operation failed with the engine's error.
    Fail,
    /// The close exchange is over: shut down the transport's send side.
    CloseTransport,
}

/// Whether the action ends the operation.
pub open spec fn is_terminal(a: Action) -> bool {
    a is Finish || a is Fail || a is CloseTransport
}

/// Whether the action suspends on the transport.
pub open spec fn suspends(a: Action) -> bool {
    a is Flush || a is Fill
}

} // verus!
