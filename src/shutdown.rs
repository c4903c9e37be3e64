//! The two-phase close_notify exchange.
use vstd::prelude::*;

use crate::signal::{is_terminal, suspends, Action, Event, ShutdownSignal};

verus! {

/// Where the close exchange stands.
#[derive(Clone, Copy, Debug, PartialEq, Eq, Structural)]
pub enum ClosePhase {
    Idle,
    /// Our close_notify has been queued.
    CloseSent,
    /// The peer's close_notify has been observed: the exchange succeeded.
    CloseReceived,
    /// The transport went away without a close_notify: tolerated.
    PeerGone,
    /// The engine failed: the exchange failed.
    Aborted,
}

/// Drives the engine's shutdown until the exchange is over; the caller then
/// shuts down the transport's send side.
#[derive(Clone, Copy, Debug, PartialEq, Eq, Structural)]
pub struct ShutdownDriver {
    pub phase: ClosePhase,
}

impl ShutdownDriver {
    pub open spec fn next(self, e: Event<ShutdownSignal>) -> (ShutdownDriver, Action) {
        match e {
            Event::Engine(ShutdownSignal::Sent) => (
                ShutdownDriver { phase: ClosePhase::CloseSent },
                Action::Flush,
            ),
            Event::Engine(ShutdownSignal::Received) => (
                ShutdownDriver { phase: ClosePhase::CloseReceived },
                Action::CloseTransport,
            ),
            Event::Engine(ShutdownSignal::WantWrite) => (self, Action::Flush),
            Event::Engine(ShutdownSignal::WantRead) => (self, Action::Fill),
            Event::Engine(ShutdownSignal::SyscallNoError) => (
                ShutdownDriver { phase: ClosePhase::PeerGone },
                Action::CloseTransport,
            ),
            Event::Engine(ShutdownSignal::Fatal) => (
                ShutdownDriver { phase: ClosePhase::Aborted },
                Action::Fail,
            ),
            Event::Flushed(_) => (self, Action::CallEngine),
            Event::Filled(_) => (self, Action::CallEngine),
        }
    }

    /// The actions taken on a sequence of events, in order.
    pub open spec fn actions(self, evs: Seq<Event<ShutdownSignal>>) -> Seq<Action>
        decreases evs.len(),
    {
        if evs.len() == 0 {
            seq![]
        } else {
            let (d, a) = self.next(evs[0]);
            seq![a] + d.actions(evs.drop_first())
        }
    }

    /// A driver before the first call to the engine's shutdown.
    pub fn new() -> (r: ShutdownDriver)
        ensures
            r.phase == ClosePhase::Idle,
    {
        ShutdownDriver { phase: ClosePhase::Idle }
    }

    /// Takes in one event and says what to do next.
    pub fn step(&mut self, e: Event<ShutdownSignal>) -> (r: Action)
        ensures
            (*final(self), r) == old(self).next(e),
    {
        match e {
            Event::Engine(ShutdownSignal::Sent) => {
                self.phase = ClosePhase::CloseSent;
                Action::Flush
            },
            Event::Engine(ShutdownSignal::Received) => {
                self.phase = ClosePhase::CloseReceived;
                Action::CloseTransport
            },
            Event::Engine(ShutdownSignal::WantWrite) => Action::Flush,
            Event::Engine(ShutdownSignal::WantRead) => Action::Fill,
            Event::Engine(ShutdownSignal::SyscallNoError) => {
                self.phase = ClosePhase::PeerGone;
                Action::CloseTransport
            },
            Event::Engine(ShutdownSignal::Fatal) => {
                self.phase = ClosePhase::Aborted;
                Action::Fail
            },
            Event::Flushed(_) => Action::CallEngine,
            Event::Filled(_) => Action::CallEngine,
        }
    }
}

/// Shutdown fails only when the engine reports a fatal error: on any other
/// run of events, including a transport closed without a close_notify, it
/// never fails.
pub proof fn shutdown_fails_only_on_fatal(d: ShutdownDriver, evs: Seq<Event<ShutdownSignal>>)
    requires
        forall|i: int| 0 <= i < evs.len() ==> evs[i] != Event::Engine(ShutdownSignal::Fatal),
    ensures
        d.actions(evs).len() == evs.len(),
        forall|i: int| 0 <= i < evs.len() ==> d.actions(evs)[i] != Action::Fail,
    decreases evs.len(),
{
    if evs.len() > 0 {
        let (d1, a) = d.next(evs[0]);
        let rest = evs.drop_first();
        assert forall|i: int| 0 <= i < rest.len() implies rest[i] != Event::Engine(
            ShutdownSignal::Fatal,
        ) by {
            assert(rest[i] == evs[i + 1]);
        }
        shutdown_fails_only_on_fatal(d1, rest);
        assert(a != Action::Fail);
        assert forall|i: int| 0 <= i < evs.len() implies d.actions(evs)[i] != Action::Fail by {
            if i > 0 {
                assert(d.actions(evs)[i] == d1.actions(rest)[i - 1]);
            }
        }
    }
}

/// A transport closed by the peer without a close_notify ends the exchange
/// as a tolerated close: the caller goes on to close its own side.
pub proof fn abrupt_close_is_tolerated(d: ShutdownDriver)
    ensures
        d.next(Event::Engine(ShutdownSignal::SyscallNoError)) == (
            ShutdownDriver { phase: ClosePhase::PeerGone },
            Action::CloseTransport,
        ),
{
}

/// Each outcome of the engine's shutdown is answered by waiting on the
/// transport or by ending the exchange, never by calling the engine again
/// at once.
pub proof fn shutdown_outcomes_never_spin(d: ShutdownDriver, s: ShutdownSignal)
    ensures
        suspends(d.next(Event::Engine(s)).1) || is_terminal(d.next(Event::Engine(s)).1),
{
}

} // verus!
