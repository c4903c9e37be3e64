//! The data paths: reading, writing and flushing through the engine.
use vstd::prelude::*;

use crate::retry::RetryDriver;
use crate::signal::{is_terminal, suspends, Action, Event, Signal};

verus! {

/// Drives one engine read (or peek) into a caller's buffer.
///
/// A clean close from the peer ends the read with zero bytes. When the
/// engine reports end of stream with no error, the read first waits once on
/// the transport; if the transport itself then reports end of stream and the
/// engine says the same again, the read ends with zero bytes instead of
/// calling the engine in a loop that nothing would ever wake.
#[derive(Clone, Copy, Debug, PartialEq, Eq, Structural)]
pub struct ReadDriver {
    /// The last fill of the transport buffer found end of stream, and the
    /// engine has produced nothing since.
    pub transport_ended: bool,
}

impl ReadDriver {
    pub open spec fn next(self, e: Event<Signal>) -> (ReadDriver, Action) {
        match e {
            Event::Engine(Signal::Done(n)) => (ReadDriver { transport_ended: false }, Action::Finish(n)),
            Event::Engine(Signal::ZeroReturn) => (self, Action::Finish(0)),
            Event::Engine(Signal::WantRead) => (self, Action::Fill),
            Event::Engine(Signal::SyscallNoError) => if self.transport_ended {
                (self, Action::Finish(0))
            } else {
                (self, Action::Fill)
            },
            Event::Engine(_) => (self, Action::Fail),
            Event::Flushed(_) => (self, Action::CallEngine),
            Event::Filled(n) => (ReadDriver { transport_ended: n == 0 }, Action::CallEngine),
        }
    }

    /// The actions taken on a sequence of events, in order.
    pub open spec fn actions(self, evs: Seq<Event<Signal>>) -> Seq<Action>
        decreases evs.len(),
    {
        if evs.len() == 0 {
            seq![]
        } else {
            let (d, a) = self.next(evs[0]);
            seq![a] + d.actions(evs.drop_first())
        }
    }

    /// A driver before its first engine call.
    pub fn new() -> (r: ReadDriver)
        ensures
            !r.transport_ended,
    {
        ReadDriver { transport_ended: false }
    }

    /// Takes in one event and says what to do next.
    pub fn step(&mut self, e: Event<Signal>) -> (r: Action)
        ensures
            (*final(self), r) == old(self).next(e),
    {
        match e {
            Event::Engine(Signal::Done(n)) => {
                self.transport_ended = false;
                Action::Finish(n)
            },
            Event::Engine(Signal::ZeroReturn) => Action::Finish(0),
            Event::Engine(Signal::WantRead) => Action::Fill,
            Event::Engine(Signal::SyscallNoError) => {
                if self.transport_ended {
                    Action::Finish(0)
                } else {
                    Action::Fill
                }
            },
            Event::Engine(_) => Action::Fail,
            Event::Flushed(_) => Action::CallEngine,
            Event::Filled(n) => {
                self.transport_ended = n == 0;
                Action::CallEngine
            },
        }
    }
}

/// Drives one engine write of a caller's whole buffer.
///
/// The engine is always called again with the same buffer: partial progress
/// stays inside the engine. Once the engine has taken the bytes, the
/// transport buffer is flushed, and the accepted count is reported only after
/// that flush has completed.
#[derive(Clone, Copy, Debug, PartialEq, Eq, Structural)]
pub struct WriteDriver {
    /// The count the engine accepted, once it has accepted the write.
    pub accepted: Option<usize>,
}

impl WriteDriver {
    pub open spec fn next(self, e: Event<Signal>) -> (WriteDriver, Action) {
        match e {
            Event::Engine(Signal::Done(n)) => (WriteDriver { accepted: Some(n) }, Action::Flush),
            Event::Engine(Signal::WantWrite) => (self, Action::Flush),
            Event::Engine(_) => (self, Action::Fail),
            Event::Flushed(_) => match self.accepted {
                Some(n) => (self, Action::Finish(n)),
                None => (self, Action::CallEngine),
            },
            Event::Filled(_) => (self, Action::CallEngine),
        }
    }

    /// The actions taken on a sequence of events, in order.
    pub open spec fn actions(self, evs: Seq<Event<Signal>>) -> Seq<Action>
        decreases evs.len(),
    {
        if evs.len() == 0 {
            seq![]
        } else {
            let (d, a) = self.next(evs[0]);
            seq![a] + d.actions(evs.drop_first())
        }
    }

    /// A driver before its first engine call.
    pub fn new() -> (r: WriteDriver)
        ensures
            r.accepted is None,
    {
        WriteDriver { accepted: None }
    }

    /// Takes in one event and says what to do next.
    pub fn step(&mut self, e: Event<Signal>) -> (r: Action)
        ensures
            (*final(self), r) == old(self).next(e),
    {
        match e {
            Event::Engine(Signal::Done(n)) => {
                self.accepted = Some(n);
                Action::Flush
            },
            Event::Engine(Signal::WantWrite) => Action::Flush,
            Event::Engine(_) => Action::Fail,
            Event::Flushed(_) => match self.accepted {
                Some(n) => Action::Finish(n),
                None => Action::CallEngine,
            },
            Event::Filled(_) => Action::CallEngine,
        }
    }
}

/// Drives the engine's flush until it has nothing left to push, then pushes
/// the transport buffer once more so that both levels agree.
///
/// The engine's flush is reported as `Done` when it succeeds and as
/// `WantWrite` when it would block.
#[derive(Clone, Copy, Debug, PartialEq, Eq, Structural)]
pub struct FlushDriver {
    /// The engine's flush has succeeded; only the final transport flush is left.
    pub engine_flushed: bool,
}

impl FlushDriver {
    pub open spec fn next(self, e: Event<Signal>) -> (FlushDriver, Action) {
        match e {
            Event::Engine(Signal::Done(_)) => (FlushDriver { engine_flushed: true }, Action::Flush),
            Event::Engine(Signal::WantWrite) => (self, Action::Flush),
            Event::Engine(_) => (self, Action::Fail),
            Event::Flushed(_) => if self.engine_flushed {
                (self, Action::Finish(0))
            } else {
                (self, Action::CallEngine)
            },
            Event::Filled(_) => (self, Action::CallEngine),
        }
    }

    /// A driver before its first engine call.
    pub fn new() -> (r: FlushDriver)
        ensures
            !r.engine_flushed,
    {
        FlushDriver { engine_flushed: false }
    }

    /// Takes in one event and says what to do next.
    pub fn step(&mut self, e: Event<Signal>) -> (r: Action)
        ensures
            (*final(self), r) == old(self).next(e),
    {
        match e {
            Event::Engine(Signal::Done(_)) => {
                self.engine_flushed = true;
                Action::Flush
            },
            Event::Engine(Signal::WantWrite) => Action::Flush,
            Event::Engine(_) => Action::Fail,
            Event::Flushed(_) => {
                if self.engine_flushed {
                    Action::Finish(0)
                } else {
                    Action::CallEngine
                }
            },
            Event::Filled(_) => Action::CallEngine,
        }
    }
}

/// The events of rounds in which the engine asks for its output to be
/// drained and the transport buffer is then flushed, one round per count.
pub open spec fn drain_rounds(flushed: Seq<usize>) -> Seq<Event<Signal>>
    decreases flushed.len(),
{
    if flushed.len() == 0 {
        seq![]
    } else {
        seq![Event::Engine(Signal::WantWrite), Event::Flushed(flushed[0])] + drain_rounds(
            flushed.drop_first(),
        )
    }
}

/// A flush and a fresh engine call, `k` times.
pub open spec fn flush_and_retry(k: nat) -> Seq<Action>
    decreases k,
{
    if k == 0 {
        seq![]
    } else {
        seq![Action::Flush, Action::CallEngine] + flush_and_retry((k - 1) as nat)
    }
}

/// A write reports exactly the count the engine accepted, once, and only
/// after the flush that follows: however many rounds of draining the engine
/// asked for first, and whatever each flush pushed, the write neither fails
/// nor finishes early, and its only result is the accepted count.
pub proof fn write_reports_accepted_count(
    d: WriteDriver,
    flushed: Seq<usize>,
    n: usize,
    last: usize,
)
    requires
        (d.accepted is None),
    ensures
        d.actions(
            drain_rounds(flushed) + seq![Event::Engine(Signal::Done(n)), Event::Flushed(last)],
        ) == flush_and_retry(flushed.len()) + seq![Action::Flush, Action::Finish(n)],
    decreases flushed.len(),
{
    let tail = seq![Event::Engine(Signal::Done(n)), Event::Flushed(last)];
    let evs = drain_rounds(flushed) + tail;
    if flushed.len() == 0 {
        assert(evs =~= tail);
        assert(evs.drop_first() =~= seq![Event::Flushed(last)]);
        assert(evs.drop_first().drop_first() =~= Seq::<Event<Signal>>::empty());
        let d1 = WriteDriver { accepted: Some(n) };
        assert(d1.actions(evs.drop_first()) =~= seq![Action::Finish(n)] + d1.actions(
            evs.drop_first().drop_first(),
        ));
        assert(d.actions(evs) =~= flush_and_retry(0) + seq![Action::Flush, Action::Finish(n)]);
    } else {
        let rest = drain_rounds(flushed.drop_first()) + tail;
        write_reports_accepted_count(d, flushed.drop_first(), n, last);
        assert(evs =~= seq![Event::Engine(Signal::WantWrite), Event::Flushed(flushed[0])] + rest);
        assert(evs.drop_first().drop_first() =~= rest);
        assert(d.actions(evs.drop_first()) =~= seq![Action::CallEngine] + d.actions(rest));
        assert(d.actions(evs) =~= flush_and_retry(flushed.len()) + seq![
            Action::Flush,
            Action::Finish(n),
        ]);
    }
}

/// Once the peer has closed the session cleanly, a read returns zero bytes,
/// not an error, in whatever state it starts, and leaves that state as it
/// was, so a further read returns zero bytes again.
pub proof fn clean_close_reads_zero(d: ReadDriver)
    ensures
        d.next(Event::Engine(Signal::ZeroReturn)) == (d, Action::Finish(0)),
        d.actions(seq![Event::Engine(Signal::ZeroReturn)]) == seq![Action::Finish(0)],
{
    reveal_with_fuel(ReadDriver::actions, 2);
    let e = seq![Event::Engine(Signal::ZeroReturn)];
    assert(e.drop_first() =~= Seq::<Event<Signal>>::empty());
    assert(d.actions(e) =~= seq![Action::Finish(0)]);
}

/// No driver calls the engine again straight after an engine outcome: each
/// outcome is answered by waiting on the transport or by ending the
/// operation, so no operation can spin without the transport moving.
pub proof fn engine_outcomes_never_spin(
    r: RetryDriver,
    rd: ReadDriver,
    w: WriteDriver,
    f: FlushDriver,
    s: Signal,
)
    ensures
        suspends(r.next(Event::Engine(s)).1) || is_terminal(r.next(Event::Engine(s)).1),
        suspends(rd.next(Event::Engine(s)).1) || is_terminal(rd.next(Event::Engine(s)).1),
        suspends(w.next(Event::Engine(s)).1) || is_terminal(w.next(Event::Engine(s)).1),
        suspends(f.next(Event::Engine(s)).1) || is_terminal(f.next(Event::Engine(s)).1),
{
}

/// When the engine reports end of stream and the transport confirms it, the
/// read ends with zero bytes after a single wait.
pub proof fn read_ends_at_transport_end(d: ReadDriver)
    requires
        !d.transport_ended,
    ensures
        d.actions(
            seq![
                Event::Engine(Signal::SyscallNoError),
                Event::Filled(0),
                Event::Engine(Signal::SyscallNoError),
            ],
        ) == seq![Action::Fill, Action::CallEngine, Action::Finish(0)],
{
    reveal_with_fuel(ReadDriver::actions, 4);
    let evs = seq![
        Event::Engine(Signal::SyscallNoError),
        Event::Filled(0),
        Event::Engine(Signal::SyscallNoError),
    ];
    let e1 = evs.drop_first();
    let e2 = e1.drop_first();
    assert(e1 =~= seq![Event::Filled(0), Event::Engine(Signal::SyscallNoError)]);
    assert(e2 =~= seq![Event::Engine(Signal::SyscallNoError)]);
    assert(e2.drop_first() =~= Seq::<Event<Signal>>::empty());
    let ended = ReadDriver { transport_ended: true };
    assert(ended.actions(e2) =~= seq![Action::Finish(0)]);
    assert(ended.actions(e1) =~= seq![Action::CallEngine, Action::Finish(0)]);
    assert(d.actions(evs) =~= seq![Action::Fill, Action::CallEngine, Action::Finish(0)]);
}

} // verus!
