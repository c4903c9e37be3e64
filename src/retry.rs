//! The generic retry driver, used by the handshake, peek and early-data calls.
use vstd::prelude::*;

use crate::signal::{Action, Event, Signal};

verus! {

/// Drives one engine call to completion: on a want signal it first flushes
/// pending output, and reads from the transport only if nothing was flushed.
#[derive(Clone, Copy, Debug, PartialEq, Eq, Structural)]
pub struct RetryDriver {
    /// Whether a want signal is being answered (a flush was asked for).
    pub answering_want: bool,
}

impl RetryDriver {
    pub open spec fn next(self, e: Event<Signal>) -> (RetryDriver, Action) {
        match e {
            Event::Engine(Signal::Done(n)) => (RetryDriver { answering_want: false }, Action::Finish(n)),
            Event::Engine(Signal::WantRead) | Event::Engine(Signal::WantWrite) => (
                RetryDriver { answering_want: true },
                Action::Flush,
            ),
            Event::Engine(_) => (RetryDriver { answering_want: false }, Action::Fail),
            Event::Flushed(n) => if self.answering_want && n == 0 {
                (RetryDriver { answering_want: false }, Action::Fill)
            } else {
                (RetryDriver { answering_want: false }, Action::CallEngine)
            },
            Event::Filled(_) => (RetryDriver { answering_want: false }, Action::CallEngine),
        }
    }

    /// The actions taken on a sequence of events, in order.
    pub open spec fn actions(self, evs: Seq<Event<Signal>>) -> Seq<Action>
        decreases evs.len(),
    {
        if evs.len() == 0 {
            seq![]
        } else {
            let (d, a) = self.next(evs[0]);
            seq![a] + d.actions(evs.drop_first())
        }
    }

    /// A driver before its first engine call.
    pub fn new() -> (r: RetryDriver)
        ensures
            !r.answering_want,
    {
        RetryDriver { answering_want: false }
    }

    /// Takes in one event and says what to do next.
    pub fn step(&mut self, e: Event<Signal>) -> (r: Action)
        ensures
            (*final(self), r) == old(self).next(e),
    {
        match e {
            Event::Engine(Signal::Done(n)) => {
                self.answering_want = false;
                Action::Finish(n)
            },
            Event::Engine(Signal::WantRead) | Event::Engine(Signal::WantWrite) => {
                self.answering_want = true;
                Action::Flush
            },
            Event::Engine(_) => {
                self.answering_want = false;
                Action::Fail
            },
            Event::Flushed(n) => {
                let fill = self.answering_want && n == 0;
                self.answering_want = false;
                if fill {
                    Action::Fill
                } else {
                    Action::CallEngine
                }
            },
            Event::Filled(_) => {
                self.answering_want = false;
                Action::CallEngine
            },
        }
    }
}

/// On a want signal the driver flushes first and reads from the transport
/// only when that flush pushed nothing; otherwise it calls the engine again.
pub proof fn flush_before_fill(d: RetryDriver, want: Signal, flushed: usize)
    requires
        want is WantRead || want is WantWrite,
    ensures
        d.actions(seq![Event::Engine(want), Event::Flushed(flushed)]) == seq![
            Action::Flush,
            if flushed == 0 {
                Action::Fill
            } else {
                Action::CallEngine
            },
        ],
{
    reveal_with_fuel(RetryDriver::actions, 3);
    let evs = seq![Event::Engine(want), Event::Flushed(flushed)];
    assert(evs.drop_first() =~= seq![Event::Flushed(flushed)]);
    assert(evs.drop_first().drop_first() =~= Seq::<Event<Signal>>::empty());
    let d1 = RetryDriver { answering_want: true };
    assert(d1.actions(evs.drop_first()) =~= seq![
        if flushed == 0 {
            Action::Fill
        } else {
            Action::CallEngine
        },
    ]);
    assert(d.actions(evs) =~= seq![
        Action::Flush,
        if flushed == 0 {
            Action::Fill
        } else {
            Action::CallEngine
        },
    ]);
}

/// A completed engine call hands back the engine's own count unchanged,
/// zero included (all early data consumed), and ends the operation.
pub proof fn completion_hands_back_count(d: RetryDriver, n: usize)
    ensures
        d.next(Event::Engine(Signal::Done(n))).1 == Action::Finish(n),
{
}

} // verus!
