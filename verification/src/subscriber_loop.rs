//! The decisions of the loop that owns the subscriber end of a data channel.
//!
//! The loop runs apart from the process that started it. It waits on the
//! control channel with a bounded timeout, drains the data channel whenever
//! it wakes, and leaves when its liveness flag was lowered, by a local
//! `close` or by a [`Signal::Replace`] from another process. Like the
//! coordinator it only decides: [`SubscriberLoop::action`] names the next
//! operation, [`SubscriberLoop::advance`] takes its answer.

use crate::liveness::{Liveness, LivenessRegistry, SubscriberHandle};
use crate::signal::Signal;
use crate::timing::POLL_INTERVAL_NANOS;
use vstd::prelude::*;

verus! {

/// Why a loop came to its end.
#[derive(Debug, Clone, Copy, PartialEq, Eq, Structural)]
pub enum LoopExit {
    /// The flag was lowered, or waiting on the control channel failed.
    Closed,
    /// The listener on the control channel could not be created.
    ListenerFailed,
    /// Receiving from the data channel failed.
    ReceiveFailed,
    /// The handler refused a message.
    HandlerFailed,
}

/// Where the loop stands.
#[derive(Debug, Clone, Copy, PartialEq, Eq, Structural)]
pub enum LoopPhase {
    /// The listener is being created.
    Starting,
    /// The loop waits for a signal or for the poll interval to pass.
    Waiting,
    /// The loop asks the data channel for the next message.
    Draining,
    /// The handler works on the message that was received.
    Handling,
    /// The loop is over; the subscriber end is to be dropped.
    Stopped(LoopExit),
}

/// The operation that the loop asks for.
#[derive(Debug, Clone, Copy, PartialEq, Eq, Structural)]
pub enum LoopAction {
    /// Create the listener on the control channel.
    CreateListener,
    /// Wait on the listener for at most the given number of nanoseconds.
    Wait { nanos: u64 },
    /// Receive from the data channel without blocking.
    Receive,
    /// Hand the received message to the handler.
    Handle,
    /// Drop the subscriber end, which frees the slot, and end the loop.
    Stop,
}

/// The answer to an operation of the loop.
#[derive(Debug, Clone, Copy, PartialEq, Eq, Structural)]
pub enum LoopEvent {
    /// The operation succeeded: the listener exists, the wait is over, or
    /// the handler took the message.
    Done,
    /// A message was received.
    Message,
    /// The data channel is empty.
    Empty,
    /// The operation failed.
    Failed,
}

/// The operation that a phase waits for.
pub open spec fn loop_action(phase: LoopPhase) -> LoopAction {
    match phase {
        LoopPhase::Starting => LoopAction::CreateListener,
        LoopPhase::Waiting => LoopAction::Wait { nanos: POLL_INTERVAL_NANOS },
        LoopPhase::Draining => LoopAction::Receive,
        LoopPhase::Handling => LoopAction::Handle,
        LoopPhase::Stopped(_) => LoopAction::Stop,
    }
}

/// The head of the loop: wait again while the flag is up, leave otherwise.
pub open spec fn loop_head(live: bool) -> LoopPhase {
    if live {
        LoopPhase::Waiting
    } else {
        LoopPhase::Stopped(LoopExit::Closed)
    }
}

/// The phase that follows `phase` on `event`, where `live` says whether the
/// flag is still up.
pub open spec fn loop_next(phase: LoopPhase, live: bool, event: LoopEvent) -> LoopPhase {
    match phase {
        LoopPhase::Starting => if event == LoopEvent::Done {
            loop_head(live)
        } else {
            LoopPhase::Stopped(LoopExit::ListenerFailed)
        },
        LoopPhase::Waiting => if event == LoopEvent::Done {
            LoopPhase::Draining
        } else {
            LoopPhase::Stopped(LoopExit::Closed)
        },
        LoopPhase::Draining => if event == LoopEvent::Message {
            LoopPhase::Handling
        } else if event == LoopEvent::Empty {
            loop_head(live)
        } else {
            LoopPhase::Stopped(LoopExit::ReceiveFailed)
        },
        LoopPhase::Handling => if event == LoopEvent::Done {
            LoopPhase::Draining
        } else {
            LoopPhase::Stopped(LoopExit::HandlerFailed)
        },
        LoopPhase::Stopped(exit) => LoopPhase::Stopped(exit),
    }
}

/// The phase after a whole sequence of events, with the flag up or down
/// throughout.
pub open spec fn loop_run(phase: LoopPhase, live: bool, events: Seq<LoopEvent>) -> LoopPhase
    decreases events.len(),
{
    if events.len() == 0 {
        phase
    } else {
        loop_run(loop_next(phase, live, events[0]), live, events.drop_first())
    }
}

/// One subscriber loop.
#[derive(Debug, Clone, Copy)]
pub struct SubscriberLoop {
    handle: SubscriberHandle,
    phase: LoopPhase,
}

impl SubscriberLoop {
    /// The handle that the loop answers to.
    pub closed spec fn spec_handle(&self) -> SubscriberHandle {
        self.handle
    }

    /// Where the loop stands.
    pub closed spec fn spec_phase(&self) -> LoopPhase {
        self.phase
    }

    /// A loop that has not yet created its listener.
    pub fn new(handle: SubscriberHandle) -> (l: SubscriberLoop)
        ensures
            l.handle() == handle,
            l.phase() == LoopPhase::Starting,
    {
        SubscriberLoop { handle, phase: LoopPhase::Starting }
    }

    /// The handle that the loop answers to.
    #[verifier::when_used_as_spec(spec_handle)]
    pub fn handle(&self) -> (handle: SubscriberHandle)
        ensures
            handle == self.spec_handle(),
    {
        self.handle
    }

    /// Where the loop stands.
    #[verifier::when_used_as_spec(spec_phase)]
    pub fn phase(&self) -> (phase: LoopPhase)
        ensures
            phase == self.spec_phase(),
    {
        self.phase
    }

    /// The operation to perform next; [`LoopAction::Stop`] once the loop is
    /// over.
    pub fn action(&self) -> (action: LoopAction)
        ensures
            action == loop_action(self.phase()),
    {
        match self.phase {
            LoopPhase::Starting => LoopAction::CreateListener,
            LoopPhase::Waiting => LoopAction::Wait { nanos: POLL_INTERVAL_NANOS },
            LoopPhase::Draining => LoopAction::Receive,
            LoopPhase::Handling => LoopAction::Handle,
            LoopPhase::Stopped(_) => LoopAction::Stop,
        }
    }

    /// Takes note of an identifier that fired on the control channel while
    /// the loop was waiting. [`Signal::Replace`] lowers the flag of this
    /// loop; every other identifier changes nothing.
    pub fn signal_fired(&self, registry: &mut LivenessRegistry, id: usize)
        ensures
            final(registry).issued_count() == old(registry).issued_count(),
            forall|other: SubscriberHandle|
                other != self.handle() ==> final(registry).state_of(other) == old(
                    registry,
                ).state_of(other),
            final(registry).state_of(self.handle()) == (if Signal::from_event_id(id) == Some(
                Signal::Replace,
            ) && old(registry).state_of(self.handle()) == Liveness::Running {
                Liveness::Stopping
            } else {
                old(registry).state_of(self.handle())
            }),
    {
        match Signal::from_event_id(id) {
            Some(Signal::Replace) => self.handle.close(registry),
            _ => {},
        }
    }

    /// Takes the answer to the pending operation and moves on. The flag is
    /// read where the loop comes back to its head. When the loop ends, for
    /// whatever reason, its flag is gone and its handle reads "closed".
    pub fn advance(&mut self, registry: &mut LivenessRegistry, event: LoopEvent)
        ensures
            final(self).handle() == old(self).handle(),
            final(self).phase() == loop_next(
                old(self).phase(),
                !old(registry).closed(old(self).handle()),
                event,
            ),
            final(registry).issued_count() == old(registry).issued_count(),
            forall|other: SubscriberHandle|
                other != old(self).handle() ==> final(registry).state_of(other) == old(
                    registry,
                ).state_of(other),
            final(registry).state_of(old(self).handle()) == (if final(self).phase() is Stopped {
                Liveness::Exited
            } else {
                old(registry).state_of(old(self).handle())
            }),
            final(self).phase() is Stopped ==> final(registry).closed(old(self).handle()),
    {
        let done = matches!(event, LoopEvent::Done);
        let next = match self.phase {
            LoopPhase::Starting => if done {
                self.head(registry)
            } else {
                LoopPhase::Stopped(LoopExit::ListenerFailed)
            },
            LoopPhase::Waiting => if done {
                LoopPhase::Draining
            } else {
                LoopPhase::Stopped(LoopExit::Closed)
            },
            LoopPhase::Draining => match event {
                LoopEvent::Message => LoopPhase::Handling,
                LoopEvent::Empty => self.head(registry),
                _ => LoopPhase::Stopped(LoopExit::ReceiveFailed),
            },
            LoopPhase::Handling => if done {
                LoopPhase::Draining
            } else {
                LoopPhase::Stopped(LoopExit::HandlerFailed)
            },
            LoopPhase::Stopped(exit) => LoopPhase::Stopped(exit),
        };
        match next {
            LoopPhase::Stopped(_) => registry.retire(self.handle),
            _ => {},
        }
        self.phase = next;
    }

    /// The head of the loop, with the flag read from the registry.
    fn head(&self, registry: &LivenessRegistry) -> (phase: LoopPhase)
        ensures
            phase == loop_head(!registry.closed(self.handle())),
    {
        if self.handle.is_closed(registry) {
            LoopPhase::Stopped(LoopExit::Closed)
        } else {
            LoopPhase::Waiting
        }
    }
}

/// Once the flag of a loop is down, the loop begins no further wait: no
/// event leads it to the waiting phase. A wait that is under way lasts at
/// most the poll interval, so the loop is gone one poll interval and one
/// drain after its flag was lowered.
pub proof fn lemma_lowered_flag_ends_waiting(phase: LoopPhase, event: LoopEvent)
    ensures
        !(loop_next(phase, false, event) is Waiting),
        loop_action(LoopPhase::Waiting) == (LoopAction::Wait { nanos: POLL_INTERVAL_NANOS }),
        loop_next(LoopPhase::Waiting, false, LoopEvent::Done) == LoopPhase::Draining,
        loop_next(LoopPhase::Draining, false, LoopEvent::Empty) == LoopPhase::Stopped(
            LoopExit::Closed,
        ),
{
}

/// With the flag down, whatever sequence of events arrives, the loop never
/// waits again.
pub proof fn lemma_no_wait_after_close(phase: LoopPhase, events: Seq<LoopEvent>)
    requires
        events.len() > 0,
    ensures
        !(loop_run(phase, false, events) is Waiting),
    decreases events.len(),
{
    let rest = events.drop_first();
    let next = loop_next(phase, false, events[0]);
    if rest.len() > 0 {
        lemma_no_wait_after_close(next, rest);
    } else {
        assert(loop_run(next, false, rest) == next);
    }
}

/// Messages are handled one at a time: the handler is called only for a
/// message that was just received, and the next message is asked for only
/// after the handler has returned.
pub proof fn lemma_sequential_handling(phase: LoopPhase, live: bool, event: LoopEvent)
    ensures
        loop_next(phase, live, event) is Handling <==> phase is Draining && event
            == LoopEvent::Message,
        phase is Handling ==> loop_action(phase) == LoopAction::Handle && (loop_next(
            phase,
            live,
            event,
        ) is Draining || loop_next(phase, live, event) is Stopped),
{
}

/// A loop that is over stays over.
pub proof fn lemma_stopped_is_final(exit: LoopExit, live: bool, events: Seq<LoopEvent>)
    ensures
        loop_run(LoopPhase::Stopped(exit), live, events) == LoopPhase::Stopped(exit),
    decreases events.len(),
{
    if events.len() > 0 {
        lemma_stopped_is_final(exit, live, events.drop_first());
    }
}

} // verus!
