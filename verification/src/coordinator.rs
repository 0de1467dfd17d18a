//! The decisions of one process that wants to be, or to reach, the single
//! subscriber of a channel.
//!
//! The coordinator never touches the transport. It says which operation is
//! to be performed next ([`Coordinator::action`]); whoever drives it performs
//! that operation and reports how it went ([`Coordinator::advance`]). All
//! that the protocol decides is decided here: the order of the set-up, the
//! one sweep for stale resources, the branch between serving and delegating,
//! the growth of the pauses between two takeover attempts, and the timeout.

use crate::liveness::{Liveness, LivenessRegistry, SubscriberHandle};
use crate::signal::Signal;
use crate::timing::{
    doubled, elapsed, elapsed_between, next_backoff, random_pause, INITIAL_BACKOFF_NANOS,
    SETTLE_AFTER_SIGNAL_NANOS, SETTLE_WITHOUT_SIGNAL_NANOS,
};
use vstd::prelude::*;

verus! {

/// What a process does when the subscriber slot is occupied.
#[derive(Debug, Clone, Copy, PartialEq, Eq, Structural)]
pub enum Mode {
    /// Hand the message to the subscriber that is there.
    SingleProcess,
    /// Ask the subscriber that is there to leave, and take its place.
    SubscribeOnly,
}

/// How an operation on the transport went.
#[derive(Debug, Clone, Copy, PartialEq, Eq, Structural)]
pub enum Reply {
    /// It succeeded.
    Done,
    /// It failed because the one subscriber slot is taken.
    SlotOccupied,
    /// It failed because the channel exists with a different shape.
    ShapeMismatch,
    /// It failed for any other reason.
    Failed,
}

/// Error returned when a takeover ran out of time.
#[derive(Debug, Clone, Copy, PartialEq, Eq, Structural)]
pub struct SubscribeOnlyTimeoutError {
    /// Timeout that was reached, in nanoseconds.
    pub timeout_nanos: u128,
}

/// Why an entry point gave up.
#[derive(Debug, Clone, Copy, PartialEq, Eq, Structural)]
pub enum Failure {
    /// The transport does not take the node name.
    InvalidNodeName,
    /// The transport does not take the channel name.
    InvalidServiceName,
    /// The node could not be created.
    NodeCreation,
    /// The data channel could not be opened or created, the one retry
    /// included.
    DataChannelCreation,
    /// The control channel could not be opened or created.
    EventChannelCreation,
    /// The subscriber could not be created, and not because the slot was
    /// taken.
    SlotClaim,
    /// The subscriber loop could not be started.
    LoopSpawn,
    /// The publisher could not be created.
    PublisherCreation,
    /// The notifier could not be created.
    NotifierCreation,
    /// No buffer could be loaned from the data channel.
    BufferLoan,
    /// The caller's producer did not deliver a message.
    MessageProduction,
    /// The message could not be sent.
    MessageSend,
    /// The request to vacate could not be signalled.
    ReplaceSignal,
    /// The slot stayed occupied for longer than the timeout.
    Timeout(SubscribeOnlyTimeoutError),
}

/// How an entry point ended well.
#[derive(Debug, Clone, Copy, PartialEq, Eq, Structural)]
pub enum Outcome {
    /// This process holds the slot; its loop runs behind the handle.
    BecameSubscriber(SubscriberHandle),
    /// Another process holds the slot and has been sent the message.
    DelegatedToExisting,
}

/// Where the coordinator stands: the operation it waits for, or its result.
#[derive(Debug, Clone, Copy, PartialEq, Eq, Structural)]
pub enum Phase {
    /// The node is being created.
    CreatingNode,
    /// The data channel is being opened or created; `retried` tells the
    /// second attempt from the first.
    CreatingDataChannel { retried: bool },
    /// The resources of dead nodes are being reclaimed.
    SweepingStaleNodes,
    /// The control channel is being opened or created.
    CreatingEventChannel,
    /// The subscriber is being created, for the first time.
    ClaimingSlot,
    /// The subscriber loop is being started under the given handle.
    SpawningLoop { handle: SubscriberHandle },
    /// The publisher is being created.
    CreatingPublisher,
    /// The notifier for [`Signal::Notify`] is being created.
    CreatingNotifier,
    /// A buffer is being loaned.
    LoaningBuffer,
    /// The caller's producer is making the message.
    ProducingMessage,
    /// The message is being written into the buffer and sent.
    SendingMessage,
    /// The subscriber is being notified of the message.
    Notifying,
    /// The publisher lingers so that the subscriber can drain.
    Settling { nanos: u64 },
    /// The notifier for [`Signal::Replace`] is being created. The takeover
    /// began at the clock reading `entered_at`.
    CreatingReplaceNotifier { entered_at: u128 },
    /// The subscriber is being asked to leave; `bound` limits the pause that
    /// follows.
    SignallingReplace { entered_at: u128, bound: u64 },
    /// The pause of `nanos` nanoseconds before the next attempt.
    BackingOff { entered_at: u128, bound: u64, nanos: u64 },
    /// The subscriber is being created again.
    Reclaiming { entered_at: u128, bound: u64 },
    /// The entry point returns this outcome.
    Finished(Outcome),
    /// The entry point returns this error.
    Failed(Failure),
}

/// The operation that the coordinator asks for.
#[derive(Debug, Clone, Copy, PartialEq, Eq, Structural)]
pub enum Action {
    /// Create the node, leaving the handling of process signals to the host.
    CreateNode,
    /// Open or create the data channel with exactly one subscriber slot.
    CreateDataChannel,
    /// Walk once over all known nodes and reclaim what dead ones left.
    SweepStaleNodes,
    /// Open or create the control channel.
    CreateEventChannel,
    /// Create the subscriber end of the data channel.
    ClaimSlot,
    /// Start the subscriber loop that answers to the handle.
    SpawnLoop(SubscriberHandle),
    /// Create the publisher end of the data channel.
    CreatePublisher,
    /// Create a notifier that fires the given signal.
    CreateNotifier(Signal),
    /// Loan a buffer from the publisher.
    LoanBuffer,
    /// Call the producer of the message.
    ProduceMessage,
    /// Write the message into the buffer and send it.
    SendMessage,
    /// Fire the given signal.
    Fire(Signal),
    /// Wait for the given number of nanoseconds.
    Wait { nanos: u64 },
    /// Nothing is left to do; the result can be read.
    Stop,
}

impl Phase {
    /// Whether the coordinator has come to its result.
    pub open spec fn is_terminal(self) -> bool {
        self is Finished || self is Failed
    }

    /// Whether the message has left this process: it was sent, and only the
    /// notification and the lingering follow.
    pub open spec fn message_sent(self) -> bool {
        self is Notifying || self is Settling || self == Phase::Finished(
            Outcome::DelegatedToExisting,
        )
    }
}

/// The operation that a phase waits for.
pub open spec fn pending_action(phase: Phase) -> Action {
    match phase {
        Phase::CreatingNode => Action::CreateNode,
        Phase::CreatingDataChannel { .. } => Action::CreateDataChannel,
        Phase::SweepingStaleNodes => Action::SweepStaleNodes,
        Phase::CreatingEventChannel => Action::CreateEventChannel,
        Phase::ClaimingSlot => Action::ClaimSlot,
        Phase::SpawningLoop { handle } => Action::SpawnLoop(handle),
        Phase::CreatingPublisher => Action::CreatePublisher,
        Phase::CreatingNotifier => Action::CreateNotifier(Signal::Notify),
        Phase::LoaningBuffer => Action::LoanBuffer,
        Phase::ProducingMessage => Action::ProduceMessage,
        Phase::SendingMessage => Action::SendMessage,
        Phase::Notifying => Action::Fire(Signal::Notify),
        Phase::Settling { nanos } => Action::Wait { nanos },
        Phase::CreatingReplaceNotifier { .. } => Action::CreateNotifier(Signal::Replace),
        Phase::SignallingReplace { .. } => Action::Fire(Signal::Replace),
        Phase::BackingOff { nanos, .. } => Action::Wait { nanos },
        Phase::Reclaiming { .. } => Action::ClaimSlot,
        Phase::Finished(_) => Action::Stop,
        Phase::Failed(_) => Action::Stop,
    }
}

/// The phase after a successful claim of the slot: the loop is started under
/// the fresh handle, unless no handle is left.
pub open spec fn after_claim(fresh: Option<SubscriberHandle>) -> Phase {
    match fresh {
        Some(handle) => Phase::SpawningLoop { handle },
        None => Phase::Failed(Failure::LoopSpawn),
    }
}

/// The pause that is taken when `jitter` was drawn under `bound`.
pub open spec fn pause_of(jitter: u64, bound: u64) -> u64 {
    if jitter <= bound {
        jitter
    } else {
        bound
    }
}

/// Whether the takeover that began at `entered_at` is out of time at the
/// clock reading `now`.
pub open spec fn timed_out(timeout_nanos: u128, entered_at: u128, now: u128) -> bool {
    elapsed_between(entered_at, now) > timeout_nanos
}

/// The phase that follows `phase` when its operation was answered by `reply`
/// at the clock reading `now`. `jitter` is the random number drawn for the
/// next pause and `fresh` the handle that a new loop would get; each matters
/// in one place only.
pub open spec fn next_phase(
    mode: Mode,
    timeout_nanos: u128,
    phase: Phase,
    reply: Reply,
    now: u128,
    jitter: u64,
    fresh: Option<SubscriberHandle>,
) -> Phase {
    match phase {
        Phase::CreatingNode => if reply == Reply::Done {
            Phase::CreatingDataChannel { retried: false }
        } else {
            Phase::Failed(Failure::NodeCreation)
        },
        Phase::CreatingDataChannel { retried } => if reply == Reply::Done {
            Phase::CreatingEventChannel
        } else if retried || reply == Reply::ShapeMismatch {
            Phase::Failed(Failure::DataChannelCreation)
        } else {
            Phase::SweepingStaleNodes
        },
        Phase::SweepingStaleNodes => Phase::CreatingDataChannel { retried: true },
        Phase::CreatingEventChannel => if reply == Reply::Done {
            Phase::ClaimingSlot
        } else {
            Phase::Failed(Failure::EventChannelCreation)
        },
        Phase::ClaimingSlot => if reply == Reply::Done {
            after_claim(fresh)
        } else if reply == Reply::SlotOccupied {
            match mode {
                Mode::SingleProcess => Phase::CreatingPublisher,
                Mode::SubscribeOnly => Phase::CreatingReplaceNotifier { entered_at: now },
            }
        } else {
            Phase::Failed(Failure::SlotClaim)
        },
        Phase::SpawningLoop { handle } => if reply == Reply::Done {
            Phase::Finished(Outcome::BecameSubscriber(handle))
        } else {
            Phase::Failed(Failure::LoopSpawn)
        },
        Phase::CreatingPublisher => if reply == Reply::Done {
            Phase::CreatingNotifier
        } else {
            Phase::Failed(Failure::PublisherCreation)
        },
        Phase::CreatingNotifier => if reply == Reply::Done {
            Phase::LoaningBuffer
        } else {
            Phase::Failed(Failure::NotifierCreation)
        },
        Phase::LoaningBuffer => if reply == Reply::Done {
            Phase::ProducingMessage
        } else {
            Phase::Failed(Failure::BufferLoan)
        },
        Phase::ProducingMessage => if reply == Reply::Done {
            Phase::SendingMessage
        } else {
            Phase::Failed(Failure::MessageProduction)
        },
        Phase::SendingMessage => if reply == Reply::Done {
            Phase::Notifying
        } else {
            Phase::Failed(Failure::MessageSend)
        },
        Phase::Notifying => if reply == Reply::Done {
            Phase::Settling { nanos: SETTLE_AFTER_SIGNAL_NANOS }
        } else {
            Phase::Settling { nanos: SETTLE_WITHOUT_SIGNAL_NANOS }
        },
        Phase::Settling { .. } => Phase::Finished(Outcome::DelegatedToExisting),
        Phase::CreatingReplaceNotifier { entered_at } => if reply == Reply::Done {
            Phase::SignallingReplace { entered_at, bound: INITIAL_BACKOFF_NANOS }
        } else {
            Phase::Failed(Failure::NotifierCreation)
        },
        Phase::SignallingReplace { entered_at, bound } => if reply == Reply::Done {
            Phase::BackingOff { entered_at, bound, nanos: pause_of(jitter, bound) }
        } else {
            Phase::Failed(Failure::ReplaceSignal)
        },
        Phase::BackingOff { entered_at, bound, .. } => Phase::Reclaiming { entered_at, bound },
        Phase::Reclaiming { entered_at, bound } => if reply == Reply::Done {
            after_claim(fresh)
        } else if reply == Reply::SlotOccupied {
            if timed_out(timeout_nanos, entered_at, now) {
                Phase::Failed(Failure::Timeout(SubscribeOnlyTimeoutError { timeout_nanos }))
            } else {
                Phase::SignallingReplace { entered_at, bound: doubled(bound) }
            }
        } else {
            Phase::Failed(Failure::SlotClaim)
        },
        Phase::Finished(outcome) => Phase::Finished(outcome),
        Phase::Failed(failure) => Phase::Failed(failure),
    }
}

/// Whether a reply in a phase makes this process the holder of the slot, so
/// that a handle for its loop is due.
pub open spec fn claims_slot(phase: Phase, reply: Reply) -> bool {
    (phase is ClaimingSlot || phase is Reclaiming) && reply == Reply::Done
}

/// What a step does to the liveness flags. A successful claim registers the
/// loop to come; a loop that could not be started is struck off again; any
/// other step leaves every flag alone.
pub open spec fn flags_follow(
    before: &LivenessRegistry,
    after: &LivenessRegistry,
    phase: Phase,
    reply: Reply,
) -> bool {
    if claims_slot(phase, reply) && before.next_handle().is_some() {
        let fresh = before.next_handle().unwrap();
        &&& after.issued_count() == before.issued_count() + 1
        &&& after.state_of(fresh) == Liveness::Running
        &&& forall|other: SubscriberHandle|
            other != fresh ==> after.state_of(other) == before.state_of(other)
    } else if phase is SpawningLoop && reply != Reply::Done {
        let lost = phase->SpawningLoop_handle;
        &&& after.issued_count() == before.issued_count()
        &&& after.state_of(lost) == Liveness::Exited
        &&& forall|other: SubscriberHandle|
            other != lost ==> after.state_of(other) == before.state_of(other)
    } else {
        &&& after.issued_count() == before.issued_count()
        &&& forall|other: SubscriberHandle| after.state_of(other) == before.state_of(other)
    }
}

/// The state of one run of an entry point.
#[derive(Debug, Clone, Copy)]
pub struct Coordinator {
    mode: Mode,
    timeout_nanos: u128,
    phase: Phase,
}

impl Coordinator {
    /// What the process does when the slot is occupied.
    pub closed spec fn spec_mode(&self) -> Mode {
        self.mode
    }

    /// For how long a takeover is attempted, in nanoseconds.
    pub closed spec fn spec_timeout_nanos(&self) -> u128 {
        self.timeout_nanos
    }

    /// Where the coordinator stands.
    pub closed spec fn spec_phase(&self) -> Phase {
        self.phase
    }

    /// A coordinator at the beginning of the set-up.
    pub fn new(mode: Mode, timeout_nanos: u128) -> (c: Coordinator)
        ensures
            c.mode() == mode,
            c.timeout_nanos() == timeout_nanos,
            c.phase() == Phase::CreatingNode,
    {
        Coordinator { mode, timeout_nanos, phase: Phase::CreatingNode }
    }

    /// A coordinator whose run has failed before it began.
    pub fn failed(mode: Mode, timeout_nanos: u128, failure: Failure) -> (c: Coordinator)
        ensures
            c.mode() == mode,
            c.timeout_nanos() == timeout_nanos,
            c.phase() == Phase::Failed(failure),
    {
        Coordinator { mode, timeout_nanos, phase: Phase::Failed(failure) }
    }

    /// What the process does when the slot is occupied.
    #[verifier::when_used_as_spec(spec_mode)]
    pub fn mode(&self) -> (mode: Mode)
        ensures
            mode == self.spec_mode(),
    {
        self.mode
    }

    /// For how long a takeover is attempted, in nanoseconds.
    #[verifier::when_used_as_spec(spec_timeout_nanos)]
    pub fn timeout_nanos(&self) -> (nanos: u128)
        ensures
            nanos == self.spec_timeout_nanos(),
    {
        self.timeout_nanos
    }

    /// Where the coordinator stands.
    #[verifier::when_used_as_spec(spec_phase)]
    pub fn phase(&self) -> (phase: Phase)
        ensures
            phase == self.spec_phase(),
    {
        self.phase
    }

    /// The operation to perform next; [`Action::Stop`] once the result is
    /// there.
    pub fn action(&self) -> (action: Action)
        ensures
            action == pending_action(self.phase()),
    {
        match self.phase {
            Phase::CreatingNode => Action::CreateNode,
            Phase::CreatingDataChannel { .. } => Action::CreateDataChannel,
            Phase::SweepingStaleNodes => Action::SweepStaleNodes,
            Phase::CreatingEventChannel => Action::CreateEventChannel,
            Phase::ClaimingSlot => Action::ClaimSlot,
            Phase::SpawningLoop { handle } => Action::SpawnLoop(handle),
            Phase::CreatingPublisher => Action::CreatePublisher,
            Phase::CreatingNotifier => Action::CreateNotifier(Signal::Notify),
            Phase::LoaningBuffer => Action::LoanBuffer,
            Phase::ProducingMessage => Action::ProduceMessage,
            Phase::SendingMessage => Action::SendMessage,
            Phase::Notifying => Action::Fire(Signal::Notify),
            Phase::Settling { nanos } => Action::Wait { nanos },
            Phase::CreatingReplaceNotifier { .. } => Action::CreateNotifier(Signal::Replace),
            Phase::SignallingReplace { .. } => Action::Fire(Signal::Replace),
            Phase::BackingOff { nanos, .. } => Action::Wait { nanos },
            Phase::Reclaiming { .. } => Action::ClaimSlot,
            Phase::Finished(_) => Action::Stop,
            Phase::Failed(_) => Action::Stop,
        }
    }

    /// The result of the entry point, once the coordinator has come to it.
    pub fn outcome(&self) -> (result: Option<Result<Outcome, Failure>>)
        ensures
            result == match self.phase() {
                Phase::Finished(outcome) => Some(Ok::<Outcome, Failure>(outcome)),
                Phase::Failed(failure) => Some(Err::<Outcome, Failure>(failure)),
                _ => None::<Result<Outcome, Failure>>,
            },
    {
        match self.phase {
            Phase::Finished(outcome) => Some(Ok(outcome)),
            Phase::Failed(failure) => Some(Err(failure)),
            _ => None,
        }
    }

    /// Takes the answer to the pending operation and moves on, with the
    /// random number for a pause given by the caller. `now` is a reading, in
    /// nanoseconds, of a clock that never runs backwards.
    pub fn advance_with_jitter(
        &mut self,
        registry: &mut LivenessRegistry,
        reply: Reply,
        now: u128,
        jitter: u64,
    )
        ensures
            final(self).mode() == old(self).mode(),
            final(self).timeout_nanos() == old(self).timeout_nanos(),
            final(self).phase() == next_phase(
                old(self).mode(),
                old(self).timeout_nanos(),
                old(self).phase(),
                reply,
                now,
                jitter,
                old(registry).next_handle(),
            ),
            flags_follow(old(registry), final(registry), old(self).phase(), reply),
    {
        let done = matches!(reply, Reply::Done);
        let occupied = matches!(reply, Reply::SlotOccupied);
        let next = match self.phase {
            Phase::CreatingNode => if done {
                Phase::CreatingDataChannel { retried: false }
            } else {
                Phase::Failed(Failure::NodeCreation)
            },
            Phase::CreatingDataChannel { retried } => if done {
                Phase::CreatingEventChannel
            } else if retried || matches!(reply, Reply::ShapeMismatch) {
                Phase::Failed(Failure::DataChannelCreation)
            } else {
                Phase::SweepingStaleNodes
            },
            Phase::SweepingStaleNodes => Phase::CreatingDataChannel { retried: true },
            Phase::CreatingEventChannel => if done {
                Phase::ClaimingSlot
            } else {
                Phase::Failed(Failure::EventChannelCreation)
            },
            Phase::ClaimingSlot => if done {
                Self::start_loop(registry)
            } else if occupied {
                match self.mode {
                    Mode::SingleProcess => Phase::CreatingPublisher,
                    Mode::SubscribeOnly => Phase::CreatingReplaceNotifier { entered_at: now },
                }
            } else {
                Phase::Failed(Failure::SlotClaim)
            },
            Phase::SpawningLoop { handle } => if done {
                Phase::Finished(Outcome::BecameSubscriber(handle))
            } else {
                registry.retire(handle);
                Phase::Failed(Failure::LoopSpawn)
            },
            Phase::CreatingPublisher => if done {
                Phase::CreatingNotifier
            } else {
                Phase::Failed(Failure::PublisherCreation)
            },
            Phase::CreatingNotifier => if done {
                Phase::LoaningBuffer
            } else {
                Phase::Failed(Failure::NotifierCreation)
            },
            Phase::LoaningBuffer => if done {
                Phase::ProducingMessage
            } else {
                Phase::Failed(Failure::BufferLoan)
            },
            Phase::ProducingMessage => if done {
                Phase::SendingMessage
            } else {
                Phase::Failed(Failure::MessageProduction)
            },
            Phase::SendingMessage => if done {
                Phase::Notifying
            } else {
                Phase::Failed(Failure::MessageSend)
            },
            Phase::Notifying => if done {
                Phase::Settling { nanos: SETTLE_AFTER_SIGNAL_NANOS }
            } else {
                Phase::Settling { nanos: SETTLE_WITHOUT_SIGNAL_NANOS }
            },
            Phase::Settling { .. } => Phase::Finished(Outcome::DelegatedToExisting),
            Phase::CreatingReplaceNotifier { entered_at } => if done {
                Phase::SignallingReplace { entered_at, bound: INITIAL_BACKOFF_NANOS }
            } else {
                Phase::Failed(Failure::NotifierCreation)
            },
            Phase::SignallingReplace { entered_at, bound } => if done {
                let nanos = if jitter <= bound {
                    jitter
                } else {
                    bound
                };
                Phase::BackingOff { entered_at, bound, nanos }
            } else {
                Phase::Failed(Failure::ReplaceSignal)
            },
            Phase::BackingOff { entered_at, bound, .. } => Phase::Reclaiming { entered_at, bound },
            Phase::Reclaiming { entered_at, bound } => if done {
                Self::start_loop(registry)
            } else if occupied {
                if elapsed(entered_at, now) > self.timeout_nanos {
                    Phase::Failed(
                        Failure::Timeout(
                            SubscribeOnlyTimeoutError { timeout_nanos: self.timeout_nanos },
                        ),
                    )
                } else {
                    Phase::SignallingReplace { entered_at, bound: next_backoff(bound) }
                }
            } else {
                Phase::Failed(Failure::SlotClaim)
            },
            Phase::Finished(outcome) => Phase::Finished(outcome),
            Phase::Failed(failure) => Phase::Failed(failure),
        };
        self.phase = next;
    }

    /// Takes the answer to the pending operation and moves on. Where a pause
    /// is due, its length is drawn at random below the current bound; apart
    /// from that draw the step is the one of
    /// [`Coordinator::advance_with_jitter`].
    pub fn advance(&mut self, registry: &mut LivenessRegistry, reply: Reply, now: u128)
        ensures
            final(self).mode() == old(self).mode(),
            final(self).timeout_nanos() == old(self).timeout_nanos(),
            exists|jitter: u64| #[trigger]
                next_phase(
                    old(self).mode(),
                    old(self).timeout_nanos(),
                    old(self).phase(),
                    reply,
                    now,
                    jitter,
                    old(registry).next_handle(),
                ) == final(self).phase(),
            flags_follow(old(registry), final(registry), old(self).phase(), reply),
    {
        let jitter = match self.phase {
            Phase::SignallingReplace { bound, .. } => random_pause(bound),
            _ => 0,
        };
        self.advance_with_jitter(registry, reply, now, jitter);
    }

    /// Registers the loop that is about to be started.
    fn start_loop(registry: &mut LivenessRegistry) -> (phase: Phase)
        ensures
            phase == after_claim(old(registry).next_handle()),
            old(registry).next_handle().is_none() ==> {
                &&& final(registry).issued_count() == old(registry).issued_count()
                &&& forall|other: SubscriberHandle|
                    final(registry).state_of(other) == old(registry).state_of(other)
            },
            old(registry).next_handle().is_some() ==> {
                let fresh = old(registry).next_handle().unwrap();
                &&& final(registry).issued_count() == old(registry).issued_count() + 1
                &&& final(registry).state_of(fresh) == Liveness::Running
                &&& forall|other: SubscriberHandle|
                    other != fresh ==> final(registry).state_of(other) == old(registry).state_of(
                        other,
                    )
            },
    {
        match SubscriberHandle::new(registry) {
            Some(handle) => Phase::SpawningLoop { handle },
            None => Phase::Failed(Failure::LoopSpawn),
        }
    }
}

} // verus!
