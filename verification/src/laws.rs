//! What holds of every run of the coordinator.
//!
//! A run is the sequence of answers that the driver reports, each with the
//! clock reading and the random number that belong to it. The statements
//! below are about [`next_phase`], the function that
//! [`Coordinator::advance`](crate::coordinator::Coordinator::advance) is
//! proved to follow.

use crate::coordinator::{
    after_claim, claims_slot, next_phase, pause_of, pending_action, timed_out, Action, Failure,
    Mode, Outcome, Phase, Reply, SubscribeOnlyTimeoutError,
};
use crate::liveness::SubscriberHandle;
use crate::signal::Signal;
use crate::timing::{backoff_of_round, doubled, elapsed_between, MAX_BACKOFF_NANOS};
use vstd::prelude::*;

verus! {

/// One answer of the driver.
pub struct Step {
    /// How the pending operation went.
    pub reply: Reply,
    /// The clock reading at which it was answered.
    pub now: u128,
    /// The random number drawn for the pause, where one is due.
    pub jitter: u64,
}

/// The phase after a whole sequence of answers.
pub open spec fn run(
    mode: Mode,
    timeout_nanos: u128,
    phase: Phase,
    fresh: Option<SubscriberHandle>,
    steps: Seq<Step>,
) -> Phase
    decreases steps.len(),
{
    if steps.len() == 0 {
        phase
    } else {
        run(
            mode,
            timeout_nanos,
            next_phase(
                mode,
                timeout_nanos,
                phase,
                steps[0].reply,
                steps[0].now,
                steps[0].jitter,
                fresh,
            ),
            fresh,
            steps.drop_first(),
        )
    }
}

/// A run in two parts is the run of the second part from where the first
/// part ended.
pub proof fn lemma_run_split(
    mode: Mode,
    timeout_nanos: u128,
    phase: Phase,
    fresh: Option<SubscriberHandle>,
    steps: Seq<Step>,
    k: int,
)
    requires
        0 <= k <= steps.len(),
    ensures
        run(mode, timeout_nanos, phase, fresh, steps) == run(
            mode,
            timeout_nanos,
            run(mode, timeout_nanos, phase, fresh, steps.take(k)),
            fresh,
            steps.skip(k),
        ),
    decreases k,
{
    if k == 0 {
        assert(steps.skip(0) =~= steps);
        assert(steps.take(0).len() == 0);
    } else {
        let first = next_phase(
            mode,
            timeout_nanos,
            phase,
            steps[0].reply,
            steps[0].now,
            steps[0].jitter,
            fresh,
        );
        let rest = steps.drop_first();
        lemma_run_split(mode, timeout_nanos, first, fresh, rest, k - 1);
        assert(steps.take(k).drop_first() =~= rest.take(k - 1));
        assert(steps.take(k)[0] == steps[0]);
        assert(steps.skip(k) =~= rest.skip(k - 1));
    }
}

/// A result is final: once the coordinator has finished or failed, no
/// further answer changes anything, and nothing more is asked for.
pub proof fn lemma_result_is_final(
    mode: Mode,
    timeout_nanos: u128,
    phase: Phase,
    fresh: Option<SubscriberHandle>,
    steps: Seq<Step>,
)
    requires
        phase.is_terminal(),
    ensures
        run(mode, timeout_nanos, phase, fresh, steps) == phase,
        pending_action(phase) == Action::Stop,
    decreases steps.len(),
{
    if steps.len() > 0 {
        lemma_result_is_final(mode, timeout_nanos, phase, fresh, steps.drop_first());
    }
}

/// The set-up comes first and in a fixed order: the node, the data channel,
/// the control channel, and only then the claim of the slot. The data channel
/// gets one more attempt after one sweep for stale resources, unless it
/// exists with a different shape; the sweep itself cannot fail the run.
pub proof fn lemma_provisioning(
    mode: Mode,
    timeout_nanos: u128,
    reply: Reply,
    now: u128,
    jitter: u64,
    fresh: Option<SubscriberHandle>,
)
    ensures
        next_phase(mode, timeout_nanos, Phase::CreatingNode, reply, now, jitter, fresh) == (
        if reply == Reply::Done {
            Phase::CreatingDataChannel { retried: false }
        } else {
            Phase::Failed(Failure::NodeCreation)
        }),
        next_phase(
            mode,
            timeout_nanos,
            Phase::CreatingDataChannel { retried: false },
            reply,
            now,
            jitter,
            fresh,
        ) == (if reply == Reply::Done {
            Phase::CreatingEventChannel
        } else if reply == Reply::ShapeMismatch {
            Phase::Failed(Failure::DataChannelCreation)
        } else {
            Phase::SweepingStaleNodes
        }),
        next_phase(mode, timeout_nanos, Phase::SweepingStaleNodes, reply, now, jitter, fresh)
            == (Phase::CreatingDataChannel { retried: true }),
        next_phase(
            mode,
            timeout_nanos,
            Phase::CreatingDataChannel { retried: true },
            reply,
            now,
            jitter,
            fresh,
        ) == (if reply == Reply::Done {
            Phase::CreatingEventChannel
        } else {
            Phase::Failed(Failure::DataChannelCreation)
        }),
        next_phase(mode, timeout_nanos, Phase::CreatingEventChannel, reply, now, jitter, fresh)
            == (if reply == Reply::Done {
            Phase::ClaimingSlot
        } else {
            Phase::Failed(Failure::EventChannelCreation)
        }),
{
}

/// The outcome follows the claim. A loop is started only for a process whose
/// claim of the slot succeeded, and at most once in a run, since the answer
/// to its start ends the run. The publish path is entered only from a first
/// claim that found the slot occupied. A process that delegates never asks
/// anybody to leave, and a process that takes over never sends a message.
pub proof fn lemma_outcome_follows_claim(
    mode: Mode,
    timeout_nanos: u128,
    phase: Phase,
    reply: Reply,
    now: u128,
    jitter: u64,
    fresh: Option<SubscriberHandle>,
)
    ensures
        ({
            let next = next_phase(mode, timeout_nanos, phase, reply, now, jitter, fresh);
            &&& next is SpawningLoop ==> claims_slot(phase, reply) && fresh == Some(
                next->SpawningLoop_handle,
            )
            &&& phase is SpawningLoop ==> next.is_terminal()
            &&& next is Finished && !(phase is Finished) ==> {
                ||| phase is SpawningLoop && reply == Reply::Done && next == Phase::Finished(
                    Outcome::BecameSubscriber(phase->SpawningLoop_handle),
                )
                ||| phase is Settling && next == Phase::Finished(Outcome::DelegatedToExisting)
            }
            &&& next is CreatingPublisher ==> phase is ClaimingSlot && reply == Reply::SlotOccupied
                && mode == Mode::SingleProcess
            &&& next is CreatingReplaceNotifier ==> phase is ClaimingSlot && reply
                == Reply::SlotOccupied && mode == Mode::SubscribeOnly
            &&& pending_action(next) == Action::Fire(Signal::Replace) ==> {
                ||| phase is CreatingReplaceNotifier
                ||| phase is Reclaiming
            }
            &&& pending_action(next) == Action::SendMessage ==> phase is ProducingMessage
        }),
{
}

/// The slot as the transport keeps it: a claim succeeds while the slot is
/// free and is refused as occupied while another process holds it.
pub open spec fn slot_answer(taken: bool) -> Reply {
    if taken {
        Reply::SlotOccupied
    } else {
        Reply::Done
    }
}

/// The answers that a process gets from a transport on which every operation
/// succeeds, but for the claim of the slot, which is answered by `claim`.
pub open spec fn willing_reply(phase: Phase, claim: Reply) -> Reply {
    if phase is ClaimingSlot {
        claim
    } else {
        Reply::Done
    }
}

/// Where a process in single-process mode ends after at most `fuel` steps on
/// a willing transport.
pub open spec fn single_process_end(
    phase: Phase,
    claim: Reply,
    fresh: Option<SubscriberHandle>,
    fuel: nat,
) -> Phase
    decreases fuel,
{
    if fuel == 0 || phase.is_terminal() {
        phase
    } else {
        single_process_end(
            next_phase(Mode::SingleProcess, 0, phase, willing_reply(phase, claim), 0, 0, fresh),
            claim,
            fresh,
            (fuel - 1) as nat,
        )
    }
}

/// Where the process ends whose claim is the one with the given number, when
/// processes race for a free slot and the winner keeps it: exactly the first
/// claim finds the slot free.
pub open spec fn race_end(position: nat, fresh: Option<SubscriberHandle>) -> Phase {
    single_process_end(Phase::CreatingNode, slot_answer(position > 0), fresh, 12)
}

/// Whether a process ended as the subscriber.
pub open spec fn became_subscriber(end: Phase) -> bool {
    end matches Phase::Finished(Outcome::BecameSubscriber(_))
}

/// How many of the first `claimants` processes of a race end as the
/// subscriber.
pub open spec fn subscribers_among(claimants: nat, fresh: Option<SubscriberHandle>) -> nat
    decreases claimants,
{
    if claimants == 0 {
        0
    } else {
        let last = (claimants - 1) as nat;
        let earlier = subscribers_among(last, fresh);
        if became_subscriber(race_end(last, fresh)) {
            earlier + 1
        } else {
            earlier
        }
    }
}

/// Exactly one becomes the subscriber. Of any number of processes that enter
/// in single-process mode under the same names, the one whose claim reaches
/// the free slot first becomes the subscriber, and every other one hands its
/// message to it.
pub proof fn lemma_exactly_one_subscriber(claimants: nat, handle: SubscriberHandle)
    requires
        claimants >= 1,
    ensures
        subscribers_among(claimants, Some(handle)) == 1,
        race_end(0, Some(handle)) == Phase::Finished(Outcome::BecameSubscriber(handle)),
        forall|position: nat|
            position > 0 ==> #[trigger] race_end(position, Some(handle)) == Phase::Finished(
                Outcome::DelegatedToExisting,
            ),
    decreases claimants,
{
    reveal_with_fuel(single_process_end, 13);
    reveal_with_fuel(subscribers_among, 2);
    if claimants > 1 {
        lemma_exactly_one_subscriber((claimants - 1) as nat, handle);
    }
}

/// An error means that nothing was delivered. Once the message has been
/// sent the run cannot fail any more: a notification that does not go
/// through and a wait that is cut short change only how long the publisher
/// lingers.
pub proof fn lemma_sent_message_never_fails(
    mode: Mode,
    timeout_nanos: u128,
    phase: Phase,
    fresh: Option<SubscriberHandle>,
    steps: Seq<Step>,
)
    requires
        phase.message_sent(),
    ensures
        run(mode, timeout_nanos, phase, fresh, steps).message_sent(),
        !(run(mode, timeout_nanos, phase, fresh, steps) is Failed),
    decreases steps.len(),
{
    if steps.len() > 0 {
        let next = next_phase(
            mode,
            timeout_nanos,
            phase,
            steps[0].reply,
            steps[0].now,
            steps[0].jitter,
            fresh,
        );
        lemma_sent_message_never_fails(mode, timeout_nanos, next, fresh, steps.drop_first());
    }
}

/// If a run ends in an error, the message was not sent at any point of it:
/// the only way to have a message sent is a successful answer to
/// [`Action::SendMessage`], and no run fails after that.
pub proof fn lemma_error_means_nothing_sent(
    mode: Mode,
    timeout_nanos: u128,
    fresh: Option<SubscriberHandle>,
    steps: Seq<Step>,
    k: int,
)
    requires
        0 <= k <= steps.len(),
        run(mode, timeout_nanos, Phase::CreatingNode, fresh, steps) is Failed,
    ensures
        !run(mode, timeout_nanos, Phase::CreatingNode, fresh, steps.take(k)).message_sent(),
{
    let reached = run(mode, timeout_nanos, Phase::CreatingNode, fresh, steps.take(k));
    lemma_run_split(mode, timeout_nanos, Phase::CreatingNode, fresh, steps, k);
    if reached.message_sent() {
        lemma_sent_message_never_fails(mode, timeout_nanos, reached, fresh, steps.skip(k));
    }
}

/// The message leaves the process in one step only: a successful answer to
/// the request to send it.
pub proof fn lemma_sent_only_by_send(
    mode: Mode,
    timeout_nanos: u128,
    phase: Phase,
    reply: Reply,
    now: u128,
    jitter: u64,
    fresh: Option<SubscriberHandle>,
)
    requires
        !phase.message_sent(),
        next_phase(mode, timeout_nanos, phase, reply, now, jitter, fresh).message_sent(),
    ensures
        phase is SendingMessage,
        pending_action(phase) == Action::SendMessage,
        reply == Reply::Done,
{
}

/// The check after a failed attempt to take over. With the slot still
/// occupied, the run fails with the timeout error exactly when more time
/// than the timeout has passed since the takeover began; otherwise the next
/// round begins, with the pause bound doubled up to its cap. The timeout
/// error has no other origin.
pub proof fn lemma_timeout_check(
    mode: Mode,
    timeout_nanos: u128,
    phase: Phase,
    reply: Reply,
    now: u128,
    jitter: u64,
    fresh: Option<SubscriberHandle>,
)
    ensures
        ({
            let next = next_phase(mode, timeout_nanos, phase, reply, now, jitter, fresh);
            let timeout = Phase::Failed(
                Failure::Timeout(SubscribeOnlyTimeoutError { timeout_nanos }),
            );
            &&& phase matches Phase::Reclaiming { entered_at, bound } ==> reply
                == Reply::SlotOccupied ==> next == (if elapsed_between(entered_at, now)
                > timeout_nanos {
                timeout
            } else {
                Phase::SignallingReplace { entered_at, bound: doubled(bound) }
            })
            &&& !(phase is Failed) && (next matches Phase::Failed(Failure::Timeout(_))) ==> {
                &&& phase is Reclaiming
                &&& reply == Reply::SlotOccupied
                &&& timed_out(timeout_nanos, phase->Reclaiming_entered_at, now)
                &&& next == timeout
            }
        }),
{
}

/// Every pause of the takeover is at most its bound, every bound is at most
/// the cap of 100 milliseconds, and a failure to signal, or to create the
/// subscriber for another reason than an occupied slot, ends the takeover at
/// once.
pub proof fn lemma_takeover_step(
    mode: Mode,
    timeout_nanos: u128,
    phase: Phase,
    reply: Reply,
    now: u128,
    jitter: u64,
    fresh: Option<SubscriberHandle>,
)
    ensures
        ({
            let next = next_phase(mode, timeout_nanos, phase, reply, now, jitter, fresh);
            &&& phase is CreatingReplaceNotifier && reply == Reply::Done ==> next == (
            Phase::SignallingReplace {
                entered_at: phase->CreatingReplaceNotifier_entered_at,
                bound: 2_000_000,
            })
            &&& phase matches Phase::SignallingReplace { entered_at, bound } ==> next == (
            if reply == Reply::Done {
                Phase::BackingOff { entered_at, bound, nanos: pause_of(jitter, bound) }
            } else {
                Phase::Failed(Failure::ReplaceSignal)
            })
            &&& next matches Phase::BackingOff { bound, nanos, .. } ==> nanos <= bound
            &&& phase matches Phase::BackingOff { entered_at, bound, .. } ==> next == (
            Phase::Reclaiming { entered_at, bound })
            &&& phase is Reclaiming && reply == Reply::Done ==> next == after_claim(fresh)
            &&& phase is Reclaiming && reply != Reply::Done && reply != Reply::SlotOccupied
                ==> next == Phase::Failed(Failure::SlotClaim)
            &&& next matches Phase::SignallingReplace { bound, .. } ==> bound
                <= MAX_BACKOFF_NANOS
        }),
{
}

/// The phase at the head of the takeover round with the given number,
/// counted from zero, when the subscriber has stayed through all rounds
/// before and the takeover is not yet out of time: the request to leave is
/// about to be signalled.
pub open spec fn head_of_round(timeout_nanos: u128, entered_at: u128, round: nat) -> Phase
    decreases round,
{
    let mode = Mode::SubscribeOnly;
    if round == 0 {
        next_phase(
            mode,
            timeout_nanos,
            Phase::CreatingReplaceNotifier { entered_at },
            Reply::Done,
            entered_at,
            0,
            None,
        )
    } else {
        let head = head_of_round(timeout_nanos, entered_at, (round - 1) as nat);
        let pausing = next_phase(mode, timeout_nanos, head, Reply::Done, entered_at, 0, None);
        let claiming = next_phase(mode, timeout_nanos, pausing, Reply::Done, entered_at, 0, None);
        next_phase(mode, timeout_nanos, claiming, Reply::SlotOccupied, entered_at, 0, None)
    }
}

/// The pause bounds follow the schedule: the first round pauses for at most
/// 2 milliseconds, and every further round for at most twice the bound of
/// the round before, up to the cap of 100 milliseconds.
pub proof fn lemma_rounds_follow_schedule(timeout_nanos: u128, entered_at: u128, round: nat)
    ensures
        head_of_round(timeout_nanos, entered_at, round) == (Phase::SignallingReplace {
            entered_at,
            bound: backoff_of_round(round),
        }),
        pending_action(
            next_phase(
                Mode::SubscribeOnly,
                timeout_nanos,
                head_of_round(timeout_nanos, entered_at, round),
                Reply::Done,
                entered_at,
                u64::MAX,
                None,
            ),
        ) == (Action::Wait { nanos: backoff_of_round(round) }),
    decreases round,
{
    if round > 0 {
        lemma_rounds_follow_schedule(timeout_nanos, entered_at, (round - 1) as nat);
    }
}

/// A subscriber that leaves on the first request. The first claim finds the
/// slot occupied; the request to leave is signalled once, after a pause of at
/// most 2 milliseconds the slot is claimed a second time, and with that claim
/// the takeover has succeeded.
pub proof fn lemma_vacated_on_first_request(
    timeout_nanos: u128,
    entered_at: u128,
    jitter: u64,
    claimed_at: u128,
    handle: SubscriberHandle,
)
    ensures
        ({
            let mode = Mode::SubscribeOnly;
            let fresh = Some(handle);
            let p1 = next_phase(
                mode,
                timeout_nanos,
                Phase::ClaimingSlot,
                Reply::SlotOccupied,
                entered_at,
                jitter,
                fresh,
            );
            let p2 = next_phase(mode, timeout_nanos, p1, Reply::Done, entered_at, jitter, fresh);
            let p3 = next_phase(mode, timeout_nanos, p2, Reply::Done, entered_at, jitter, fresh);
            let p4 = next_phase(mode, timeout_nanos, p3, Reply::Done, claimed_at, jitter, fresh);
            let p5 = next_phase(mode, timeout_nanos, p4, Reply::Done, claimed_at, jitter, fresh);
            let p6 = next_phase(mode, timeout_nanos, p5, Reply::Done, claimed_at, jitter, fresh);
            &&& pending_action(Phase::ClaimingSlot) == Action::ClaimSlot
            &&& pending_action(p1) == Action::CreateNotifier(Signal::Replace)
            &&& pending_action(p2) == Action::Fire(Signal::Replace)
            &&& pending_action(p3) == (Action::Wait { nanos: pause_of(jitter, 2_000_000) })
            &&& pause_of(jitter, 2_000_000) <= 2_000_000
            &&& pending_action(p4) == Action::ClaimSlot
            &&& pending_action(p5) == Action::SpawnLoop(handle)
            &&& p6 == Phase::Finished(Outcome::BecameSubscriber(handle))
        }),
{
}

/// A takeover against a subscriber that never leaves, on a clock that moves
/// by exactly the pauses taken. The round that begins at the reading `clock`
/// signals, pauses for the first of `jitters` cut to `bound`, and finds the
/// slot occupied; the result is the phase in which the sequence of pauses
/// ends, together with the clock reading then.
pub open spec fn siege(
    timeout_nanos: u128,
    entered_at: u128,
    bound: u64,
    clock: u128,
    jitters: Seq<u64>,
) -> (Phase, int)
    decreases jitters.len(),
{
    if jitters.len() == 0 {
        (Phase::SignallingReplace { entered_at, bound }, clock as int)
    } else {
        let pause = pause_of(jitters[0], bound);
        let checked_at = (clock + pause) as u128;
        let after = next_phase(
            Mode::SubscribeOnly,
            timeout_nanos,
            next_phase(
                Mode::SubscribeOnly,
                timeout_nanos,
                next_phase(
                    Mode::SubscribeOnly,
                    timeout_nanos,
                    Phase::SignallingReplace { entered_at, bound },
                    Reply::Done,
                    clock,
                    jitters[0],
                    None,
                ),
                Reply::Done,
                checked_at,
                0,
                None,
            ),
            Reply::SlotOccupied,
            checked_at,
            0,
            None,
        );
        if after is SignallingReplace {
            siege(timeout_nanos, entered_at, doubled(bound), checked_at, jitters.drop_first())
        } else {
            (after, clock + pause)
        }
    }
}

/// The sum of the pauses that a besieger would take if it never ran out of
/// time.
pub open spec fn total_pause(bound: u64, jitters: Seq<u64>) -> int
    decreases jitters.len(),
{
    if jitters.len() == 0 {
        0
    } else {
        pause_of(jitters[0], bound) + total_pause(doubled(bound), jitters.drop_first())
    }
}

/// A takeover against a subscriber that never leaves ends with the timeout
/// error, and in time. Whatever pauses are drawn: as long as no more than the
/// timeout has passed the takeover goes on; as soon as a check finds that
/// more has passed it fails with the timeout error; and at that moment no
/// more than the timeout and one pause bound, at most 100 milliseconds, have
/// passed since it began.
pub proof fn lemma_siege_ends_in_time(
    timeout_nanos: u128,
    entered_at: u128,
    bound: u64,
    clock: u128,
    jitters: Seq<u64>,
)
    requires
        bound <= MAX_BACKOFF_NANOS,
        entered_at <= clock,
        clock - entered_at <= timeout_nanos,
        clock + total_pause(bound, jitters) <= u128::MAX,
    ensures
        ({
            let (phase, ended_at) = siege(timeout_nanos, entered_at, bound, clock, jitters);
            &&& phase is SignallingReplace || phase == Phase::Failed(
                Failure::Timeout(SubscribeOnlyTimeoutError { timeout_nanos }),
            )
            &&& phase is SignallingReplace <==> clock + total_pause(bound, jitters) - entered_at
                <= timeout_nanos
            &&& phase is SignallingReplace ==> ended_at == clock + total_pause(bound, jitters)
            &&& clock <= ended_at <= clock + total_pause(bound, jitters)
            &&& ended_at - entered_at <= timeout_nanos + MAX_BACKOFF_NANOS
        }),
    decreases jitters.len(),
{
    lemma_total_pause_nonnegative(bound, jitters);
    if jitters.len() > 0 {
        let pause = pause_of(jitters[0], bound);
        let checked_at = (clock + pause) as u128;
        lemma_total_pause_nonnegative(doubled(bound), jitters.drop_first());
        if checked_at - entered_at <= timeout_nanos {
            lemma_siege_ends_in_time(
                timeout_nanos,
                entered_at,
                doubled(bound),
                checked_at,
                jitters.drop_first(),
            );
        }
    }
}

/// Pauses only add up.
pub proof fn lemma_total_pause_nonnegative(bound: u64, jitters: Seq<u64>)
    ensures
        total_pause(bound, jitters) >= 0,
    decreases jitters.len(),
{
    if jitters.len() > 0 {
        lemma_total_pause_nonnegative(doubled(bound), jitters.drop_first());
    }
}

} // verus!
