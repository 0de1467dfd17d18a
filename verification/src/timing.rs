//! The intervals of the protocol, and the growth of the pause between two
//! attempts to take over the subscriber slot.
//!
//! Every interval is a number of nanoseconds.

use vstd::prelude::*;

verus! {

/// How long the subscriber waits for a signal before it looks again at its
/// own liveness flag.
pub const POLL_INTERVAL_NANOS: u64 = 200_000_000;

/// How long a publisher lingers after a notification that went through.
pub const SETTLE_AFTER_SIGNAL_NANOS: u64 = 50_000_000;

/// How long a publisher lingers when the notification failed, so that the
/// subscriber finds the message on its own poll.
pub const SETTLE_WITHOUT_SIGNAL_NANOS: u64 = 200_000_000;

/// The pause bound of the first round of a takeover.
pub const INITIAL_BACKOFF_NANOS: u64 = 2_000_000;

/// The largest pause bound.
pub const MAX_BACKOFF_NANOS: u64 = 100_000_000;

/// How long a takeover is attempted when nothing else is configured.
pub const DEFAULT_TIMEOUT_NANOS: u128 = 200_000_000;

/// Twice the bound, capped at [`MAX_BACKOFF_NANOS`].
pub open spec fn doubled(bound: u64) -> u64 {
    if 2 * bound <= MAX_BACKOFF_NANOS {
        (2 * bound) as u64
    } else {
        MAX_BACKOFF_NANOS
    }
}

/// The pause bound of the round with the given number, counted from zero:
/// the initial bound in the first round, doubled from each round to the
/// next up to the cap.
pub open spec fn backoff_of_round(round: nat) -> u64
    decreases round,
{
    if round == 0 {
        INITIAL_BACKOFF_NANOS
    } else {
        doubled(backoff_of_round((round - 1) as nat))
    }
}

/// Time that passed between two readings of a clock that never runs
/// backwards; a reading before the start counts as no time at all.
pub open spec fn elapsed_between(start: u128, now: u128) -> u128 {
    if now >= start {
        (now - start) as u128
    } else {
        0
    }
}

/// Doubles a pause bound, capped at [`MAX_BACKOFF_NANOS`].
#[verifier::when_used_as_spec(doubled)]
pub fn next_backoff(bound: u64) -> (next: u64)
    ensures
        next == doubled(bound),
        next <= MAX_BACKOFF_NANOS,
{
    if bound <= MAX_BACKOFF_NANOS / 2 {
        bound * 2
    } else {
        MAX_BACKOFF_NANOS
    }
}

/// Time between two clock readings, see [`elapsed_between`].
#[verifier::when_used_as_spec(elapsed_between)]
pub fn elapsed(start: u128, now: u128) -> (span: u128)
    ensures
        span == elapsed_between(start, now),
{
    if now >= start {
        now - start
    } else {
        0
    }
}

/// `rand::random_range` on the inclusive range from zero to `bound`, drawn
/// from the thread's generator: some number that is at most `bound`.
#[verifier::external_body]
fn random_up_to(bound: u64) -> (drawn: u64)
    ensures
        drawn <= bound,
{
    rand::random_range(0..=bound)
}

/// A random pause of at most `bound` nanoseconds, so that competing
/// processes do not retry in lockstep.
pub fn random_pause(bound: u64) -> (nanos: u64)
    ensures
        nanos <= bound,
{
    random_up_to(bound)
}

/// No pause bound is below the initial one or above the cap, and from one
/// round to the next the bound never shrinks.
pub proof fn lemma_backoff_bounded(round: nat)
    ensures
        INITIAL_BACKOFF_NANOS <= backoff_of_round(round) <= MAX_BACKOFF_NANOS,
        backoff_of_round(round) <= backoff_of_round(round + 1),
    decreases round,
{
    if round > 0 {
        lemma_backoff_bounded((round - 1) as nat);
    }
    assert(backoff_of_round(round + 1) == doubled(backoff_of_round(round)));
}

/// The bounds of the first rounds are 2, 4, 8, 16, 32 and 64 milliseconds;
/// from the seventh round on the bound is the cap of 100 milliseconds.
pub proof fn lemma_backoff_schedule(round: nat)
    ensures
        backoff_of_round(0) == 2_000_000,
        backoff_of_round(1) == 4_000_000,
        backoff_of_round(2) == 8_000_000,
        backoff_of_round(3) == 16_000_000,
        backoff_of_round(4) == 32_000_000,
        backoff_of_round(5) == 64_000_000,
        round >= 6 ==> backoff_of_round(round) == MAX_BACKOFF_NANOS,
    decreases round,
{
    reveal_with_fuel(backoff_of_round, 7);
    if round > 6 {
        lemma_backoff_schedule((round - 1) as nat);
    }
}

} // verus!
