//! Restart policy numbers: the retry ceiling and the exponential backoff.

use vstd::prelude::*;

verus! {

/// Seconds to wait before the first restart of a worker.
pub const INITIAL_BACKOFF_SECS: u64 = 1;

/// Ceiling of the wait between two restarts of a worker.
pub const MAX_BACKOFF_SECS: u64 = 30;

/// Number of restarts after which a worker is left alone until it recovers.
pub const MAX_RESTART_ATTEMPTS: u32 = 5;

/// The wait that follows a wait of `current` seconds: twice as long, capped
/// at the ceiling.
pub open spec fn next_backoff_spec(current: u64) -> u64 {
    if 2 * current <= MAX_BACKOFF_SECS {
        (2 * current) as u64
    } else {
        MAX_BACKOFF_SECS
    }
}

/// The wait in force after `restarts` restarts without a recovery in between.
pub open spec fn backoff_after(restarts: nat) -> u64
    decreases restarts,
{
    if restarts == 0 {
        INITIAL_BACKOFF_SECS
    } else {
        next_backoff_spec(backoff_after((restarts - 1) as nat))
    }
}

/// The wait that follows a wait of `current` seconds.
pub fn next_backoff(current: u64) -> (next: u64)
    ensures
        next == next_backoff_spec(current),
{
    if current <= MAX_BACKOFF_SECS / 2 {
        current * 2
    } else {
        MAX_BACKOFF_SECS
    }
}

/// The backoff walks through 1, 2, 4, 8, 16, 30 and then stays at 30.
pub proof fn lemma_backoff_sequence(restarts: nat)
    ensures
        restarts == 0 ==> backoff_after(restarts) == 1,
        restarts == 1 ==> backoff_after(restarts) == 2,
        restarts == 2 ==> backoff_after(restarts) == 4,
        restarts == 3 ==> backoff_after(restarts) == 8,
        restarts == 4 ==> backoff_after(restarts) == 16,
        restarts >= 5 ==> backoff_after(restarts) == 30,
    decreases restarts,
{
    if restarts > 0 {
        lemma_backoff_sequence((restarts - 1) as nat);
    }
}

/// The backoff never shrinks from one restart to the next and never exceeds
/// the ceiling.
pub proof fn lemma_backoff_monotone(restarts: nat)
    ensures
        INITIAL_BACKOFF_SECS <= backoff_after(restarts) <= backoff_after(restarts + 1)
            <= MAX_BACKOFF_SECS,
{
    lemma_backoff_sequence(restarts);
    lemma_backoff_sequence(restarts + 1);
}

} // verus!
