//! The backend-availability poll: connect attempts in 20 ms slots until
//! one succeeds or a 3 s budget is spent. The decisions are here; the
//! caller supplies the clock readings and the connect attempts, sleeps the
//! remainder of each slot, and stops as soon as the budget gate says so,
//! downgrading an exhausted budget to a warning.

use vstd::prelude::*;

verus! {

/// The length of one poll slot, and the per-attempt connect timeout.
pub const POLL_PERIOD_MS: u64 = 20;

/// The total wall-clock budget of one poll.
pub const PORT_WAIT_TIMEOUT_MS: u64 = 3000;

/// Whether another connect attempt may start: only while the elapsed
/// wall-clock time is still under the budget. Once the budget is spent the
/// poll must hand control back.
pub fn poll_may_continue(elapsed_ms: u64) -> (b: bool)
    ensures
        b == (elapsed_ms < PORT_WAIT_TIMEOUT_MS),
{
    elapsed_ms < PORT_WAIT_TIMEOUT_MS
}

/// How long to sleep after a failed attempt that took `attempt_ms`: the
/// remainder of the 20 ms slot, so that attempt plus sleep never undercut
/// one slot and the loop does not busy-spin.
pub fn poll_sleep_ms(attempt_ms: u64) -> (d: u64)
    ensures
        d == if attempt_ms < POLL_PERIOD_MS {
            (POLL_PERIOD_MS - attempt_ms) as int
        } else {
            0int
        },
        attempt_ms + d >= POLL_PERIOD_MS || d == 0,
{
    if attempt_ms < POLL_PERIOD_MS {
        POLL_PERIOD_MS - attempt_ms
    } else {
        0
    }
}

/// The poll is bounded: each round of the loop costs at least one slot, so
/// after 150 rounds the elapsed time has reached the whole budget and the
/// gate refuses another attempt — the poll cannot run indefinitely.
pub proof fn lemma_poll_bounded(rounds: nat, elapsed_ms: nat)
    requires
        elapsed_ms >= rounds * POLL_PERIOD_MS,
        rounds >= 150,
    ensures
        elapsed_ms >= PORT_WAIT_TIMEOUT_MS,
{
    assert(rounds * POLL_PERIOD_MS >= 150 * POLL_PERIOD_MS) by (nonlinear_arith)
        requires
            rounds >= 150,
    ;
}

} // verus!
