//! The circuit breaker of the polling loop: consecutive live failures are
//! counted and, past a limit, the bot stops.
use vstd::prelude::*;

verus! {

/// What one round of the polling loop gave.
#[derive(Debug, Clone, Copy, PartialEq, Eq, Structural)]
pub enum PollOutcome {
    /// The state was reloaded and scanned; live transactions that landed and failed
    Scanned { live_success: u64, live_failure: u64 },
    /// The state could not be reloaded
    ReloadFailed,
}

/// `a + b` capped at `u32::MAX`.
pub open spec fn sat_add_u32(a: u32, b: u32) -> u32 {
    if a + b > u32::MAX {
        u32::MAX
    } else {
        (a + b) as u32
    }
}

/// The count of consecutive failures after a round: a dry run counts
/// nothing; a scan with failures and no success adds its failures (their
/// count taken modulo 2^32); a scan with a success resets it; a failed
/// reload adds one.
pub open spec fn spec_next_consecutive_failures(
    consecutive: u32,
    dry_run: bool,
    outcome: PollOutcome,
) -> u32 {
    if dry_run {
        consecutive
    } else {
        match outcome {
            PollOutcome::Scanned { live_success, live_failure } => if live_failure > 0
                && live_success == 0 {
                sat_add_u32(consecutive, live_failure as u32)
            } else if live_success > 0 {
                0
            } else {
                consecutive
            },
            PollOutcome::ReloadFailed => sat_add_u32(consecutive, 1),
        }
    }
}

/// Updates the count of consecutive failures after a round, see
/// `spec_next_consecutive_failures`.
pub fn next_consecutive_failures(consecutive: u32, dry_run: bool, outcome: PollOutcome) -> (r: u32)
    ensures
        r == spec_next_consecutive_failures(consecutive, dry_run, outcome),
{
    if dry_run {
        return consecutive;
    }
    match outcome {
        PollOutcome::Scanned { live_success, live_failure } => {
            if live_failure > 0 && live_success == 0 {
                consecutive.saturating_add(live_failure as u32)
            } else if live_success > 0 {
                0
            } else {
                consecutive
            }
        },
        PollOutcome::ReloadFailed => consecutive.saturating_add(1),
    }
}

/// Whether the bot must stop: live, with a limit set, and at least that
/// many failures in a row.
pub fn circuit_breaker_tripped(consecutive: u32, dry_run: bool, max_consecutive_failures: u32) -> (r:
    bool)
    ensures
        r == (!dry_run && max_consecutive_failures > 0 && consecutive >= max_consecutive_failures),
{
    !dry_run && max_consecutive_failures > 0 && consecutive >= max_consecutive_failures
}

} // verus!
