//! Decisions of the background refresh loop.
//!
//! The loop itself — sleeping, spawning, logging — is ordinary runtime
//! plumbing and lives with the process bootstrap.  What is decided here is
//! the loop's policy: the initial refresh is load-bearing and its failure
//! aborts startup, while every later refresh failure is logged and the loop
//! carries on to the next interval.

use vstd::prelude::*;

verus! {

/// Seconds between two scheduled refreshes of the mirror.
pub const TTL_SECS: u64 = 60 * 5;

/// Divisor of the transfer percentages that are logged.
pub const INCREMENT_TO_LOG: u64 = 5;

/// What the refresh loop does after one `fetch_or_update` attempt.
#[derive(Clone, Copy, Debug, PartialEq, Eq, Structural)]
pub enum RefreshAction {
    /// Startup cannot proceed: without a usable mirror no query can succeed.
    AbortStartup,
    /// Wait for the refresh interval, then try again.
    ScheduleNext,
}

/// Decide what follows one refresh attempt.
///
/// Only a failing *initial* refresh is fatal; a failure of any scheduled
/// refresh after startup must never stop future attempts or query serving.
pub fn after_refresh(initial_run: bool, succeeded: bool) -> (a: RefreshAction)
    ensures
        a == RefreshAction::AbortStartup <==> (initial_run && !succeeded),
{
    if initial_run && !succeeded {
        RefreshAction::AbortStartup
    } else {
        RefreshAction::ScheduleNext
    }
}

/// The percentage of `done` out of `total`, rounded down.
pub open spec fn percentage_of(done: int, total: int) -> int {
    done * 100 / total
}

/// Decide whether one transfer-progress sample should be logged, and with
/// what percentage.
///
/// Progress is reported at coarse granularity to avoid log flooding: a
/// sample is logged only when its percentage is a fresh multiple of
/// [`INCREMENT_TO_LOG`].  A total of zero yields nothing — there is no
/// meaningful percentage to report.  This is observability only and never
/// affects what is fetched.
pub fn progress_to_log(done: u64, total: u64, current_percentage: u64) -> (r: Option<u64>)
    ensures
        r is Some <==> (total > 0 && percentage_of(done as int, total as int) <= u64::MAX
            && percentage_of(done as int, total as int) != current_percentage && percentage_of(
            done as int,
            total as int,
        ) % (INCREMENT_TO_LOG as int) == 0),
        r matches Some(p) ==> p == percentage_of(done as int, total as int),
{
    if total == 0 {
        return None;
    }
    let wide: u128 = (done as u128) * 100 / (total as u128);
    if wide > u64::MAX as u128 {
        return None;
    }
    let percentage = wide as u64;
    assert(percentage == percentage_of(done as int, total as int));
    if percentage != current_percentage && percentage % INCREMENT_TO_LOG == 0 {
        Some(percentage)
    } else {
        None
    }
}

} // verus!
