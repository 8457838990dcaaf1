//! When the next look for an update is due.

use vstd::prelude::*;

verus! {

/// The seconds that pass before a failed look is repeated.
pub const FAILED_RETRY_SECS: u64 = 3600;

/// At least `span` seconds have passed since `last`, or there was no such time.
/// A clock that was set back counts as no time passed.
pub open spec fn passed(last: Option<u64>, now: u64, span: u64) -> bool {
    match last {
        Some(last) => (if now >= last {
            now - last
        } else {
            0
        }) >= span,
        None => true,
    }
}

/// A look is due: the interval has passed since the last one that succeeded,
/// and the retry time since the last attempt.
pub open spec fn due(
    last_success: Option<u64>,
    last_attempt: Option<u64>,
    now: u64,
    interval: u64,
) -> bool {
    passed(last_success, now, interval) && passed(last_attempt, now, FAILED_RETRY_SECS)
}

fn has_passed(last: Option<u64>, now: u64, span: u64) -> (yes: bool)
    ensures
        yes == passed(last, now, span),
{
    match last {
        Some(last) => (if now >= last {
            now - last
        } else {
            0
        }) >= span,
        None => true,
    }
}

/// Whether a look is due at `now`.
pub fn is_due(
    last_success: Option<u64>,
    last_attempt: Option<u64>,
    now: u64,
    interval: u64,
) -> (yes: bool)
    ensures
        yes == due(last_success, last_attempt, now, interval),
{
    has_passed(last_success, now, interval) && has_passed(last_attempt, now, FAILED_RETRY_SECS)
}

/// Whoever has never looked for an update is due at any time.
pub proof fn law_first_check_is_due(now: u64, interval: u64)
    ensures
        due(None, None, now, interval),
{
}

/// After an attempt no look is due for the retry time, whatever came of the
/// attempt.
pub proof fn law_attempt_is_not_repeated_at_once(
    last_success: Option<u64>,
    attempt: u64,
    now: u64,
    interval: u64,
)
    requires
        now < attempt + FAILED_RETRY_SECS,
    ensures
        !due(last_success, Some(attempt), now, interval),
{
}

/// After a look that succeeded no look is due until the interval has passed.
pub proof fn law_success_holds_for_the_interval(
    success: u64,
    last_attempt: Option<u64>,
    now: u64,
    interval: u64,
)
    requires
        0 < interval,
        now < success + interval,
    ensures
        !due(Some(success), last_attempt, now, interval),
{
}

/// Once the interval has passed since the last success and the retry time since
/// the last attempt, a look is due.
pub proof fn law_check_becomes_due(success: u64, attempt: u64, now: u64, interval: u64)
    requires
        now >= success + interval,
        now >= attempt + FAILED_RETRY_SECS,
    ensures
        due(Some(success), Some(attempt), now, interval),
{
}

/// What is due stays due as time goes on.
pub proof fn law_due_stays_due(
    last_success: Option<u64>,
    last_attempt: Option<u64>,
    now: u64,
    later: u64,
    interval: u64,
)
    requires
        now <= later,
        due(last_success, last_attempt, now, interval),
    ensures
        due(last_success, last_attempt, later, interval),
{
}

} // verus!
