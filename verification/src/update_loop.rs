//! Waiting for the checks after the start. Times are the nanoseconds of a clock.

use vstd::prelude::*;

use crate::runtime::UPDATE_DELAY_SECS;
use crate::schedule::FAILED_RETRY_SECS;

verus! {

/// The nanoseconds of a second.
pub const NANOS_PER_SEC: u64 = 1000000000;

/// The longest that a wait sleeps before it looks whether the application ends.
pub const LONGEST_SLEEP: u64 = 60000000000;

/// What a wait for the next check does.
#[derive(Clone, Copy, Debug, PartialEq, Eq, Structural)]
pub enum Tick {
    /// The application ends: no check follows.
    Stop,
    /// It sleeps for so many nanoseconds and looks again.
    Sleep(u64),
    /// The check is made.
    Fire,
}

/// What a wait does with so much time to go.
pub open spec fn tick(remaining: u128, ending: bool) -> Tick {
    if ending {
        Tick::Stop
    } else if remaining == 0 {
        Tick::Fire
    } else if remaining < LONGEST_SLEEP {
        Tick::Sleep(remaining as u64)
    } else {
        Tick::Sleep(LONGEST_SLEEP)
    }
}

/// What a wait does with so much time to go.
pub fn next_tick(remaining: u128, ending: bool) -> (next: Tick)
    ensures
        next == tick(remaining, ending),
{
    if ending {
        Tick::Stop
    } else if remaining == 0 {
        Tick::Fire
    } else if remaining < LONGEST_SLEEP as u128 {
        Tick::Sleep(remaining as u64)
    } else {
        Tick::Sleep(LONGEST_SLEEP)
    }
}

/// The seconds before the next check of the runtime: before the first one, and after
/// one was made.
pub open spec fn update_wait(checked: bool) -> u64 {
    if checked {
        FAILED_RETRY_SECS
    } else {
        UPDATE_DELAY_SECS
    }
}

/// The seconds before the next check of the runtime.
pub fn next_update_wait(checked: bool) -> (seconds: u64)
    ensures
        seconds == if checked {
            FAILED_RETRY_SECS
        } else {
            UPDATE_DELAY_SECS
        },
{
    if checked {
        FAILED_RETRY_SECS
    } else {
        UPDATE_DELAY_SECS
    }
}

/// The checks of the runtime, one after the other until the application ends.
#[derive(Clone, Copy, Debug, PartialEq, Eq, Structural)]
pub enum UpdateLoop {
    /// The next check is made at this time.
    Waiting { deadline: u128 },
    /// A check is being made since this time.
    Checking { since: u64 },
    Stopped,
}

/// So many seconds after `now`.
pub open spec fn seconds_after(now: u64, seconds: u64) -> u128 {
    (now + seconds * NANOS_PER_SEC) as u128
}

/// So many seconds after `now`.
pub fn time_after(now: u64, seconds: u64) -> (time: u128)
    ensures
        time == seconds_after(now, seconds),
        time == now + seconds * NANOS_PER_SEC,
{
    assert(seconds * NANOS_PER_SEC <= u64::MAX * NANOS_PER_SEC) by (nonlinear_arith)
        requires
            seconds <= u64::MAX,
    ;
    now as u128 + seconds as u128 * NANOS_PER_SEC as u128
}

/// The later of two times.
pub open spec fn later_of(first: u64, second: u64) -> u64 {
    if first < second {
        second
    } else {
        first
    }
}

/// What the loop does when it wakes. `checked` says that the check it asked for was
/// made. A clock that was set back meanwhile counts as no time passed.
pub open spec fn loop_step(state: UpdateLoop, now: u64, ending: bool, checked: bool) -> (
    UpdateLoop,
    Tick,
) {
    if ending {
        (UpdateLoop::Stopped, Tick::Stop)
    } else {
        match state {
            UpdateLoop::Stopped => (state, Tick::Stop),
            UpdateLoop::Waiting { deadline } => if now >= deadline {
                (UpdateLoop::Checking { since: now }, Tick::Fire)
            } else {
                (state, tick((deadline - now) as u128, false))
            },
            UpdateLoop::Checking { since } => if checked {
                let deadline = seconds_after(later_of(since, now), update_wait(true));
                (UpdateLoop::Waiting { deadline }, tick((deadline - now) as u128, false))
            } else {
                (state, Tick::Sleep(LONGEST_SLEEP))
            },
        }
    }
}

/// The loop at its start.
pub open spec fn loop_start(now: u64) -> UpdateLoop {
    UpdateLoop::Waiting { deadline: seconds_after(now, update_wait(false)) }
}

impl UpdateLoop {
    /// The loop at its start.
    pub fn new(now: u64) -> (state: UpdateLoop)
        ensures
            state == loop_start(now),
    {
        UpdateLoop::Waiting { deadline: time_after(now, next_update_wait(false)) }
    }

    /// Wakes the loop and says what it does.
    pub fn wake(&mut self, now: u64, ending: bool, checked: bool) -> (next: Tick)
        ensures
            (*final(self), next) == loop_step(*old(self), now, ending, checked),
    {
        if ending {
            *self = UpdateLoop::Stopped;
            return Tick::Stop;
        }
        match *self {
            UpdateLoop::Stopped => Tick::Stop,
            UpdateLoop::Waiting { deadline } => if now as u128 >= deadline {
                *self = UpdateLoop::Checking { since: now };
                Tick::Fire
            } else {
                next_tick(deadline - now as u128, false)
            },
            UpdateLoop::Checking { since } => if checked {
                let made: u64 = if since < now {
                    now
                } else {
                    since
                };
                let deadline: u128 = time_after(made, next_update_wait(true));
                *self = UpdateLoop::Waiting { deadline };
                next_tick(deadline - now as u128, false)
            } else {
                Tick::Sleep(LONGEST_SLEEP)
            },
        }
    }
}

/// One time that a wait woke.
pub struct Wake {
    pub now: u64,
    pub ending: bool,
    pub checked: bool,
}

/// The loop after it woke at all these times.
pub open spec fn loop_run(state: UpdateLoop, wakes: Seq<Wake>) -> UpdateLoop
    decreases wakes.len(),
{
    if wakes.len() == 0 {
        state
    } else {
        let wake = wakes.last();
        loop_step(loop_run(state, wakes.drop_last()), wake.now, wake.ending, wake.checked).0
    }
}

/// What the loop does when it wakes for the time at `at`.
pub open spec fn loop_tick(state: UpdateLoop, wakes: Seq<Wake>, at: int) -> Tick {
    let wake = wakes[at];
    loop_step(loop_run(state, wakes.take(at)), wake.now, wake.ending, wake.checked).1
}

/// No check is made before `time`.
spec fn rests_until(state: UpdateLoop, time: int) -> bool {
    match state {
        UpdateLoop::Waiting { deadline } => deadline >= time,
        UpdateLoop::Checking { since } => since + FAILED_RETRY_SECS * NANOS_PER_SEC >= time,
        UpdateLoop::Stopped => true,
    }
}

proof fn lemma_loop_rests(state: UpdateLoop, wakes: Seq<Wake>, from: int, to: int, time: int)
    requires
        0 <= from <= to <= wakes.len(),
        rests_until(loop_run(state, wakes.take(from)), time),
    ensures
        rests_until(loop_run(state, wakes.take(to)), time),
    decreases to - from,
{
    if from < to {
        let last = to - 1;
        lemma_loop_rests(state, wakes, from, last, time);
        assert(wakes.take(to).drop_last() =~= wakes.take(last));
        assert(wakes.take(to).last() == wakes[last]);
    }
}

/// Every check of the runtime, also the first, is made no earlier than the delay
/// after the loop began.
pub proof fn law_first_check_waits(start: u64, wakes: Seq<Wake>, at: int)
    requires
        0 <= at < wakes.len(),
        loop_tick(loop_start(start), wakes, at) is Fire,
    ensures
        wakes[at].now >= start + UPDATE_DELAY_SECS * NANOS_PER_SEC,
{
    let time = start + UPDATE_DELAY_SECS * NANOS_PER_SEC;
    assert(wakes.take(0) =~= Seq::empty());
    lemma_loop_rests(loop_start(start), wakes, 0, at, time);
}

/// Of two checks of the runtime the later one is made no earlier than the retry time
/// after the other.
pub proof fn law_checks_are_apart(state: UpdateLoop, wakes: Seq<Wake>, earlier: int, later: int)
    requires
        0 <= earlier < later < wakes.len(),
        loop_tick(state, wakes, earlier) is Fire,
        loop_tick(state, wakes, later) is Fire,
    ensures
        wakes[later].now >= wakes[earlier].now + FAILED_RETRY_SECS * NANOS_PER_SEC,
{
    let time = wakes[earlier].now + FAILED_RETRY_SECS * NANOS_PER_SEC;
    assert(wakes.take(earlier + 1).drop_last() =~= wakes.take(earlier));
    assert(wakes.take(earlier + 1).last() == wakes[earlier]);
    lemma_loop_rests(state, wakes, earlier + 1, later, time);
}

/// Once the loop woke while the application ended, it makes no check any more.
pub proof fn law_no_check_follows_the_end(state: UpdateLoop, wakes: Seq<Wake>, end: int, at: int)
    requires
        0 <= end <= at < wakes.len(),
        wakes[end].ending || loop_tick(state, wakes, end) is Stop,
    ensures
        loop_tick(state, wakes, at) is Stop,
    decreases at - end,
{
    if end < at {
        law_no_check_follows_the_end(state, wakes, end, at - 1);
        assert(wakes.take(at).drop_last() =~= wakes.take(at - 1));
        assert(wakes.take(at).last() == wakes[at - 1]);
    }
}

/// One check that is made after a delay.
#[derive(Clone, Copy, Debug, PartialEq, Eq, Structural)]
pub struct DelayedCheck {
    pub deadline: u128,
    pub over: bool,
}

/// The check that is made so many seconds from `now` on.
pub open spec fn delayed_from(now: u64, seconds: u64) -> DelayedCheck {
    DelayedCheck { deadline: seconds_after(now, seconds), over: false }
}

/// So many nanoseconds, or as many of them as one sleep can last.
pub open spec fn in_one_sleep(nanos: u128) -> u64 {
    if nanos > u64::MAX {
        u64::MAX
    } else {
        nanos as u64
    }
}

/// What the wait for the one check does when it wakes. Whether the application ends
/// is looked at when the time has come, and only then.
pub open spec fn delayed_step(check: DelayedCheck, now: u64, ending: bool) -> (
    DelayedCheck,
    Tick,
) {
    if check.over {
        (check, Tick::Stop)
    } else if now < check.deadline {
        (check, Tick::Sleep(in_one_sleep((check.deadline - now) as u128)))
    } else {
        (
            DelayedCheck { over: true, ..check },
            if ending {
                Tick::Stop
            } else {
                Tick::Fire
            },
        )
    }
}

impl DelayedCheck {
    /// The check that is made so many seconds from `now` on.
    pub fn new(now: u64, seconds: u64) -> (check: DelayedCheck)
        ensures
            check == delayed_from(now, seconds),
    {
        DelayedCheck { deadline: time_after(now, seconds), over: false }
    }

    /// Wakes the wait and says what it does.
    pub fn wake(&mut self, now: u64, ending: bool) -> (next: Tick)
        ensures
            (*final(self), next) == delayed_step(*old(self), now, ending),
    {
        if self.over {
            Tick::Stop
        } else if (now as u128) < self.deadline {
            let remaining: u128 = self.deadline - now as u128;
            Tick::Sleep(
                if remaining > u64::MAX as u128 {
                    u64::MAX
                } else {
                    remaining as u64
                },
            )
        } else {
            self.over = true;
            if ending {
                Tick::Stop
            } else {
                Tick::Fire
            }
        }
    }
}

/// The one check after its wait woke at all these times.
pub open spec fn delayed_run(check: DelayedCheck, wakes: Seq<Wake>) -> DelayedCheck
    decreases wakes.len(),
{
    if wakes.len() == 0 {
        check
    } else {
        let wake = wakes.last();
        delayed_step(delayed_run(check, wakes.drop_last()), wake.now, wake.ending).0
    }
}

/// What the wait for the one check does when it wakes for the time at `at`.
pub open spec fn delayed_tick(check: DelayedCheck, wakes: Seq<Wake>, at: int) -> Tick {
    delayed_step(delayed_run(check, wakes.take(at)), wakes[at].now, wakes[at].ending).1
}

proof fn lemma_delayed(check: DelayedCheck, wakes: Seq<Wake>)
    ensures
        delayed_run(check, wakes).deadline == check.deadline,
        forall|i: int|
            0 <= i < wakes.len() && #[trigger] delayed_tick(check, wakes, i) is Fire
                ==> delayed_run(check, wakes).over,
    decreases wakes.len(),
{
    if wakes.len() > 0 {
        let front = wakes.drop_last();
        let at = wakes.len() - 1;
        lemma_delayed(check, front);
        assert(wakes.take(at) =~= front);
        assert forall|i: int|
            0 <= i < wakes.len() && #[trigger] delayed_tick(check, wakes, i) is Fire implies
            delayed_run(check, wakes).over by {
            if i < at {
                assert(front.take(i) =~= wakes.take(i));
                assert(delayed_tick(check, front, i) is Fire);
            }
        }
    }
}

/// The check is made no earlier than the delay after it was asked for, and not while
/// the application ends.
pub proof fn law_delayed_check_waits(start: u64, seconds: u64, wakes: Seq<Wake>, at: int)
    requires
        0 <= at < wakes.len(),
        delayed_tick(delayed_from(start, seconds), wakes, at) is Fire,
    ensures
        wakes[at].now >= start + seconds * NANOS_PER_SEC,
        !wakes[at].ending,
{
    lemma_delayed(delayed_from(start, seconds), wakes.take(at));
}

/// The check is made at most once.
pub proof fn law_delayed_check_is_made_once(
    check: DelayedCheck,
    wakes: Seq<Wake>,
    earlier: int,
    later: int,
)
    requires
        0 <= earlier < later < wakes.len(),
        delayed_tick(check, wakes, earlier) is Fire,
    ensures
        delayed_tick(check, wakes, later) is Stop,
{
    let front = wakes.take(later);
    assert(front.take(earlier) =~= wakes.take(earlier));
    lemma_delayed(check, front);
    assert(delayed_tick(check, front, earlier) is Fire);
}

/// The loop fires as soon as its time has come, unless the application ends; until then
/// it sleeps, a minute at most and never past its time.
pub proof fn law_loop_fires_when_its_time_has_come(deadline: u128, now: u64, checked: bool)
    ensures
        ({
            let waiting = UpdateLoop::Waiting { deadline };
            let (next, done) = loop_step(waiting, now, false, checked);
            &&& now >= deadline ==> done is Fire && next == (UpdateLoop::Checking { since: now })
            &&& now < deadline ==> next == waiting && (done matches Tick::Sleep(nanos) && nanos > 0
                && nanos <= 60000000000 && now + nanos <= deadline && (nanos == 60000000000 || now
                + nanos == deadline))
            &&& loop_step(waiting, now, true, checked) == (UpdateLoop::Stopped, Tick::Stop)
        }),
{
}

/// Once a check was made, the next one is waited for an hour from then on; until it was,
/// the loop sleeps.
pub proof fn law_loop_waits_an_hour_after_a_check(since: u64, now: u64)
    requires
        since <= now,
    ensures
        ({
            let checking = UpdateLoop::Checking { since };
            let (next, done) = loop_step(checking, now, false, true);
            &&& next == (UpdateLoop::Waiting {
                deadline: (now + 3600 * 1000000000) as u128,
            })
            &&& done == Tick::Sleep(60000000000)
            &&& loop_step(checking, now, false, false) == (checking, Tick::Sleep(60000000000))
            &&& loop_step(checking, now, true, true) == (UpdateLoop::Stopped, Tick::Stop)
        }),
{
}

/// The loop begins with a wait of a minute.
pub proof fn law_loop_begins_with_a_minute(now: u64)
    ensures
        loop_start(now) == (UpdateLoop::Waiting { deadline: (now + 60 * 1000000000) as u128 }),
        update_wait(false) == 60,
        update_wait(true) == 3600,
{
}

/// The one check is made as soon as its time has come, unless the application ends then,
/// and until then its wait sleeps for what is left.
pub proof fn law_delayed_check_is_made_when_its_time_has_come(
    start: u64,
    seconds: u64,
    now: u64,
    ending: bool,
)
    ensures
        ({
            let check = delayed_from(start, seconds);
            let (next, done) = delayed_step(check, now, ending);
            let time = start + seconds * NANOS_PER_SEC;
            &&& !check.over && check.deadline == time
            &&& now >= time && !ending ==> done is Fire
            &&& now >= time && ending ==> done is Stop
            &&& now >= time ==> next.over
            &&& now < time ==> next == check && (done matches Tick::Sleep(nanos) && nanos > 0 && now
                + nanos <= time)
            &&& time - now <= u64::MAX && now < time ==> done == Tick::Sleep((time - now) as u64)
        }),
{
    assert(seconds * NANOS_PER_SEC <= u64::MAX * NANOS_PER_SEC) by (nonlinear_arith)
        requires
            seconds <= u64::MAX,
    ;
}

} // verus!
