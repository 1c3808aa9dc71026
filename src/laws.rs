//! Properties of sequences of admission checks. Calls on a shared throttle
//! are serialized by its lock, so any interleaving of concurrent callers is
//! one such sequence, in the order in which they took the lock.
use vstd::prelude::*;
use crate::throttle::{step, ThrottleState};

verus! {

/// The smaller of two integers.
pub open spec fn min_int(a: int, b: int) -> int {
    if a <= b { a } else { b }
}

/// Runs the admission checks made at `times`, in order, from state `s`: the
/// state after the last one, and how many of them were admitted.
pub open spec fn run(s: ThrottleState, times: Seq<int>) -> (ThrottleState, nat)
    decreases times.len(),
{
    if times.len() == 0 {
        (s, 0)
    } else {
        let (s1, admitted) = step(s, times[0]);
        let (s2, n) = run(s1, times.drop_first());
        (s2, n + if admitted { 1nat } else { 0nat })
    }
}

/// Within the current window (no call earlier than its start, none more than
/// `timeout` after it), calls in any order are admitted exactly while room
/// is left: as many as the smaller of their number and the room. The window
/// stays where it was.
pub proof fn lemma_admitted_within_window(s: ThrottleState, times: Seq<int>)
    requires
        s.well_formed(),
        forall|i: int|
            0 <= i < times.len() ==> s.window_start <= #[trigger] times[i] && times[i]
                - s.window_start <= s.timeout,
    ensures
        run(s, times).1 == min_int(times.len() as int, s.threshold - s.count),
        run(s, times).0.window_start == s.window_start,
        run(s, times).0.well_formed(),
    decreases times.len(),
{
    if times.len() > 0 {
        let s1 = step(s, times[0]).0;
        let rest = times.drop_first();
        assert forall|i: int| 0 <= i < rest.len() implies s1.window_start <= #[trigger] rest[i]
            && rest[i] - s1.window_start <= s1.timeout by {
            assert(rest[i] == times[i + 1]);
        }
        lemma_admitted_within_window(s1, rest);
    }
}

/// A batch of calls whose first call finds the window expired, and whose
/// others come no earlier than that call and no more than `timeout` after
/// it, in any order: exactly the smaller of their number and `threshold` are
/// admitted.
pub proof fn lemma_threshold_bound(s: ThrottleState, times: Seq<int>)
    requires
        s.well_formed(),
        times.len() > 0,
        times[0] - s.window_start > s.timeout,
        forall|i: int|
            0 <= i < times.len() ==> times[0] <= #[trigger] times[i] && times[i] - times[0]
                <= s.timeout,
    ensures
        run(s, times).1 == min_int(times.len() as int, s.threshold as int),
        run(s, times).0.window_start == times[0],
{
    let s1 = step(s, times[0]).0;
    let rest = times.drop_first();
    assert(s1.window_start == times[0]);
    assert forall|i: int| 0 <= i < rest.len() implies s1.window_start <= #[trigger] rest[i]
        && rest[i] - s1.window_start <= s1.timeout by {
        assert(rest[i] == times[i + 1]);
    }
    lemma_admitted_within_window(s1, rest);
}

/// Once the window's admissions have used up the threshold, a call made
/// more than `timeout` after the window's start opens a new window at its
/// own time and is admitted, as the first of that window. (With a threshold
/// of zero no call is ever admitted, so that case is left out.)
pub proof fn lemma_window_reset(s: ThrottleState, now: int)
    requires
        s.well_formed(),
        s.threshold > 0,
        s.count == s.threshold,
        now - s.window_start > s.timeout,
    ensures
        step(s, now).1,
        step(s, now).0.count == 1,
        step(s, now).0.window_start == now,
{
}

/// A call made exactly `timeout` after the window's start does not open a
/// new window: it is decided against the current window's count.
pub proof fn lemma_exact_timeout_keeps_window(s: ThrottleState, now: int)
    requires
        s.well_formed(),
        now - s.window_start == s.timeout,
    ensures
        step(s, now).0.window_start == s.window_start,
        step(s, now).1 == (s.count < s.threshold),
        step(s, now).0.count == if s.count < s.threshold { s.count + 1 } else { s.count },
{
}

/// With a threshold of zero, no call is ever admitted, whatever the times at
/// which calls are made.
pub proof fn lemma_zero_threshold(s: ThrottleState, times: Seq<int>)
    requires
        s.well_formed(),
        s.threshold == 0,
    ensures
        run(s, times).1 == 0,
        run(s, times).0.threshold == 0,
        run(s, times).0.well_formed(),
    decreases times.len(),
{
    if times.len() > 0 {
        lemma_zero_threshold(step(s, times[0]).0, times.drop_first());
    }
}

/// A clock reading earlier than the window's start rejects the call and
/// leaves the state as it was.
pub proof fn lemma_backwards_clock(s: ThrottleState, now: int)
    requires
        now < s.window_start,
    ensures
        step(s, now) == (s, false),
{
}

} // verus!
