//! The throttle's window state and the admission rule.
use vstd::prelude::*;
use crate::time::{Moment, Span};

verus! {

/// A fixed-window rate limiter: at most `threshold` admissions in each window
/// of length `timeout`.
#[derive(Clone, Copy, Debug, PartialEq, Eq, Structural)]
pub struct Throttle {
    timeout: Span,
    threshold: usize,
    window_start: Moment,
    count: usize,
}

/// The mathematical state of a throttle: the window's length and capacity,
/// the point at which the current window opened, and how many calls it has
/// admitted.
pub struct ThrottleState {
    pub timeout: nat,
    pub threshold: nat,
    pub window_start: int,
    pub count: nat,
}

impl ThrottleState {
    /// The window never holds more admissions than the threshold allows.
    pub open spec fn well_formed(self) -> bool {
        self.count <= self.threshold
    }
}

/// What one admission check does to a throttle at time `now`: the state after
/// it, and whether the call was admitted.
///
/// A clock reading earlier than the window's start rejects the call and
/// changes nothing. A reading strictly more than `timeout` after the start
/// opens a new window at `now`. Then the call is admitted, and counted, while
/// the window's count is below `threshold`.
pub open spec fn step(s: ThrottleState, now: int) -> (ThrottleState, bool) {
    if now < s.window_start {
        (s, false)
    } else {
        let s1 = if now - s.window_start > s.timeout {
            ThrottleState { count: 0, window_start: now, ..s }
        } else {
            s
        };
        if s1.count < s1.threshold {
            (ThrottleState { count: s1.count + 1, ..s1 }, true)
        } else {
            (s1, false)
        }
    }
}

impl View for Throttle {
    type V = ThrottleState;

    closed spec fn view(&self) -> ThrottleState {
        ThrottleState {
            timeout: self.timeout.len() as nat,
            threshold: self.threshold as nat,
            window_start: self.window_start.at(),
            count: self.count as nat,
        }
    }
}

impl Throttle {
    /// A throttle on which no call has been made: its window starts at the
    /// epoch and holds no admission.
    pub fn unshared(timeout: Span, threshold: usize) -> (r: Throttle)
        ensures
            r@.well_formed(),
            r@.timeout == timeout.len(),
            r@.threshold == threshold,
            r@.window_start == 0,
            r@.count == 0,
    {
        Throttle { timeout, threshold, window_start: Moment::epoch(), count: 0 }
    }

    /// Decides one call made at time `now`: `true` admits it, `false` rejects it.
    pub fn accept_at(&mut self, now: Moment) -> (r: bool)
        requires
            old(self)@.well_formed(),
        ensures
            (final(self)@, r) == step(old(self)@, now.at()),
            final(self)@.well_formed(),
    {
        match now.since(self.window_start) {
            None => {
                return false;
            },
            Some(elapsed) => {
                if elapsed.nanos > self.timeout.nanos {
                    self.count = 0;
                    self.window_start = now;
                }
            },
        }
        if self.count < self.threshold {
            self.count = self.count + 1;
            true
        } else {
            false
        }
    }

    /// Decides one call made now, by the system's wall clock: `true` admits
    /// it, `false` rejects it.
    pub fn accept(&mut self) -> (r: bool)
        requires
            old(self)@.well_formed(),
        ensures
            exists|now: int| (final(self)@, r) == step(old(self)@, now),
            final(self)@.well_formed(),
    {
        let now = Moment::now();
        self.accept_at(now)
    }

    pub fn timeout(&self) -> (r: Span)
        ensures
            r.len() == self@.timeout,
    {
        self.timeout
    }

    pub fn threshold(&self) -> (r: usize)
        ensures
            r == self@.threshold,
    {
        self.threshold
    }

    pub fn window_start(&self) -> (r: Moment)
        ensures
            r.at() == self@.window_start,
    {
        self.window_start
    }

    pub fn count(&self) -> (r: usize)
        ensures
            r == self@.count,
    {
        self.count
    }
}

} // verus!
