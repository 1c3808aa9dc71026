//! A throttle shared between concurrent callers, behind a lock that
//! serializes whole admission checks.
use vstd::prelude::*;
use vstd::rwlock::{RwLock, RwLockPredicate};
use crate::throttle::{step, Throttle, ThrottleState};
use crate::time::Span;

verus! {

/// The configuration that a shared throttle is built with, and which every
/// state stored under its lock keeps.
pub struct Limits {
    pub timeout: nat,
    pub threshold: nat,
}

impl RwLockPredicate<Throttle> for Limits {
    open spec fn inv(self, v: Throttle) -> bool {
        &&& v@.timeout == self.timeout
        &&& v@.threshold == self.threshold
        &&& v@.well_formed()
    }
}

/// A throttle that many callers hold by shared reference. Each admission
/// check holds the lock from reading the clock to updating the count.
pub struct SharedThrottle {
    timeout: Span,
    threshold: usize,
    lock: RwLock<Throttle, Limits>,
}

impl SharedThrottle {
    /// The configuration fixed at construction.
    pub closed spec fn limits(&self) -> Limits {
        self.lock.pred()
    }

    #[verifier::type_invariant]
    spec fn copies_agree(&self) -> bool {
        &&& self.lock.pred().timeout == self.timeout.len()
        &&& self.lock.pred().threshold == self.threshold
    }

    /// Decides one call made now, by the system's wall clock, against the
    /// state under the lock: `true` admits it, `false` rejects it. The result
    /// is that of one step from a state with this throttle's configuration.
    pub fn accept(&self) -> (r: bool)
        ensures
            exists|s: ThrottleState, now: int|
                {
                    &&& s.timeout == self.limits().timeout
                    &&& s.threshold == self.limits().threshold
                    &&& s.well_formed()
                    &&& r == step(s, now).1
                },
            self.limits().threshold == 0 ==> !r,
    {
        let (mut t, handle) = self.lock.acquire_write();
        let r = t.accept();
        handle.release_write(t);
        r
    }

    pub fn timeout(&self) -> (r: Span)
        ensures
            r.len() == self.limits().timeout,
    {
        proof {
            use_type_invariant(self);
        }
        self.timeout
    }

    pub fn threshold(&self) -> (r: usize)
        ensures
            r == self.limits().threshold,
    {
        proof {
            use_type_invariant(self);
        }
        self.threshold
    }
}

impl Throttle {
    /// A throttle for concurrent callers, on which no call has been made.
    pub fn new(timeout: Span, threshold: usize) -> (r: SharedThrottle)
        ensures
            r.limits().timeout == timeout.len(),
            r.limits().threshold == threshold,
    {
        let t = Throttle::unshared(timeout, threshold);
        let lock = RwLock::new(
            t,
            Ghost(Limits { timeout: timeout.len() as nat, threshold: threshold as nat }),
        );
        SharedThrottle { timeout, threshold, lock }
    }
}

} // verus!
