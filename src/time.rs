//! Points in time and lengths of time, both counted in nanoseconds.
use vstd::prelude::*;

verus! {

/// Nanoseconds in one second.
pub const NANOS_PER_SEC: u128 = 1_000_000_000;

/// Nanoseconds in one millisecond.
pub const NANOS_PER_MILLI: u128 = 1_000_000;

/// A non-negative length of time, in nanoseconds.
#[derive(Clone, Copy, Debug, PartialEq, Eq, Structural)]
pub struct Span {
    pub nanos: u128,
}

impl Span {
    /// The length of time in nanoseconds, as a mathematical integer.
    pub open spec fn len(self) -> int {
        self.nanos as int
    }

    pub fn from_nanos(nanos: u128) -> (r: Span)
        ensures
            r.len() == nanos,
    {
        Span { nanos }
    }

    pub fn from_millis(millis: u64) -> (r: Span)
        ensures
            r.len() == millis * NANOS_PER_MILLI,
    {
        assert(millis as u128 * NANOS_PER_MILLI <= u64::MAX as u128 * NANOS_PER_MILLI)
            by (nonlinear_arith);
        Span { nanos: millis as u128 * NANOS_PER_MILLI }
    }

    pub fn from_secs(secs: u64) -> (r: Span)
        ensures
            r.len() == secs * NANOS_PER_SEC,
    {
        assert(secs as u128 * NANOS_PER_SEC <= u64::MAX as u128 * NANOS_PER_SEC)
            by (nonlinear_arith);
        Span { nanos: secs as u128 * NANOS_PER_SEC }
    }

    pub fn as_nanos(&self) -> (r: u128)
        ensures
            r == self.len(),
    {
        self.nanos
    }
}

/// A point in time: signed nanoseconds from the Unix epoch, negative before it.
#[derive(Clone, Copy, Debug, PartialEq, Eq, Structural)]
pub struct Moment {
    pub nanos: i128,
}

impl Moment {
    /// The point in time in nanoseconds from the epoch, as a mathematical integer.
    pub open spec fn at(self) -> int {
        self.nanos as int
    }

    /// The Unix epoch.
    pub fn epoch() -> (r: Moment)
        ensures
            r.at() == 0,
    {
        Moment { nanos: 0 }
    }

    pub fn from_nanos(nanos: i128) -> (r: Moment)
        ensures
            r.at() == nanos,
    {
        Moment { nanos }
    }

    /// The time from `earlier` to this point, or `None` where `earlier` lies
    /// after it.
    pub fn since(&self, earlier: Moment) -> (r: Option<Span>)
        ensures
            r.is_some() <==> earlier.at() <= self.at(),
            r.is_some() ==> r.unwrap().len() == self.at() - earlier.at(),
    {
        if self.nanos < earlier.nanos {
            None
        } else if earlier.nanos >= 0 || self.nanos < 0 {
            Some(Span { nanos: (self.nanos - earlier.nanos) as u128 })
        } else {
            // earlier < 0 <= self: the difference may exceed `i128::MAX`.
            let back: u128 = (-(earlier.nanos + 1)) as u128;
            Some(Span { nanos: self.nanos as u128 + back + 1 })
        }
    }
}

/// Reads the system's wall clock: `Ok` with the nanoseconds since the Unix
/// epoch, or `Err` with the nanoseconds by which the clock stands before it.
///
/// Relies on `SystemTime::now`, `SystemTime::duration_since` (which fails
/// exactly when the clock reads earlier than the epoch, and then carries the
/// difference in its error) and `Duration::as_nanos`. What the clock reads
/// depends on the moment of the call, so nothing is stated of the result.
#[verifier::external_body]
fn read_system_clock() -> (r: Result<u128, u128>) {
    std::time::SystemTime::now()
        .duration_since(std::time::SystemTime::UNIX_EPOCH)
        .map(|d| d.as_nanos())
        .map_err(|e| e.duration().as_nanos())
}

/// The point in time that a reading of the system clock stands for, as
/// `read_system_clock` gives it: `Ok(n)` lies `n` nanoseconds after the epoch,
/// `Err(n)` lies `n` before it. A reading beyond what an `i128` holds is
/// clamped to the nearest point that it can hold.
pub open spec fn moment_of_reading(reading: Result<u128, u128>) -> int {
    match reading {
        Ok(n) => if n <= i128::MAX { n as int } else { i128::MAX as int },
        Err(n) => if n <= i128::MAX { -(n as int) } else { -(i128::MAX as int) },
    }
}

impl Moment {
    /// The point in time that a clock reading stands for.
    pub fn from_reading(reading: Result<u128, u128>) -> (r: Moment)
        ensures
            r.at() == moment_of_reading(reading),
    {
        match reading {
            Ok(n) => if n <= i128::MAX as u128 {
                Moment { nanos: n as i128 }
            } else {
                Moment { nanos: i128::MAX }
            },
            Err(n) => if n <= i128::MAX as u128 {
                Moment { nanos: -(n as i128) }
            } else {
                Moment { nanos: -i128::MAX }
            },
        }
    }

    /// The current time of the system's wall clock.
    pub fn now() -> (r: Moment)
        ensures
            -(i128::MAX as int) <= r.at(),
    {
        let reading = read_system_clock();
        Moment::from_reading(reading)
    }
}

} // verus!
