//! Lengths of time and wall-clock instants as plain integers, and the clock.

use vstd::prelude::*;
use crate::error::Error;

verus! {

/// Nanoseconds in one second.
pub const NANOS_PER_SEC: u128 = 1_000_000_000;

/// A non-negative length of time in nanoseconds.
#[derive(Clone, Copy, Debug, PartialEq, Eq, Structural)]
pub struct TimeSpan {
    pub nanos: u128,
}

impl View for TimeSpan {
    type V = nat;

    open spec fn view(&self) -> nat {
        self.nanos as nat
    }
}

/// A wall-clock instant: its distance from the UNIX epoch and the side it lies on.
#[derive(Clone, Copy, Debug, PartialEq, Eq, Structural)]
pub struct Timestamp {
    pub before_epoch: bool,
    pub offset: TimeSpan,
}

impl View for Timestamp {
    type V = int;

    /// Nanoseconds since the UNIX epoch, negative before it.
    open spec fn view(&self) -> int {
        if self.before_epoch {
            -(self.offset.nanos as int)
        } else {
            self.offset.nanos as int
        }
    }
}

/// `a - b`, or zero where `b` is the larger.
pub open spec fn saturating_diff(a: int, b: int) -> nat {
    if a > b {
        (a - b) as nat
    } else {
        0
    }
}

/// The smaller of `n` and the largest span that can be held.
pub open spec fn capped(n: nat) -> nat {
    if n > u128::MAX {
        u128::MAX as nat
    } else {
        n
    }
}

impl TimeSpan {
    /// The empty span.
    pub fn zero() -> (r: TimeSpan)
        ensures
            r@ == 0,
    {
        TimeSpan { nanos: 0 }
    }

    /// A span of `secs` whole seconds.
    pub fn from_secs(secs: u64) -> (r: TimeSpan)
        ensures
            r@ == secs * NANOS_PER_SEC,
    {
        assert(secs * NANOS_PER_SEC <= u128::MAX) by (nonlinear_arith)
            requires
                secs <= u64::MAX,
                NANOS_PER_SEC == 1_000_000_000,
        ;
        let wide: u128 = secs as u128;
        TimeSpan { nanos: wide * NANOS_PER_SEC }
    }

    /// A span of `nanos` nanoseconds.
    pub fn from_nanos(nanos: u128) -> (r: TimeSpan)
        ensures
            r@ == nanos,
    {
        TimeSpan { nanos }
    }

    /// The span in nanoseconds.
    pub fn as_nanos(&self) -> (n: u128)
        ensures
            n == self@,
    {
        self.nanos
    }

    /// The whole seconds of the span.
    pub fn as_secs(&self) -> (s: u128)
        ensures
            s == self@ / (NANOS_PER_SEC as nat),
    {
        self.nanos / NANOS_PER_SEC
    }

    /// Whether the span is empty.
    pub fn is_zero(&self) -> (z: bool)
        ensures
            z == (self@ == 0),
    {
        self.nanos == 0
    }

    /// `self - other`, with a floor at zero.
    pub fn saturating_sub(self, other: TimeSpan) -> (r: TimeSpan)
        ensures
            r@ == saturating_diff(self@ as int, other@ as int),
    {
        if self.nanos > other.nanos {
            TimeSpan { nanos: self.nanos - other.nanos }
        } else {
            TimeSpan { nanos: 0 }
        }
    }

    /// `self + other`, or `None` where the sum cannot be held.
    pub fn checked_add(self, other: TimeSpan) -> (r: Option<TimeSpan>)
        ensures
            self@ + other@ <= u128::MAX ==> r == Some(TimeSpan { nanos: (self@ + other@) as u128 }),
            self@ + other@ > u128::MAX ==> r is None,
    {
        if self.nanos <= u128::MAX - other.nanos {
            Some(TimeSpan { nanos: self.nanos + other.nanos })
        } else {
            None
        }
    }
}

/// Reads the system clock through `std::time::SystemTime::now`. The reading
/// differs from call to call, so nothing is claimed of it.
#[verifier::external_body]
fn system_now() -> std::time::SystemTime {
    std::time::SystemTime::now()
}

/// Measures an instant against the epoch with `SystemTime::duration_since`:
/// `Ok` holds the nanoseconds after `UNIX_EPOCH`, `Err` those before it. The
/// instant is opaque here, so nothing is claimed of the numbers.
#[verifier::external_body]
fn offset_from_epoch(t: std::time::SystemTime) -> std::result::Result<u128, u128> {
    match t.duration_since(std::time::UNIX_EPOCH) {
        Ok(after) => Ok(after.as_nanos()),
        Err(e) => Err(e.duration().as_nanos()),
    }
}

/// The standard library's wall-clock instant, carried from the clock to its
/// measurement and never looked into.
#[verifier::external_type_specification]
#[verifier::external_body]
pub struct ExSystemTime(std::time::SystemTime);

impl Timestamp {
    /// The instant `nanos` nanoseconds after the UNIX epoch.
    pub fn from_unix_nanos(nanos: u128) -> (r: Timestamp)
        ensures
            r@ == nanos,
    {
        Timestamp { before_epoch: false, offset: TimeSpan { nanos } }
    }

    /// The instant `nanos` nanoseconds before the UNIX epoch.
    pub fn before_unix_nanos(nanos: u128) -> (r: Timestamp)
        ensures
            r@ == -(nanos as int),
    {
        Timestamp { before_epoch: true, offset: TimeSpan { nanos } }
    }

    /// The instant that a reading of the standard library's clock stands for.
    pub fn from_system_time(instant: std::time::SystemTime) -> Timestamp {
        match offset_from_epoch(instant) {
            Ok(nanos) => Timestamp::from_unix_nanos(nanos),
            Err(nanos) => Timestamp::before_unix_nanos(nanos),
        }
    }

    /// The current reading of the system clock.
    pub fn now() -> Timestamp {
        Timestamp::from_system_time(system_now())
    }

    /// The instant `span` later, or `None` where it cannot be held.
    pub fn checked_add(self, span: TimeSpan) -> (r: Option<Timestamp>)
        ensures
            self@ + span@ <= u128::MAX ==> r is Some && r->Some_0@ == self@ + span@,
            self@ + span@ > u128::MAX ==> r is None,
    {
        if self.before_epoch {
            if span.nanos >= self.offset.nanos {
                Some(Timestamp { before_epoch: false, offset: TimeSpan { nanos: span.nanos - self.offset.nanos } })
            } else {
                Some(Timestamp { before_epoch: true, offset: TimeSpan { nanos: self.offset.nanos - span.nanos } })
            }
        } else {
            match self.offset.checked_add(span) {
                Some(offset) => Some(Timestamp { before_epoch: false, offset }),
                None => None,
            }
        }
    }

    /// The time from `earlier` to `self`, held up to the largest span, or
    /// `SystemTimeError` where `earlier` is in fact the later of the two.
    pub fn duration_since(&self, earlier: Timestamp) -> (r: Result<TimeSpan, Error>)
        ensures
            self@ >= earlier@ ==> r is Ok && r->Ok_0@ == capped((self@ - earlier@) as nat),
            self@ < earlier@ ==> r == Err::<TimeSpan, Error>(Error::SystemTimeError),
    {
        if self.before_epoch == earlier.before_epoch {
            let forward: bool = if self.before_epoch {
                self.offset.nanos <= earlier.offset.nanos
            } else {
                self.offset.nanos >= earlier.offset.nanos
            };
            if !forward {
                Err(Error::SystemTimeError)
            } else if self.before_epoch {
                Ok(TimeSpan { nanos: earlier.offset.nanos - self.offset.nanos })
            } else {
                Ok(TimeSpan { nanos: self.offset.nanos - earlier.offset.nanos })
            }
        } else if self.before_epoch {
            if self.offset.nanos == 0 && earlier.offset.nanos == 0 {
                Ok(TimeSpan { nanos: 0 })
            } else {
                Err(Error::SystemTimeError)
            }
        } else {
            match self.offset.checked_add(earlier.offset) {
                Some(total) => Ok(total),
                None => Ok(TimeSpan { nanos: u128::MAX }),
            }
        }
    }
}

} // verus!
