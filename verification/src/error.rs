//! The failures the library reports, and the epoch conversion of a clock reading.

use vstd::prelude::*;
use crate::time::{TimeSpan, Timestamp};

verus! {

/// Every way an operation of this library can fail.
#[derive(Clone, Copy, Debug, PartialEq, Eq, Structural)]
pub enum Error {
    /// A wall-clock reading lies before the point it is measured from.
    SystemTimeError,
    /// An action string begins with no known verb.
    InvalidActionFormat,
    /// The index behind a known verb is not a non-negative integer that fits.
    ParseActionIndex,
    /// A pattern of the input grammar was not accepted by the regex engine.
    RegexCompile,
    /// The time input has the wrong shape.
    InvalidInputFormat,
    /// The time input has no time part.
    MissingTimeInput,
    /// The local date and time name no single instant.
    TimezoneConversion,
    /// An amount in the time input does not fit the duration range.
    ParseNumber,
    /// A unit other than hours or minutes.
    InvalidDurationUnit,
    /// All amounts of the time input sum to zero.
    ZeroDuration,
}

pub type Result<T, E = Error> = std::result::Result<T, E>;

/// The time elapsed from the UNIX epoch to `system_time`, or `SystemTimeError`
/// for an instant before the epoch.
pub fn system_time_to_duration(system_time: Timestamp) -> (r: Result<TimeSpan>)
    ensures
        system_time@ >= 0 ==> r == Ok::<TimeSpan, Error>(TimeSpan { nanos: system_time@ as u128 }),
        system_time@ < 0 ==> r == Err::<TimeSpan, Error>(Error::SystemTimeError),
{
    if system_time.before_epoch && system_time.offset.nanos != 0 {
        Err(Error::SystemTimeError)
    } else {
        Ok(system_time.offset)
    }
}

} // verus!
