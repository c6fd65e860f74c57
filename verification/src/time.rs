//! Instants on the UTC time line, held as plain numbers.
//!
//! An instant is a count of whole seconds since 1970-01-01T00:00:00Z plus a
//! count of nanoseconds within that second. The nanosecond part may run up to
//! just under two seconds in the last second of a minute, which is how a leap
//! second is written.

use vstd::prelude::*;

verus! {

/// Nanoseconds in one second.
pub const NANOS_PER_SECOND: u32 = 1_000_000_000;

/// The first second of the earliest calendar day the calendar arithmetic
/// covers (1 January of year -262143).
pub const MIN_SECONDS: i64 = -8_334_601_228_800;

/// The last second of the latest calendar day the calendar arithmetic
/// covers (31 December of year 262142).
pub const MAX_SECONDS: i64 = 8_210_266_876_799;

/// An instant: seconds since the Unix epoch and nanoseconds into that second.
/// Instants are ordered by their seconds, then by their nanoseconds.
#[derive(Clone, Copy, Debug, PartialEq, Eq, Structural)]
pub struct Timestamp {
    pub seconds: i64,
    pub nanos: u32,
}

impl Timestamp {
    /// Whether the calendar arithmetic can hold this instant: the day lies in
    /// the covered range, and a nanosecond count of a second or more appears
    /// only in the last second of a minute.
    pub open spec fn representable(self) -> bool {
        &&& MIN_SECONDS <= self.seconds <= MAX_SECONDS
        &&& self.nanos < 2 * NANOS_PER_SECOND
        &&& (self.nanos >= NANOS_PER_SECOND ==> (self.seconds as int) % 60 == 59)
    }

    /// The instant `delta` whole seconds before this one, where `delta >= 0`.
    ///
    /// Stepping back from inside a leap second first leaves the leap second:
    /// the extra second moves from the nanosecond part into the seconds.
    /// There is no result if this instant is not representable or the result
    /// would lie before the covered range.
    pub open spec fn minus_seconds(self, delta: int) -> Option<Timestamp> {
        let in_leap_second = self.nanos >= NANOS_PER_SECOND;
        let seconds = if delta > 0 && in_leap_second {
            self.seconds + 1 - delta
        } else {
            self.seconds - delta
        };
        let nanos = if delta > 0 && in_leap_second {
            self.nanos - NANOS_PER_SECOND
        } else {
            self.nanos as int
        };
        if self.representable() && seconds >= MIN_SECONDS {
            Some(Timestamp { seconds: seconds as i64, nanos: nanos as u32 })
        } else {
            None
        }
    }

    /// Whether this instant is strictly later than `other`.
    pub open spec fn later_than(self, other: Timestamp) -> bool {
        self.seconds > other.seconds || (self.seconds == other.seconds && self.nanos
            > other.nanos)
    }

    /// Whether this instant is strictly later than `other`.
    pub fn is_after(&self, other: &Timestamp) -> (later: bool)
        ensures
            later == self.later_than(*other),
    {
        self.seconds > other.seconds || (self.seconds == other.seconds && self.nanos
            > other.nanos)
    }

    /// The instant `seconds` whole seconds before this one, if both this
    /// instant and the result are representable.
    pub fn checked_sub_seconds(&self, seconds: u32) -> (earlier: Option<Timestamp>)
        ensures
            earlier == self.minus_seconds(seconds as int),
    {
        chrono_sub_seconds(self, seconds)
    }
}

/// Takes whole seconds off an instant with chrono's calendar arithmetic.
///
/// The body builds a `chrono::DateTime<Utc>` with `DateTime::from_timestamp`,
/// subtracts a `TimeDelta` of `seconds` with `DateTime::checked_sub_signed`,
/// and reads the result back with `DateTime::timestamp` and
/// `DateTime::timestamp_subsec_nanos`. The contract is taken on trust from
/// chrono's source: `from_timestamp` accepts exactly the representable
/// instants, the subtraction moves the seconds back (leaving a leap second
/// first, as `NaiveTime::overflowing_add_signed` does for a negative whole
/// number of seconds), and it fails exactly when the day would fall before
/// `NaiveDate::MIN`.
#[verifier::external_body]
fn chrono_sub_seconds(t: &Timestamp, seconds: u32) -> (earlier: Option<Timestamp>)
    ensures
        earlier == t.minus_seconds(seconds as int),
{
    let instant = chrono::DateTime::from_timestamp(t.seconds, t.nanos)?;
    let delta = chrono::TimeDelta::try_seconds(i64::from(seconds))?;
    let moved = instant.checked_sub_signed(delta)?;
    Some(Timestamp { seconds: moved.timestamp(), nanos: moved.timestamp_subsec_nanos() })
}

} // verus!
