//! Instants on the UTC time line, as `chrono` counts them.
//!
//! A [`Moment`] stands for a `chrono::DateTime<Utc>` outside a leap second. It
//! keeps the two numbers from which `chrono` rebuilds such a value: the Unix
//! timestamp and the nanoseconds into that second.

use vstd::prelude::*;

verus! {

/// Nanoseconds in a second.
pub const NANOS_PER_SECOND: u32 = 1_000_000_000;

/// Unix timestamp of `DateTime::<Utc>::MIN_UTC`, midnight of 1 January -262143.
pub const EARLIEST_SECOND: i64 = -8_334_601_228_800;

/// Unix timestamp of `DateTime::<Utc>::MAX_UTC`, the last second of the year 262142.
pub const LATEST_SECOND: i64 = 8_210_266_876_799;

/// The most whole seconds a `chrono::TimeDelta` holds, forward or backward:
/// `i64::MAX / 1000`.
pub const LONGEST_SPAN: i64 = 9_223_372_036_854_775;

/// A timestamp and a sub-second part that `chrono` turns into an instant
/// that is not a leap second.
pub open spec fn representable(secs: int, nanos: int) -> bool {
    &&& EARLIEST_SECOND <= secs <= LATEST_SECOND
    &&& 0 <= nanos < NANOS_PER_SECOND
}

/// A number of seconds that a `chrono::TimeDelta` can hold.
pub open spec fn span_allowed(seconds: int) -> bool {
    -LONGEST_SPAN <= seconds <= LONGEST_SPAN
}

/// Nanoseconds since the Unix epoch of the instant with the given parts.
pub open spec fn nanos_since_epoch(secs: int, nanos: int) -> int {
    secs * NANOS_PER_SECOND + nanos
}

/// Whether an instant, in nanoseconds since the Unix epoch, lies between
/// `chrono`'s first and last instant in UTC.
pub open spec fn in_chrono_range(at: int) -> bool {
    EARLIEST_SECOND * NANOS_PER_SECOND <= at < (LATEST_SECOND + 1) * NANOS_PER_SECOND
}

/// Why an instant could not be moved by a number of seconds.
#[derive(Debug, Clone, Copy, PartialEq, Eq)]
pub enum ShiftError {
    /// The number of seconds is more than a `chrono::TimeDelta` holds.
    SpanOutOfBounds,
    /// The moved instant lies outside the years that `chrono` can represent.
    InstantOutOfRange,
}

/// The instant `seconds` whole seconds after `at`, both in nanoseconds since
/// the Unix epoch, as `chrono` computes it: the span has to fit a
/// `TimeDelta`, and then the sum has to be an instant that `chrono`
/// represents.
pub open spec fn shifted(at: int, seconds: int) -> Result<int, ShiftError> {
    if !span_allowed(seconds) {
        Err(ShiftError::SpanOutOfBounds)
    } else if !in_chrono_range(at + seconds * NANOS_PER_SECOND) {
        Err(ShiftError::InstantOutOfRange)
    } else {
        Ok(at + seconds * NANOS_PER_SECOND)
    }
}

/// An instant in UTC with nanosecond precision.
#[derive(Debug, Clone, Copy, PartialEq, Eq)]
pub struct Moment {
    secs: i64,
    nanos: u32,
}

impl View for Moment {
    type V = int;

    /// Nanoseconds since the Unix epoch.
    closed spec fn view(&self) -> int {
        nanos_since_epoch(self.secs as int, self.nanos as int)
    }
}

/// `chrono::Utc::now`, read back as its timestamp and sub-second nanoseconds.
///
/// Trusted: the clock never reports a leap second (it is built from a
/// `std::time::Duration`, whose sub-second part is below one second), and
/// every `DateTime<Utc>` lies between `MIN_UTC` and `MAX_UTC`.
#[verifier::external_body]
fn utc_now() -> (r: (i64, u32))
    ensures
        representable(r.0 as int, r.1 as int),
{
    let now = chrono::Utc::now();
    (now.timestamp(), now.timestamp_subsec_nanos())
}

/// `chrono::TimeDelta::try_seconds`, asked only whether it gives a value.
///
/// Trusted: a `TimeDelta` holds a whole number of seconds exactly where that
/// number is at most `i64::MAX / 1000` in either direction.
#[verifier::external_body]
fn time_delta_holds(seconds: i64) -> (r: bool)
    ensures
        r == span_allowed(seconds as int),
{
    chrono::TimeDelta::try_seconds(seconds).is_some()
}

/// `DateTime<Utc>::checked_add_signed` with `TimeDelta::seconds(seconds)`, on
/// an instant given and handed back as timestamp and sub-second nanoseconds.
///
/// Trusted: outside a leap second `chrono` adds the seconds to the timestamp
/// and leaves the sub-second part alone, and it gives nothing exactly where
/// the sum leaves the range from `MIN_UTC` to `MAX_UTC`. `TimeDelta::seconds`
/// panics on a span that it cannot hold, which `requires` leaves out.
#[verifier::external_body]
fn utc_plus_seconds(secs: i64, nanos: u32, seconds: i64) -> (r: Option<(i64, u32)>)
    requires
        representable(secs as int, nanos as int),
        span_allowed(seconds as int),
    ensures
        r == (if representable(secs + seconds, nanos as int) {
            Some(((secs + seconds) as i64, nanos))
        } else {
            None
        }),
{
    let at = chrono::DateTime::from_timestamp(secs, nanos)?;
    let sum = at.checked_add_signed(chrono::TimeDelta::seconds(seconds))?;
    Some((sum.timestamp(), sum.timestamp_subsec_nanos()))
}

impl Moment {
    #[verifier::type_invariant]
    spec fn in_range(self) -> bool {
        representable(self.secs as int, self.nanos as int)
    }

    /// The instant `nanos` nanoseconds after the Unix timestamp `secs`, if
    /// `chrono` can represent it and `nanos` is less than a second.
    pub fn new(secs: i64, nanos: u32) -> (r: Option<Moment>)
        ensures
            r is Some <==> representable(secs as int, nanos as int),
            r matches Some(m) ==> m@ == nanos_since_epoch(secs as int, nanos as int),
    {
        if EARLIEST_SECOND <= secs && secs <= LATEST_SECOND && nanos < NANOS_PER_SECOND {
            Some(Moment { secs, nanos })
        } else {
            None
        }
    }

    /// The present instant, by the system clock.
    pub fn now() -> (r: Moment)
        ensures
            in_chrono_range(r@),
    {
        let (secs, nanos) = utc_now();
        Moment { secs, nanos }
    }

    /// Whole seconds since the Unix epoch, rounded down.
    pub fn timestamp(&self) -> (r: i64)
        ensures
            r == self@ / (NANOS_PER_SECOND as int),
            EARLIEST_SECOND <= r <= LATEST_SECOND,
    {
        proof {
            use_type_invariant(self);
        }
        self.secs
    }

    /// Nanoseconds since the last whole second.
    pub fn subsec_nanos(&self) -> (r: u32)
        ensures
            r == self@ % (NANOS_PER_SECOND as int),
            r < NANOS_PER_SECOND,
    {
        proof {
            use_type_invariant(self);
        }
        self.nanos
    }

    /// Whether this instant is `other` or comes before it.
    pub fn not_after(&self, other: &Moment) -> (r: bool)
        ensures
            r == (self@ <= other@),
    {
        proof {
            use_type_invariant(self);
            use_type_invariant(other);
        }
        self.secs < other.secs || (self.secs == other.secs && self.nanos <= other.nanos)
    }

    /// This instant moved by `seconds` whole seconds, backward if negative.
    pub fn plus_seconds(&self, seconds: i64) -> (r: Result<Moment, ShiftError>)
        ensures
            (match r {
                Ok(moved) => shifted(self@, seconds as int) == Ok::<int, ShiftError>(moved@),
                Err(error) => shifted(self@, seconds as int) == Err::<int, ShiftError>(error),
            }),
    {
        proof {
            use_type_invariant(self);
        }
        if !time_delta_holds(seconds) {
            return Err(ShiftError::SpanOutOfBounds);
        }
        match utc_plus_seconds(self.secs, self.nanos, seconds) {
            Some((secs, nanos)) => Ok(Moment { secs, nanos }),
            None => Err(ShiftError::InstantOutOfRange),
        }
    }
}

} // verus!
