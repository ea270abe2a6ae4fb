//! UTC instants as seconds and nanoseconds since the Unix epoch, over the
//! range that `chrono::DateTime<Utc>` represents, and their ISO-8601 text.
//!
//! As in chrono, an instant inside a leap second is written with the second
//! that ends a minute (`secs % 60 == 59`) and a sub-second part of one second
//! or more.

use vstd::prelude::*;

verus! {

/// Earliest representable second, that of `chrono::DateTime::<Utc>::MIN_UTC`.
pub const MIN_UNIX_SECONDS: i64 = -8_334_601_228_800;

/// Latest representable second, that of `chrono::DateTime::<Utc>::MAX_UTC`.
pub const MAX_UNIX_SECONDS: i64 = 8_210_266_876_799;

/// Nanoseconds in one second.
pub const NANOS_PER_SECOND: u32 = 1_000_000_000;

/// One hour in seconds.
pub const SECONDS_PER_HOUR: i64 = 3600;

/// A UTC instant.
#[derive(Clone, Copy, Debug, PartialEq, Eq, Structural)]
pub struct TimestampUtc {
    pub secs: i64,
    pub nanos: u32,
}

impl TimestampUtc {
    /// The instant lies inside a leap second.
    pub open spec fn is_leap(self) -> bool {
        self.nanos >= NANOS_PER_SECOND
    }

    /// The instant lies in the representable range, its sub-second part is
    /// below two seconds, and only the last second of a minute has a leap part.
    pub open spec fn wf(self) -> bool {
        &&& MIN_UNIX_SECONDS <= self.secs <= MAX_UNIX_SECONDS
        &&& self.nanos < 2 * NANOS_PER_SECOND
        &&& self.is_leap() ==> self.secs % 60 == 59
    }

    /// The second of the instant `delta` whole seconds away. Leaving a leap
    /// second forwards continues from the next second's start; leaving it
    /// backwards counts from the second after it.
    pub open spec fn shifted_secs(self, delta: int) -> int {
        if self.is_leap() && delta < 0 {
            self.secs + 1 + delta
        } else {
            self.secs + delta
        }
    }

    /// The instant `delta` whole seconds away, as chrono's
    /// `checked_add_signed` computes it.
    pub open spec fn shifted(self, delta: int) -> TimestampUtc {
        TimestampUtc {
            secs: self.shifted_secs(delta) as i64,
            nanos: if self.is_leap() && delta != 0 {
                (self.nanos - NANOS_PER_SECOND) as u32
            } else {
                self.nanos
            },
        }
    }

    /// The instant `secs` seconds and `nanos` nanoseconds after the epoch, when
    /// chrono represents that instant.
    pub fn from_unix(secs: i64, nanos: u32) -> (r: Option<TimestampUtc>)
        ensures
            r is Some <==> (TimestampUtc { secs, nanos }).wf(),
            r matches Some(t) ==> t.secs == secs && t.nanos == nanos,
    {
        if secs < MIN_UNIX_SECONDS || secs > MAX_UNIX_SECONDS || nanos >= 2 * NANOS_PER_SECOND {
            return None;
        }
        // `secs - MIN_UNIX_SECONDS` is non-negative, and the earliest second
        // starts a minute, so both have the same second of the minute.
        let from_min = (secs - MIN_UNIX_SECONDS) as u64;
        proof {
            assert(MIN_UNIX_SECONDS % 60 == 0);
            assert(from_min % 60 == secs % 60);
        }
        if nanos >= NANOS_PER_SECOND && from_min % 60 != 59 {
            None
        } else {
            Some(TimestampUtc { secs, nanos })
        }
    }

    /// Whether the instant `delta` whole seconds away is representable.
    pub fn can_shift(self, delta: i64) -> (r: bool)
        requires
            self.wf(),
        ensures
            r == (MIN_UNIX_SECONDS <= self.shifted_secs(delta as int) <= MAX_UNIX_SECONDS),
            !self.is_leap() ==> (r <==> MIN_UNIX_SECONDS <= self.secs + delta <= MAX_UNIX_SECONDS),
            self.is_leap() && delta >= 0 ==> (r <==> self.secs + delta <= MAX_UNIX_SECONDS),
            self.is_leap() && delta < 0 ==> (r <==> MIN_UNIX_SECONDS <= self.secs + 1 + delta),
    {
        let base: i128 = if self.nanos >= NANOS_PER_SECOND && delta < 0 {
            self.secs as i128 + 1
        } else {
            self.secs as i128
        };
        let target: i128 = base + delta as i128;
        MIN_UNIX_SECONDS as i128 <= target && target <= MAX_UNIX_SECONDS as i128
    }

    /// The instant `delta` whole seconds later (earlier when negative), as
    /// `DateTime<Utc> + TimeDelta::seconds(delta)` gives it.
    pub fn add_seconds(self, delta: i64) -> (r: TimestampUtc)
        requires
            self.wf(),
            MIN_UNIX_SECONDS <= self.shifted_secs(delta as int) <= MAX_UNIX_SECONDS,
        ensures
            r == self.shifted(delta as int),
            r.wf(),
            !self.is_leap() ==> r.secs == self.secs + delta && r.nanos == self.nanos,
            self.is_leap() && delta > 0 ==> r.secs == self.secs + delta && r.nanos
                == self.nanos - NANOS_PER_SECOND,
            self.is_leap() && delta < 0 ==> r.secs == self.secs + 1 + delta && r.nanos
                == self.nanos - NANOS_PER_SECOND,
            delta == 0 ==> r == self,
    {
        if self.nanos >= NANOS_PER_SECOND && delta != 0 {
            let secs = if delta < 0 { self.secs + 1 + delta } else { self.secs + delta };
            TimestampUtc { secs, nanos: self.nanos - NANOS_PER_SECOND }
        } else {
            TimestampUtc { secs: self.secs + delta, nanos: self.nanos }
        }
    }
}


/// Shifting an instant outside a leap second by `delta` seconds moves its
/// second by exactly `delta` and keeps its sub-second part; shifting out of a
/// leap second lands at most one second past `secs + delta`, outside any leap
/// second.
pub proof fn lemma_shift_moves_by_delta(t: TimestampUtc, delta: int)
    requires
        t.wf(),
        MIN_UNIX_SECONDS <= t.shifted_secs(delta) <= MAX_UNIX_SECONDS,
    ensures
        !t.is_leap() ==> t.shifted_secs(delta) == t.secs + delta,
        !t.is_leap() ==> t.shifted(delta).secs == t.secs + delta && t.shifted(delta).nanos == t.nanos,
        t.is_leap() && delta != 0 ==> !t.shifted(delta).is_leap(),
        t.is_leap() && delta != 0 ==> t.secs + delta <= t.shifted(delta).secs <= t.secs + delta + 1,
        t.is_leap() && delta != 0 ==> t.shifted(delta).nanos + NANOS_PER_SECOND == t.nanos,
        t.shifted(delta).wf(),
{
}

/// Shifts of an instant outside a leap second compose: shifting by `a` and
/// then by `b` is shifting by `a + b`; in particular shifting by `d` and back
/// by `-d` returns the instant.
pub proof fn lemma_shifts_compose(t: TimestampUtc, a: int, b: int)
    requires
        t.wf(),
        !t.is_leap(),
        MIN_UNIX_SECONDS <= t.secs + a <= MAX_UNIX_SECONDS,
        MIN_UNIX_SECONDS <= t.secs + a + b <= MAX_UNIX_SECONDS,
    ensures
        t.shifted(a).shifted(b) == t.shifted(a + b),
        b == -a ==> t.shifted(a).shifted(b) == t,
{
}

/// A longer shift never lands earlier: the shifted second grows with `delta`.
pub proof fn lemma_shift_monotone(t: TimestampUtc, a: int, b: int)
    requires
        t.wf(),
        a <= b,
    ensures
        t.shifted_secs(a) <= t.shifted_secs(b),
        a < b && (a >= 0 || b < 0 || !t.is_leap()) ==> t.shifted_secs(a) < t.shifted_secs(b),
{
}

/// What `chrono` writes with the format `%Y-%m-%dT%H:%M:%SZ` for the second
/// `secs`, inside its leap second when `leap` holds.
pub uninterp spec fn iso_text(secs: i64, leap: bool) -> Seq<char>;

/// The ISO-8601 text of an instant.
pub open spec fn iso_text_of(ts: TimestampUtc) -> Seq<char> {
    iso_text(ts.secs, ts.is_leap())
}

/// Formats the instant with `chrono::DateTime::<Utc>::from_timestamp` and
/// `format("%Y-%m-%dT%H:%M:%SZ")`. Claimed: the text is the named function of
/// the second and of whether the instant lies in its leap second; chrono's
/// `%S` writes whole seconds (60 in a leap second), so the rest of the
/// sub-second part does not reach it. That it spells the calendar date and
/// time is left unsaid.
#[verifier::external_body]
pub(crate) fn iso(ts: TimestampUtc) -> (r: String)
    requires
        ts.wf(),
    ensures
        r@ == iso_text(ts.secs, ts.nanos >= NANOS_PER_SECOND),
{
    chrono::DateTime::from_timestamp(ts.secs, ts.nanos)
        .expect("instant within chrono's range")
        .format("%Y-%m-%dT%H:%M:%SZ")
        .to_string()
}

} // verus!
