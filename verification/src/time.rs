//! Instants on the UTC time line, with nanosecond resolution.

use vstd::prelude::*;

verus! {

/// Largest whole second, counted from 1970-01-01T00:00:00Z, that an instant holds.
/// It is the last second of the year 262142, the end of chrono's calendar.
pub const MAX_UNIX_SECS: i64 = 8_210_266_876_799;

/// Nanoseconds in one second.
pub const NANOS_PER_SEC: u32 = 1_000_000_000;

/// The text chrono's `DateTime::<Utc>::to_rfc3339` gives for the instant `secs`
/// seconds and `nanos` nanoseconds after the Unix epoch.
pub uninterp spec fn rfc3339_utc(secs: int, nanos: int) -> Seq<char>;

/// The text chrono gives for the format `%Y-%m-%d` at the instant `secs`
/// seconds after the Unix epoch, in UTC.
pub uninterp spec fn utc_date(secs: int) -> Seq<char>;

/// Whole seconds in a span of `delta_nanos` nanoseconds, rounded toward zero.
pub open spec fn whole_seconds(delta_nanos: int) -> int {
    if delta_nanos >= 0 {
        delta_nanos / 1_000_000_000
    } else {
        -((-delta_nanos) / 1_000_000_000)
    }
}

/// Whole seconds from `start` to `end`, and zero where `end` is the earlier one.
pub open spec fn elapsed_secs(start: Timestamp, end: Timestamp) -> int {
    if end.nanos_since_epoch() >= start.nanos_since_epoch() {
        (end.nanos_since_epoch() - start.nanos_since_epoch()) / 1_000_000_000
    } else {
        0
    }
}

/// The later of two instants; `b` where they are equal.
pub open spec fn later_of(a: Timestamp, b: Timestamp) -> Timestamp {
    if a.nanos_since_epoch() > b.nanos_since_epoch() {
        a
    } else {
        b
    }
}

/// An instant: seconds since the Unix epoch and nanoseconds within the second.
#[derive(Clone, Copy, Debug)]
pub struct Timestamp {
    secs: i64,
    nanos: u32,
}

impl Timestamp {
    /// Whole seconds since the Unix epoch.
    pub closed spec fn unix_secs(self) -> int {
        self.secs as int
    }

    /// Nanoseconds since the last whole second.
    pub closed spec fn subsec(self) -> int {
        self.nanos as int
    }

    /// The instant as one number of nanoseconds since the Unix epoch.
    pub open spec fn nanos_since_epoch(self) -> int {
        self.unix_secs() * 1_000_000_000 + self.subsec()
    }

    /// Every instant lies in the supported range and has a proper sub-second part.
    #[verifier::type_invariant]
    pub open spec fn wf(self) -> bool {
        &&& -MAX_UNIX_SECS <= self.unix_secs() <= MAX_UNIX_SECS
        &&& 0 <= self.subsec() < NANOS_PER_SEC
    }

    /// Makes an instant, or `None` where it falls outside the supported range.
    pub fn new(secs: i64, nanos: u32) -> (made: Option<Timestamp>)
        ensures
            made is Some <==> (-MAX_UNIX_SECS <= secs <= MAX_UNIX_SECS && nanos < NANOS_PER_SEC),
            made matches Some(t) ==> t.unix_secs() == secs && t.subsec() == nanos && t.wf(),
    {
        if secs < -MAX_UNIX_SECS || secs > MAX_UNIX_SECS || nanos >= NANOS_PER_SEC {
            None
        } else {
            Some(Timestamp { secs, nanos })
        }
    }

    /// Whole seconds since the Unix epoch.
    pub fn secs(&self) -> (s: i64)
        ensures
            s == self.unix_secs(),
            -MAX_UNIX_SECS <= s <= MAX_UNIX_SECS,
    {
        proof {
            use_type_invariant(self);
        }
        self.secs
    }

    /// Nanoseconds since the last whole second.
    pub fn subsec_nanos(&self) -> (n: u32)
        ensures
            n == self.subsec(),
            n < NANOS_PER_SEC,
    {
        proof {
            use_type_invariant(self);
        }
        self.nanos
    }

    /// Whole seconds from `earlier` to `self`, rounded toward zero; negative
    /// where `self` is the earlier one.
    pub fn whole_seconds_since(&self, earlier: &Timestamp) -> (s: i64)
        ensures
            s == whole_seconds(self.nanos_since_epoch() - earlier.nanos_since_epoch()),
    {
        proof {
            use_type_invariant(self);
            use_type_invariant(earlier);
        }
        let a: i128 = (self.secs as i128) * 1_000_000_000 + (self.nanos as i128);
        let b: i128 = (earlier.secs as i128) * 1_000_000_000 + (earlier.nanos as i128);
        let delta: i128 = a - b;
        if delta >= 0 {
            (delta / 1_000_000_000) as i64
        } else {
            let back: i128 = (-delta) / 1_000_000_000;
            -(back as i64)
        }
    }

    /// Whole seconds from `start` to `self`, and zero where `self` is the earlier one.
    pub fn elapsed_secs_since(&self, start: &Timestamp) -> (s: i64)
        ensures
            s == elapsed_secs(*start, *self),
            s >= 0,
    {
        let d: i64 = self.whole_seconds_since(start);
        if d < 0 {
            0
        } else {
            d
        }
    }

    /// Whether `self` lies strictly before `other`.
    pub fn is_before(&self, other: &Timestamp) -> (b: bool)
        ensures
            b == (self.nanos_since_epoch() < other.nanos_since_epoch()),
    {
        proof {
            use_type_invariant(self);
            use_type_invariant(other);
        }
        self.secs < other.secs || (self.secs == other.secs && self.nanos < other.nanos)
    }

    /// The later of `self` and `other`; `other` where they are equal.
    pub fn max(self, other: Timestamp) -> (t: Timestamp)
        ensures
            t == later_of(self, other),
    {
        if other.is_before(&self) {
            self
        } else {
            other
        }
    }

    /// The hour of the day, in UTC, that the instant falls in.
    pub fn hour(&self) -> (h: u32)
        ensures
            h == (self.unix_secs() % 86_400) / 3_600,
            h < 24,
    {
        proof {
            use_type_invariant(self);
        }
        let day: i64 = 86_400;
        let shifted: i64 = self.secs + 95_026_237 * day;
        assert(shifted >= 0);
        assert(shifted % 86_400 == self.secs as int % 86_400);
        let in_day: i64 = shifted % day;
        (in_day / 3_600) as u32
    }

    /// The instant in RFC 3339 form, as chrono writes it for UTC.
    pub fn to_rfc3339(&self) -> (text: String)
        ensures
            text@ == rfc3339_utc(self.unix_secs(), self.subsec()),
    {
        proof {
            use_type_invariant(self);
        }
        chrono_rfc3339(self.secs, self.nanos)
    }

    /// The calendar date of the instant in UTC, as `YYYY-MM-DD`.
    pub fn date_string(&self) -> (text: String)
        ensures
            text@ == utc_date(self.unix_secs()),
    {
        proof {
            use_type_invariant(self);
        }
        chrono_date(self.secs)
    }
}

/// Calls chrono's `DateTime::<Utc>::from_timestamp` and `to_rfc3339`. The
/// range asked for is one in which `from_timestamp` gives a value; the text is
/// the one named by `rfc3339_utc`.
#[verifier::external_body]
fn chrono_rfc3339(secs: i64, nanos: u32) -> (text: String)
    requires
        -MAX_UNIX_SECS <= secs <= MAX_UNIX_SECS,
        nanos < NANOS_PER_SEC,
    ensures
        text@ == rfc3339_utc(secs as int, nanos as int),
{
    chrono::DateTime::<chrono::Utc>::from_timestamp(secs, nanos).unwrap().to_rfc3339()
}

/// Calls chrono's `DateTime::<Utc>::from_timestamp` and `format` with
/// `%Y-%m-%d`. The range asked for is one in which `from_timestamp` gives a
/// value; the text is the one named by `utc_date`.
#[verifier::external_body]
fn chrono_date(secs: i64) -> (text: String)
    requires
        -MAX_UNIX_SECS <= secs <= MAX_UNIX_SECS,
    ensures
        text@ == utc_date(secs as int),
{
    chrono::DateTime::<chrono::Utc>::from_timestamp(secs, 0).unwrap().format("%Y-%m-%d").to_string()
}

} // verus!
