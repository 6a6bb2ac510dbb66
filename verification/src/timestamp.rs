//! Points in time, as seconds and nanoseconds since the Unix epoch.

use std::cmp::Ordering;
use vstd::prelude::*;

use crate::rfc3339::{format_rfc3339, parse_rfc3339, rfc3339_instant, rfc3339_text};

verus! {

/// The earliest representable second: the start of January 1 of the year -262143.
pub const MIN_SECONDS: i64 = -8_334_601_228_800;

/// The latest representable second: the end of December 31 of the year 262142.
pub const MAX_SECONDS: i64 = 8_210_266_876_799;

/// The first second of the year 0000.
pub const MIN_TEXT_SECONDS: i64 = -62_167_219_200;

/// The last second of the year 9999.
pub const MAX_TEXT_SECONDS: i64 = 253_402_300_799;

/// Nanoseconds in a second.
pub const NANOS_PER_SECOND: u32 = 1_000_000_000;

/// Nanoseconds in a millisecond.
pub const NANOS_PER_MILLI: u32 = 1_000_000;

/// How much of a timestamp its text keeps.
#[derive(Clone, Copy, Debug, PartialEq, Eq, Structural, Hash)]
pub enum Precision {
    /// Whole milliseconds: exactly three digits below the second.
    Millis,
    /// All of it: no digits below the second, or three, six or nine,
    /// whichever is the least that loses nothing.
    Full,
}

/// The mathematical value of a [`Timestamp`].
///
/// `secs` counts whole non-leap seconds since 1970-01-01T00:00:00Z and `nanos`
/// the nanoseconds since that second began. During a leap second `nanos` runs
/// from 1_000_000_000 up to 1_999_999_999 while `secs` stays on the second
/// before it, which is the 59th of its minute.
pub struct Instant {
    pub secs: int,
    pub nanos: int,
}

impl Instant {
    /// 1970-01-01T00:00:00Z.
    pub open spec fn epoch() -> Instant {
        Instant { secs: 0, nanos: 0 }
    }

    /// Whether a [`Timestamp`] with this value exists.
    pub open spec fn representable(self) -> bool {
        &&& MIN_SECONDS <= self.secs <= MAX_SECONDS
        &&& 0 <= self.nanos < 2 * NANOS_PER_SECOND
        &&& (self.nanos >= NANOS_PER_SECOND ==> self.secs % 60 == 59)
    }

    /// Whether the instant lies in the years 0000 to 9999, the years that a
    /// date with a four-digit year can name.
    pub open spec fn in_four_digit_years(self) -> bool {
        MIN_TEXT_SECONDS <= self.secs <= MAX_TEXT_SECONDS
    }

    /// Strictly earlier than `other`.
    pub open spec fn before(self, other: Instant) -> bool {
        self.secs < other.secs || (self.secs == other.secs && self.nanos < other.nanos)
    }

    /// How the two instants stand in time.
    pub open spec fn compare(self, other: Instant) -> Ordering {
        if self.before(other) {
            Ordering::Less
        } else if other.before(self) {
            Ordering::Greater
        } else {
            Ordering::Equal
        }
    }

    /// Not later than `other`.
    pub open spec fn at_or_before(self, other: Instant) -> bool {
        self == other || self.before(other)
    }

    /// The instant with the part below a millisecond cut off.
    pub open spec fn truncated_to_millis(self) -> Instant {
        Instant { secs: self.secs, nanos: self.nanos - self.nanos % (NANOS_PER_MILLI as int) }
    }

    /// What is left of the instant once it has been written as text.
    pub open spec fn kept(self, precision: Precision) -> Instant {
        match precision {
            Precision::Millis => self.truncated_to_millis(),
            Precision::Full => self,
        }
    }

    /// The instant as RFC 3339 text in UTC, ending in `Z`.
    pub open spec fn text(self, precision: Precision) -> Seq<char> {
        rfc3339_text(self.secs, self.nanos, precision is Millis)
    }

    /// The instant that an RFC 3339 text stands for, whatever offset the
    /// text is written with; `None` for a text that is not in that form.
    pub open spec fn from_text(text: Seq<char>) -> Option<Instant> {
        match rfc3339_instant(text) {
            Some((secs, nanos)) => Some(Instant { secs, nanos }),
            None => None,
        }
    }
}

/// The error for a text that is not a date and time in RFC 3339 form.
#[derive(Clone, Copy, Debug, PartialEq, Eq)]
pub struct Rfc3339Error {
    /// What the parser objected to.
    pub cause: chrono::ParseError,
}

/// A point in time with nanosecond resolution, always within the representable range.
#[derive(Clone, Copy, Debug, PartialEq, Eq, Structural, Ord, Hash)]
pub struct Timestamp {
    secs: i64,
    nanos: u32,
}

impl View for Timestamp {
    type V = Instant;

    closed spec fn view(&self) -> Instant {
        Instant { secs: self.secs as int, nanos: self.nanos as int }
    }
}

impl Timestamp {
    #[verifier::type_invariant]
    spec fn well_formed(self) -> bool {
        self@.representable()
    }

    /// The timestamp `secs` seconds and `nanos` nanoseconds after the epoch,
    /// if that instant is representable.
    pub fn new(secs: i64, nanos: u32) -> (r: Option<Timestamp>)
        ensures
            r is Some <==> (Instant { secs: secs as int, nanos: nanos as int }).representable(),
            r matches Some(t) ==> t@ == (Instant { secs: secs as int, nanos: nanos as int }),
    {
        if secs < MIN_SECONDS || secs > MAX_SECONDS || nanos >= 2 * NANOS_PER_SECOND {
            return None;
        }
        // MIN_SECONDS is a whole number of minutes, so the offset keeps the second of the minute.
        let since_min: u64 = (secs - MIN_SECONDS) as u64;
        if nanos >= NANOS_PER_SECOND && since_min % 60 != 59 {
            return None;
        }
        Some(Timestamp { secs, nanos })
    }

    /// The timestamp of a representable instant.
    pub(crate) fn from_representable(secs: i64, nanos: u32) -> (r: Timestamp)
        requires
            (Instant { secs: secs as int, nanos: nanos as int }).representable(),
        ensures
            r@ == (Instant { secs: secs as int, nanos: nanos as int }),
    {
        Timestamp { secs, nanos }
    }

    /// Reads a timestamp from RFC 3339 text, whatever offset the text is
    /// written with.
    pub fn from_rfc3339(text: &str) -> (r: Result<Timestamp, Rfc3339Error>)
        ensures
            match r {
                Ok(timestamp) => Instant::from_text(text@) == Some(timestamp@),
                Err(_) => Instant::from_text(text@) is None,
            },
    {
        match parse_rfc3339(text) {
            Ok((secs, nanos)) => Ok(Timestamp::from_representable(secs, nanos)),
            Err(cause) => Err(Rfc3339Error { cause }),
        }
    }

    /// Writes the timestamp as RFC 3339 text in UTC, ending in `Z`.
    ///
    /// A timestamp in the years 0000 to 9999 is read back from its text as it
    /// was, less what the precision cut off.
    pub fn to_rfc3339(&self, precision: Precision) -> (text: String)
        ensures
            text@ == self@.text(precision),
            self@.in_four_digit_years() ==> Instant::from_text(text@) == Some(
                self@.kept(precision),
            ),
    {
        proof {
            use_type_invariant(self);
        }
        format_rfc3339(self.secs, self.nanos, precision)
    }

    /// Whole seconds since the epoch.
    pub fn seconds(&self) -> (r: i64)
        ensures
            r == self@.secs,
            self@.representable(),
    {
        proof {
            use_type_invariant(self);
        }
        self.secs
    }

    /// Nanoseconds since the last whole second.
    pub fn subsec_nanos(&self) -> (r: u32)
        ensures
            r == self@.nanos,
            self@.representable(),
    {
        proof {
            use_type_invariant(self);
        }
        self.nanos
    }

    /// Two timestamps with the same value are the same timestamp.
    pub proof fn lemma_view_injective(a: Timestamp, b: Timestamp)
        requires
            a@ == b@,
        ensures
            a == b,
    {
    }
}

impl Default for Timestamp {
    /// The Unix epoch.
    fn default() -> (r: Timestamp)
        ensures
            r@ == Instant::epoch(),
    {
        Timestamp { secs: 0, nanos: 0 }
    }
}

impl PartialOrd for Timestamp {
    /// Chronological order.
    fn partial_cmp(&self, other: &Timestamp) -> (r: Option<Ordering>) {
        if self.secs < other.secs {
            Some(Ordering::Less)
        } else if self.secs > other.secs {
            Some(Ordering::Greater)
        } else if self.nanos < other.nanos {
            Some(Ordering::Less)
        } else if self.nanos > other.nanos {
            Some(Ordering::Greater)
        } else {
            Some(Ordering::Equal)
        }
    }
}

impl vstd::std_specs::cmp::PartialOrdSpecImpl for Timestamp {
    open spec fn obeys_partial_cmp_spec() -> bool {
        true
    }

    open spec fn partial_cmp_spec(&self, other: &Timestamp) -> Option<Ordering> {
        Some(self@.compare(other@))
    }
}

} // verus!
