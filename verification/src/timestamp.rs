//! Points in time, counted in microseconds, and their text form.

use vstd::prelude::*;

verus! {

/// A point in time on the UTC scale.
#[derive(Debug, Clone, Copy, PartialEq, Eq, Structural)]
pub struct Timestamp {
    /// Microseconds since 1970-01-01T00:00:00Z, leap seconds not counted.
    pub micros: i64,
}

/// The point in time that a text denotes to `chrono`: what parsing the text
/// as a `DateTime<Utc>` gives, in microseconds, or nothing where it fails.
pub uninterp spec fn parsed_instant(text: Seq<char>) -> Option<i64>;

/// The text that `chrono` writes for a count of microseconds since 1970: the
/// date and time in RFC 3339 form, or nothing where the count is out of the
/// calendar's range.
pub uninterp spec fn instant_text(micros: i64) -> Option<Seq<char>>;

/// A count of microseconds, if there is one, as a timestamp.
pub open spec fn instant_of(micros: Option<i64>) -> Option<Timestamp> {
    match micros {
        Some(micros) => Some(Timestamp { micros }),
        None => None,
    }
}

/// The timestamp that a text denotes, if it denotes one.
pub open spec fn instant_from_text(text: Seq<char>) -> Option<Timestamp> {
    instant_of(parsed_instant(text))
}

/// `str::parse::<DateTime<Utc>>` followed by `DateTime::timestamp_micros`. The
/// parser reads a relaxed form of RFC 3339 and looks at the text alone, so the
/// outcome is the named `parsed_instant` of the text.
#[verifier::external_body]
pub(crate) fn read_instant(text: &str) -> (r: Option<Timestamp>)
    ensures
        r == instant_of(parsed_instant(text@)),
{
    match text.parse::<chrono::DateTime<chrono::Utc>>() {
        Ok(at) => Some(Timestamp { micros: at.timestamp_micros() }),
        Err(_) => None,
    }
}

/// `DateTime::to_rfc3339` of the date that `DateTime::from_timestamp_micros`
/// makes. Both look at the count alone, so the outcome is the named
/// `instant_text` of the count; `None` where the count is out of the
/// calendar's range.
#[verifier::external_body]
pub(crate) fn write_instant(at: Timestamp) -> (r: Option<String>)
    ensures
        match r {
            Some(text) => instant_text(at.micros) == Some(text@),
            None => instant_text(at.micros) is None,
        },
{
    match chrono::DateTime::from_timestamp_micros(at.micros) {
        Some(date) => Some(date.to_rfc3339()),
        None => None,
    }
}

/// `Utc::now`, in microseconds. The clock decides, so nothing is claimed.
#[verifier::external_body]
pub(crate) fn current_instant() -> (r: Timestamp) {
    Timestamp { micros: chrono::Utc::now().timestamp_micros() }
}

impl Timestamp {
    /// Microseconds in a second.
    pub open spec fn second() -> int {
        1_000_000
    }

    /// The first instant of 1970.
    pub open spec fn epoch() -> Timestamp {
        Timestamp { micros: 0 }
    }

    /// This instant moved `seconds` later, held at the last instant that can
    /// be counted where the sum would pass it.
    pub open spec fn later_by(self, seconds: nat) -> Timestamp {
        let sum = self.micros + seconds * Self::second();
        if sum > i64::MAX {
            Timestamp { micros: i64::MAX }
        } else {
            Timestamp { micros: sum as i64 }
        }
    }

    /// Moves the instant `seconds` later, saturating.
    pub fn plus_seconds(self, seconds: u64) -> (r: Timestamp)
        ensures
            r == self.later_by(seconds as nat),
    {
        let sum: i128 = self.micros as i128 + (seconds as i128) * 1_000_000;
        if sum > i64::MAX as i128 {
            Timestamp { micros: i64::MAX }
        } else {
            Timestamp { micros: sum as i64 }
        }
    }

    /// Whole seconds from `now` until this instant; 0 once it has come.
    pub open spec fn seconds_after(self, now: Timestamp) -> nat {
        if now.micros < self.micros {
            ((self.micros - now.micros) / Self::second()) as nat
        } else {
            0
        }
    }

    /// Whole seconds left from `now` until this instant.
    pub fn seconds_until(self, now: Timestamp) -> (r: u64)
        ensures
            r == self.seconds_after(now),
    {
        if now.micros < self.micros {
            let span: i128 = self.micros as i128 - now.micros as i128;
            (span / 1_000_000) as u64
        } else {
            0
        }
    }
}

/// An instant moved later lies exactly that many seconds after where it
/// was, as long as it can still be counted.
pub proof fn lemma_later_by_is_exact(at: Timestamp, seconds: nat)
    requires
        at.micros + seconds * Timestamp::second() <= i64::MAX,
    ensures
        at.later_by(seconds).micros == at.micros + seconds * Timestamp::second(),
        at.later_by(seconds).seconds_after(at) == seconds,
{
    assert((seconds * 1_000_000) / 1_000_000 == seconds) by (nonlinear_arith);
}

} // verus!
