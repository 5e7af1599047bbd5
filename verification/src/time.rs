//! Instants and the arithmetic that turns a time-to-live into an expiry.

use vstd::prelude::*;

verus! {

/// Microseconds in one hour.
pub const MICROS_PER_HOUR: i64 = 3_600_000_000;

/// An instant on the UTC time line, counted in microseconds since the Unix
/// epoch. Instants are ordered by that count.
#[derive(Clone, Copy, Debug, PartialEq, Eq, Structural)]
pub struct Timestamp {
    pub micros: i64,
}

/// The instant `hours` hours after `start`, as an unbounded count of
/// microseconds.
pub open spec fn hours_after(start: Timestamp, hours: i64) -> int {
    start.micros + hours * MICROS_PER_HOUR
}

/// Whether the instant `hours` hours after `start` can be held in a
/// `Timestamp`.
pub open spec fn hours_after_fits(start: Timestamp, hours: i64) -> bool {
    i64::MIN <= hours_after(start, hours) <= i64::MAX
}

impl Timestamp {
    /// The count of the instant `hours` hours later, in a type wide enough
    /// for every instant and every number of hours.
    fn wide_plus_hours(self, hours: i64) -> (wide: i128)
        ensures
            wide == hours_after(self, hours),
    {
        assert(-0x8000_0000_0000_0000 * 3_600_000_000 <= hours * MICROS_PER_HOUR
            <= 0x8000_0000_0000_0000 * 3_600_000_000) by (nonlinear_arith)
            requires
                -0x8000_0000_0000_0000 <= hours <= 0x8000_0000_0000_0000,
                MICROS_PER_HOUR == 3_600_000_000,
        ;
        let span: i128 = (hours as i128) * (MICROS_PER_HOUR as i128);
        (self.micros as i128) + span
    }

    /// The instant `hours` hours later, or `None` when that instant lies
    /// outside the range of a `Timestamp`.
    pub fn checked_plus_hours(self, hours: i64) -> (r: Option<Timestamp>)
        ensures
            hours_after_fits(self, hours) ==> r == Some(
                Timestamp { micros: hours_after(self, hours) as i64 },
            ),
            !hours_after_fits(self, hours) ==> r is None,
    {
        let wide = self.wide_plus_hours(hours);
        if wide < (i64::MIN as i128) || wide > (i64::MAX as i128) {
            None
        } else {
            Some(Timestamp { micros: wide as i64 })
        }
    }

    /// The instant `hours` hours later.
    pub fn plus_hours(self, hours: i64) -> (r: Timestamp)
        requires
            hours_after_fits(self, hours),
        ensures
            r.micros == hours_after(self, hours),
    {
        Timestamp { micros: self.wide_plus_hours(hours) as i64 }
    }

    /// Whether this instant lies strictly after `other`.
    pub fn is_after(self, other: Timestamp) -> (r: bool)
        ensures
            r == (self.micros > other.micros),
    {
        self.micros > other.micros
    }
}

/// The current instant, read from the system clock by `chrono::Utc::now` and
/// counted by `DateTime::timestamp_micros`.
///
/// Trusted, and nothing is claimed of the instant: two readings need not
/// agree, nor follow one another. `chrono` stops the program when the system
/// clock stands before the Unix epoch.
#[verifier::external_body]
pub(crate) fn current_time() -> Timestamp {
    Timestamp { micros: chrono::Utc::now().timestamp_micros() }
}

} // verus!
