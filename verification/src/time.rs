//! Instants in UTC and the time that lies between them.
use vstd::prelude::*;

verus! {

pub const NANOS_PER_SECOND: u32 = 1_000_000_000;

pub const SECONDS_PER_DAY: i64 = 86_400;

/// The first and the last second that the calendar reaches.
pub const FIRST_SECOND: i64 = -8_334_601_228_800;

pub const LAST_SECOND: i64 = 8_210_266_876_799;

/// An instant: whole seconds since the Unix epoch, and the nanoseconds that
/// have passed since that second began. Within a leap second, which carries
/// the number of the second before it, the nanoseconds run on past a second.
#[derive(Debug, Clone, Copy, PartialEq, Eq)]
pub struct Timestamp {
    pub secs: i64,
    pub nanos: u32,
}

/// Division that rounds towards zero.
pub open spec fn quotient(a: int, b: int) -> int {
    if a < 0 {
        -((-a) / b)
    } else {
        a / b
    }
}

impl Timestamp {
    /// The instant is one that the calendar has.
    pub open spec fn in_calendar(self) -> bool {
        &&& FIRST_SECOND <= self.secs <= LAST_SECOND
        &&& self.nanos < NANOS_PER_SECOND || (self.nanos < 2 * NANOS_PER_SECOND && self.secs % 60
            == 59)
    }

    /// The instant does not lie within a leap second.
    pub open spec fn is_plain(self) -> bool {
        self.nanos < NANOS_PER_SECOND
    }

    /// The second of the day.
    pub open spec fn day_second(self) -> int {
        self.secs as int % SECONDS_PER_DAY as int
    }

    /// Nanoseconds since the Unix epoch, leap seconds not counted.
    pub open spec fn total_nanos(self) -> int {
        self.secs * NANOS_PER_SECOND + self.nanos
    }

    /// The nanoseconds from `earlier` to this instant; negative where `earlier`
    /// comes later. A leap second in which one of the two lies is counted when
    /// the other comes after it by the clock of the day.
    pub open spec fn nanos_since(self, earlier: Timestamp) -> int {
        let leap: int = if self.day_second() > earlier.day_second() && !earlier.is_plain() {
            1
        } else if self.day_second() < earlier.day_second() && !self.is_plain() {
            -1
        } else {
            0
        };
        self.total_nanos() - earlier.total_nanos() + leap * NANOS_PER_SECOND
    }

    /// The whole seconds from `earlier` to this instant.
    pub open spec fn seconds_since_spec(self, earlier: Timestamp) -> int {
        quotient(self.nanos_since(earlier), NANOS_PER_SECOND as int)
    }

    /// The whole days from `earlier` to this instant, rounded down.
    pub open spec fn days_since_spec(self, earlier: Timestamp) -> int {
        self.nanos_since(earlier) / 86_400_000_000_000
    }

    /// The nanoseconds from `earlier` to this instant.
    pub fn elapsed_nanos(self, earlier: Timestamp) -> (r: i128)
        ensures
            r == self.nanos_since(earlier),
            -0x1_0000_0000_0000_0010 * NANOS_PER_SECOND <= r <= 0x1_0000_0000_0000_0010
                * NANOS_PER_SECOND,
    {
        let here: i64 = day_second(self.secs);
        let there: i64 = day_second(earlier.secs);
        let leap: i128 = if here > there && earlier.nanos >= NANOS_PER_SECOND {
            1
        } else if here < there && self.nanos >= NANOS_PER_SECOND {
            -1
        } else {
            0
        };
        let seconds: i128 = self.secs as i128 - earlier.secs as i128 + leap;
        seconds * 1_000_000_000 + (self.nanos as i128 - earlier.nanos as i128)
    }

    /// The whole seconds from `earlier` to this instant, rounded towards zero.
    pub fn seconds_since(self, earlier: Timestamp) -> (r: i128)
        ensures
            r == self.seconds_since_spec(earlier),
            -0x1_0000_0000_0000_0010 <= r <= 0x1_0000_0000_0000_0010,
    {
        let nanos = self.elapsed_nanos(earlier);
        if nanos < 0 {
            0 - (0 - nanos) / 1_000_000_000
        } else {
            nanos / 1_000_000_000
        }
    }

    /// The whole days from `earlier` to this instant, rounded down.
    pub fn days_since(self, earlier: Timestamp) -> (r: i64)
        ensures
            r == self.days_since_spec(earlier),
    {
        let nanos = self.elapsed_nanos(earlier);
        let whole: i128 = if nanos < 0 {
            0 - (0 - nanos + 86_399_999_999_999) / 86_400_000_000_000
        } else {
            nanos / 86_400_000_000_000
        };
        whole as i64
    }

    /// The instant that many seconds later.
    pub fn plus_seconds(self, seconds: i64) -> (r: Timestamp)
        requires
            i64::MIN <= self.secs + seconds <= i64::MAX,
        ensures
            r.secs == self.secs + seconds,
            r.nanos == self.nanos,
    {
        Timestamp { secs: self.secs + seconds, nanos: self.nanos }
    }
}

fn day_second(secs: i64) -> (r: i64)
    ensures
        r == secs as int % SECONDS_PER_DAY as int,
{
    // The remainder of a negative number is not negative here.
    let shifted: i128 = secs as i128 + 86_400 * 200_000_000_000_000;
    assert(shifted > 0);
    let r: i128 = shifted % 86_400;
    assert(r == secs as int % 86_400) by {
        vstd::arithmetic::div_mod::lemma_mod_multiples_vanish(
            200_000_000_000_000,
            secs as int,
            86_400,
        );
    }
    r as i64
}

/// The time between two instants is counted from the one to the other: backwards
/// it is the opposite, and outside of leap seconds it is the difference of their
/// seconds and nanoseconds. A leap second makes a difference of at most a second.
pub proof fn law_elapsed_time(a: Timestamp, b: Timestamp)
    ensures
        a.nanos_since(b) == -b.nanos_since(a),
        a.nanos < 1_000_000_000 && b.nanos < 1_000_000_000 ==> a.nanos_since(b) == (a.secs - b.secs)
            * 1_000_000_000 + (a.nanos - b.nanos),
        -1_000_000_000 <= a.nanos_since(b) - ((a.secs - b.secs) * 1_000_000_000 + (a.nanos
            - b.nanos)) <= 1_000_000_000,
{
}

/// Whole seconds leave less than a second over and never exceed the time that
/// has passed, in either direction; whole days are rounded down.
pub proof fn law_whole_units(a: Timestamp, b: Timestamp)
    ensures
        a.nanos_since(b) >= 0 ==> a.seconds_since_spec(b) * 1_000_000_000 <= a.nanos_since(b) < (
        a.seconds_since_spec(b) + 1) * 1_000_000_000,
        a.nanos_since(b) <= 0 ==> (a.seconds_since_spec(b) - 1) * 1_000_000_000 < a.nanos_since(b)
            <= a.seconds_since_spec(b) * 1_000_000_000,
        a.days_since_spec(b) * 86_400_000_000_000 <= a.nanos_since(b) < (a.days_since_spec(b) + 1)
            * 86_400_000_000_000,
{
}

} // verus!
