//! Points in time and the time between them.

use vstd::prelude::*;

verus! {

/// The earliest second on chrono's calendar, counted from 1970: the start of
/// the year -262143.
pub const FIRST_SECOND: i64 = -8_334_601_228_800;

/// The latest second on that calendar: the end of the year 262142.
pub const LAST_SECOND: i64 = 8_210_266_876_799;

/// The longest interval, in whole seconds, that chrono's durations hold.
pub const LONGEST_INTERVAL: i64 = 9_223_372_036_854_775;

const NANOS_PER_SECOND: u32 = 1_000_000_000;

/// A point in time (UTC): seconds since 1970 and the nanoseconds into that
/// second. During a leap second the nanoseconds go on past a billion, in the
/// last second of a minute.
#[derive(Debug, Clone, Copy, PartialEq, Eq)]
pub struct Moment {
    secs: i64,
    nanos: u32,
}

/// Whether chrono has a point in time for these seconds and nanoseconds.
pub open spec fn representable(secs: int, nanos: int) -> bool {
    &&& FIRST_SECOND <= secs <= LAST_SECOND
    &&& 0 <= nanos < 1_000_000_000 || (secs % 60 == 59 && 0 <= nanos < 2_000_000_000)
}

/// The number of seconds since midnight.
pub open spec fn second_of_day(secs: int) -> int {
    secs % 86_400
}

/// The leap second, if any, that lies between two points in time and that their
/// whole seconds do not count.
pub open spec fn uncounted_leap_second(
    secs: int,
    nanos: int,
    since_secs: int,
    since_nanos: int,
) -> int {
    if second_of_day(secs) > second_of_day(since_secs) && since_nanos >= 1_000_000_000 {
        1
    } else if second_of_day(secs) < second_of_day(since_secs) && nanos >= 1_000_000_000 {
        -1
    } else {
        0
    }
}

/// The nanoseconds from the second point in time to the first.
pub open spec fn nanos_between(secs: int, nanos: int, since_secs: int, since_nanos: int) -> int {
    (secs - since_secs + uncounted_leap_second(secs, nanos, since_secs, since_nanos))
        * 1_000_000_000 + (nanos - since_nanos)
}

/// A length of time, negative where it points to the past: whole seconds, and
/// nanoseconds of the same sign that make less than a second.
struct Span {
    secs: i64,
    nanos: i32,
}

impl Span {
    spec fn total_nanos(self) -> int {
        self.secs * 1_000_000_000 + self.nanos
    }

    spec fn normal(self) -> bool {
        &&& -1_000_000_000 < self.nanos < 1_000_000_000
        &&& self.secs > 0 ==> self.nanos >= 0
        &&& self.secs < 0 ==> self.nanos <= 0
    }

    /// Whether this span is longer than `other`.
    fn exceeds(&self, other: &Span) -> (r: bool)
        requires
            self.normal(),
            other.normal(),
        ensures
            r == (self.total_nanos() > other.total_nanos()),
    {
        self.secs > other.secs || (self.secs == other.secs && self.nanos > other.nanos)
    }
}

/// Calls `chrono::DateTime::<Utc>::signed_duration_since`. Claimed of it: the
/// result is the time between the two points, to the nanosecond, as
/// [`nanos_between`] says. Points in time outside the calendar are left out.
#[verifier::external_body]
fn chrono_signed_duration_since(secs: i64, nanos: u32, since_secs: i64, since_nanos: u32) -> (r:
    Span)
    requires
        representable(secs as int, nanos as int),
        representable(since_secs as int, since_nanos as int),
    ensures
        r.normal(),
        r.total_nanos() == nanos_between(
            secs as int,
            nanos as int,
            since_secs as int,
            since_nanos as int,
        ),
{
    let then = chrono::DateTime::from_timestamp(since_secs, since_nanos).unwrap();
    let now = chrono::DateTime::from_timestamp(secs, nanos).unwrap();
    let delta = now.signed_duration_since(then);
    Span { secs: delta.num_seconds(), nanos: delta.subsec_nanos() }
}

/// Calls `chrono::Duration::seconds`. Claimed of it: the result is that many
/// seconds. It panics on more seconds than a duration holds, so those are left
/// out.
#[verifier::external_body]
fn chrono_seconds(seconds: i64) -> (r: Span)
    requires
        -LONGEST_INTERVAL <= seconds <= LONGEST_INTERVAL,
    ensures
        r.normal(),
        r.total_nanos() == seconds * 1_000_000_000,
{
    let delta = chrono::Duration::seconds(seconds);
    Span { secs: delta.num_seconds(), nanos: delta.subsec_nanos() }
}

/// Calls `chrono::Utc::now`. Claimed of it: the clock's reading is a point in
/// time on chrono's calendar, and never one within a leap second. Which one is the
/// clock's affair. (The call panics on a clock that is set to a time before 1970.)
#[verifier::external_body]
fn chrono_now() -> (r: (i64, u32))
    ensures
        representable(r.0 as int, r.1 as int),
        r.1 < 1_000_000_000,
{
    let now = chrono::Utc::now();
    (now.timestamp(), now.timestamp_subsec_nanos())
}

impl Moment {
    /// Every moment lies on the calendar.
    #[verifier::type_invariant]
    pub open spec fn on_calendar(self) -> bool {
        representable(self.secs(), self.nanos())
    }

    /// Whether a clock can show this moment: clocks know no leap seconds.
    pub open spec fn on_clock(self) -> bool {
        self.on_calendar() && self.nanos() < 1_000_000_000
    }

    /// Whether this moment is a reading of the system's clock.
    pub closed spec fn read_from_clock(self) -> bool {
        call_ensures(chrono_now, (), (self.secs, self.nanos))
    }

    /// The whole seconds since 1970.
    pub closed spec fn secs(self) -> int {
        self.secs as int
    }

    /// The nanoseconds into the second.
    pub closed spec fn nanos(self) -> int {
        self.nanos as int
    }

    /// The point in time at `secs` seconds and `nanos` nanoseconds since 1970,
    /// if there is one.
    pub fn new(secs: i64, nanos: u32) -> (r: Option<Moment>)
        ensures
            r is Some <==> representable(secs as int, nanos as int),
            r matches Some(m) ==> m.secs() == secs && m.nanos() == nanos,
    {
        if secs < FIRST_SECOND || secs > LAST_SECOND {
            return None;
        }
        let shifted: i64 = secs - FIRST_SECOND;
        let last_of_minute: bool = shifted % 60 == 59;
        if nanos < NANOS_PER_SECOND || (last_of_minute && nanos < 2 * NANOS_PER_SECOND) {
            Some(Moment { secs, nanos })
        } else {
            None
        }
    }

    /// The point in time that the system's clock shows.
    pub fn now() -> (r: Moment)
        ensures
            r.on_clock(),
            r.read_from_clock(),
    {
        let (secs, nanos) = chrono_now();
        Moment { secs, nanos }
    }

    /// The whole seconds since 1970.
    pub fn timestamp(&self) -> (r: i64)
        ensures
            r == self.secs(),
    {
        self.secs
    }

    /// The nanoseconds into the second, a billion or more in a leap second.
    pub fn subsec_nanos(&self) -> (r: u32)
        ensures
            r == self.nanos(),
    {
        self.nanos
    }

    /// The nanoseconds from `earlier` to this point in time.
    pub open spec fn nanos_since(self, earlier: Moment) -> int {
        nanos_between(self.secs(), self.nanos(), earlier.secs(), earlier.nanos())
    }

    /// Whether this point in time lies more than `seconds` seconds after
    /// `earlier`.
    pub fn is_later_by_more_than(&self, seconds: i64, earlier: &Moment) -> (r: bool)
        requires
            -LONGEST_INTERVAL <= seconds <= LONGEST_INTERVAL,
        ensures
            r == (self.nanos_since(*earlier) > seconds * 1_000_000_000),
    {
        proof {
            use_type_invariant(self);
            use_type_invariant(earlier);
        }
        let elapsed = chrono_signed_duration_since(
            self.secs,
            self.nanos,
            earlier.secs,
            earlier.nanos,
        );
        let limit = chrono_seconds(seconds);
        elapsed.exceeds(&limit)
    }
}

} // verus!
