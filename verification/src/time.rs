//! Points in time and time spans as plain integers, with `chrono` doing the arithmetic.
use chrono::{DateTime, FixedOffset, TimeDelta, TimeZone, Utc};
use vstd::arithmetic::div_mod::{lemma_fundamental_div_mod, lemma_fundamental_div_mod_converse};
use vstd::prelude::*;

use crate::text::{
    all_digits, is_digit, lemma_digits_value_is_positional, parse_i32,
};

verus! {

pub const NANOS_PER_SEC: u32 = 1_000_000_000;

/// Midnight that opens the first day that `chrono` can name, in seconds since 1970.
pub const MIN_SECS: i64 = -8_334_601_228_800;

/// The last second of the last day that `chrono` can name, in seconds since 1970.
pub const MAX_SECS: i64 = 8_210_266_876_799;

/// The length of a day without leap seconds.
pub const SECS_PER_DAY: i32 = 86_400;

/// How far west of Greenwich the clock lies that the time service reports in.
pub const SNTP_WEST_SECS: i32 = 18_000;

/// A point in time, and the offset from UTC in which it is shown.
///
/// `secs` counts the non-leap seconds since 1970-01-01 00:00:00 UTC and `nanos` what has
/// passed since that second began. During a leap second `secs` stays on second 59 of the
/// minute and `nanos` runs on past one billion. `utc_offset` is local time minus UTC in
/// seconds; it has no part in which of two points is the earlier.
#[derive(Clone, Copy, Debug)]
pub struct Timestamp {
    pub secs: i64,
    pub nanos: u32,
    pub utc_offset: i32,
}

/// A signed span of time: `secs` whole seconds, rounded down, and `nanos` on top of them.
#[derive(Clone, Copy, Debug, PartialEq, Eq, Structural)]
pub struct TimeSpan {
    pub secs: i64,
    pub nanos: u32,
}

/// `secs` and `nanos` name a point in time: the day is in range, and only the last second
/// of a minute may run on into a leap second.
pub open spec fn valid_instant(secs: int, nanos: int) -> bool {
    &&& MIN_SECS <= secs <= MAX_SECS
    &&& 0 <= nanos
    &&& nanos < NANOS_PER_SEC || (nanos < 2 * NANOS_PER_SEC && secs % 60 == 59)
}

/// `secs` and `nanos` name a span of at most `i64::MAX` milliseconds either way.
pub open spec fn valid_span(secs: int, nanos: int) -> bool {
    &&& 0 <= nanos < NANOS_PER_SEC
    &&& -(i64::MAX * 1_000_000) <= secs * NANOS_PER_SEC + nanos <= i64::MAX * 1_000_000
}

/// The point that lies `delta` nanoseconds after (`secs`, `nanos`), whether or not its day is
/// in range. Only a leap second that the starting point itself lies in is counted: inside it
/// the seconds stand still, and a step past its end skips the billion nanoseconds that it
/// took.
pub open spec fn shifted(secs: int, nanos: int, delta: int) -> (int, int) {
    let g = NANOS_PER_SEC as int;
    let x = nanos + delta;
    if nanos >= g && g <= x < 2 * g {
        (secs, x)
    } else {
        let n = if nanos >= g && x >= 2 * g {
            x - g
        } else {
            x
        };
        (secs + n / g, n % g)
    }
}

/// The nanoseconds from (`secs2`, `nanos2`) to (`secs1`, `nanos1`). A leap second that the
/// point with the earlier time of day lies in is counted once.
pub open spec fn elapsed(secs1: int, nanos1: int, secs2: int, nanos2: int) -> int {
    let g = NANOS_PER_SEC as int;
    let of_day1 = secs1 % (SECS_PER_DAY as int);
    let of_day2 = secs2 % (SECS_PER_DAY as int);
    let leap = if of_day1 > of_day2 && nanos2 >= g {
        g
    } else if of_day1 < of_day2 && nanos1 >= g {
        -g
    } else {
        0
    };
    (secs1 - secs2) * g + nanos1 - nanos2 + leap
}

impl TimeSpan {
    pub open spec fn valid(self) -> bool {
        valid_span(self.secs as int, self.nanos as int)
    }

    /// The span in nanoseconds.
    pub open spec fn total(self) -> int {
        self.secs * NANOS_PER_SEC + self.nanos
    }
}

impl Timestamp {
    pub open spec fn valid(self) -> bool {
        valid_instant(self.secs as int, self.nanos as int)
    }

    /// This point comes before `other`.
    pub open spec fn before(self, other: Timestamp) -> bool {
        self.secs < other.secs || (self.secs == other.secs && self.nanos < other.nanos)
    }

    /// The two are the same point in time, wherever they are shown.
    pub open spec fn same_instant(self, other: Timestamp) -> bool {
        self.secs == other.secs && self.nanos == other.nanos
    }

    /// The point `delta` nanoseconds later, shown at the same offset, where its day is in
    /// range.
    pub open spec fn moved(self, delta: int) -> Option<Timestamp> {
        let (secs, nanos) = shifted(self.secs as int, self.nanos as int, delta);
        if self.valid() && MIN_SECS <= secs <= MAX_SECS {
            Some(Timestamp { secs: secs as i64, nanos: nanos as u32, utc_offset: self.utc_offset })
        } else {
            None
        }
    }
}

/// What `chrono` writes for the second `secs` after 1970 on a clock that lies `west_secs`
/// seconds west of Greenwich.
pub uninterp spec fn local_time_text(secs: int, west_secs: int) -> Seq<char>;

/// Calls `chrono::DateTime::checked_sub_signed`. It takes the span off the point as
/// [`shifted`] says, and gives nothing where either argument is none that `chrono` can hold
/// or where the day of the result is out of range.
#[verifier::external_body]
fn chrono_checked_sub(secs: i64, nanos: u32, span_secs: i64, span_nanos: u32) -> (r: Option<
    (i64, u32),
>)
    ensures
        ({
            let to = shifted(
                secs as int,
                nanos as int,
                -(span_secs * NANOS_PER_SEC + span_nanos),
            );
            match r {
                Some(p) => {
                    &&& valid_instant(secs as int, nanos as int)
                    &&& valid_span(span_secs as int, span_nanos as int)
                    &&& MIN_SECS <= to.0 <= MAX_SECS
                    &&& p.0 == to.0
                    &&& p.1 == to.1
                },
                None => !(valid_instant(secs as int, nanos as int) && valid_span(
                    span_secs as int,
                    span_nanos as int,
                ) && MIN_SECS <= to.0 <= MAX_SECS),
            }
        }),
{
    let span = TimeDelta::new(span_secs, span_nanos)?;
    let to = DateTime::from_timestamp(secs, nanos)?.checked_sub_signed(span)?;
    Some((to.timestamp(), to.timestamp_subsec_nanos()))
}

/// Calls `chrono::DateTime::checked_add_signed`. It adds the span to the point as
/// [`shifted`] says, and gives nothing where either argument is none that `chrono` can hold
/// or where the day of the result is out of range.
#[verifier::external_body]
fn chrono_checked_add(secs: i64, nanos: u32, span_secs: i64, span_nanos: u32) -> (r: Option<
    (i64, u32),
>)
    ensures
        ({
            let to = shifted(secs as int, nanos as int, span_secs * NANOS_PER_SEC + span_nanos);
            match r {
                Some(p) => {
                    &&& valid_instant(secs as int, nanos as int)
                    &&& valid_span(span_secs as int, span_nanos as int)
                    &&& MIN_SECS <= to.0 <= MAX_SECS
                    &&& p.0 == to.0
                    &&& p.1 == to.1
                },
                None => !(valid_instant(secs as int, nanos as int) && valid_span(
                    span_secs as int,
                    span_nanos as int,
                ) && MIN_SECS <= to.0 <= MAX_SECS),
            }
        }),
{
    let span = TimeDelta::new(span_secs, span_nanos)?;
    let to = DateTime::from_timestamp(secs, nanos)?.checked_add_signed(span)?;
    Some((to.timestamp(), to.timestamp_subsec_nanos()))
}

/// Calls `chrono::DateTime::signed_duration_since`. The span from the second point to the
/// first comes back as whole seconds, rounded towards zero, and the nanoseconds left over,
/// which have the sign of the span.
#[verifier::external_body]
fn chrono_signed_duration_since(secs1: i64, nanos1: u32, secs2: i64, nanos2: u32) -> (r: (
    i64,
    i32,
))
    requires
        valid_instant(secs1 as int, nanos1 as int),
        valid_instant(secs2 as int, nanos2 as int),
    ensures
        r.0 * NANOS_PER_SEC + r.1 == elapsed(
            secs1 as int,
            nanos1 as int,
            secs2 as int,
            nanos2 as int,
        ),
        r.0 > 0 ==> 0 <= r.1,
        r.0 < 0 ==> r.1 <= 0,
        -NANOS_PER_SEC < r.1 < NANOS_PER_SEC,
{
    let later = DateTime::from_timestamp(secs1, nanos1).unwrap();
    let span = later.signed_duration_since(DateTime::from_timestamp(secs2, nanos2).unwrap());
    (span.num_seconds(), span.subsec_nanos())
}

/// Calls `chrono::Utc::now`. The point that it reads off the system clock is never before
/// 1970, never out of range and never inside a leap second; nothing more is known of it. It
/// panics on a machine whose clock stands before 1970.
#[verifier::external_body]
fn chrono_utc_now() -> (r: (i64, u32))
    ensures
        0 <= r.0 <= MAX_SECS,
        r.1 < NANOS_PER_SEC,
{
    let now = Utc::now();
    (now.timestamp(), now.timestamp_subsec_nanos())
}

/// Calls `chrono::FixedOffset::west_opt` and reads the offset off it as local time minus UTC.
/// A clock less than a day west of Greenwich, either way, lies behind UTC by as much; for any
/// other there is no offset.
#[verifier::external_body]
fn chrono_west_offset(west_secs: i32) -> (r: Option<i32>)
    ensures
        r == (if -SECS_PER_DAY < west_secs < SECS_PER_DAY {
            Some((-west_secs) as i32)
        } else {
            None
        }),
{
    match FixedOffset::west_opt(west_secs) {
        Some(offset) => Some(offset.local_minus_utc()),
        None => None,
    }
}

/// Calls `to_string` of a `chrono::DateTime<FixedOffset>`. The text depends on the second and
/// on the offset alone; what it looks like is left unsaid.
#[verifier::external_body]
fn chrono_local_text(secs: i64, west_secs: i32) -> (r: String)
    requires
        MIN_SECS <= secs <= MAX_SECS,
        -SECS_PER_DAY < west_secs < SECS_PER_DAY,
    ensures
        r@ == local_time_text(secs as int, west_secs as int),
{
    let tz = FixedOffset::west_opt(west_secs).unwrap();
    let utc = DateTime::from_timestamp(secs, 0).unwrap();
    tz.from_utc_datetime(&utc.naive_utc()).to_string()
}

impl TimeSpan {
    /// A span of `secs` seconds.
    pub fn seconds(secs: i64) -> (r: TimeSpan)
        requires
            -(i64::MAX / 1000) <= secs <= i64::MAX / 1000,
        ensures
            r.valid(),
            r.total() == secs * NANOS_PER_SEC,
            r == (TimeSpan { secs, nanos: 0 }),
    {
        TimeSpan { secs, nanos: 0 }
    }

    /// A span of `millis` milliseconds.
    pub fn milliseconds(millis: i64) -> (r: TimeSpan)
        requires
            millis != i64::MIN,
        ensures
            r.valid(),
            r.total() == millis * 1_000_000,
    {
        let mut secs: i64 = millis / 1000;
        let mut rest: i64 = millis % 1000;
        if rest < 0 {
            secs = secs - 1;
            rest = rest + 1000;
        }
        TimeSpan { secs, nanos: rest as u32 * 1_000_000 }
    }

    /// Whether this span is shorter than `other`, a negative one being the shorter.
    pub fn less_than(&self, other: &TimeSpan) -> (r: bool)
        requires
            self.valid(),
            other.valid(),
        ensures
            r == (self.total() < other.total()),
    {
        self.secs < other.secs || (self.secs == other.secs && self.nanos < other.nanos)
    }
}

impl PartialEq for Timestamp {
    fn eq(&self, other: &Timestamp) -> (r: bool) {
        self.secs == other.secs && self.nanos == other.nanos
    }
}

impl vstd::std_specs::cmp::PartialEqSpecImpl for Timestamp {
    open spec fn obeys_eq_spec() -> bool {
        true
    }

    open spec fn eq_spec(&self, other: &Timestamp) -> bool {
        self.secs == other.secs && self.nanos == other.nanos
    }
}

impl Eq for Timestamp {

}

impl Timestamp {
    /// The point that the system clock shows, at the given offset.
    pub fn now(utc_offset: i32) -> (r: Timestamp)
        ensures
            r.valid(),
            0 <= r.secs,
            r.nanos < NANOS_PER_SEC,
            r.utc_offset == utc_offset,
    {
        let (secs, nanos) = chrono_utc_now();
        Timestamp { secs, nanos, utc_offset }
    }

    /// Whether this point comes before `other`.
    pub fn is_before(&self, other: &Timestamp) -> (r: bool)
        ensures
            r == self.before(*other),
    {
        self.secs < other.secs || (self.secs == other.secs && self.nanos < other.nanos)
    }

    /// The point one span earlier, or nothing where there is none in range.
    pub fn checked_sub(&self, span: &TimeSpan) -> (r: Option<Timestamp>)
        ensures
            r == (if span.valid() {
                self.moved(-span.total())
            } else {
                None
            }),
    {
        match chrono_checked_sub(self.secs, self.nanos, span.secs, span.nanos) {
            Some((secs, nanos)) => Some(Timestamp { secs, nanos, utc_offset: self.utc_offset }),
            None => None,
        }
    }

    /// The point one span later, or nothing where there is none in range.
    pub fn checked_add(&self, span: &TimeSpan) -> (r: Option<Timestamp>)
        ensures
            r == (if span.valid() {
                self.moved(span.total())
            } else {
                None
            }),
    {
        match chrono_checked_add(self.secs, self.nanos, span.secs, span.nanos) {
            Some((secs, nanos)) => Some(Timestamp { secs, nanos, utc_offset: self.utc_offset }),
            None => None,
        }
    }

    /// The span from `earlier` to this point, negative where `earlier` is the later of the two.
    pub fn since(&self, earlier: &Timestamp) -> (r: TimeSpan)
        requires
            self.valid(),
            earlier.valid(),
        ensures
            r.valid(),
            r.total() == elapsed(
                self.secs as int,
                self.nanos as int,
                earlier.secs as int,
                earlier.nanos as int,
            ),
    {
        let (secs, rest) = chrono_signed_duration_since(
            self.secs,
            self.nanos,
            earlier.secs,
            earlier.nanos,
        );
        if rest < 0 {
            TimeSpan { secs: secs - 1, nanos: (rest + 1_000_000_000) as u32 }
        } else {
            TimeSpan { secs, nanos: rest as u32 }
        }
    }

    /// The non-leap microseconds since 1970.
    pub fn timestamp_micros(&self) -> (r: i64)
        requires
            self.valid(),
        ensures
            r == self.secs * 1_000_000 + self.nanos as int / 1000,
    {
        self.secs * 1_000_000 + (self.nanos / 1000) as i64
    }
}

/// The local time, five hours west of Greenwich, at which the time service set the clock:
/// `duration_secs` is what it handed over, read as a count of seconds since 1970.
pub fn sntp_cb(duration_secs: u64) -> (r: String)
    requires
        MIN_SECS <= (duration_secs as i64) <= MAX_SECS,
    ensures
        r@ == local_time_text(duration_secs as i64 as int, SNTP_WEST_SECS as int),
{
    chrono_local_text(duration_secs as i64, SNTP_WEST_SECS)
}

/// Local time minus UTC, in seconds, for a clock that lies `hours` hours west of Greenwich.
/// Only whole hours short of a day, either way, name an offset.
pub open spec fn tz_offset(hours: Seq<char>) -> Option<int> {
    match crate::text::signed_value(hours) {
        Some(h) => if -24 < h < 24 {
            Some(-3600 * h)
        } else {
            None
        },
        None => None,
    }
}

/// The offset that `hours` names, or nothing where it names none.
pub fn parse_tz_offset(hours: &str) -> (r: Option<i32>)
    ensures
        match tz_offset(hours@) {
            Some(offset) => r == Some(offset as i32),
            None => r is None,
        },
{
    match parse_i32(hours) {
        Some(h) => if -24 < h && h < 24 {
            chrono_west_offset(3600 * h)
        } else {
            None
        },
        None => None,
    }
}

/// The offset that the configured number of hours names.
pub fn fixed_tz_offset(hours: &str) -> (r: i32)
    requires
        tz_offset(hours@) is Some,
    ensures
        tz_offset(hours@) == Some(r as int),
{
    parse_tz_offset(hours).unwrap()
}

/// Of two points one comes before the other, or they are the same; none comes before itself,
/// and what comes before an earlier one comes before a later one.
pub proof fn law_instants_are_ordered(a: Timestamp, b: Timestamp, c: Timestamp)
    ensures
        !a.before(a),
        a.before(b) || b.before(a) || a.same_instant(b),
        !(a.before(b) && b.before(a)),
        a.same_instant(b) ==> !a.before(b) && !b.before(a),
        a.before(b) && b.before(c) ==> a.before(c),
{
}

/// Outside leap seconds, a step forth and the same step back lead to where one came from, and
/// the span from the old point to the new one is the length of the step.
pub proof fn law_moved_round_trip(t: Timestamp, delta: int)
    requires
        t.nanos < NANOS_PER_SEC,
        t.moved(delta) is Some,
    ensures
        ({
            let u = t.moved(delta).unwrap();
            &&& u.valid()
            &&& u.nanos < NANOS_PER_SEC
            &&& u.moved(-delta) == Some(t)
            &&& elapsed(u.secs as int, u.nanos as int, t.secs as int, t.nanos as int) == delta
        }),
{
    let g = NANOS_PER_SEC as int;
    let x = t.nanos + delta;
    lemma_fundamental_div_mod(x, g);
    let u = t.moved(delta).unwrap();
    let back = u.nanos - delta;
    assert(back == -(x / g) * g + t.nanos);
    lemma_fundamental_div_mod_converse(back, g, -(x / g), t.nanos as int);
}

/// Outside leap seconds, a point that comes before another still does when both are moved
/// by the same span.
pub proof fn law_moved_keeps_order(a: Timestamp, b: Timestamp, delta: int)
    requires
        a.nanos < NANOS_PER_SEC,
        b.nanos < NANOS_PER_SEC,
        a.moved(delta) is Some,
        b.moved(delta) is Some,
    ensures
        a.moved(delta).unwrap().before(b.moved(delta).unwrap()) == a.before(b),
{
    law_moved_round_trip(a, delta);
    law_moved_round_trip(b, delta);
}

/// Counting a span onto a point, or off it, moves the point by as many nanoseconds and keeps
/// the offset at which it is shown, wherever that is. Nothing is given exactly where the point
/// or the span is none, or where the point that they lead to is none.
pub proof fn law_span_is_counted_exactly(
    t: Timestamp,
    span: TimeSpan,
    later: Option<Timestamp>,
    earlier: Option<Timestamp>,
)
    requires
        call_ensures(Timestamp::checked_add, (&t, &span), later),
        call_ensures(Timestamp::checked_sub, (&t, &span), earlier),
        t.nanos < 1_000_000_000,
        span.nanos < 1_000_000_000,
        -9_223_372_036_854_775 <= span.secs < 9_223_372_036_854_775,
    ensures
        ({
            let from = t.secs * 1_000_000_000 + t.nanos;
            let len = span.secs * 1_000_000_000 + span.nanos;
            let first = -8_334_601_228_800 * 1_000_000_000;
            let end = 8_210_266_876_800 * 1_000_000_000;
            &&& later is Some <==> first <= from < end && first <= from + len < end
            &&& earlier is Some <==> first <= from < end && first <= from - len < end
            &&& later matches Some(u) ==> {
                &&& u.secs * 1_000_000_000 + u.nanos == from + len
                &&& u.nanos < 1_000_000_000
                &&& u.utc_offset == t.utc_offset
            }
            &&& earlier matches Some(u) ==> {
                &&& u.secs * 1_000_000_000 + u.nanos == from - len
                &&& u.nanos < 1_000_000_000
                &&& u.utc_offset == t.utc_offset
            }
        }),
{
    let g = 1_000_000_000int;
    lemma_fundamental_div_mod(t.nanos + span.total(), g);
    lemma_fundamental_div_mod(t.nanos - span.total(), g);
}

/// A point inside a leap second stays on its second for as long as the leap second lasts. One
/// that is moved on past the end skips the second that the leap second took; one that is moved
/// back past the beginning does not. Nothing is given exactly where the point is none, or where
/// the point that it is moved to is none.
pub proof fn law_leap_second_stands_still(
    t: Timestamp,
    span: TimeSpan,
    later: Option<Timestamp>,
    earlier: Option<Timestamp>,
)
    requires
        call_ensures(Timestamp::checked_add, (&t, &span), later),
        call_ensures(Timestamp::checked_sub, (&t, &span), earlier),
        t.nanos >= 1_000_000_000,
        span.nanos < 1_000_000_000,
        -9_223_372_036_854_775 <= span.secs < 9_223_372_036_854_775,
    ensures
        ({
            let len = span.secs * 1_000_000_000 + span.nanos;
            let is_point = t.nanos < 2_000_000_000 && t.secs % 60 == 59 && -8_334_601_228_800
                <= t.secs <= 8_210_266_876_799;
            let first = -8_334_601_228_800 * 1_000_000_000;
            let end = 8_210_266_876_800 * 1_000_000_000;
            let reaches = |moved: Option<Timestamp>, nanos: int|
                ({
                    let to = t.secs * 1_000_000_000 + nanos - (if nanos >= 2_000_000_000 {
                        1_000_000_000int
                    } else {
                        0
                    });
                    let stays = 1_000_000_000 <= nanos < 2_000_000_000;
                    &&& moved is Some <==> is_point && (stays || first <= to < end)
                    &&& moved matches Some(u) ==> {
                        &&& u.utc_offset == t.utc_offset
                        &&& u.secs * 1_000_000_000 + u.nanos == to
                        &&& if stays {
                            u.secs == t.secs
                        } else {
                            u.nanos < 1_000_000_000
                        }
                    }
                });
            reaches(later, t.nanos + len) && reaches(earlier, t.nanos - len)
        }),
{
    let g = 1_000_000_000int;
    let x = t.nanos + span.total();
    let y = t.nanos - span.total();
    lemma_fundamental_div_mod(x, g);
    lemma_fundamental_div_mod(x - g, g);
    lemma_fundamental_div_mod(y, g);
    lemma_fundamental_div_mod(y - g, g);
}

/// The span between two points that lie in no leap second is the difference of their
/// nanoseconds since 1970. A leap second counts for a second more where the point with the
/// earlier time of day lies in it, and not where they lie in one second. Seen from the other end
/// the span is the same with the other sign.
pub proof fn law_span_between_points(a: Timestamp, b: Timestamp, r: TimeSpan, back: TimeSpan)
    requires
        a.valid(),
        b.valid(),
        call_ensures(Timestamp::since, (&a, &b), r),
        call_ensures(Timestamp::since, (&b, &a), back),
    ensures
        r.nanos < 1_000_000_000,
        ({
            let span = r.secs * 1_000_000_000 + r.nanos;
            let plain = (a.secs - b.secs) * 1_000_000_000 + a.nanos - b.nanos;
            &&& a.nanos < 1_000_000_000 && b.nanos < 1_000_000_000 ==> span == plain
            &&& a.secs == b.secs ==> span == plain
            &&& b.nanos >= 1_000_000_000 && a.secs % 86_400 > b.secs % 86_400 ==> span == plain
                + 1_000_000_000
            &&& b.nanos >= 1_000_000_000 && a.nanos < 1_000_000_000 && a.secs % 86_400 <= b.secs
                % 86_400 ==> span == plain
        }),
        (r.secs + back.secs) * 1_000_000_000 + r.nanos + back.nanos == 0,
        call_requires(Timestamp::since, (&a, &b)),
{
}

/// Every point of the calendar that lies in no leap second is one to count from, and only the
/// last second of a minute can run on into one.
pub proof fn law_points_of_the_calendar(t: Timestamp)
    ensures
        t.valid() <==> -8_334_601_228_800 <= t.secs <= 8_210_266_876_799 && (t.nanos
            < 1_000_000_000 || (t.nanos < 2_000_000_000 && t.secs % 60 == 59)),
{
}

/// One point comes before another when its second does, or in the same second when its
/// nanosecond does; two points are equal when both agree. Where they are shown has no part in
/// either.
pub proof fn law_points_compare_by_second_and_nanosecond(
    a: Timestamp,
    b: Timestamp,
    before: bool,
    same: bool,
)
    requires
        call_ensures(Timestamp::is_before, (&a, &b), before),
        call_ensures(Timestamp::eq, (&a, &b), same),
    ensures
        before <==> a.secs < b.secs || (a.secs == b.secs && a.nanos < b.nanos),
        same <==> a.secs == b.secs && a.nanos == b.nanos,
        a.nanos < 1_000_000_000 && b.nanos < 1_000_000_000 ==> (before <==> a.secs
            * 1_000_000_000 + a.nanos < b.secs * 1_000_000_000 + b.nanos),
{
}

/// A span of seconds or of milliseconds has as many nanoseconds, and of two spans the one with
/// fewer is the shorter.
pub proof fn law_spans_count_nanoseconds(
    secs: i64,
    s: TimeSpan,
    millis: i64,
    m: TimeSpan,
    shorter: bool,
)
    requires
        -9_223_372_036_854_775 <= secs <= 9_223_372_036_854_775,
        millis > -0x8000_0000_0000_0000,
        call_ensures(TimeSpan::seconds, (secs,), s),
        call_ensures(TimeSpan::milliseconds, (millis,), m),
        call_ensures(TimeSpan::less_than, (&s, &m), shorter),
    ensures
        s.secs * 1_000_000_000 + s.nanos == secs * 1_000_000_000,
        m.secs * 1_000_000_000 + m.nanos == millis * 1_000_000,
        s.nanos < 1_000_000_000,
        m.nanos < 1_000_000_000,
        shorter <==> secs * 1000 < millis,
        call_requires(TimeSpan::seconds, (secs,)),
        call_requires(TimeSpan::milliseconds, (millis,)),
        call_requires(TimeSpan::less_than, (&s, &m)),
{
}

/// A point has a million microseconds for each second and one for each thousand nanoseconds
/// that are over.
pub proof fn law_microseconds_of_a_point(t: Timestamp, r: i64)
    requires
        t.valid(),
        call_ensures(Timestamp::timestamp_micros, (&t,), r),
    ensures
        r * 1000 <= t.secs * 1_000_000_000 + t.nanos < r * 1000 + 1000,
        call_requires(Timestamp::timestamp_micros, (&t,)),
{
}

/// The clock shows a point of the calendar, not before 1970 and not inside a leap second, at
/// the offset that it was asked for.
pub proof fn law_clock_shows_a_point(utc_offset: i32, r: Timestamp)
    requires
        call_ensures(Timestamp::now, (utc_offset,), r),
    ensures
        0 <= r.secs <= 8_210_266_876_799,
        r.nanos < 1_000_000_000,
        r.utc_offset == utc_offset,
{
}

/// The text for the time service's report depends on the reported seconds alone, and shows them
/// on a clock eighteen thousand seconds west of Greenwich. A count from the upper half of the
/// range stands for one before 1970.
pub proof fn law_time_report_is_local(duration_secs: u64, r: String, secs: int)
    requires
        call_ensures(sntp_cb, (duration_secs,), r),
        secs == (if duration_secs < 0x8000_0000_0000_0000 {
            duration_secs as int
        } else {
            duration_secs - 0x1_0000_0000_0000_0000
        }),
        -8_334_601_228_800 <= secs <= 8_210_266_876_799,
    ensures
        r@ == local_time_text(secs, 18_000),
        call_requires(sntp_cb, (duration_secs,)),
{
    assert((duration_secs as i64) as int == (if duration_secs < 0x8000_0000_0000_0000 {
        duration_secs as int
    } else {
        duration_secs - 0x1_0000_0000_0000_0000
    })) by (bit_vector);
}

/// Which texts name an offset, and which: `digits` that read as a number of hours below
/// twenty-four, with a plus sign or without one, name as many hours west of Greenwich, with a
/// minus sign as many hours east. Any other number names none, and neither does a text that is
/// not a number.
pub proof fn law_offset_that_hours_name(
    hours: &str,
    r: Option<i32>,
    digits: Seq<char>,
    n: int,
)
    requires
        call_ensures(parse_tz_offset, (hours,), r),
        digits.len() > 0,
        forall|i: int| 0 <= i < digits.len() ==> '0' <= #[trigger] digits[i] <= '9',
        n == digits.fold_left(0int, |v: int, c: char| v * 10 + (c as int - 48)),
    ensures
        hours@ == digits || hours@ == seq!['+'] + digits ==> (if n < 24 {
            r matches Some(offset) && offset == -(n * 3600)
        } else {
            r is None
        }),
        hours@ == seq!['-'] + digits ==> (if n < 24 {
            r matches Some(offset) && offset == n * 3600
        } else {
            r is None
        }),
        r is Some ==> hours@.len() > 0 && '0' <= hours@[hours@.len() - 1] <= '9',
        r is Some ==> hours@[0] == '-' || hours@[0] == '+' || '0' <= hours@[0] <= '9',
        r is Some ==> forall|i: int| 0 < i < hours@.len() ==> '0' <= #[trigger] hours@[i] <= '9',
{
    lemma_digits_value_is_positional(digits);
    if hours@ == digits {
        assert(is_digit(hours@[0]));
    } else if hours@ == seq!['+'] + digits || hours@ == seq!['-'] + digits {
        assert(hours@.skip(1) =~= digits);
    }
    if r is Some {
        let signed = hours@.len() > 0 && (hours@[0] == '-' || hours@[0] == '+');
        let rest = if signed {
            hours@.skip(1)
        } else {
            hours@
        };
        assert(all_digits(rest) && rest.len() > 0);
        assert forall|i: int| 0 < i < hours@.len() implies '0' <= #[trigger] hours@[i] <= '9' by {
            if signed {
                assert(is_digit(rest[i - 1]));
            } else {
                assert(is_digit(rest[i]));
            }
        }
        assert(!signed ==> is_digit(rest[0]));
    }
}

/// The configured hours name the offset that parsing them gives.
pub proof fn law_fixed_offset_is_the_parsed_one(hours: &str, parsed: Option<i32>, r: i32)
    requires
        call_ensures(parse_tz_offset, (hours,), parsed),
        parsed is Some,
        call_ensures(fixed_tz_offset, (hours,), r),
    ensures
        parsed == Some(r),
        call_requires(fixed_tz_offset, (hours,)),
{
}

} // verus!
