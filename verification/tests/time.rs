use kasa_power::text::append_decimal;
use kasa_power::time::{
    fixed_tz_offset, parse_tz_offset, sntp_cb, TimeSpan, Timestamp, MAX_SECS, MIN_SECS,
};

fn at(secs: i64, nanos: u32) -> Timestamp {
    Timestamp { secs, nanos, utc_offset: -18_000 }
}

fn parts(t: Option<Timestamp>) -> Option<(i64, u32, i32)> {
    t.map(|t| (t.secs, t.nanos, t.utc_offset))
}

#[test]
fn subtracting_borrows_from_the_seconds() {
    let span = TimeSpan { secs: 20, nanos: 500_000_000 };
    assert_eq!(parts(at(100, 250_000_000).checked_sub(&span)), Some((79, 750_000_000, -18_000)));
    assert_eq!(parts(at(100, 750_000_000).checked_sub(&span)), Some((79 + 1, 250_000_000, -18_000)));
    assert_eq!(parts(at(5, 0).checked_sub(&TimeSpan::seconds(20))), Some((-15, 0, -18_000)));
}

#[test]
fn adding_carries_into_the_seconds() {
    let span = TimeSpan { secs: 15, nanos: 600_000_000 };
    assert_eq!(parts(at(100, 500_000_000).checked_add(&span)), Some((116, 100_000_000, -18_000)));
    assert_eq!(parts(at(10, 0).checked_add(&TimeSpan::milliseconds(-1))), Some((9, 999_000_000, -18_000)));
}

#[test]
fn first_and_last_second_are_the_ends_of_the_range() {
    let one = TimeSpan::seconds(1);
    let none = TimeSpan::seconds(0);
    assert_eq!(parts(at(MIN_SECS, 0).checked_sub(&none)), Some((MIN_SECS, 0, -18_000)));
    assert_eq!(parts(at(MIN_SECS + 1, 7).checked_sub(&one)), Some((MIN_SECS, 7, -18_000)));
    assert_eq!(parts(at(MIN_SECS, 0).checked_sub(&TimeSpan { secs: 0, nanos: 1 })), None);
    assert_eq!(parts(at(MIN_SECS - 1, 0).checked_sub(&none)), None);
    assert_eq!(parts(at(MAX_SECS, 0).checked_add(&none)), Some((MAX_SECS, 0, -18_000)));
    assert_eq!(
        parts(at(MAX_SECS, 0).checked_add(&TimeSpan { secs: 0, nanos: 999_999_999 })),
        Some((MAX_SECS, 999_999_999, -18_000))
    );
    assert_eq!(parts(at(MAX_SECS, 0).checked_add(&one)), None);
    assert_eq!(parts(at(MAX_SECS + 1, 0).checked_add(&none)), None);
    assert_eq!(parts(at(MAX_SECS, 0).checked_sub(&TimeSpan::seconds(i64::MAX / 1000))), None);
}

#[test]
fn invalid_parts_have_no_neighbours() {
    let one = TimeSpan::seconds(1);
    assert_eq!(parts(at(0, 1_000_000_000).checked_sub(&one)), None);
    assert_eq!(parts(at(59, 2_000_000_000).checked_add(&one)), None);
    assert_eq!(parts(at(0, 0).checked_add(&TimeSpan { secs: 0, nanos: 1_000_000_000 })), None);
    assert_eq!(parts(at(0, 0).checked_sub(&TimeSpan { secs: i64::MAX, nanos: 0 })), None);
}

#[test]
fn leap_seconds_are_left_and_entered() {
    let leap = at(59, 1_500_000_000);
    let half = TimeSpan { secs: 0, nanos: 500_000_000 };
    assert_eq!(parts(leap.checked_sub(&half)), Some((59, 1_000_000_000, -18_000)));
    assert_eq!(parts(leap.checked_sub(&TimeSpan::milliseconds(600))), Some((59, 900_000_000, -18_000)));
    assert_eq!(parts(leap.checked_sub(&TimeSpan::seconds(1))), Some((59, 500_000_000, -18_000)));
    assert_eq!(parts(leap.checked_sub(&TimeSpan::seconds(20))), Some((40, 500_000_000, -18_000)));
    assert_eq!(parts(leap.checked_add(&half)), Some((60, 0, -18_000)));
    assert_eq!(parts(leap.checked_add(&TimeSpan::milliseconds(400))), Some((59, 1_900_000_000, -18_000)));
    assert_eq!(parts(leap.checked_add(&TimeSpan::seconds(15))), Some((74, 500_000_000, -18_000)));
    assert_eq!(parts(at(-1, 1_200_000_000).checked_add(&half)), Some((-1, 1_700_000_000, -18_000)));
}

#[test]
fn spans_between_points() {
    assert_eq!(at(105, 0).since(&at(100, 500_000_000)), TimeSpan { secs: 4, nanos: 500_000_000 });
    assert_eq!(at(100, 500_000_000).since(&at(105, 0)), TimeSpan { secs: -5, nanos: 500_000_000 });
    assert_eq!(at(100, 0).since(&at(100, 0)), TimeSpan { secs: 0, nanos: 0 });
    assert_eq!(
        at(MAX_SECS, 999_999_999).since(&at(MIN_SECS, 0)),
        TimeSpan { secs: MAX_SECS - MIN_SECS, nanos: 999_999_999 }
    );
    assert_eq!(at(100, 0).since(&at(100, 1)), TimeSpan { secs: -1, nanos: 999_999_999 });
}

#[test]
fn spans_count_a_leap_second_once() {
    let leap = at(59, 1_500_000_000);
    assert_eq!(at(70, 0).since(&leap), TimeSpan { secs: 10, nanos: 500_000_000 });
    assert_eq!(leap.since(&at(70, 0)), TimeSpan { secs: -11, nanos: 500_000_000 });
    assert_eq!(leap.since(&at(50, 0)), TimeSpan { secs: 10, nanos: 500_000_000 });
    assert_eq!(leap.since(&at(59, 0)), TimeSpan { secs: 1, nanos: 500_000_000 });
    // A day later but earlier in the day, the leap second is not seen.
    assert_eq!(at(86_410, 0).since(&leap), TimeSpan { secs: 86_349, nanos: 500_000_000 });
}

#[test]
fn order_follows_seconds_and_nanoseconds_only() {
    assert!(at(1, 5).is_before(&at(2, 0)));
    assert!(at(1, 5).is_before(&at(1, 6)));
    assert!(!at(1, 5).is_before(&at(1, 5)));
    assert!(!at(2, 0).is_before(&at(1, 999_999_999)));
    let here = Timestamp { secs: 7, nanos: 8, utc_offset: 0 };
    let there = Timestamp { secs: 7, nanos: 8, utc_offset: 3600 };
    assert!(!here.is_before(&there) && !there.is_before(&here));
    assert!(here == there);
    assert!(here != at(7, 9));
}

#[test]
fn stepping_forth_and_back_ends_where_it_began() {
    let t = at(1_700_000_000, 123_456_789);
    for millis in [-86_400_000, -20_000, -1, 0, 1, 999, 15_000, 5_000_000_000] {
        let span = TimeSpan::milliseconds(millis);
        let u = t.checked_add(&span).unwrap();
        assert_eq!(parts(u.checked_sub(&span)), parts(Some(t)));
        assert_eq!(u.since(&t), span);
        let v = at(1_700_000_001, 0).checked_add(&span).unwrap();
        assert!(u.is_before(&v));
    }
}

#[test]
fn spans_from_seconds_and_milliseconds() {
    assert_eq!(TimeSpan::seconds(-3), TimeSpan { secs: -3, nanos: 0 });
    assert_eq!(TimeSpan::milliseconds(1500), TimeSpan { secs: 1, nanos: 500_000_000 });
    assert_eq!(TimeSpan::milliseconds(-1500), TimeSpan { secs: -2, nanos: 500_000_000 });
    assert_eq!(TimeSpan::milliseconds(-2000), TimeSpan { secs: -2, nanos: 0 });
    assert!(TimeSpan::milliseconds(-1).less_than(&TimeSpan::seconds(0)));
    assert!(!TimeSpan::seconds(1).less_than(&TimeSpan::milliseconds(1000)));
    assert!(TimeSpan::milliseconds(999).less_than(&TimeSpan::seconds(1)));
}

#[test]
fn micros_round_down() {
    assert_eq!(at(1, 444_000).timestamp_micros(), 1_000_444);
    assert_eq!(at(-1, 999_999_999).timestamp_micros(), -1);
    assert_eq!(at(1_000_000_000, 555_999).timestamp_micros(), 1_000_000_000_000_555);
}

#[test]
fn the_clock_has_moved_on_from_1970() {
    let now = Timestamp::now(-3600);
    assert!(now.secs > 1_600_000_000);
    assert!(now.nanos < 1_000_000_000);
    assert_eq!(now.utc_offset, -3600);
}

#[test]
fn hours_west_become_seconds_behind() {
    assert_eq!(fixed_tz_offset("5"), -18_000);
    assert_eq!(fixed_tz_offset("-2"), 7200);
    assert_eq!(fixed_tz_offset("+0"), 0);
    assert_eq!(parse_tz_offset("23"), Some(-82_800));
    assert_eq!(parse_tz_offset("-23"), Some(82_800));
    assert_eq!(parse_tz_offset("24"), None);
    assert_eq!(parse_tz_offset("-24"), None);
    assert_eq!(parse_tz_offset("99999999999"), None);
    for text in ["", "-", "+", "five", " 5", "5 ", "5.5", "0x5", "--5", "1_0", "\u{0665}"] {
        assert_eq!(parse_tz_offset(text), None, "{text:?}");
    }
    assert_eq!(parse_tz_offset("0005"), Some(-18_000));
}

#[test]
fn time_service_line_is_five_hours_west() {
    assert_eq!(sntp_cb(0), "1969-12-31 19:00:00 -05:00");
    assert_eq!(sntp_cb(1_431_648_000), "2015-05-14 19:00:00 -05:00");
    assert_eq!(sntp_cb(MAX_SECS as u64), "+262142-12-31 18:59:59 -05:00");
    assert_eq!(sntp_cb(u64::MAX), "1969-12-31 18:59:59 -05:00");
}

#[test]
fn decimal_text_has_no_leading_zeros() {
    let mut out = String::from("n=");
    append_decimal(&mut out, 0);
    out.push(' ');
    append_decimal(&mut out, 1_203_456_789);
    out.push(' ');
    append_decimal(&mut out, u64::MAX);
    assert_eq!(out, "n=0 1203456789 18446744073709551615");
}
