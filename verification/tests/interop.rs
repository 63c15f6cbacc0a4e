//! Tests that exercise the library against the real chrono crate: the
//! conversion boundary, the range generator, and alignment on calendar
//! values.

use chrono::{Duration, TimeZone, Utc};
use utctimestamp::{TimeDelta, TimeRange, UtcTimeStamp};

fn ts(y: i32, mo: u32, d: u32, h: u32, mi: u32, s: u32) -> UtcTimeStamp {
    UtcTimeStamp::from_calendar_datetime(
        Utc.with_ymd_and_hms(y, mo, d, h, mi, s).unwrap().naive_utc(),
    )
}

fn collect_range(mut tr: TimeRange) -> Vec<UtcTimeStamp> {
    let mut got: Vec<UtcTimeStamp> = Vec::new();
    while let Some(t) = tr.next() {
        got.push(t);
    }
    got
}

#[test]
fn open_time_range() {
    let start = ts(2019, 4, 14, 0, 0, 0);
    let end = ts(2019, 4, 16, 0, 0, 0);
    let step = TimeDelta::from_calendar_duration(Duration::hours(12));
    let tr = collect_range(TimeRange::right_closed(start, end, step));
    assert_eq!(
        tr,
        vec![
            ts(2019, 4, 14, 0, 0, 0),
            ts(2019, 4, 14, 12, 0, 0),
            ts(2019, 4, 15, 0, 0, 0),
            ts(2019, 4, 15, 12, 0, 0),
            ts(2019, 4, 16, 0, 0, 0),
        ]
    );
}

#[test]
fn right_open_time_range() {
    let start = ts(2019, 4, 14, 0, 0, 0);
    let end = ts(2019, 4, 16, 0, 0, 0);
    let step = TimeDelta::from_calendar_duration(Duration::hours(12));
    let tr = collect_range(TimeRange::right_open(start, end, step));
    assert_eq!(
        tr,
        vec![
            ts(2019, 4, 14, 0, 0, 0),
            ts(2019, 4, 14, 12, 0, 0),
            ts(2019, 4, 15, 0, 0, 0),
            ts(2019, 4, 15, 12, 0, 0),
        ]
    );
}

#[test]
fn timestamp_and_delta_vs_chrono() {
    let c_dt = Utc.with_ymd_and_hms(2019, 3, 13, 16, 14, 9).unwrap();
    let c_td = Duration::milliseconds(123456);

    let my_dt = UtcTimeStamp::from_calendar_datetime(c_dt.naive_utc());
    let my_td = TimeDelta::from_milliseconds(123456);
    assert_eq!(TimeDelta::from_calendar_duration(c_td), my_td);

    let c_result = c_dt + c_td * 555;
    let my_result = my_dt.add(my_td.scale(555));
    assert_eq!(UtcTimeStamp::from_calendar_datetime(c_result.naive_utc()), my_result);
}

#[test]
fn align_to_anchored() {
    let t = ts(2020, 9, 28, 19, 32, 51);

    assert_eq!(
        t.align_to_anchored(ts(2020, 9, 28, 0, 0, 0), TimeDelta::from_seconds(60 * 5)),
        ts(2020, 9, 28, 19, 30, 0),
    );

    assert_eq!(
        t.align_to_anchored(
            // the anchor's hour is irrelevant to the five-minute grid
            ts(2020, 9, 28, 9, 1, 3),
            TimeDelta::from_seconds(60 * 5),
        ),
        ts(2020, 9, 28, 19, 31, 3),
    );
}

#[test]
fn align_to_anchored_eq() {
    let anchor = ts(2020, 1, 1, 0, 0, 0);
    let freq = TimeDelta::from_seconds(5 * 60);

    let ts1 = ts(2020, 1, 1, 12, 1, 11);
    let ts2 = ts(2020, 1, 1, 12, 4, 11);
    assert_eq!(ts1.align_to_anchored(anchor, freq), ts2.align_to_anchored(anchor, freq));
}

#[test]
fn calendar_round_trip() {
    // A datetime with millisecond-aligned sub-second part survives the trip
    // through the timestamp and back unchanged.
    let dt = chrono::DateTime::from_timestamp_millis(947_638_923_004)
        .unwrap()
        .naive_utc();
    let t = UtcTimeStamp::from_calendar_datetime(dt);
    assert_eq!(t.as_milliseconds(), 947_638_923_004);
    assert_eq!(t.to_calendar_datetime(), Some(dt));
}

#[test]
fn calendar_round_trip_before_epoch() {
    let t = UtcTimeStamp::from_milliseconds(-1);
    let dt = t.to_calendar_datetime().unwrap();
    assert_eq!(UtcTimeStamp::from_calendar_datetime(dt), t);

    let t2 = UtcTimeStamp::from_seconds(-86_400);
    let dt2 = t2.to_calendar_datetime().unwrap();
    assert_eq!(dt2, Utc.with_ymd_and_hms(1969, 12, 31, 0, 0, 0).unwrap().naive_utc());
    assert_eq!(UtcTimeStamp::from_calendar_datetime(dt2), t2);
}

#[test]
fn calendar_range_limits() {
    // Within chrono's calendar range a datetime comes back; far outside it
    // (here, around 292 million years away) nothing can be represented.
    assert!(UtcTimeStamp::zero().to_calendar_datetime().is_some());
    assert!(UtcTimeStamp::from_milliseconds(i64::MAX).to_calendar_datetime().is_none());
    assert!(UtcTimeStamp::from_milliseconds(i64::MIN).to_calendar_datetime().is_none());
    assert!(UtcTimeStamp::from_milliseconds(i64::MIN).to_display_string().is_none());
}

#[test]
fn calendar_parts_split() {
    assert_eq!(UtcTimeStamp::from_milliseconds(1234).to_calendar_parts(), (1, 234_000_000));
    assert_eq!(UtcTimeStamp::from_milliseconds(0).to_calendar_parts(), (0, 0));
    // Before the epoch the seconds round toward minus infinity and the
    // nanoseconds stay nonnegative.
    assert_eq!(UtcTimeStamp::from_milliseconds(-1).to_calendar_parts(), (-1, 999_000_000));
    assert_eq!(UtcTimeStamp::from_milliseconds(-1234).to_calendar_parts(), (-2, 766_000_000));
}

#[test]
fn timestamp_display() {
    // The documented chrono rendering of these instants.
    assert_eq!(
        UtcTimeStamp::from_seconds(1_431_648_000).to_display_string(),
        Some("2015-05-15 00:00:00 UTC".to_string()),
    );
    assert_eq!(
        UtcTimeStamp::from_milliseconds(947_638_923_004).to_display_string(),
        Some("2000-01-12 01:02:03.004 UTC".to_string()),
    );
    // Far outside chrono's calendar range nothing can be rendered.
    assert_eq!(UtcTimeStamp::from_milliseconds(i64::MAX).to_display_string(), None);
}

#[test]
fn delta_display() {
    assert_eq!(TimeDelta::from_hours(12).to_display_string(), Some("PT43200S".to_string()));
    assert_eq!(TimeDelta::from_seconds(-5).to_display_string(), Some("-PT5S".to_string()));
    assert_eq!(TimeDelta::zero().to_display_string(), Some("P0D".to_string()));
    assert_eq!(TimeDelta::from_milliseconds(123).to_display_string(), Some("PT0.123S".to_string()));
    assert_eq!(TimeDelta::from_milliseconds(i64::MIN).to_display_string(), None);
}

#[test]
fn delta_calendar_conversion() {
    let d = TimeDelta::from_minutes(90);
    let c = d.to_calendar_duration().unwrap();
    assert_eq!(c, Duration::minutes(90));
    assert_eq!(TimeDelta::from_calendar_duration(c), d);
    // chrono's delta range is symmetric, so the one unrepresentable count
    // is i64::MIN milliseconds.
    assert!(TimeDelta::from_milliseconds(i64::MIN).to_calendar_duration().is_none());
    assert!(TimeDelta::from_milliseconds(i64::MIN + 1).to_calendar_duration().is_some());
}

#[test]
fn now_is_after_epoch() {
    let t = UtcTimeStamp::now();
    assert!(t.as_milliseconds() > 0);
    assert!(!t.is_zero());
}
