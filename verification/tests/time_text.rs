use middle_data::api::round::{create_round, now_round, RoundParam};
use middle_data::model::round::{round_row, Round};
use middle_data::text::{push_decimal, push_fixed, push_signed_decimal, to_lowercase, trim_start_char};
use middle_data::time::{compact_date_number, format_time, format_timestamp, DateTime};

fn dt(year: i32, month: u32, day: u32, hour: u32, minute: u32, second: u32, nanosecond: u32) -> DateTime {
    DateTime { year, month, day, hour, minute, second, nanosecond }
}

#[test]
fn format_time_reads_space_layout_with_seconds() {
    assert_eq!(format_time("2024-05-01 12:30:45"), dt(2024, 5, 1, 12, 30, 45, 0));
}

#[test]
fn format_time_reads_t_layout_with_seconds() {
    assert_eq!(format_time("2024-05-01T12:30:45"), dt(2024, 5, 1, 12, 30, 45, 0));
}

#[test]
fn format_time_reads_layouts_without_seconds() {
    assert_eq!(format_time("2024-05-01 12:30"), dt(2024, 5, 1, 12, 30, 0, 0));
    assert_eq!(format_time("2024-05-01T07:08"), dt(2024, 5, 1, 7, 8, 0, 0));
}

#[test]
fn format_time_falls_back_to_epoch() {
    assert_eq!(format_time("not a time"), dt(1970, 1, 1, 0, 0, 0, 0));
    assert_eq!(format_time("2024-02-30 10:00:00"), dt(1970, 1, 1, 0, 0, 0, 0));
    assert_eq!(format_time(""), DateTime::epoch());
}

#[test]
fn format_timestamp_writes_padded_fields() {
    assert_eq!(format_timestamp(&dt(2024, 5, 1, 3, 4, 5, 0)), "2024-05-01 03:04:05");
    assert_eq!(format_timestamp(&dt(5, 12, 31, 23, 59, 58, 999)), "0005-12-31 23:59:58");
}

#[test]
fn format_timestamp_signs_years_outside_four_digits() {
    assert_eq!(format_timestamp(&dt(-5, 1, 2, 0, 0, 0, 0)), "-0005-01-02 00:00:00");
    assert_eq!(format_timestamp(&dt(12345, 1, 2, 0, 0, 0, 0)), "+12345-01-02 00:00:00");
    assert_eq!(format_timestamp(&dt(-12345, 1, 2, 0, 0, 0, 0)), "-12345-01-02 00:00:00");
}

#[test]
fn format_timestamp_writes_leap_second_as_sixty() {
    assert_eq!(format_timestamp(&dt(2016, 12, 31, 23, 59, 59, 1_500_000_000)), "2016-12-31 23:59:60");
}

#[test]
fn format_timestamp_matches_chrono() {
    let t = chrono::NaiveDate::from_ymd_opt(1999, 7, 9).unwrap().and_hms_opt(1, 2, 3).unwrap();
    let expected = t.format("%Y-%m-%d %H:%M:%S").to_string();
    assert_eq!(format_timestamp(&dt(1999, 7, 9, 1, 2, 3, 0)), expected);
}

#[test]
fn compact_date_number_is_the_date_as_digits() {
    assert_eq!(compact_date_number(&dt(2024, 5, 1, 12, 0, 0, 0)), 20240501);
    assert_eq!(compact_date_number(&dt(5, 1, 2, 0, 0, 0, 0)), 50102);
    assert_eq!(compact_date_number(&dt(-1, 1, 1, 0, 0, 0, 0)), -10101);
    assert_eq!(compact_date_number(&dt(12345, 12, 31, 0, 0, 0, 0)), 123451231);
}

#[test]
fn round_row_numbers_round_by_date() {
    let row = round_row("2024-05-01 20:00:00");
    assert_eq!(row.id, 20240501);
    assert_eq!(row.time, dt(2024, 5, 1, 20, 0, 0, 0));
    let fallback = round_row("tomorrow");
    assert_eq!(fallback.id, 19700101);
}

#[test]
fn create_round_needs_a_time() {
    assert!(create_round(&RoundParam { time: None }).is_none());
    let row = create_round(&RoundParam { time: Some("2023-11-20T09:15".to_string()) }).unwrap();
    assert_eq!(row.id, 20231120);
    assert_eq!(row.time, dt(2023, 11, 20, 9, 15, 0, 0));
}

#[test]
fn now_round_defaults_to_blank_round() {
    let blank = now_round(None);
    assert_eq!(blank.id, 0);
    assert_eq!(blank.time, DateTime::epoch());
    let r = Round { id: 7, time: dt(2024, 1, 1, 0, 0, 0, 0), create_time: DateTime::epoch(), update_time: DateTime::epoch() };
    assert_eq!(now_round(Some(r)), r);
}

#[test]
fn decimal_writing() {
    let mut s = String::from("x");
    push_decimal(&mut s, 0);
    push_decimal(&mut s, 9011);
    assert_eq!(s, "x09011");
    let mut f = String::new();
    push_fixed(&mut f, 7, 2);
    push_fixed(&mut f, 12345, 4);
    push_fixed(&mut f, 3, 0);
    assert_eq!(f, "072345");
    let mut n = String::new();
    push_signed_decimal(&mut n, -42);
    push_signed_decimal(&mut n, i64::MIN);
    assert_eq!(n, format!("-42{}", i64::MIN));
}

#[test]
fn trim_and_lowercase_wrappers() {
    assert_eq!(trim_start_char("##abc#", '#'), "abc#");
    assert_eq!(trim_start_char("abc", '#'), "abc");
    assert_eq!(to_lowercase("OK"), "ok");
    assert_eq!(to_lowercase("ÖK"), "ök");
}
