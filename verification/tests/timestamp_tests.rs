use photomap::timestamp::{
    describe_capture_time, format_timestamp, parse_datetime, CaptureTimestamp,
};

fn stamp(year: i32, month: u32, day: u32, hour: u32, minute: u32, second: u32) -> CaptureTimestamp {
    CaptureTimestamp { year, month, day, hour, minute, second, nanosecond: 0 }
}

/// What the date-time library writes for the same time.
fn reference_text(t: &CaptureTimestamp) -> String {
    chrono::NaiveDate::from_ymd_opt(t.year, t.month, t.day)
        .unwrap()
        .and_hms_nano_opt(t.hour, t.minute, t.second, t.nanosecond)
        .unwrap()
        .format("%Y-%m-%d %H:%M:%S")
        .to_string()
}

#[test]
fn time_is_written_with_two_digits_for_each_part() {
    assert_eq!(format_timestamp(&stamp(2016, 5, 4, 3, 2, 1)), "2016-05-04 03:02:01");
    assert_eq!(format_timestamp(&stamp(1999, 12, 31, 23, 59, 59)), "1999-12-31 23:59:59");
    assert_eq!(format_timestamp(&stamp(2000, 1, 1, 0, 0, 0)), "2000-01-01 00:00:00");
}

#[test]
fn year_takes_four_digits_or_a_sign() {
    assert_eq!(format_timestamp(&stamp(0, 1, 1, 0, 0, 0)), "0000-01-01 00:00:00");
    assert_eq!(format_timestamp(&stamp(7, 1, 1, 0, 0, 0)), "0007-01-01 00:00:00");
    assert_eq!(format_timestamp(&stamp(987, 1, 1, 0, 0, 0)), "0987-01-01 00:00:00");
    assert_eq!(format_timestamp(&stamp(9999, 1, 1, 0, 0, 0)), "9999-01-01 00:00:00");
    assert_eq!(format_timestamp(&stamp(10000, 1, 1, 0, 0, 0)), "+10000-01-01 00:00:00");
    assert_eq!(format_timestamp(&stamp(-1, 1, 1, 0, 0, 0)), "-0001-01-01 00:00:00");
    assert_eq!(format_timestamp(&stamp(-12345, 1, 1, 0, 0, 0)), "-12345-01-01 00:00:00");
    assert_eq!(format_timestamp(&stamp(i32::MAX, 1, 1, 0, 0, 0)), "+2147483647-01-01 00:00:00");
    assert_eq!(format_timestamp(&stamp(i32::MIN, 1, 1, 0, 0, 0)), "-2147483648-01-01 00:00:00");
}

#[test]
fn time_is_written_as_the_date_time_library_writes_it() {
    for t in [
        stamp(2016, 5, 4, 3, 2, 1),
        stamp(1, 2, 3, 4, 5, 6),
        stamp(0, 12, 31, 23, 59, 59),
        stamp(9999, 12, 31, 23, 59, 59),
        stamp(10000, 1, 1, 0, 0, 0),
        stamp(-1, 6, 15, 12, 30, 45),
        stamp(-9999, 6, 15, 12, 30, 45),
        stamp(-10000, 6, 15, 12, 30, 45),
        stamp(262142, 12, 31, 23, 59, 59),
        stamp(-262143, 1, 1, 0, 0, 0),
        CaptureTimestamp { nanosecond: 1_000_000_000, ..stamp(2016, 12, 31, 23, 59, 59) },
        CaptureTimestamp { nanosecond: 999_999_999, ..stamp(2016, 12, 31, 23, 59, 58) },
    ] {
        assert_eq!(format_timestamp(&t), reference_text(&t));
    }
}

#[test]
fn leap_second_shows_as_sixty() {
    let leap = parse_datetime(&b"2016:12:31 23:59:60".to_vec()).unwrap();
    assert_eq!(format_timestamp(&leap), "2016-12-31 23:59:60");
}

#[test]
fn parsed_time_is_written_back() {
    let parsed = parse_datetime(&b"2021:07:08 09:10:11".to_vec());
    assert_eq!(describe_capture_time(&parsed), "2021-07-08 09:10:11");
    assert_eq!(describe_capture_time(&None), "Unknown Date");
    assert_eq!(describe_capture_time(&parse_datetime(&b"2021:07:08".to_vec())), "Unknown Date");
}
