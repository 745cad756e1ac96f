use time_number::clock::{parse_selector, Selector, HELP_TEXT};
use time_number::{
    create_format_time, format_reading, read_clock, CivilTime, ClockReading, LocalTime,
};

const HELP: &str =
    "help:time,msec,micro,nano,unix,unix_micro,unix_msec,unix_nano,time_str,msec_str,micro_str,nano_str,dir";

fn reading() -> ClockReading {
    // 2009-02-13 23:31:30.012345678 UTC, shown eight hours ahead.
    ClockReading {
        unix_secs: 1_234_567_890,
        subsec_nanos: 12_345_678,
        local: LocalTime {
            civil: CivilTime::new(2009, 2, 14, 7, 31, 30, 12_345_678).unwrap(),
            offset_secs: 28_800,
        },
    }
}

#[test]
fn format_reading_writes_each_layout() {
    let r = reading();
    assert_eq!(format_reading(&r, "time"), "2009-02-14 07:31:30");
    assert_eq!(format_reading(&r, "msec"), "2009-02-14 07:31:30.012");
    assert_eq!(format_reading(&r, "micro"), "2009-02-14 07:31:30.012345");
    assert_eq!(format_reading(&r, "nano"), "2009-02-14 07:31:30.012345678");
    assert_eq!(format_reading(&r, "unix"), "1234567890");
    assert_eq!(format_reading(&r, "unix_micro"), "1234567890012345");
    assert_eq!(format_reading(&r, "unix_msec"), "1234567890012");
    assert_eq!(format_reading(&r, "unix_nano"), "1234567890012345678");
    assert_eq!(format_reading(&r, "time_str"), "20090214073130");
    assert_eq!(format_reading(&r, "msec_str"), "20090214073130012");
    assert_eq!(format_reading(&r, "micro_str"), "20090214073130012345");
    assert_eq!(format_reading(&r, "nano_str"), "20090214073130012345678");
    assert_eq!(format_reading(&r, "dir"), "20090214");
}

#[test]
fn format_reading_gives_help_for_any_other_word() {
    let r = reading();
    assert_eq!(format_reading(&r, "bogus"), HELP);
    assert_eq!(format_reading(&r, ""), HELP);
    assert_eq!(format_reading(&r, "TIME"), HELP);
    assert_eq!(format_reading(&r, "time "), HELP);
    assert_eq!(HELP_TEXT, HELP);
}

#[test]
fn format_reading_at_the_epoch() {
    let r = ClockReading {
        unix_secs: 0,
        subsec_nanos: 0,
        local: LocalTime {
            civil: CivilTime::new(1970, 1, 1, 0, 0, 0, 0).unwrap(),
            offset_secs: 0,
        },
    };
    assert_eq!(format_reading(&r, "unix"), "0");
    assert_eq!(format_reading(&r, "unix_nano"), "0");
    assert_eq!(format_reading(&r, "unix_msec"), "0");
    assert_eq!(format_reading(&r, "msec"), "1970-01-01 00:00:00.000");
    assert_eq!(format_reading(&r, "nano_str"), "19700101000000000000000");
}

#[test]
fn parse_selector_knows_thirteen_words() {
    assert_eq!(parse_selector("time"), Some(Selector::Time));
    assert_eq!(parse_selector("msec"), Some(Selector::Msec));
    assert_eq!(parse_selector("micro"), Some(Selector::Micro));
    assert_eq!(parse_selector("nano"), Some(Selector::Nano));
    assert_eq!(parse_selector("unix"), Some(Selector::Unix));
    assert_eq!(parse_selector("unix_micro"), Some(Selector::UnixMicro));
    assert_eq!(parse_selector("unix_msec"), Some(Selector::UnixMsec));
    assert_eq!(parse_selector("unix_nano"), Some(Selector::UnixNano));
    assert_eq!(parse_selector("time_str"), Some(Selector::TimeStr));
    assert_eq!(parse_selector("msec_str"), Some(Selector::MsecStr));
    assert_eq!(parse_selector("micro_str"), Some(Selector::MicroStr));
    assert_eq!(parse_selector("nano_str"), Some(Selector::NanoStr));
    assert_eq!(parse_selector("dir"), Some(Selector::Dir));
    assert_eq!(parse_selector("bogus"), None);
    assert_eq!(parse_selector(""), None);
}

#[test]
fn create_format_time_gives_help_for_an_unknown_word() {
    assert_eq!(create_format_time("bogus"), HELP);
    assert_eq!(create_format_time(""), HELP);
}

#[test]
fn help_text_names_every_selector() {
    let words = [
        "time",
        "msec",
        "micro",
        "nano",
        "unix",
        "unix_micro",
        "unix_msec",
        "unix_nano",
        "time_str",
        "msec_str",
        "micro_str",
        "nano_str",
        "dir",
    ];
    let help = create_format_time("bogus");
    let listed: Vec<&str> = help.strip_prefix("help:").unwrap().split(',').collect();
    assert_eq!(listed, words);
    for word in words {
        assert!(parse_selector(word).is_some());
        assert_ne!(create_format_time(word), help);
    }
}

fn has_shape(text: &str, shape: &str) -> bool {
    text.len() == shape.len()
        && text.chars().zip(shape.chars()).all(|(c, s)| {
            if s == 'd' {
                c.is_ascii_digit()
            } else {
                c == s
            }
        })
}

#[test]
fn create_format_time_has_the_shape_of_each_layout() {
    assert!(has_shape(&create_format_time("time"), "dddd-dd-dd dd:dd:dd"));
    assert!(has_shape(&create_format_time("msec"), "dddd-dd-dd dd:dd:dd.ddd"));
    assert!(has_shape(&create_format_time("micro"), "dddd-dd-dd dd:dd:dd.dddddd"));
    assert!(has_shape(&create_format_time("nano"), "dddd-dd-dd dd:dd:dd.ddddddddd"));
    assert!(has_shape(&create_format_time("time_str"), "dddddddddddddd"));
    assert!(has_shape(&create_format_time("msec_str"), "ddddddddddddddddd"));
    assert!(has_shape(&create_format_time("micro_str"), "dddddddddddddddddddd"));
    assert!(has_shape(&create_format_time("nano_str"), "ddddddddddddddddddddddd"));
    assert!(has_shape(&create_format_time("dir"), "dddddddd"));
    assert!(has_shape(&create_format_time("unix"), "dddddddddd"));
    assert!(has_shape(&create_format_time("unix_msec"), "ddddddddddddd"));
    assert!(has_shape(&create_format_time("unix_micro"), "dddddddddddddddd"));
    assert!(has_shape(&create_format_time("unix_nano"), "ddddddddddddddddddd"));
}

#[test]
fn create_format_time_follows_the_clock() {
    let before: u64 = read_clock().unwrap().unix_secs;
    let shown: u64 = create_format_time("unix").parse().unwrap();
    let after: u64 = read_clock().unwrap().unix_secs;
    assert!(before <= shown && shown <= after);
    let millis: u128 = create_format_time("unix_msec").parse().unwrap();
    assert!(millis / 1000 >= u128::from(before));
    let micros: u128 = create_format_time("unix_micro").parse().unwrap();
    assert!(micros / 1_000_000 >= u128::from(before));
    let nanos: u128 = create_format_time("unix_nano").parse().unwrap();
    assert!(nanos / 1_000_000_000 >= u128::from(before));
}

#[test]
fn read_clock_shows_one_moment_twice() {
    let r = read_clock().unwrap();
    assert!(r.subsec_nanos < 1_000_000_000);
    assert_eq!(r.local.civil.nano, r.subsec_nanos);
    let face = r.local.civil;
    let naive = chrono::NaiveDate::from_ymd_opt(face.year, face.month, face.day)
        .unwrap()
        .and_hms_opt(face.hour, face.minute, face.second)
        .unwrap();
    let shown: i64 = naive.and_utc().timestamp();
    assert_eq!(shown, r.unix_secs as i64 + i64::from(r.local.offset_secs));
    assert!(-86_400 < r.local.offset_secs && r.local.offset_secs < 86_400);
}

#[test]
fn reading_at_holds_the_moment_it_is_given() {
    let r = time_number::clock::reading_at(1_234_567_890, 12_345_678).unwrap();
    assert_eq!(r.unix_secs, 1_234_567_890);
    assert_eq!(r.subsec_nanos, 12_345_678);
    assert_eq!(r.local.civil.nano, 12_345_678);
    assert_eq!(format_reading(&r, "unix"), "1234567890");
    assert_eq!(format_reading(&r, "unix_nano"), "1234567890012345678");
    let shown = chrono::NaiveDate::from_ymd_opt(
        r.local.civil.year,
        r.local.civil.month,
        r.local.civil.day,
    )
    .unwrap()
    .and_hms_opt(r.local.civil.hour, r.local.civil.minute, r.local.civil.second)
    .unwrap();
    assert_eq!(shown.and_utc().timestamp(), 1_234_567_890 + i64::from(r.local.offset_secs));
    let first = time_number::clock::reading_at(0, 0).unwrap();
    assert_eq!((first.unix_secs, first.subsec_nanos), (0, 0));
}

#[test]
fn reading_at_reaches_as_far_as_the_calendar() {
    let limit: u64 = time_number::calendar::MAX_INSTANT as u64;
    assert!(time_number::clock::reading_at(limit, 999_999_999).is_some());
    assert!(time_number::clock::reading_at(limit + 1, 0).is_none());
    assert!(time_number::clock::reading_at(u64::MAX, 0).is_none());
    assert!(time_number::clock::reading_at(0, 1_000_000_000).is_none());
    assert!(time_number::clock::reading_at(0, u32::MAX).is_none());
}
