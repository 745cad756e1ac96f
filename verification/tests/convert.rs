use chrono::{Datelike, TimeZone, Timelike};
use time_number::convert::{
    component_from, compact_string, dashed_string, decode_parsed, encode_layout, encode_parsed,
    midnight_of, time_id_of, unix_number_of, unix_time_on,
};
use time_number::{
    create_time_id, data_sign_decode, data_sign_encode, get_time_str, time_standard, unix_number,
    unix_time, CivilTime, LocalTime,
};

fn civil(year: i32, month: u32, day: u32, hour: u32, minute: u32, second: u32) -> CivilTime {
    CivilTime::new(year, month, day, hour, minute, second, 0).unwrap()
}

fn four(a: &str, b: &str, c: &str, d: &str) -> (String, String, String, String) {
    (a.to_string(), b.to_string(), c.to_string(), d.to_string())
}

#[test]
fn create_time_id_gives_four_marks() {
    assert_eq!(
        create_time_id("2024-01-02 03:04:05"),
        four("20240102030405", "20240102", "0203", "0304")
    );
    assert_eq!(
        create_time_id("1999-12-31 23:59:59"),
        four("19991231235959", "19991231", "3123", "2359")
    );
}

#[test]
fn create_time_id_is_empty_for_what_is_no_time() {
    assert_eq!(create_time_id(""), four("", "", "", ""));
    assert_eq!(create_time_id("not a time"), four("", "", "", ""));
    assert_eq!(create_time_id("2024-02-30 00:00:00"), four("", "", "", ""));
    assert_eq!(create_time_id("2023-02-29 00:00:00"), four("", "", "", ""));
    assert_eq!(create_time_id("2024-01-02 24:00:00"), four("", "", "", ""));
    assert_eq!(create_time_id("2024-01-02 03:04:05 "), four("", "", "", ""));
    assert_eq!(create_time_id("2024/01/02 03:04:05"), four("", "", "", ""));
}

#[test]
fn a_date_alone_is_no_time() {
    assert_eq!(create_time_id("2006-01-02"), four("", "", "", ""));
    assert_eq!(unix_number("2006-01-02"), "");
    assert_eq!(unix_number("2006/01/02"), "");
    assert_eq!(data_sign_decode("2006-01-02"), "");
    assert_eq!(get_time_str("2006-01-02", "y"), "2006-01-02");
}

#[test]
fn create_time_id_reads_the_edges_of_the_calendar() {
    assert_eq!(create_time_id("0000-02-29 00:00:00").0, "00000229000000");
    assert_eq!(create_time_id("9999-12-31 23:59:59").0, "99991231235959");
    assert_eq!(create_time_id("2000-02-29 12:00:00").0, "20000229120000");
    assert_eq!(create_time_id("1900-02-29 12:00:00").0, "");
}

#[test]
fn create_time_id_reads_short_fields_and_signed_years() {
    assert_eq!(
        create_time_id("2024-1-2 3:4:5"),
        four("20240102030405", "20240102", "0203", "0304")
    );
    assert_eq!(create_time_id("+12345-01-02 03:04:05").0, "+123450102030405");
    assert_eq!(create_time_id("-0001-01-02 03:04:05").0, "-00010102030405");
}

#[test]
fn create_time_id_shows_a_leap_second_as_sixty() {
    assert_eq!(create_time_id("2016-12-31 23:59:60").0, "20161231235960");
}

#[test]
fn time_id_of_takes_the_time_as_it_is() {
    assert_eq!(
        time_id_of(Some(civil(2024, 1, 2, 3, 4, 5))),
        four("20240102030405", "20240102", "0203", "0304")
    );
    assert_eq!(time_id_of(None), four("", "", "", ""));
}

#[test]
fn dashed_and_compact_strings() {
    let t = civil(2006, 1, 2, 15, 4, 5);
    assert_eq!(dashed_string(&t), "2006-01-02 15:04:05");
    assert_eq!(compact_string(&t), "20060102150405");
    let early = civil(7, 3, 9, 0, 0, 0);
    assert_eq!(dashed_string(&early), "0007-03-09 00:00:00");
    let late = civil(10000, 1, 1, 0, 0, 0);
    assert_eq!(dashed_string(&late), "+10000-01-01 00:00:00");
    let before = civil(-1, 12, 31, 23, 59, 59);
    assert_eq!(compact_string(&before), "-00011231235959");
    let leap = CivilTime::new(2016, 12, 31, 23, 59, 59, 1_000_000_000).unwrap();
    assert_eq!(dashed_string(&leap), "2016-12-31 23:59:60");
}

#[test]
fn dashed_string_at_the_ends_of_the_calendar() {
    let first = civil(-262_143, 1, 1, 0, 0, 0);
    assert_eq!(dashed_string(&first), "-262143-01-01 00:00:00");
    let last = civil(262_142, 12, 31, 23, 59, 59);
    assert_eq!(dashed_string(&last), "+262142-12-31 23:59:59");
    assert_eq!(compact_string(&civil(-12_345, 6, 7, 8, 9, 10)), "-123450607080910");
    assert_eq!(compact_string(&civil(999, 6, 7, 8, 9, 10)), "09990607080910");
    assert_eq!(compact_string(&civil(0, 6, 7, 8, 9, 10)), "00000607080910");
}

#[test]
fn exact_stamps_read_as_the_fields_they_spell() {
    let years: [i32; 7] = [0, 1, 999, 1900, 2000, 2024, 9999];
    for year in years {
        for month in 1..=12u32 {
            let last: u32 = time_number::calendar::month_length(year, month);
            for day in [1u32, 9, 10, last] {
                for (hour, minute, second) in [(0u32, 0u32, 0u32), (9, 9, 9), (23, 59, 59)] {
                    let dashed = format!(
                        "{:04}-{:02}-{:02} {:02}:{:02}:{:02}",
                        year, month, day, hour, minute, second
                    );
                    let compact = format!(
                        "{:04}{:02}{:02}{:02}{:02}{:02}",
                        year, month, day, hour, minute, second
                    );
                    let marks = create_time_id(&dashed);
                    assert_eq!(marks.0, compact);
                    assert_eq!(marks.1, &compact[..8]);
                    assert_eq!(marks.2, &compact[6..10]);
                    assert_eq!(marks.3, &compact[8..12]);
                    assert_eq!(data_sign_decode(&compact), dashed);
                    assert_eq!(data_sign_encode(&dashed), compact);
                    let t = civil(year, month, day, hour, minute, second);
                    assert_eq!(dashed_string(&t), dashed);
                    assert_eq!(compact_string(&t), compact);
                }
            }
        }
    }
}

#[test]
fn data_sign_decode_turns_compact_into_dashed() {
    assert_eq!(data_sign_decode("20060102150405"), "2006-01-02 15:04:05");
    assert_eq!(data_sign_decode("00000101000000"), "0000-01-01 00:00:00");
    assert_eq!(data_sign_decode("99991231235959"), "9999-12-31 23:59:59");
}

#[test]
fn data_sign_decode_is_empty_for_what_is_no_stamp() {
    assert_eq!(data_sign_decode(""), "");
    assert_eq!(data_sign_decode("2006"), "");
    assert_eq!(data_sign_decode("20061302150405"), "");
    assert_eq!(data_sign_decode("20060102150405x"), "");
    assert_eq!(data_sign_decode("2006-01-02 15:04:05"), "");
}

#[test]
fn decode_parsed_and_encode_parsed() {
    let t = civil(2006, 1, 2, 15, 4, 5);
    assert_eq!(decode_parsed(Some(t)), "2006-01-02 15:04:05");
    assert_eq!(decode_parsed(None), "");
    assert_eq!(encode_parsed(Some(t)), "20060102150405");
    assert_eq!(encode_parsed(None), "");
}

#[test]
fn data_sign_encode_reads_each_layout() {
    assert_eq!(data_sign_encode("2006-01-02 15:04:05"), "20060102150405");
    assert_eq!(data_sign_encode("2006/01/02 15:04:05"), "20060102150405");
    assert_eq!(data_sign_encode("2006.01.02 15:04:05"), "20060102150405");
    assert_eq!(data_sign_encode("20060102 15:04:05"), "20060102150405");
    assert_eq!(data_sign_encode("2006-01-02T15:04:05"), "20060102150405");
    assert_eq!(data_sign_encode("2006-01-02T15:04:05.123Z"), "20060102150405");
    assert_eq!(data_sign_encode("2006-01-02T15:04:05Z"), "20060102150405");
    assert_eq!(data_sign_encode("Mon, 02 Jan 2006 15:04:05 GMT"), "20060102150405");
    assert_eq!(data_sign_encode("02 Jan 06 15:04 GMT"), "20060102150400");
}

#[test]
fn data_sign_encode_reads_a_date_alone_as_its_midnight() {
    assert_eq!(data_sign_encode("2006-01-02"), "20060102000000");
    assert_eq!(data_sign_encode("0000-02-29"), "00000229000000");
    assert_eq!(data_sign_encode("9999-12-31"), "99991231000000");
    assert_eq!(data_sign_encode("2006-1-2"), "20060102000000");
    for year in [0i32, 1, 1900, 2000, 2024, 9999] {
        for month in 1..=12u32 {
            let last: u32 = time_number::calendar::month_length(year, month);
            for day in [1u32, 10, last] {
                let date = format!("{:04}-{:02}-{:02}", year, month, day);
                let stamp = format!("{:04}{:02}{:02}000000", year, month, day);
                assert_eq!(data_sign_encode(&date), stamp);
            }
        }
    }
}

#[test]
fn midnight_of_is_the_start_of_the_day() {
    assert_eq!(midnight_of(Some((2006, 1, 2))), Some(civil(2006, 1, 2, 0, 0, 0)));
    assert_eq!(midnight_of(None), None);
}

#[test]
fn data_sign_encode_is_empty_where_no_layout_reads() {
    assert_eq!(data_sign_encode(""), "");
    assert_eq!(data_sign_encode("yesterday"), "");
    assert_eq!(data_sign_encode("2006-02-30"), "");
    assert_eq!(data_sign_encode("2006-01-02 "), "");
    assert_eq!(data_sign_encode("2006-01-02 15"), "");
    assert_eq!(data_sign_encode("2006-13-02 15:04:05"), "");
    assert_eq!(data_sign_encode("Tue, 02 Jan 2006 15:04:05 GMT"), "");
}

#[test]
fn encode_layouts_come_in_their_order() {
    assert_eq!(encode_layout(0), "%Y-%m-%d %H:%M:%S");
    assert_eq!(encode_layout(1), "%Y/%m/%d %H:%M:%S");
    assert_eq!(encode_layout(2), "%Y.%m.%d %H:%M:%S");
    assert_eq!(encode_layout(3), "%Y%m%d %H:%M:%S");
    assert_eq!(encode_layout(4), "%Y-%m-%dT%H:%M:%S");
    assert_eq!(encode_layout(5), "%Y-%m-%dT%H:%M:%S%.fZ");
    assert_eq!(encode_layout(6), "%Y-%m-%d");
    assert_eq!(encode_layout(7), "%a, %d %b %Y %H:%M:%S GMT");
    assert_eq!(encode_layout(8), "%d %b %y %H:%M GMT");
}

#[test]
fn encode_restores_what_decode_was_given() {
    let stamps = [
        "20060102150405",
        "00000101000000",
        "99991231235959",
        "20000229000000",
        "19700101000000",
        "20240630235959",
    ];
    for x in stamps {
        assert_eq!(data_sign_encode(&data_sign_decode(x)), x);
    }
}

#[test]
fn get_time_str_cuts_each_part() {
    let s = "2024-01-02 03:04:05";
    assert_eq!(get_time_str(s, "y"), "2024");
    assert_eq!(get_time_str(s, "m"), "01");
    assert_eq!(get_time_str(s, "d"), "02");
    assert_eq!(get_time_str(s, "h"), "03");
    assert_eq!(get_time_str(s, "i"), "04");
    assert_eq!(get_time_str(s, "s"), "05");
}

#[test]
fn get_time_str_takes_either_case() {
    let s = "2024-11-12 13:14:15";
    assert_eq!(get_time_str(s, "Y"), "2024");
    assert_eq!(get_time_str(s, "M"), "11");
    assert_eq!(get_time_str(s, "D"), "12");
    assert_eq!(get_time_str(s, "H"), "13");
    assert_eq!(get_time_str(s, "I"), "14");
    assert_eq!(get_time_str(s, "S"), "15");
}

#[test]
fn get_time_str_parts_rebuild_the_digits() {
    let stamps = ["2024-01-02 03:04:05", "0000-02-29 00:00:00", "9999-12-31 23:59:59"];
    for s in stamps {
        let mut joined = String::new();
        for word in ["y", "m", "d", "h", "i", "s"] {
            joined.push_str(&get_time_str(s, word));
        }
        let digits: String = s.chars().filter(|c| c.is_ascii_digit()).collect();
        assert_eq!(joined, digits);
    }
}

#[test]
fn get_time_str_reads_slashes_as_dashes() {
    assert_eq!(get_time_str("2024/01/02 03:04:05", "y"), "2024");
    assert_eq!(get_time_str("2024/01/02 03:04:05", "d"), "02");
}

#[test]
fn get_time_str_gives_back_an_input_of_another_length() {
    assert_eq!(get_time_str("2024-01-02", "y"), "2024-01-02");
    assert_eq!(get_time_str("2024/01/02", "y"), "2024/01/02");
    assert_eq!(get_time_str("", "y"), "");
    assert_eq!(get_time_str("2024-01-02 03:04:05.000", "y"), "2024-01-02 03:04:05.000");
}

#[test]
fn get_time_str_gives_back_what_it_cannot_cut() {
    assert_eq!(get_time_str("2024-01-02 03:04:05", "x"), "2024-01-02 03:04:05");
    assert_eq!(get_time_str("2024-01-02 03:04:05", ""), "2024-01-02 03:04:05");
    assert_eq!(get_time_str("2024-01-02 03:04:05", "yy"), "2024-01-02 03:04:05");
    assert_eq!(get_time_str("2024/01/02 03:04:05", "x"), "2024-01-02 03:04:05");
    assert_eq!(get_time_str("2024/13/02 03:04:05", "y"), "2024-13-02 03:04:05");
    assert_eq!(get_time_str("abcdefghijklmnopqrs", "y"), "abcdefghijklmnopqrs");
}

#[test]
fn component_from_needs_a_stamp_of_fourteen() {
    let t = civil(2024, 1, 2, 3, 4, 5);
    assert_eq!(component_from("v", "y", Some(t)), "2024");
    assert_eq!(component_from("v", "s", Some(t)), "05");
    assert_eq!(component_from("v", "q", Some(t)), "v");
    assert_eq!(component_from("v", "y", None), "v");
    let late = civil(10000, 1, 2, 3, 4, 5);
    assert_eq!(component_from("v", "y", Some(late)), "v");
}

#[test]
fn unix_number_counts_from_a_face_eight_hours_ahead() {
    assert_eq!(unix_number("1970-01-01 08:00:00"), "0");
    assert_eq!(unix_number("1970-01-01 00:00:00"), "-28800");
    assert_eq!(unix_number("2001-09-09 09:46:40"), "1000000000");
    assert_eq!(unix_number("2009-02-14 07:31:30"), "1234567890");
    assert_eq!(unix_number("2024-01-02 03:04:05"), "1704135845");
}

#[test]
fn unix_number_reads_slashes_as_dashes() {
    assert_eq!(unix_number("2009/02/14 07:31:30"), "1234567890");
}

#[test]
fn unix_number_is_empty_for_what_is_no_time() {
    assert_eq!(unix_number(""), "");
    assert_eq!(unix_number("2009-02-14"), "");
    assert_eq!(unix_number("2009-02-30 07:31:30"), "");
    assert_eq!(unix_number("1234567890"), "");
}

#[test]
fn unix_number_of_agrees_with_the_calendar() {
    let years: [i32; 12] = [-262143, -4000, -1, 0, 1, 1600, 1900, 1969, 1970, 2000, 9999, 262142];
    for year in years {
        for month in 1..=12u32 {
            for day in [1u32, 15, 28] {
                let t = civil(year, month, day, 13, 14, 15);
                let naive = chrono::NaiveDate::from_ymd_opt(year, month, day)
                    .unwrap()
                    .and_hms_opt(13, 14, 15)
                    .unwrap();
                let expected: i64 = naive.and_utc().timestamp() - 28_800;
                assert_eq!(unix_number_of(Some(t)), expected.to_string());
            }
        }
    }
    assert_eq!(unix_number_of(None), "");
}

#[test]
fn unix_time_gives_back_what_is_not_ten_characters() {
    assert_eq!(unix_time("abc"), "abc");
    assert_eq!(unix_time(""), "");
    assert_eq!(unix_time("123456789"), "123456789");
    assert_eq!(unix_time("12345678901"), "12345678901");
}

#[test]
fn unix_time_gives_back_what_is_no_integer() {
    assert_eq!(unix_time("12345678ab"), "12345678ab");
    assert_eq!(unix_time("1234 56789"), "1234 56789");
    assert_eq!(unix_time("12345.6789"), "12345.6789");
    assert_eq!(unix_time("----------"), "----------");
}

fn local_text(secs: i64) -> String {
    chrono::Local.timestamp_opt(secs, 0).unwrap().format("%Y-%m-%d %H:%M:%S").to_string()
}

#[test]
fn unix_time_writes_the_local_time() {
    assert_eq!(unix_time("1234567890"), local_text(1_234_567_890));
    assert_eq!(unix_time("1000000000"), local_text(1_000_000_000));
    assert_eq!(unix_time("9999999999"), local_text(9_999_999_999));
    assert_eq!(unix_time("0000000000"), local_text(0));
    assert_eq!(unix_time("-123456789"), local_text(-123_456_789));
    assert_eq!(unix_time("+123456789"), local_text(123_456_789));
}

fn face_at(secs: i64, offset_secs: i32) -> LocalTime {
    let zone = chrono::FixedOffset::east_opt(offset_secs).unwrap();
    let shown = zone.timestamp_opt(secs, 0).unwrap().naive_local();
    LocalTime {
        civil: civil(
            shown.year(),
            shown.month(),
            shown.day(),
            shown.hour(),
            shown.minute(),
            shown.second(),
        ),
        offset_secs,
    }
}

#[test]
fn unix_time_on_writes_the_face_it_is_given() {
    let face = face_at(1_234_567_890, 0);
    assert_eq!(unix_time_on("1234567890", &face), "2009-02-13 23:31:30");
    assert_eq!(unix_time_on("abc", &face), "abc");
    assert_eq!(unix_time_on("12345678ab", &face), "12345678ab");
}

#[test]
fn unix_time_restores_what_unix_number_was_given() {
    let stamps = ["2009-02-14 07:31:30", "2001-09-09 09:46:40", "2024-02-29 00:00:00"];
    for s in stamps {
        let unix = unix_number(s);
        assert_eq!(unix.len(), 10);
        let secs: i64 = unix.parse().unwrap();
        let face = face_at(secs, 28_800);
        assert_eq!(unix_time_on(&unix, &face), s);
    }
}

#[test]
fn time_standard_drops_the_milliseconds() {
    assert_eq!(time_standard("1234567890123", "unix"), "1234567890");
    assert_eq!(time_standard("1234567890123", "time"), local_text(1_234_567_890));
    assert_eq!(time_standard("1234567890123", ""), local_text(1_234_567_890));
    assert_eq!(time_standard("abcdefghijklm", "unix"), "abcdefghij");
    assert_eq!(time_standard("abcdefghijklm", "time"), "abcdefghij");
}

#[test]
fn time_standard_is_empty_for_another_length() {
    assert_eq!(time_standard("123", "unix"), "");
    assert_eq!(time_standard("", "unix"), "");
    assert_eq!(time_standard("1234567890", "unix"), "");
    assert_eq!(time_standard("12345678901234", "time"), "");
}
