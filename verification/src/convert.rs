//! Conversions between the written forms of a time: stamps, Unix seconds
//! and the parts of a date.

use vstd::prelude::*;
use crate::calendar::{lemma_epoch_seconds_bound, CivilTime, LocalTime, MAX_INSTANT};
use crate::digits::{
    lemma_ten_digits_bound, parse_signed, push_signed, signed_text, signed_value,
};
use crate::layout::{
    compact_text, dashed_text, day_hour_text, day_text, hour_minute_text, lemma_compact_pattern,
    lemma_dashed_pattern, lemma_day_hour_pattern, lemma_day_pattern, lemma_hour_minute_pattern,
    COMPACT, DASHED, DATE_ONLY, DAY, DAY_HOUR, DOTTED, HOUR_MINUTE, ISO, ISO_FRACTION, NAMED_LONG,
    NAMED_SHORT, SLASHED, SPACED,
};
use crate::outside::{
    chrono_format, chrono_parse, chrono_parse_date, date_result, exact_parse, local_time_at,
    parse_result, utc_seconds,
};
use crate::stamp::{date_digits, date_fields, is_date_stamp, lemma_date_stamp_text, midnight};
use crate::text::{piece, replace_char, same_text, slash_to_dash};

verus! {

/// How far the clock face that [`unix_number`] reads is ahead of UTC, in
/// seconds: eight hours.
pub const FIXED_OFFSET_SECS: i64 = 28_800;

/// How many layouts [`data_sign_encode`] tries.
pub const ENCODE_LAYOUT_COUNT: usize = 9;

/// The turn at which [`data_sign_encode`] tries the layout of a date alone.
pub const DATE_TURN: usize = 6;

/// Reads `s` as a time written in `pattern`.
pub(crate) fn parse_with(s: &str, pattern: &str) -> (r: Option<CivilTime>)
    ensures
        r == parse_result(s@, pattern@),
        r matches Some(t) ==> t.wf(),
{
    chrono_parse(s, pattern)
}

/// `t` as `YYYY-MM-DD HH:MM:SS`.
pub fn dashed_string(t: &CivilTime) -> (r: String)
    requires
        t.wf(),
    ensures
        r@ == dashed_text(*t),
{
    proof {
        lemma_dashed_pattern(*t);
    }
    chrono_format(t, DASHED)
}

/// `t` as `YYYYMMDDHHMMSS`.
pub fn compact_string(t: &CivilTime) -> (r: String)
    requires
        t.wf(),
    ensures
        r@ == compact_text(*t),
{
    proof {
        lemma_compact_pattern(*t);
    }
    chrono_format(t, COMPACT)
}

/// The four marks of a time that was read, or four empty texts for one
/// that was not: `YYYYMMDDHHMMSS`, `YYYYMMDD`, `DDHH`, `HHMM`.
pub open spec fn time_id_parts(parsed: Option<CivilTime>) -> (
    Seq<char>,
    Seq<char>,
    Seq<char>,
    Seq<char>,
) {
    match parsed {
        Some(t) => (compact_text(t), day_text(t), day_hour_text(t), hour_minute_text(t)),
        None => (Seq::empty(), Seq::empty(), Seq::empty(), Seq::empty()),
    }
}

/// The four marks of a time that was read, or four empty texts.
pub fn time_id_of(parsed: Option<CivilTime>) -> (r: (String, String, String, String))
    requires
        parsed matches Some(t) ==> t.wf(),
    ensures
        (r.0@, r.1@, r.2@, r.3@) == time_id_parts(parsed),
{
    match parsed {
        Some(t) => {
            proof {
                lemma_day_pattern(t);
                lemma_day_hour_pattern(t);
                lemma_hour_minute_pattern(t);
            }
            (
                compact_string(&t),
                chrono_format(&t, DAY),
                chrono_format(&t, DAY_HOUR),
                chrono_format(&t, HOUR_MINUTE),
            )
        },
        None => (String::new(), String::new(), String::new(), String::new()),
    }
}

/// Reads `YYYY-MM-DD HH:MM:SS` and gives its four marks: the compact stamp,
/// the day, day and hour, hour and minute. Four empty texts where the
/// input does not read as a time.
pub fn create_time_id(time_str: &str) -> (r: (String, String, String, String))
    ensures
        (r.0@, r.1@, r.2@, r.3@) == time_id_parts(parse_result(time_str@, DASHED@)),
{
    time_id_of(parse_with(time_str, DASHED))
}

/// A time that was read, as `YYYY-MM-DD HH:MM:SS`; empty for one that was
/// not.
pub open spec fn decoded_text(parsed: Option<CivilTime>) -> Seq<char> {
    match parsed {
        Some(t) => dashed_text(t),
        None => Seq::empty(),
    }
}

/// A time that was read, as `YYYY-MM-DD HH:MM:SS`; empty for one that was
/// not.
pub fn decode_parsed(parsed: Option<CivilTime>) -> (r: String)
    requires
        parsed matches Some(t) ==> t.wf(),
    ensures
        r@ == decoded_text(parsed),
{
    match parsed {
        Some(t) => dashed_string(&t),
        None => String::new(),
    }
}

/// Turns `YYYYMMDDHHMMSS` into `YYYY-MM-DD HH:MM:SS`. Empty where the input
/// does not read as a time.
pub fn data_sign_decode(input: &str) -> (r: String)
    ensures
        r@ == decoded_text(parse_result(input@, COMPACT@)),
{
    decode_parsed(parse_with(input, COMPACT))
}

/// The layouts that [`data_sign_encode`] tries, in the order in which it
/// tries them.
pub open spec fn encode_layouts() -> Seq<Seq<char>> {
    seq![
        DASHED@,
        SLASHED@,
        DOTTED@,
        SPACED@,
        ISO@,
        ISO_FRACTION@,
        DATE_ONLY@,
        NAMED_LONG@,
        NAMED_SHORT@,
    ]
}

/// What the layout of turn `turn` makes of `s`: the time it reads, or,
/// for the layout of a date alone, the midnight of the day it reads.
pub open spec fn turn_reading(s: Seq<char>, turn: int) -> Option<CivilTime> {
    if turn == DATE_TURN {
        match date_result(s, encode_layouts()[turn]) {
            Some(date) => Some(midnight(date)),
            None => None,
        }
    } else {
        parse_result(s, encode_layouts()[turn])
    }
}

/// What the first layout, from turn `from` on, that reads `s` makes of
/// it; `None` if none of them does.
pub open spec fn first_parsed(s: Seq<char>, from: int) -> Option<CivilTime>
    decreases ENCODE_LAYOUT_COUNT - from,
{
    if from < 0 || from >= ENCODE_LAYOUT_COUNT {
        None
    } else if turn_reading(s, from) is Some {
        turn_reading(s, from)
    } else {
        first_parsed(s, from + 1)
    }
}

/// A time that was read, as `YYYYMMDDHHMMSS`; empty for one that was not.
pub open spec fn encoded_text(parsed: Option<CivilTime>) -> Seq<char> {
    match parsed {
        Some(t) => compact_text(t),
        None => Seq::empty(),
    }
}

/// A time that was read, as `YYYYMMDDHHMMSS`; empty for one that was not.
pub fn encode_parsed(parsed: Option<CivilTime>) -> (r: String)
    requires
        parsed matches Some(t) ==> t.wf(),
    ensures
        r@ == encoded_text(parsed),
{
    match parsed {
        Some(t) => compact_string(&t),
        None => String::new(),
    }
}

/// The layout that [`data_sign_encode`] tries at turn `i`.
pub fn encode_layout(i: usize) -> (r: &'static str)
    requires
        i < ENCODE_LAYOUT_COUNT,
    ensures
        r@ == encode_layouts()[i as int],
{
    if i == 0 {
        DASHED
    } else if i == 1 {
        SLASHED
    } else if i == 2 {
        DOTTED
    } else if i == 3 {
        SPACED
    } else if i == 4 {
        ISO
    } else if i == 5 {
        ISO_FRACTION
    } else if i == 6 {
        DATE_ONLY
    } else if i == 7 {
        NAMED_LONG
    } else {
        NAMED_SHORT
    }
}

/// The midnight of a day that was read; `None` for one that was not.
pub fn midnight_of(date: Option<(i32, u32, u32)>) -> (r: Option<CivilTime>)
    ensures
        r == match date {
            Some(d) => Some(midnight(d)),
            None => None,
        },
{
    match date {
        Some((year, month, day)) => Some(
            CivilTime { year, month, day, hour: 0, minute: 0, second: 0, nano: 0 },
        ),
        None => None,
    }
}

/// Reads `input` with the layout of turn `turn`.
fn read_turn(input: &str, turn: usize) -> (r: Option<CivilTime>)
    requires
        turn < ENCODE_LAYOUT_COUNT,
    ensures
        r == turn_reading(input@, turn as int),
        r matches Some(t) ==> t.wf(),
{
    if turn == DATE_TURN {
        midnight_of(chrono_parse_date(input, encode_layout(turn)))
    } else {
        parse_with(input, encode_layout(turn))
    }
}

/// A date stamp is read by none of the layouts before the one of a date
/// alone, and by that one as the midnight of its day.
pub proof fn lemma_date_stamp_reading(s: Seq<char>)
    requires
        is_date_stamp(s),
    ensures
        first_parsed(s, 0) == Some(midnight(date_fields(s))),
{
    reveal_with_fuel(first_parsed, 7);
    assert(exact_parse(s, DASHED@) is None);
}

/// Reads a time written in any of the layouts of [`encode_layouts`] and
/// writes it as `YYYYMMDDHHMMSS`. The first layout that reads the input
/// decides; a date alone stands for its midnight. Empty where none does.
pub fn data_sign_encode(input: &str) -> (r: String)
    ensures
        r@ == encoded_text(first_parsed(input@, 0)),
        is_date_stamp(input@) ==> r@ == date_digits(input@) + seq!['0', '0', '0', '0', '0', '0'],
{
    proof {
        if is_date_stamp(input@) {
            lemma_date_stamp_reading(input@);
            lemma_date_stamp_text(input@);
        }
    }
    let mut i: usize = 0;
    while i < ENCODE_LAYOUT_COUNT
        invariant
            i <= ENCODE_LAYOUT_COUNT,
            first_parsed(input@, 0) == first_parsed(input@, i as int),
            is_date_stamp(input@) ==> encoded_text(first_parsed(input@, 0)) == date_digits(input@)
                + seq!['0', '0', '0', '0', '0', '0'],
        decreases ENCODE_LAYOUT_COUNT - i,
    {
        let parsed = read_turn(input, i);
        if parsed.is_some() {
            return encode_parsed(parsed);
        }
        i += 1;
    }
    String::new()
}

/// Whether `word` is the one letter `lower`, in either case.
pub open spec fn is_letter(word: Seq<char>, lower: char, upper: char) -> bool {
    word.len() == 1 && (word[0] == lower || word[0] == upper)
}

/// The part of a time that `word` asks for, cut out of its compact stamp:
/// `y`, `m`, `d`, `h`, `i` or `s`, in either case. Where the time was not
/// read, or its stamp is not fourteen characters long, or the word is
/// none of these, `value` comes back.
pub open spec fn time_component(
    value: Seq<char>,
    word: Seq<char>,
    parsed: Option<CivilTime>,
) -> Seq<char> {
    let id = time_id_parts(parsed).0;
    if id.len() != 14 {
        value
    } else if is_letter(word, 'y', 'Y') {
        id.subrange(0, 4)
    } else if is_letter(word, 'm', 'M') {
        id.subrange(4, 6)
    } else if is_letter(word, 'd', 'D') {
        id.subrange(6, 8)
    } else if is_letter(word, 'h', 'H') {
        id.subrange(8, 10)
    } else if is_letter(word, 'i', 'I') {
        id.subrange(10, 12)
    } else if is_letter(word, 's', 'S') {
        id.subrange(12, 14)
    } else {
        value
    }
}

/// What [`get_time_str`] gives: the input itself unless it is nineteen
/// characters long; otherwise, with `/` read as `-`, the part that `word`
/// asks for.
pub open spec fn time_str_text(value: Seq<char>, word: Seq<char>) -> Seq<char> {
    if value.len() != 19 {
        value
    } else {
        time_component(
            slash_to_dash(value),
            word,
            parse_result(slash_to_dash(value), DASHED@),
        )
    }
}

/// Cuts the part that `type_str` asks for out of a time that was read.
pub fn component_from(value: &str, type_str: &str, parsed: Option<CivilTime>) -> (r: String)
    requires
        parsed matches Some(t) ==> t.wf(),
    ensures
        r@ == time_component(value@, type_str@, parsed),
{
    let parts = time_id_of(parsed);
    let id = parts.0.as_str();
    if id.unicode_len() != 14 || type_str.unicode_len() != 1 {
        return value.to_owned();
    }
    let c = type_str.get_char(0);
    if c == 'y' || c == 'Y' {
        piece(id, 0, 4)
    } else if c == 'm' || c == 'M' {
        piece(id, 4, 6)
    } else if c == 'd' || c == 'D' {
        piece(id, 6, 8)
    } else if c == 'h' || c == 'H' {
        piece(id, 8, 10)
    } else if c == 'i' || c == 'I' {
        piece(id, 10, 12)
    } else if c == 's' || c == 'S' {
        piece(id, 12, 14)
    } else {
        value.to_owned()
    }
}

/// One part of a time written as `YYYY-MM-DD HH:MM:SS` (or with `/` for
/// `-`): `y` gives the year, `m` the month, `d` the day, `h` the hour, `i`
/// the minute and `s` the second, in either case. An input that is not
/// nineteen characters long comes back as it is; one that does not read as
/// a time, or a word that asks for no part, gives the input back with `/`
/// turned into `-`.
pub fn get_time_str(value: &str, type_str: &str) -> (r: String)
    ensures
        r@ == time_str_text(value@, type_str@),
{
    if value.unicode_len() != 19 {
        return value.to_owned();
    }
    let normal = replace_char(value, '/', '-');
    let parsed = parse_with(normal.as_str(), DASHED);
    component_from(normal.as_str(), type_str, parsed)
}

/// The Unix seconds of a time that was read on a clock face eight hours
/// ahead of UTC, in decimal; empty for one that was not read.
pub open spec fn unix_number_text(parsed: Option<CivilTime>) -> Seq<char> {
    match parsed {
        Some(t) => signed_text(t.epoch_seconds() - FIXED_OFFSET_SECS),
        None => Seq::empty(),
    }
}

/// The Unix seconds of a time that was read, in decimal.
pub fn unix_number_of(parsed: Option<CivilTime>) -> (r: String)
    requires
        parsed matches Some(t) ==> t.wf(),
    ensures
        r@ == unix_number_text(parsed),
{
    match parsed {
        Some(t) => {
            proof {
                lemma_epoch_seconds_bound(t);
            }
            let secs = utc_seconds(&t) - FIXED_OFFSET_SECS;
            let mut out = String::new();
            push_signed(&mut out, secs);
            assert(out@ == signed_text(secs as int));
            out
        },
        None => String::new(),
    }
}

/// Reads `YYYY-MM-DD HH:MM:SS` (or with `/` for `-`) as a time on a clock
/// face eight hours ahead of UTC and gives its Unix seconds in decimal.
/// Empty where the input does not read as a time.
pub fn unix_number(time_str: &str) -> (r: String)
    ensures
        r@ == unix_number_text(parse_result(slash_to_dash(time_str@), DASHED@)),
{
    let normal = replace_char(time_str, '/', '-');
    unix_number_of(parse_with(normal.as_str(), DASHED))
}

/// The seconds that `unix` writes, if it is ten characters long and reads
/// as an integer.
pub open spec fn unix_time_input(unix: Seq<char>) -> Option<int> {
    if unix.len() == 10 {
        signed_value(unix)
    } else {
        None
    }
}

/// What [`unix_time`] gives for `unix` when the local clock shows `face`
/// at the moment that `unix` writes.
pub open spec fn unix_time_text(unix: Seq<char>, face: LocalTime) -> Seq<char> {
    if unix_time_input(unix) is Some {
        dashed_text(face.civil)
    } else {
        unix
    }
}

/// Whether `text` may be what [`unix_time`] gives for `unix`: the input
/// itself unless it writes seconds; otherwise `YYYY-MM-DD HH:MM:SS` as
/// some clock face shows the start of that second.
pub open spec fn unix_time_outcome(text: Seq<char>, unix: Seq<char>) -> bool {
    match unix_time_input(unix) {
        None => text == unix,
        Some(secs) => exists|face: LocalTime|
            face.shows(secs) && face.civil.nano == 0 && text == #[trigger] unix_time_text(
                unix,
                face,
            ),
    }
}

/// Writes the local time `face` for the seconds that `unix_str` writes, or
/// gives `unix_str` back if it does not write seconds.
pub fn unix_time_on(unix_str: &str, face: &LocalTime) -> (r: String)
    requires
        face.civil.wf(),
    ensures
        r@ == unix_time_text(unix_str@, *face),
{
    if unix_str.unicode_len() != 10 || parse_signed(unix_str).is_none() {
        unix_str.to_owned()
    } else {
        dashed_string(&face.civil)
    }
}

/// Turns ten characters of Unix seconds into the local time
/// `YYYY-MM-DD HH:MM:SS`. An input of another length, or one that is not
/// an integer, comes back as it is.
pub fn unix_time(unix_str: &str) -> (r: String)
    ensures
        unix_time_outcome(r@, unix_str@),
{
    if unix_str.unicode_len() != 10 {
        return unix_str.to_owned();
    }
    match parse_signed(unix_str) {
        None => unix_str.to_owned(),
        Some(secs) => {
            proof {
                lemma_ten_digits_bound(unix_str@);
            }
            let face = local_time_at(secs, 0);
            unix_time_on(unix_str, &face)
        },
    }
}

/// Turns thirteen characters of Unix milliseconds into seconds, by
/// dropping the last three: as they are for the word `unix`, as local time
/// `YYYY-MM-DD HH:MM:SS` for any other word. Empty for an input of another
/// length.
pub fn time_standard(unix: &str, type_str: &str) -> (r: String)
    ensures
        unix@.len() != 13 ==> r@.len() == 0,
        unix@.len() == 13 && type_str@ == "unix"@ ==> r@ == unix@.subrange(0, 10),
        unix@.len() == 13 && type_str@ != "unix"@ ==> unix_time_outcome(r@, unix@.subrange(0, 10)),
{
    if unix.unicode_len() != 13 {
        return String::new();
    }
    let seconds = piece(unix, 0, 10);
    if same_text(type_str, "unix") {
        seconds
    } else {
        unix_time(seconds.as_str())
    }
}

} // verus!
