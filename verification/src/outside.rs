//! Contracts for the functions of `std`, `chrono` and `rand` that the
//! library calls. Nothing in this module is proved: each item says what the
//! outside function is relied on to do.

use vstd::prelude::*;
use chrono::{Datelike, TimeZone, Timelike};
use rand::{Rng, SeedableRng};
use crate::calendar::{valid_date, CivilTime, LocalTime, MAX_INSTANT};
use crate::layout::{
    rendered, supported, COMPACT, DASHED, DATE_ONLY, DOTTED, ISO, ISO_FRACTION, SLASHED, SPACED,
};
use crate::stamp::{
    compact_fields, dashed_fields, date_fields, is_compact_stamp, is_dashed_stamp, is_date_stamp,
};

verus! {

/// `String::push` appends one character to the end of the string.
pub assume_specification[ String::push ](s: &mut String, c: char)
    ensures
        final(s)@ == old(s)@.push(c),
;

/// What an exact stamp read with its own pattern spells: the fields of a
/// dashed stamp under [`DASHED`], of a compact stamp under [`COMPACT`].
/// `None` for every other pair of text and pattern.
pub open spec fn exact_parse(s: Seq<char>, pattern: Seq<char>) -> Option<CivilTime> {
    if pattern == DASHED@ && is_dashed_stamp(s) {
        Some(dashed_fields(s))
    } else if pattern == COMPACT@ && is_compact_stamp(s) {
        Some(compact_fields(s))
    } else {
        None
    }
}

/// Whether `pattern` is one of the six layouts that ask for a time of day
/// straight after a date of four, two and two digits.
pub open spec fn asks_for_clock(pattern: Seq<char>) -> bool {
    pattern == DASHED@ || pattern == SLASHED@ || pattern == DOTTED@ || pattern == SPACED@
        || pattern == ISO@ || pattern == ISO_FRACTION@
}

/// What `chrono::NaiveDateTime::parse_from_str` makes of a text and a
/// pattern: the time it reads, or `None` where it reports an error.
pub uninterp spec fn parsed_time(s: Seq<char>, pattern: Seq<char>) -> Option<CivilTime>;

/// What reading a text as a time with a pattern gives: for an exact stamp
/// read with its own pattern, the fields it spells; for a date stamp read
/// with a layout that asks for a time of day, nothing; for everything
/// else, what the parser makes of it.
pub open spec fn parse_result(s: Seq<char>, pattern: Seq<char>) -> Option<CivilTime> {
    if exact_parse(s, pattern) is Some {
        exact_parse(s, pattern)
    } else if is_date_stamp(s) && asks_for_clock(pattern) {
        None
    } else {
        parsed_time(s, pattern)
    }
}

/// Calls `chrono::NaiveDateTime::parse_from_str`. The result depends on
/// the text and the pattern alone. An exact stamp read with its own
/// pattern gives the fields it spells. A date stamp, which ends where the
/// time of day should begin, is an error under each of the layouts of
/// [`asks_for_clock`]. A time that comes back is a real date and time of
/// day.
#[verifier::external_body]
pub(crate) fn chrono_parse(s: &str, pattern: &str) -> (r: Option<CivilTime>)
    ensures
        r == parsed_time(s@, pattern@),
        exact_parse(s@, pattern@) is Some ==> r == exact_parse(s@, pattern@),
        is_date_stamp(s@) && asks_for_clock(pattern@) ==> r is None,
        r matches Some(t) ==> t.wf(),
{
    match chrono::NaiveDateTime::parse_from_str(s, pattern) {
        Ok(dt) => Some(
            CivilTime {
                year: dt.year(),
                month: dt.month(),
                day: dt.day(),
                hour: dt.hour(),
                minute: dt.minute(),
                second: dt.second(),
                nano: dt.nanosecond(),
            },
        ),
        Err(_) => None,
    }
}

/// What a date stamp read with [`DATE_ONLY`] spells; `None` for every
/// other pair of text and pattern.
pub open spec fn exact_date(s: Seq<char>, pattern: Seq<char>) -> Option<(i32, u32, u32)> {
    if pattern == DATE_ONLY@ && is_date_stamp(s) {
        Some(date_fields(s))
    } else {
        None
    }
}

/// What `chrono::NaiveDate::parse_from_str` makes of a text and a pattern:
/// the year, month and day it reads, or `None` where it reports an error.
pub uninterp spec fn parsed_date(s: Seq<char>, pattern: Seq<char>) -> Option<(i32, u32, u32)>;

/// What reading a text as a date with a pattern gives: for a date stamp
/// read with [`DATE_ONLY`], the year, month and day it spells; for
/// everything else, what the parser makes of it.
pub open spec fn date_result(s: Seq<char>, pattern: Seq<char>) -> Option<(i32, u32, u32)> {
    if exact_date(s, pattern) is Some {
        exact_date(s, pattern)
    } else {
        parsed_date(s, pattern)
    }
}

/// Calls `chrono::NaiveDate::parse_from_str`. The result depends on the
/// text and the pattern alone. A date stamp read with [`DATE_ONLY`] gives
/// the year, month and day it spells, and a date that comes back is a real
/// one.
#[verifier::external_body]
pub(crate) fn chrono_parse_date(s: &str, pattern: &str) -> (r: Option<(i32, u32, u32)>)
    ensures
        r == parsed_date(s@, pattern@),
        exact_date(s@, pattern@) is Some ==> r == exact_date(s@, pattern@),
        r matches Some(date) ==> valid_date(date.0 as int, date.1 as int, date.2 as int),
{
    match chrono::NaiveDate::parse_from_str(s, pattern) {
        Ok(date) => Some((date.year(), date.month(), date.day())),
        Err(_) => None,
    }
}

/// Calls `chrono::NaiveDateTime::format` and collects the text. For a
/// pattern made of the items that [`rendered`] knows, the text is the one
/// that [`rendered`] gives.
#[verifier::external_body]
pub(crate) fn chrono_format(t: &CivilTime, pattern: &str) -> (r: String)
    requires
        t.wf(),
        supported(pattern@),
    ensures
        r@ == rendered(*t, pattern@),
{
    let date = chrono::NaiveDate::from_ymd_opt(t.year, t.month, t.day).unwrap();
    let naive = date.and_hms_nano_opt(t.hour, t.minute, t.second, t.nano).unwrap();
    naive.format(pattern).to_string()
}

/// Calls `chrono::DateTime::<Utc>::timestamp` on the time read as UTC: the
/// seconds from the epoch to it, leap seconds not counted.
#[verifier::external_body]
pub(crate) fn utc_seconds(t: &CivilTime) -> (r: i64)
    requires
        t.wf(),
    ensures
        r == t.epoch_seconds(),
{
    let date = chrono::NaiveDate::from_ymd_opt(t.year, t.month, t.day).unwrap();
    let naive = date.and_hms_nano_opt(t.hour, t.minute, t.second, t.nano).unwrap();
    naive.and_utc().timestamp()
}

/// Calls `chrono::Local.timestamp_opt`: the instant `secs` seconds and
/// `nanos` nanoseconds after the epoch, as the clock face of this machine's
/// time zone shows it. Which zone that is, is not known here; whatever it
/// is, the face is ahead of UTC by the offset that comes with it, which is
/// less than a day either way.
#[verifier::external_body]
pub(crate) fn local_time_at(secs: i64, nanos: u32) -> (r: LocalTime)
    requires
        -MAX_INSTANT <= secs <= MAX_INSTANT,
        nanos < 1_000_000_000,
    ensures
        r.shows(secs as int),
        r.civil.nano == nanos,
{
    let dt = chrono::Local.timestamp_opt(secs, nanos).unwrap();
    let face = dt.naive_local();
    let civil = CivilTime {
        year: face.year(),
        month: face.month(),
        day: face.day(),
        hour: face.hour(),
        minute: face.minute(),
        second: face.second(),
        nano: face.nanosecond(),
    };
    LocalTime { civil, offset_secs: dt.offset().local_minus_utc() }
}

/// A reading of the system clock, as `std` holds it.
#[verifier::external_type_specification]
#[verifier::external_body]
pub struct SystemClockReading(std::time::SystemTime);

/// Calls `std::time::SystemTime::now`.
#[verifier::external_body]
pub(crate) fn system_now() -> std::time::SystemTime {
    std::time::SystemTime::now()
}

/// Calls `std::time::SystemTime::duration_since` with the Unix epoch: the
/// whole seconds and the nanoseconds beyond them that have passed since the
/// epoch, or `None` for a reading before the epoch.
#[verifier::external_body]
pub(crate) fn since_epoch(t: &std::time::SystemTime) -> (r: Option<(u64, u32)>)
    ensures
        r matches Some((_, nanos)) ==> nanos < 1_000_000_000,
{
    match t.duration_since(std::time::UNIX_EPOCH) {
        Ok(d) => Some((d.as_secs(), d.subsec_nanos())),
        Err(_) => None,
    }
}

/// Calls `rand::Rng::random_range` on the generator of the current thread
/// with the range `min..=max`.
#[verifier::external_body]
pub(crate) fn thread_sample(min: i32, max: i32) -> (r: i32)
    requires
        min <= max,
    ensures
        min <= r <= max,
{
    rand::rng().random_range(min..=max)
}

/// Calls `rand::Rng::random_range` with the range `min..=max` on a
/// `rand::rngs::StdRng` made by `seed_from_u64(seed)`.
#[verifier::external_body]
pub(crate) fn seeded_sample(seed: u64, min: i32, max: i32) -> (r: i32)
    requires
        min <= max,
    ensures
        min <= r <= max,
{
    rand::rngs::StdRng::seed_from_u64(seed).random_range(min..=max)
}

} // verus!
