//! Layouts: the patterns that say how a time is written, and the text each
//! one gives.
//!
//! A pattern is read from the left. `%Y`, `%m`, `%d`, `%H`, `%M` and `%S`
//! stand for year, month, day, hour, minute and second; `%.3f`, `%.6f` and
//! `%.9f` for a dot and the fraction of the second in that many digits; any
//! other character but `%` stands for itself.

use vstd::prelude::*;
use crate::calendar::CivilTime;
use crate::digits::{all_digits, is_digit, lemma_padded_digits_shape, padded_digits};
use crate::text::free_of;

verus! {

/// `YYYY-MM-DD HH:MM:SS`.
pub const DASHED: &'static str = "%Y-%m-%d %H:%M:%S";

/// `YYYYMMDDHHMMSS`.
pub const COMPACT: &'static str = "%Y%m%d%H%M%S";

/// `YYYY-MM-DD HH:MM:SS.mmm`.
pub const DASHED_MILLIS: &'static str = "%Y-%m-%d %H:%M:%S%.3f";

/// `YYYY-MM-DD HH:MM:SS.uuuuuu`.
pub const DASHED_MICROS: &'static str = "%Y-%m-%d %H:%M:%S%.6f";

/// `YYYY-MM-DD HH:MM:SS.nnnnnnnnn`.
pub const DASHED_NANOS: &'static str = "%Y-%m-%d %H:%M:%S%.9f";

/// `YYYYMMDDHHMMSS.mmm`.
pub const COMPACT_MILLIS: &'static str = "%Y%m%d%H%M%S%.3f";

/// `YYYYMMDDHHMMSS.uuuuuu`.
pub const COMPACT_MICROS: &'static str = "%Y%m%d%H%M%S%.6f";

/// `YYYYMMDDHHMMSS.nnnnnnnnn`.
pub const COMPACT_NANOS: &'static str = "%Y%m%d%H%M%S%.9f";

/// `YYYY/MM/DD HH:MM:SS`.
pub const SLASHED: &'static str = "%Y/%m/%d %H:%M:%S";

/// `YYYY.MM.DD HH:MM:SS`.
pub const DOTTED: &'static str = "%Y.%m.%d %H:%M:%S";

/// `YYYYMMDD HH:MM:SS`.
pub const SPACED: &'static str = "%Y%m%d %H:%M:%S";

/// `YYYY-MM-DDTHH:MM:SS`.
pub const ISO: &'static str = "%Y-%m-%dT%H:%M:%S";

/// `YYYY-MM-DDTHH:MM:SS`, an optional fraction of the second, and `Z`.
pub const ISO_FRACTION: &'static str = "%Y-%m-%dT%H:%M:%S%.fZ";

/// `YYYY-MM-DD`, a date alone.
pub const DATE_ONLY: &'static str = "%Y-%m-%d";

/// A weekday, a day, a month by name, a year and a time, then `GMT`.
pub const NAMED_LONG: &'static str = "%a, %d %b %Y %H:%M:%S GMT";

/// A day, a month by name, a year of two digits, hour and minute, then
/// `GMT`.
pub const NAMED_SHORT: &'static str = "%d %b %y %H:%M GMT";

/// `YYYYMMDD`.
pub const DAY: &'static str = "%Y%m%d";

/// `DDHH`.
pub const DAY_HOUR: &'static str = "%d%H";

/// `HHMM`.
pub const HOUR_MINUTE: &'static str = "%H%M";

/// A year as text: four digits from 0 to 9999, otherwise a sign and at
/// least four digits.
pub open spec fn year_text(y: int) -> Seq<char> {
    if 0 <= y <= 9999 {
        padded_digits(y as nat, 4)
    } else if y < 0 {
        seq!['-'] + padded_digits((-y) as nat, 4)
    } else {
        seq!['+'] + padded_digits(y as nat, 4)
    }
}

/// A number as two digits.
pub open spec fn two_digits(v: int) -> Seq<char> {
    padded_digits(v as nat, 2)
}

/// Whether `%` followed by `c` names a field of a time.
pub open spec fn is_field_code(c: char) -> bool {
    c == 'Y' || c == 'm' || c == 'd' || c == 'H' || c == 'M' || c == 'S'
}

/// The text of the field that `code` names.
pub open spec fn field_text(t: CivilTime, code: char) -> Seq<char> {
    if code == 'Y' {
        year_text(t.year as int)
    } else if code == 'm' {
        two_digits(t.month as int)
    } else if code == 'd' {
        two_digits(t.day as int)
    } else if code == 'H' {
        two_digits(t.hour as int)
    } else if code == 'M' {
        two_digits(t.minute as int)
    } else {
        two_digits(t.shown_second())
    }
}

/// Whether `c` is a number of fraction digits that a pattern may ask for.
pub open spec fn is_fraction_width(c: char) -> bool {
    c == '3' || c == '6' || c == '9'
}

/// The fraction of the second in 3, 6 or 9 digits, without the dot.
pub open spec fn fraction_digits(t: CivilTime, width: char) -> Seq<char> {
    if width == '3' {
        padded_digits((t.nano / 1_000_000 % 1000) as nat, 3)
    } else if width == '6' {
        padded_digits((t.nano / 1000 % 1_000_000) as nat, 6)
    } else {
        padded_digits((t.nano % 1_000_000_000) as nat, 9)
    }
}

/// Whether the pattern from position `at` on is made only of the items
/// that this module gives a meaning to.
pub open spec fn supported_from(pattern: Seq<char>, at: int) -> bool
    decreases pattern.len() - at,
{
    if at < 0 || at >= pattern.len() {
        true
    } else if pattern[at] != '%' {
        supported_from(pattern, at + 1)
    } else if at + 1 < pattern.len() && is_field_code(pattern[at + 1]) {
        supported_from(pattern, at + 2)
    } else if at + 3 < pattern.len() && pattern[at + 1] == '.' && is_fraction_width(
        pattern[at + 2],
    ) && pattern[at + 3] == 'f' {
        supported_from(pattern, at + 4)
    } else {
        false
    }
}

/// The text that the pattern from position `at` on gives for `t`.
pub open spec fn rendered_from(t: CivilTime, pattern: Seq<char>, at: int) -> Seq<char>
    decreases pattern.len() - at,
{
    if at < 0 || at >= pattern.len() {
        Seq::empty()
    } else if pattern[at] != '%' {
        seq![pattern[at]] + rendered_from(t, pattern, at + 1)
    } else if at + 1 < pattern.len() && is_field_code(pattern[at + 1]) {
        field_text(t, pattern[at + 1]) + rendered_from(t, pattern, at + 2)
    } else if at + 3 < pattern.len() && pattern[at + 1] == '.' && is_fraction_width(
        pattern[at + 2],
    ) && pattern[at + 3] == 'f' {
        seq!['.'] + fraction_digits(t, pattern[at + 2]) + rendered_from(t, pattern, at + 4)
    } else {
        Seq::empty()
    }
}

/// Whether every item of the pattern has a meaning here.
pub open spec fn supported(pattern: Seq<char>) -> bool {
    supported_from(pattern, 0)
}

/// The text that the pattern gives for `t`.
pub open spec fn rendered(t: CivilTime, pattern: Seq<char>) -> Seq<char> {
    rendered_from(t, pattern, 0)
}

/// `YYYY-MM-DD`.
pub open spec fn date_text(t: CivilTime) -> Seq<char> {
    year_text(t.year as int) + seq!['-'] + two_digits(t.month as int) + seq!['-'] + two_digits(
        t.day as int,
    )
}

/// `HH:MM:SS`.
pub open spec fn clock_text(t: CivilTime) -> Seq<char> {
    two_digits(t.hour as int) + seq![':'] + two_digits(t.minute as int) + seq![':'] + two_digits(
        t.shown_second(),
    )
}

/// `YYYY-MM-DD HH:MM:SS`.
pub open spec fn dashed_text(t: CivilTime) -> Seq<char> {
    date_text(t) + seq![' '] + clock_text(t)
}

/// `YYYYMMDD`.
pub open spec fn day_text(t: CivilTime) -> Seq<char> {
    year_text(t.year as int) + two_digits(t.month as int) + two_digits(t.day as int)
}

/// `DDHH`.
pub open spec fn day_hour_text(t: CivilTime) -> Seq<char> {
    two_digits(t.day as int) + two_digits(t.hour as int)
}

/// `HHMM`.
pub open spec fn hour_minute_text(t: CivilTime) -> Seq<char> {
    two_digits(t.hour as int) + two_digits(t.minute as int)
}

/// `YYYYMMDDHHMMSS`.
pub open spec fn compact_text(t: CivilTime) -> Seq<char> {
    day_text(t) + hour_minute_text(t) + two_digits(t.shown_second())
}

/// What [`DASHED`] writes.
pub proof fn lemma_dashed_pattern(t: CivilTime)
    ensures
        supported(DASHED@),
        rendered(t, DASHED@) == dashed_text(t),
{
    reveal_strlit("%Y-%m-%d %H:%M:%S");
    reveal_with_fuel(supported_from, 12);
    reveal_with_fuel(rendered_from, 12);
    assert(rendered(t, DASHED@) =~= dashed_text(t));
}

/// What [`DASHED_MILLIS`] writes.
pub proof fn lemma_dashed_millis_pattern(t: CivilTime)
    ensures
        supported(DASHED_MILLIS@),
        rendered(t, DASHED_MILLIS@) == dashed_text(t) + seq!['.'] + fraction_digits(t, '3'),
{
    reveal_strlit("%Y-%m-%d %H:%M:%S%.3f");
    reveal_with_fuel(supported_from, 13);
    reveal_with_fuel(rendered_from, 13);
    assert(rendered(t, DASHED_MILLIS@) =~= dashed_text(t) + seq!['.'] + fraction_digits(t, '3'));
}

/// What [`DASHED_MICROS`] writes.
pub proof fn lemma_dashed_micros_pattern(t: CivilTime)
    ensures
        supported(DASHED_MICROS@),
        rendered(t, DASHED_MICROS@) == dashed_text(t) + seq!['.'] + fraction_digits(t, '6'),
{
    reveal_strlit("%Y-%m-%d %H:%M:%S%.6f");
    reveal_with_fuel(supported_from, 13);
    reveal_with_fuel(rendered_from, 13);
    assert(rendered(t, DASHED_MICROS@) =~= dashed_text(t) + seq!['.'] + fraction_digits(t, '6'));
}

/// What [`DASHED_NANOS`] writes.
pub proof fn lemma_dashed_nanos_pattern(t: CivilTime)
    ensures
        supported(DASHED_NANOS@),
        rendered(t, DASHED_NANOS@) == dashed_text(t) + seq!['.'] + fraction_digits(t, '9'),
{
    reveal_strlit("%Y-%m-%d %H:%M:%S%.9f");
    reveal_with_fuel(supported_from, 13);
    reveal_with_fuel(rendered_from, 13);
    assert(rendered(t, DASHED_NANOS@) =~= dashed_text(t) + seq!['.'] + fraction_digits(t, '9'));
}

/// What [`COMPACT`] writes.
pub proof fn lemma_compact_pattern(t: CivilTime)
    ensures
        supported(COMPACT@),
        rendered(t, COMPACT@) == compact_text(t),
{
    reveal_strlit("%Y%m%d%H%M%S");
    reveal_with_fuel(supported_from, 7);
    reveal_with_fuel(rendered_from, 7);
    assert(rendered(t, COMPACT@) =~= compact_text(t));
}

/// What [`COMPACT_MILLIS`] writes.
pub proof fn lemma_compact_millis_pattern(t: CivilTime)
    ensures
        supported(COMPACT_MILLIS@),
        rendered(t, COMPACT_MILLIS@) == compact_text(t) + seq!['.'] + fraction_digits(t, '3'),
{
    reveal_strlit("%Y%m%d%H%M%S%.3f");
    reveal_with_fuel(supported_from, 8);
    reveal_with_fuel(rendered_from, 8);
    assert(rendered(t, COMPACT_MILLIS@) =~= compact_text(t) + seq!['.'] + fraction_digits(t, '3'));
}

/// What [`COMPACT_MICROS`] writes.
pub proof fn lemma_compact_micros_pattern(t: CivilTime)
    ensures
        supported(COMPACT_MICROS@),
        rendered(t, COMPACT_MICROS@) == compact_text(t) + seq!['.'] + fraction_digits(t, '6'),
{
    reveal_strlit("%Y%m%d%H%M%S%.6f");
    reveal_with_fuel(supported_from, 8);
    reveal_with_fuel(rendered_from, 8);
    assert(rendered(t, COMPACT_MICROS@) =~= compact_text(t) + seq!['.'] + fraction_digits(t, '6'));
}

/// What [`COMPACT_NANOS`] writes.
pub proof fn lemma_compact_nanos_pattern(t: CivilTime)
    ensures
        supported(COMPACT_NANOS@),
        rendered(t, COMPACT_NANOS@) == compact_text(t) + seq!['.'] + fraction_digits(t, '9'),
{
    reveal_strlit("%Y%m%d%H%M%S%.9f");
    reveal_with_fuel(supported_from, 8);
    reveal_with_fuel(rendered_from, 8);
    assert(rendered(t, COMPACT_NANOS@) =~= compact_text(t) + seq!['.'] + fraction_digits(t, '9'));
}

/// What [`DAY`] writes.
pub proof fn lemma_day_pattern(t: CivilTime)
    ensures
        supported(DAY@),
        rendered(t, DAY@) == day_text(t),
{
    reveal_strlit("%Y%m%d");
    reveal_with_fuel(supported_from, 4);
    reveal_with_fuel(rendered_from, 4);
    assert(rendered(t, DAY@) =~= day_text(t));
}

/// What [`DAY_HOUR`] writes.
pub proof fn lemma_day_hour_pattern(t: CivilTime)
    ensures
        supported(DAY_HOUR@),
        rendered(t, DAY_HOUR@) == day_hour_text(t),
{
    reveal_strlit("%d%H");
    reveal_with_fuel(supported_from, 3);
    reveal_with_fuel(rendered_from, 3);
    assert(rendered(t, DAY_HOUR@) =~= day_hour_text(t));
}

/// What [`HOUR_MINUTE`] writes.
pub proof fn lemma_hour_minute_pattern(t: CivilTime)
    ensures
        supported(HOUR_MINUTE@),
        rendered(t, HOUR_MINUTE@) == hour_minute_text(t),
{
    reveal_strlit("%H%M");
    reveal_with_fuel(supported_from, 3);
    reveal_with_fuel(rendered_from, 3);
    assert(rendered(t, HOUR_MINUTE@) =~= hour_minute_text(t));
}

/// Digits hold no character that is not a digit.
pub proof fn lemma_digits_free_of(s: Seq<char>, other: char)
    requires
        all_digits(s),
        !is_digit(other),
    ensures
        free_of(s, other),
{
}

/// The fraction of a second is written in digits only.
pub proof fn lemma_fraction_digits_plain(t: CivilTime, width: char)
    ensures
        all_digits(fraction_digits(t, width)),
{
    lemma_padded_digits_shape((t.nano / 1_000_000 % 1000) as nat, 3);
    lemma_padded_digits_shape((t.nano / 1000 % 1_000_000) as nat, 6);
    lemma_padded_digits_shape((t.nano % 1_000_000_000) as nat, 9);
}

/// The compact form holds no dot.
pub proof fn lemma_compact_text_no_dot(t: CivilTime)
    ensures
        free_of(compact_text(t), '.'),
{
    lemma_padded_digits_shape(t.year as nat, 4);
    lemma_padded_digits_shape((-t.year) as nat, 4);
    lemma_padded_digits_shape(t.month as nat, 2);
    lemma_padded_digits_shape(t.day as nat, 2);
    lemma_padded_digits_shape(t.hour as nat, 2);
    lemma_padded_digits_shape(t.minute as nat, 2);
    lemma_padded_digits_shape(t.shown_second() as nat, 2);
    assert(free_of(year_text(t.year as int), '.'));
}

} // verus!
