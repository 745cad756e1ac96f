//! Stamps: the exact written forms of a time, `YYYY-MM-DD HH:MM:SS` and
//! `YYYYMMDDHHMMSS`, and of a date alone, `YYYY-MM-DD`, with the fields that
//! each one spells.

use vstd::prelude::*;
use crate::calendar::{valid_date, CivilTime};
use crate::digits::{
    digit_char, digit_value, is_digit, lemma_four_digits_text, lemma_two_digits_text,
    padded_digits,
};
use crate::layout::{compact_text, dashed_text, two_digits, year_text};

verus! {

/// Whether the `n` characters of `s` from position `i` on are digits.
pub open spec fn digits_at(s: Seq<char>, i: int, n: int) -> bool {
    forall|k: int| i <= k < i + n ==> is_digit(#[trigger] s[k])
}

/// The number that the two digits of `s` at position `i` write.
pub open spec fn two_at(s: Seq<char>, i: int) -> int {
    digit_value(s[i]) * 10 + digit_value(s[i + 1])
}

/// The number that the four digits of `s` at position `i` write.
pub open spec fn four_at(s: Seq<char>, i: int) -> int {
    two_at(s, i) * 100 + two_at(s, i + 2)
}

/// Whether `s` has the shape `dddd-dd-dd dd:dd:dd`, each `d` a digit.
pub open spec fn dashed_shape(s: Seq<char>) -> bool {
    &&& s.len() == 19
    &&& digits_at(s, 0, 4)
    &&& s[4] == '-'
    &&& digits_at(s, 5, 2)
    &&& s[7] == '-'
    &&& digits_at(s, 8, 2)
    &&& s[10] == ' '
    &&& digits_at(s, 11, 2)
    &&& s[13] == ':'
    &&& digits_at(s, 14, 2)
    &&& s[16] == ':'
    &&& digits_at(s, 17, 2)
}

/// The fields that a text of the dashed shape spells.
pub open spec fn dashed_fields(s: Seq<char>) -> CivilTime {
    CivilTime {
        year: four_at(s, 0) as i32,
        month: two_at(s, 5) as u32,
        day: two_at(s, 8) as u32,
        hour: two_at(s, 11) as u32,
        minute: two_at(s, 14) as u32,
        second: two_at(s, 17) as u32,
        nano: 0,
    }
}

/// Whether `s` is `YYYY-MM-DD HH:MM:SS` for a real date and a time of day
/// with a second from 00 to 59.
pub open spec fn is_dashed_stamp(s: Seq<char>) -> bool {
    dashed_shape(s) && dashed_fields(s).wf()
}

/// Whether `s` is made of fourteen digits.
pub open spec fn compact_shape(s: Seq<char>) -> bool {
    s.len() == 14 && digits_at(s, 0, 14)
}

/// The fields that fourteen digits spell.
pub open spec fn compact_fields(s: Seq<char>) -> CivilTime {
    CivilTime {
        year: four_at(s, 0) as i32,
        month: two_at(s, 4) as u32,
        day: two_at(s, 6) as u32,
        hour: two_at(s, 8) as u32,
        minute: two_at(s, 10) as u32,
        second: two_at(s, 12) as u32,
        nano: 0,
    }
}

/// Whether `s` is `YYYYMMDDHHMMSS` for a real date and a time of day with
/// a second from 00 to 59.
pub open spec fn is_compact_stamp(s: Seq<char>) -> bool {
    compact_shape(s) && compact_fields(s).wf()
}

/// Whether `s` has the shape `dddd-dd-dd`, each `d` a digit.
pub open spec fn date_shape(s: Seq<char>) -> bool {
    &&& s.len() == 10
    &&& digits_at(s, 0, 4)
    &&& s[4] == '-'
    &&& digits_at(s, 5, 2)
    &&& s[7] == '-'
    &&& digits_at(s, 8, 2)
}

/// The year, month and day that a text of the date shape spells.
pub open spec fn date_fields(s: Seq<char>) -> (i32, u32, u32) {
    (four_at(s, 0) as i32, two_at(s, 5) as u32, two_at(s, 8) as u32)
}

/// Whether `s` is `YYYY-MM-DD` for a real date.
pub open spec fn is_date_stamp(s: Seq<char>) -> bool {
    date_shape(s) && valid_date(four_at(s, 0), two_at(s, 5), two_at(s, 8))
}

/// The eight digits of a date stamp, in order.
pub open spec fn date_digits(s: Seq<char>) -> Seq<char> {
    s.subrange(0, 4) + s.subrange(5, 7) + s.subrange(8, 10)
}

/// The first moment of a day.
pub open spec fn midnight(date: (i32, u32, u32)) -> CivilTime {
    CivilTime { year: date.0, month: date.1, day: date.2, hour: 0, minute: 0, second: 0, nano: 0 }
}

/// The digits of a dashed stamp, in order, without what stands between
/// them.
pub open spec fn dashed_digits(s: Seq<char>) -> Seq<char> {
    s.subrange(0, 4) + s.subrange(5, 7) + s.subrange(8, 10) + s.subrange(11, 13) + s.subrange(
        14,
        16,
    ) + s.subrange(17, 19)
}

/// Two digits, read as a number and written again, are the same two
/// digits.
pub proof fn lemma_two_at_text(s: Seq<char>, i: int)
    requires
        0 <= i,
        i + 2 <= s.len(),
        digits_at(s, i, 2),
    ensures
        0 <= two_at(s, i) < 100,
        two_digits(two_at(s, i)) == s.subrange(i, i + 2),
{
    assert(is_digit(s[i]) && is_digit(s[i + 1]));
    lemma_two_digits_text(two_at(s, i));
    assert(two_digits(two_at(s, i)) =~= s.subrange(i, i + 2));
}

/// Four digits, read as a year and written again, are the same four
/// digits.
pub proof fn lemma_four_at_text(s: Seq<char>, i: int)
    requires
        0 <= i,
        i + 4 <= s.len(),
        digits_at(s, i, 4),
    ensures
        0 <= four_at(s, i) < 10_000,
        year_text(four_at(s, i)) == s.subrange(i, i + 4),
{
    assert(is_digit(s[i]) && is_digit(s[i + 1]) && is_digit(s[i + 2]) && is_digit(s[i + 3]));
    lemma_four_digits_text(four_at(s, i));
    assert(year_text(four_at(s, i)) =~= s.subrange(i, i + 4));
}

/// The fields of a dashed stamp, written again, give the stamp, and in
/// compact form its digits.
pub proof fn lemma_dashed_stamp_text(s: Seq<char>)
    requires
        is_dashed_stamp(s),
    ensures
        dashed_text(dashed_fields(s)) == s,
        compact_text(dashed_fields(s)) == dashed_digits(s),
{
    lemma_four_at_text(s, 0);
    lemma_two_at_text(s, 5);
    lemma_two_at_text(s, 8);
    lemma_two_at_text(s, 11);
    lemma_two_at_text(s, 14);
    lemma_two_at_text(s, 17);
    assert(dashed_text(dashed_fields(s)) =~= s);
    assert(compact_text(dashed_fields(s)) =~= dashed_digits(s));
}

/// The fields of a compact stamp, written again, give the stamp.
pub proof fn lemma_compact_stamp_text(s: Seq<char>)
    requires
        is_compact_stamp(s),
    ensures
        compact_text(compact_fields(s)) == s,
{
    lemma_four_at_text(s, 0);
    lemma_two_at_text(s, 4);
    lemma_two_at_text(s, 6);
    lemma_two_at_text(s, 8);
    lemma_two_at_text(s, 10);
    lemma_two_at_text(s, 12);
    assert(compact_text(compact_fields(s)) =~= s);
}

/// The midnight of the day that a date stamp spells, written in compact
/// form, is the eight digits of the stamp and six zeros.
pub proof fn lemma_date_stamp_text(s: Seq<char>)
    requires
        is_date_stamp(s),
    ensures
        midnight(date_fields(s)).wf(),
        compact_text(midnight(date_fields(s))) == date_digits(s) + seq![
            '0',
            '0',
            '0',
            '0',
            '0',
            '0',
        ],
{
    lemma_four_at_text(s, 0);
    lemma_two_at_text(s, 5);
    lemma_two_at_text(s, 8);
    lemma_two_digits_text(0);
    assert(compact_text(midnight(date_fields(s))) =~= date_digits(s) + seq![
        '0',
        '0',
        '0',
        '0',
        '0',
        '0',
    ]);
}

/// A time of the years 0 to 9999 with no leap second, written in dashed
/// form, is a dashed stamp that spells the same time to the second.
pub proof fn lemma_dashed_text_stamp(t: CivilTime)
    requires
        t.wf(),
        0 <= t.year <= 9999,
        t.nano < 1_000_000_000,
    ensures
        is_dashed_stamp(dashed_text(t)),
        dashed_fields(dashed_text(t)) == (CivilTime { nano: 0, ..t }),
{
    let s = dashed_text(t);
    lemma_four_digits_text(t.year as int);
    lemma_two_digits_text(t.month as int);
    lemma_two_digits_text(t.day as int);
    lemma_two_digits_text(t.hour as int);
    lemma_two_digits_text(t.minute as int);
    lemma_two_digits_text(t.second as int);
    let y = t.year as int;
    assert(s =~= seq![
        digit_char(y / 1000),
        digit_char(y / 100 % 10),
        digit_char(y / 10 % 10),
        digit_char(y % 10),
        '-',
        digit_char(t.month as int / 10),
        digit_char(t.month as int % 10),
        '-',
        digit_char(t.day as int / 10),
        digit_char(t.day as int % 10),
        ' ',
        digit_char(t.hour as int / 10),
        digit_char(t.hour as int % 10),
        ':',
        digit_char(t.minute as int / 10),
        digit_char(t.minute as int % 10),
        ':',
        digit_char(t.second as int / 10),
        digit_char(t.second as int % 10),
    ]);
    assert(dashed_shape(s));
    assert(four_at(s, 0) == y);
    assert(two_at(s, 5) == t.month);
    assert(two_at(s, 8) == t.day);
    assert(two_at(s, 11) == t.hour);
    assert(two_at(s, 14) == t.minute);
    assert(two_at(s, 17) == t.second);
}

} // verus!
