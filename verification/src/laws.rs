//! What holds between the functions of the library, for every input.

use vstd::prelude::*;
use crate::calendar::{lemma_epoch_seconds_bound, lemma_epoch_seconds_injective, LocalTime};
use crate::convert::{
    decoded_text, encode_layouts, encoded_text, first_parsed, time_str_text, unix_number_text,
    unix_time_input, unix_time_text, FIXED_OFFSET_SECS,
};
use crate::digits::{all_digits, is_digit, lemma_padded_digits_shape, lemma_signed_text_value};
use crate::ident::{group_id_text, stripped_stamp};
use crate::layout::{compact_text, dashed_text, COMPACT, DASHED};
use crate::calendar::CivilTime;
use crate::outside::parse_result;
use crate::stamp::{
    compact_fields, dashed_digits, dashed_fields, is_compact_stamp, is_dashed_stamp,
    lemma_compact_stamp_text, lemma_dashed_stamp_text, lemma_dashed_text_stamp,
};
use crate::text::{
    lemma_without_char_absent, lemma_without_char_concat, slash_to_dash, without_char,
};

verus! {

/// A dashed stamp holds no `/`, so reading `/` as `-` leaves it as it is.
pub proof fn lemma_stamp_is_normal(s: Seq<char>)
    requires
        is_dashed_stamp(s),
    ensures
        slash_to_dash(s) == s,
{
    assert forall|i: int| 0 <= i < s.len() implies #[trigger] s[i] != '/' by {
        if i != 4 && i != 7 && i != 10 && i != 13 && i != 16 {
            assert(is_digit(s[i]));
        }
    }
    assert(slash_to_dash(s) =~= s);
}

/// For every stamp `YYYY-MM-DD HH:MM:SS` of a real date and time, the
/// parts that `get_time_str` gives for `y`, `m`, `d`, `h`, `i` and `s`, put
/// one after the other, are the digits of the stamp in their order.
pub proof fn lemma_parts_rebuild_stamp(s: Seq<char>)
    requires
        is_dashed_stamp(s),
    ensures
        time_str_text(s, "y"@) + time_str_text(s, "m"@) + time_str_text(s, "d"@) + time_str_text(
            s,
            "h"@,
        ) + time_str_text(s, "i"@) + time_str_text(s, "s"@) == dashed_digits(s),
{
    reveal_strlit("y");
    reveal_strlit("m");
    reveal_strlit("d");
    reveal_strlit("h");
    reveal_strlit("i");
    reveal_strlit("s");
    lemma_stamp_is_normal(s);
    lemma_dashed_stamp_text(s);
    let id = compact_text(dashed_fields(s));
    assert(id.len() == 14);
    assert(id.subrange(0, 4) + id.subrange(4, 6) + id.subrange(6, 8) + id.subrange(8, 10)
        + id.subrange(10, 12) + id.subrange(12, 14) =~= id);
}

/// For every stamp `YYYYMMDDHHMMSS` of a real date and time,
/// `data_sign_encode` of what `data_sign_decode` makes of it is the stamp
/// again.
pub proof fn lemma_decode_then_encode(x: Seq<char>)
    requires
        is_compact_stamp(x),
    ensures
        encoded_text(
            first_parsed(decoded_text(parse_result(x, COMPACT@)), 0),
        ) == x,
{
    let t = compact_fields(x);
    lemma_compact_stamp_text(x);
    lemma_dashed_text_stamp(t);
    assert(dashed_fields(dashed_text(t)) == t);
    assert(encode_layouts()[0] == DASHED@);
}

/// For every stamp `YYYY-MM-DD HH:MM:SS` of a real date and time whose
/// Unix seconds, read eight hours ahead of UTC, take ten characters:
/// where the local clock is eight hours ahead of UTC at that moment,
/// `unix_time` of what `unix_number` makes of the stamp is the stamp again.
pub proof fn lemma_unix_round_trip(s: Seq<char>, face: LocalTime)
    requires
        is_dashed_stamp(s),
        unix_time_input(unix_number_text(parse_result(slash_to_dash(s), DASHED@))) matches Some(
            secs,
        ) && face.shows(secs),
        face.offset_secs == FIXED_OFFSET_SECS,
        face.civil.nano == 0,
    ensures
        unix_time_text(unix_number_text(parse_result(slash_to_dash(s), DASHED@)), face) == s,
{
    let t = dashed_fields(s);
    lemma_stamp_is_normal(s);
    lemma_dashed_stamp_text(s);
    lemma_epoch_seconds_bound(t);
    lemma_signed_text_value(t.epoch_seconds() - FIXED_OFFSET_SECS);
    lemma_epoch_seconds_injective(face.civil, t);
    assert(face.civil == t);
}

/// In the years 0 to 9999 the time text `YYYY-MM-DD HH:MM:SS`, with its
/// blanks, colons and dashes taken out, is the fourteen digits
/// `YYYYMMDDHHMMSS`: a group identifier is then these digits, after the
/// symbol and `_` where there is a symbol.
pub proof fn lemma_group_id_form(symbol: Seq<char>, t: CivilTime)
    requires
        t.wf(),
        0 <= t.year <= 9999,
        t.nano < 1_000_000_000,
    ensures
        stripped_stamp(dashed_text(t)) == compact_text(t),
        compact_text(t).len() == 14,
        all_digits(compact_text(t)),
        symbol.len() > 0 ==> group_id_text(symbol, dashed_text(t)) == symbol + seq!['_']
            + compact_text(t),
        symbol.len() == 0 ==> group_id_text(symbol, dashed_text(t)) == compact_text(t),
{
    lemma_dashed_text_stamp(t);
    let s = dashed_text(t);
    let u = CivilTime { nano: 0, ..t };
    lemma_dashed_stamp_text(s);
    assert(compact_text(u) == compact_text(t));
    assert(compact_text(t) == dashed_digits(s));
    lemma_strip_dashed(s);
}

/// Taking blanks, colons and dashes out of two texts in a row is taking
/// them out of each.
proof fn lemma_strip_concat(a: Seq<char>, b: Seq<char>)
    ensures
        stripped_stamp(a + b) == stripped_stamp(a) + stripped_stamp(b),
{
    lemma_without_char_concat(a, b, ' ');
    lemma_without_char_concat(without_char(a, ' '), without_char(b, ' '), ':');
    lemma_without_char_concat(
        without_char(without_char(a, ' '), ':'),
        without_char(without_char(b, ' '), ':'),
        '-',
    );
}

/// Digits hold no blank, colon or dash.
proof fn lemma_strip_digits(d: Seq<char>)
    requires
        all_digits(d),
    ensures
        stripped_stamp(d) == d,
{
    lemma_without_char_absent(d, ' ');
    lemma_without_char_absent(d, ':');
    lemma_without_char_absent(d, '-');
}

/// A blank, a colon or a dash alone leaves nothing.
proof fn lemma_strip_mark(c: char)
    requires
        c == ' ' || c == ':' || c == '-',
    ensures
        stripped_stamp(seq![c]) == Seq::<char>::empty(),
{
    reveal_with_fuel(without_char, 2);
    assert(seq![c].drop_last() == Seq::<char>::empty());
}

/// Digits and then a mark leave the digits.
proof fn lemma_strip_step(head: Seq<char>, digits: Seq<char>, mark: char)
    requires
        all_digits(digits),
        mark == ' ' || mark == ':' || mark == '-',
    ensures
        stripped_stamp(head + digits + seq![mark]) == stripped_stamp(head) + digits,
{
    lemma_strip_concat(head + digits, seq![mark]);
    lemma_strip_concat(head, digits);
    lemma_strip_digits(digits);
    lemma_strip_mark(mark);
    assert(stripped_stamp(head) + digits + Seq::<char>::empty() == stripped_stamp(head) + digits);
}

/// A dashed stamp, with its blanks, colons and dashes taken out, is its
/// fourteen digits.
proof fn lemma_strip_dashed(s: Seq<char>)
    requires
        is_dashed_stamp(s),
    ensures
        stripped_stamp(s) == dashed_digits(s),
        all_digits(dashed_digits(s)),
        dashed_digits(s).len() == 14,
{
    let a0 = s.subrange(0, 4);
    let a1 = s.subrange(5, 7);
    let a2 = s.subrange(8, 10);
    let a3 = s.subrange(11, 13);
    let a4 = s.subrange(14, 16);
    let a5 = s.subrange(17, 19);
    let e = Seq::<char>::empty();
    let h1 = e + a0 + seq!['-'];
    let h2 = h1 + a1 + seq!['-'];
    let h3 = h2 + a2 + seq![' '];
    let h4 = h3 + a3 + seq![':'];
    let h5 = h4 + a4 + seq![':'];
    assert(all_digits(a0) && all_digits(a1) && all_digits(a2) && all_digits(a3) && all_digits(a4)
        && all_digits(a5));
    assert(stripped_stamp(e) == e);
    lemma_strip_step(e, a0, '-');
    lemma_strip_step(h1, a1, '-');
    lemma_strip_step(h2, a2, ' ');
    lemma_strip_step(h3, a3, ':');
    lemma_strip_step(h4, a4, ':');
    lemma_strip_concat(h5, a5);
    lemma_strip_digits(a5);
    assert(s =~= h5 + a5);
    assert(dashed_digits(s) =~= e + a0 + a1 + a2 + a3 + a4 + a5);
    assert(all_digits(dashed_digits(s)));
}

} // verus!
