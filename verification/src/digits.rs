//! Decimal digits: how a number is written as text, and how text is read
//! back as a number.

use vstd::prelude::*;

verus! {

/// The character that stands for the digit `d`, for `0 <= d <= 9`.
pub open spec fn digit_char(d: int) -> char {
    ('0' as int + d) as char
}

/// Whether `c` is one of `0` to `9`.
pub open spec fn is_digit(c: char) -> bool {
    '0' <= c <= '9'
}

/// The number a digit character stands for.
pub open spec fn digit_value(c: char) -> int {
    c as int - '0' as int
}

/// Whether every character of `s` is a digit.
pub open spec fn all_digits(s: Seq<char>) -> bool {
    forall|i: int| 0 <= i < s.len() ==> is_digit(#[trigger] s[i])
}

/// `value` in decimal, padded with zeros on the left to at least `width`
/// digits. A `width` of one or less gives the plain decimal form.
pub open spec fn padded_digits(value: nat, width: nat) -> Seq<char>
    decreases value, width,
{
    if value < 10 && width <= 1 {
        seq![digit_char(value as int)]
    } else {
        let rest_width: nat = if width > 1 {
            (width - 1) as nat
        } else {
            0
        };
        padded_digits(value / 10, rest_width).push(digit_char((value % 10) as int))
    }
}

/// An integer in decimal, with a leading `-` when it is negative.
pub open spec fn signed_text(v: int) -> Seq<char> {
    if v < 0 {
        seq!['-'] + padded_digits((-v) as nat, 1)
    } else {
        padded_digits(v as nat, 1)
    }
}

/// The number that a run of digits writes, read from the left.
pub open spec fn digits_value(s: Seq<char>) -> nat
    decreases s.len(),
{
    if s.len() == 0 {
        0
    } else {
        (digits_value(s.drop_last()) * 10 + digit_value(s.last())) as nat
    }
}

/// The digits of `s` once one leading `+` or `-` is taken off.
pub open spec fn unsigned_part(s: Seq<char>) -> Seq<char> {
    if s.len() > 0 && (s[0] == '-' || s[0] == '+') {
        s.skip(1)
    } else {
        s
    }
}

/// The integer that `s` writes: an optional sign and at least one digit,
/// nothing else, with a value that a 64-bit signed integer holds.
pub open spec fn signed_value(s: Seq<char>) -> Option<int> {
    let body = unsigned_part(s);
    let magnitude = digits_value(body) as int;
    let v = if s.len() > 0 && s[0] == '-' {
        -magnitude
    } else {
        magnitude
    };
    if body.len() > 0 && all_digits(body) && i64::MIN <= v <= i64::MAX {
        Some(v)
    } else {
        None
    }
}

/// Ten to the power `n`.
pub open spec fn pow10(n: nat) -> nat
    decreases n,
{
    if n == 0 {
        1
    } else {
        10 * pow10((n - 1) as nat)
    }
}

/// Padded digits are digits, and at least `width` of them.
pub proof fn lemma_padded_digits_shape(value: nat, width: nat)
    ensures
        all_digits(padded_digits(value, width)),
        padded_digits(value, width).len() >= width,
        padded_digits(value, width).len() >= 1,
    decreases value, width,
{
    if value < 10 && width <= 1 {
    } else {
        lemma_padded_digits_shape(
            value / 10,
            if width > 1 {
                (width - 1) as nat
            } else {
                0
            },
        );
    }
}

/// Appends `value` to `out` in decimal, zero-padded to at least `width`
/// digits.
pub fn push_padded(out: &mut String, value: u128, width: u8)
    ensures
        final(out)@ == old(out)@ + padded_digits(value as nat, width as nat),
    decreases value, width,
{
    if value >= 10 || width > 1 {
        let rest_width: u8 = if width > 0 {
            width - 1
        } else {
            0
        };
        push_padded(out, value / 10, rest_width);
    }
    let d: u8 = (value % 10) as u8;
    let c: char = (48u8 + d) as char;
    assert(c == digit_char((value % 10) as int));
    let ghost before = out@;
    out.push(c);
    assert(out@ =~= old(out)@ + padded_digits(value as nat, width as nat)) by {
        if value >= 10 || width > 1 {
            let rest = padded_digits(
                (value / 10) as nat,
                if width > 1 {
                    (width - 1) as nat
                } else {
                    0
                },
            );
            assert(before == old(out)@ + rest);
        }
    }
}

/// Appends `v` to `out` in decimal, with a `-` in front when negative.
pub fn push_signed(out: &mut String, v: i64)
    ensures
        final(out)@ == old(out)@ + signed_text(v as int),
{
    if v < 0 {
        out.push('-');
        let magnitude: u128 = (-(v as i128)) as u128;
        push_padded(out, magnitude, 1);
    } else {
        push_padded(out, v as u128, 1);
    }
}

/// A longer run of digits writes a number at least as large as any of its
/// leading parts.
proof fn lemma_digits_value_grows(s: Seq<char>, k: int)
    requires
        all_digits(s),
        0 <= k <= s.len(),
    ensures
        digits_value(s.take(k)) <= digits_value(s),
    decreases s.len(),
{
    if k == s.len() {
        assert(s.take(k) == s);
    } else {
        let init = s.drop_last();
        assert(all_digits(init));
        assert(init.take(k) == s.take(k));
        lemma_digits_value_grows(init, k);
        assert(is_digit(s.last()));
    }
}

/// A number below a hundred is written as its tens and its ones.
pub proof fn lemma_two_digits_text(v: int)
    requires
        0 <= v < 100,
    ensures
        padded_digits(v as nat, 2) == seq![digit_char(v / 10), digit_char(v % 10)],
{
    reveal_with_fuel(padded_digits, 2);
    assert(padded_digits(v as nat, 2) =~= seq![digit_char(v / 10), digit_char(v % 10)]);
}

/// A number below ten thousand is written as its four digits.
pub proof fn lemma_four_digits_text(v: int)
    requires
        0 <= v < 10_000,
    ensures
        padded_digits(v as nat, 4) == seq![
            digit_char(v / 1000),
            digit_char(v / 100 % 10),
            digit_char(v / 10 % 10),
            digit_char(v % 10),
        ],
{
    reveal_with_fuel(padded_digits, 4);
    assert(padded_digits(v as nat, 4) =~= seq![
        digit_char(v / 1000),
        digit_char(v / 100 % 10),
        digit_char(v / 10 % 10),
        digit_char(v % 10),
    ]);
}

/// The digits that write a number read back as that number.
pub proof fn lemma_padded_digits_value(value: nat, width: nat)
    ensures
        digits_value(padded_digits(value, width)) == value,
    decreases value, width,
{
    let text = padded_digits(value, width);
    if value < 10 && width <= 1 {
        assert(text.drop_last() == Seq::<char>::empty());
        reveal_with_fuel(digits_value, 2);
    } else {
        let rest_width: nat = if width > 1 {
            (width - 1) as nat
        } else {
            0
        };
        lemma_padded_digits_value(value / 10, rest_width);
        assert(text.drop_last() == padded_digits(value / 10, rest_width));
    }
}

/// An integer written in decimal reads back as itself.
pub proof fn lemma_signed_text_value(v: int)
    requires
        i64::MIN <= v <= i64::MAX,
    ensures
        signed_value(signed_text(v)) == Some(v),
{
    let magnitude: nat = if v < 0 {
        (-v) as nat
    } else {
        v as nat
    };
    let digits = padded_digits(magnitude, 1);
    lemma_padded_digits_shape(magnitude, 1);
    lemma_padded_digits_value(magnitude, 1);
    assert(is_digit(digits[0]));
    if v < 0 {
        assert(signed_text(v)[0] == '-');
        assert(signed_text(v).skip(1) == digits);
    } else {
        assert(signed_text(v) == digits);
    }
}

/// Ten characters that read as an integer write one of at most ten digits.
pub proof fn lemma_ten_digits_bound(s: Seq<char>)
    requires
        s.len() == 10,
        signed_value(s) is Some,
    ensures
        -10_000_000_000 < signed_value(s)->0 < 10_000_000_000,
{
    let body = unsigned_part(s);
    lemma_digits_value_bound(body, pow10(body.len()) as int);
    assert(pow10(9) == 1_000_000_000 && pow10(10) == 10_000_000_000) by {
        reveal_with_fuel(pow10, 11);
    }
}

/// A run of at most ten digits writes a number below ten to the tenth.
proof fn lemma_digits_value_bound(s: Seq<char>, bound: int)
    requires
        all_digits(s),
        s.len() <= 10,
        bound == pow10(s.len()),
    ensures
        digits_value(s) < bound,
    decreases s.len(),
{
    if s.len() > 0 {
        assert(all_digits(s.drop_last()));
        assert(is_digit(s.last()));
        lemma_digits_value_bound(s.drop_last(), pow10((s.len() - 1) as nat) as int);
    }
}

/// Reads a decimal integer: an optional `+` or `-`, then digits only.
pub fn parse_signed(s: &str) -> (r: Option<i64>)
    ensures
        r is Some <==> signed_value(s@) is Some,
        r matches Some(v) ==> signed_value(s@) == Some(v as int),
{
    let n = s.unicode_len();
    if n == 0 {
        return None;
    }
    let first = s.get_char(0);
    let negative = first == '-';
    let start: usize = if first == '-' || first == '+' {
        1
    } else {
        0
    };
    if start == n {
        return None;
    }
    let ghost body = unsigned_part(s@);
    let mut acc: u128 = 0;
    let mut i: usize = start;
    while i < n
        invariant
            start <= i <= n,
            n == s@.len(),
            body == s@.skip(start as int),
            body == unsigned_part(s@),
            all_digits(body.take(i - start)),
            acc == digits_value(body.take(i - start)),
            acc <= 0x8000_0000_0000_0000,
        decreases n - i,
    {
        let c = s.get_char(i);
        if c < '0' || c > '9' {
            assert(!is_digit(body[i - start]));
            return None;
        }
        let d: u128 = (c as u32 - '0' as u32) as u128;
        let next: u128 = acc * 10 + d;
        proof {
            let upto = body.take(i - start + 1);
            assert(upto.drop_last() == body.take(i - start));
            assert(upto.last() == c);
            assert(next == digits_value(upto));
            assert forall|j: int| 0 <= j < upto.len() implies is_digit(#[trigger] upto[j]) by {
                if j < i - start {
                    assert(is_digit(body.take(i - start)[j]));
                }
            }
        }
        if next > 0x8000_0000_0000_0000 {
            proof {
                if all_digits(body) {
                    lemma_digits_value_grows(body, i - start + 1);
                }
            }
            return None;
        }
        acc = next;
        i += 1;
    }
    assert(body.take(n - start) == body);
    if negative {
        Some((-(acc as i128)) as i64)
    } else if acc == 0x8000_0000_0000_0000 {
        None
    } else {
        Some(acc as i64)
    }
}

} // verus!
