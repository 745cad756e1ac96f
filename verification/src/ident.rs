//! Random numbers and the identifiers that are built from the clock and
//! from them.

use vstd::prelude::*;
use vstd::string::*;
use crate::clock::{clock_text, create_format_time};
use crate::digits::{push_signed, signed_text};
use crate::outside::{seeded_sample, since_epoch, system_now, thread_sample};
use crate::text::{strip_char, without_char};

verus! {

/// The least number that [`res_id`] puts into an identifier.
pub const RES_ID_MIN: i32 = 10_000;

/// The greatest number that [`res_id`] puts into an identifier.
pub const RES_ID_MAX: i32 = 99_999;

/// A random integer from `min` to `max`, both included, drawn from the
/// generator of the current thread.
pub fn random(min: i32, max: i32) -> (r: i32)
    requires
        min <= max,
    ensures
        min <= r <= max,
{
    thread_sample(min, max)
}

/// What [`generate_random_number`] reports for a range whose ends are the
/// wrong way round.
pub open spec fn range_error_text(min: int, max: int) -> Seq<char> {
    "Minimum value "@ + signed_text(min) + " cannot be greater than maximum value "@
        + signed_text(max)
}

/// The report for a range whose ends are the wrong way round.
pub fn range_error(min: i32, max: i32) -> (r: String)
    ensures
        r@ == range_error_text(min as int, max as int),
{
    let mut out = String::from_str("Minimum value ");
    push_signed(&mut out, min as i64);
    out.append(" cannot be greater than maximum value ");
    push_signed(&mut out, max as i64);
    out
}

/// A seed from the clock: the nanoseconds since the epoch, cut to 64 bits;
/// zero where the clock stands before the epoch.
fn clock_seed() -> u64 {
    let now = system_now();
    seed_from(since_epoch(&now))
}

/// The seed that a reading of the clock gives: the nanoseconds since the
/// epoch, cut to their low 64 bits; zero for a clock that stands before the
/// epoch.
pub open spec fn seed_of(elapsed: Option<(u64, u32)>) -> int {
    match elapsed {
        Some((secs, nanos)) => (secs * 1_000_000_000 + nanos) % 0x1_0000_0000_0000_0000,
        None => 0,
    }
}

/// The seed that a reading of the clock gives, the reading being the whole
/// seconds since the epoch and the nanoseconds beyond them.
pub fn seed_from(elapsed: Option<(u64, u32)>) -> (r: u64)
    ensures
        r == seed_of(elapsed),
{
    match elapsed {
        Some((secs, nanos)) => {
            let total: u128 = secs as u128 * 1_000_000_000 + nanos as u128;
            (total % 0x1_0000_0000_0000_0000) as u64
        },
        None => 0,
    }
}

/// A random integer from `min` to `max`, both included, drawn from a
/// generator that is seeded from the clock at the moment of the call. A
/// range with `min` above `max` is reported as an error.
pub fn generate_random_number(min: i32, max: i32) -> (r: Result<i32, String>)
    ensures
        min > max ==> r is Err && r->Err_0@ == range_error_text(min as int, max as int),
        min <= max ==> r is Ok && min <= r->Ok_0 <= max,
{
    if min > max {
        return Err(range_error(min, max));
    }
    Ok(seeded_sample(clock_seed(), min, max))
}

/// A time text with its blanks, colons and dashes taken out.
pub open spec fn stripped_stamp(time_text: Seq<char>) -> Seq<char> {
    without_char(without_char(without_char(time_text, ' '), ':'), '-')
}

/// The group identifier for a symbol and a time text: the stripped time,
/// with the symbol and `_` in front unless the symbol is empty.
pub open spec fn group_id_text(symbol: Seq<char>, time_text: Seq<char>) -> Seq<char> {
    if symbol.len() > 0 {
        symbol + seq!['_'] + stripped_stamp(time_text)
    } else {
        stripped_stamp(time_text)
    }
}

/// Builds the group identifier for a symbol and a time text.
pub fn group_id_from(symbol: &str, time_text: &str) -> (r: String)
    ensures
        r@ == group_id_text(symbol@, time_text@),
{
    let no_blank = strip_char(time_text, ' ');
    let no_colon = strip_char(no_blank.as_str(), ':');
    let stamp = strip_char(no_colon.as_str(), '-');
    if symbol.unicode_len() > 0 {
        let mut out = String::from_str(symbol);
        out.push('_');
        out.append(stamp.as_str());
        out
    } else {
        stamp
    }
}

/// A group identifier to the second: the current local time as
/// `YYYYMMDDHHMMSS`, with `symbol` and `_` in front unless `symbol` is
/// empty.
pub fn group_id_sec(symbol: &str) -> (r: String)
    ensures
        exists|time_text: Seq<char>|
            clock_text(time_text, "time"@) && r@ == #[trigger] group_id_text(symbol@, time_text),
{
    let time_text = create_format_time("time");
    group_id_from(symbol, time_text.as_str())
}

/// An identifier made of a stamp, a number and a tag, one after the other.
pub open spec fn res_id_text(stamp: Seq<char>, number: int, tag: Seq<char>) -> Seq<char> {
    stamp + signed_text(number) + tag
}

/// Builds an identifier from a stamp, a number and a tag.
pub fn res_id_from(stamp: &str, number: i32, tag: &str) -> (r: String)
    ensures
        r@ == res_id_text(stamp@, number as int, tag@),
{
    let mut out = String::from_str(stamp);
    push_signed(&mut out, number as i64);
    out.append(tag);
    out
}

/// An identifier to the millisecond: the current local time as
/// `YYYYMMDDHHMMSSmmm`, a random number of five digits, and `type_str`.
pub fn res_id(type_str: &str) -> (r: String)
    ensures
        exists|stamp: Seq<char>, number: int|
            clock_text(stamp, "msec_str"@) && RES_ID_MIN <= number <= RES_ID_MAX && r@
                == #[trigger] res_id_text(stamp, number, type_str@),
{
    let number = random(RES_ID_MIN, RES_ID_MAX);
    let stamp = create_format_time("msec_str");
    res_id_from(stamp.as_str(), number, type_str)
}

} // verus!
