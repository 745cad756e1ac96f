//! The current moment as text, in the layout that a selector names.

use vstd::prelude::*;
use crate::calendar::{CivilTime, LocalTime, MAX_INSTANT};
use crate::digits::{padded_digits, push_padded};
use crate::layout::{
    compact_text, dashed_text, day_text, fraction_digits, lemma_compact_micros_pattern,
    lemma_compact_millis_pattern, lemma_compact_nanos_pattern, lemma_compact_pattern,
    lemma_compact_text_no_dot, lemma_dashed_micros_pattern, lemma_dashed_millis_pattern,
    lemma_dashed_nanos_pattern, lemma_dashed_pattern, lemma_day_pattern, lemma_digits_free_of,
    lemma_fraction_digits_plain, COMPACT, COMPACT_MICROS, COMPACT_MILLIS, COMPACT_NANOS, DASHED,
    DASHED_MICROS, DASHED_MILLIS, DASHED_NANOS, DAY,
};
use crate::outside::{chrono_format, local_time_at, since_epoch, system_now};
use crate::text::{
    lemma_without_char_absent, lemma_without_char_concat, same_text, strip_char, without_char,
};

verus! {

/// What is returned for a selector that names no layout: the thirteen
/// selectors that do.
pub const HELP_TEXT: &'static str =
    "help:time,msec,micro,nano,unix,unix_micro,unix_msec,unix_nano,time_str,msec_str,micro_str,nano_str,dir";

/// The layouts in which a moment can be asked for.
#[derive(Clone, Copy, Debug, PartialEq, Eq, Structural)]
pub enum Selector {
    /// `YYYY-MM-DD HH:MM:SS`
    Time,
    /// `YYYY-MM-DD HH:MM:SS.mmm`
    Msec,
    /// `YYYY-MM-DD HH:MM:SS.uuuuuu`
    Micro,
    /// `YYYY-MM-DD HH:MM:SS.nnnnnnnnn`
    Nano,
    /// Seconds since the epoch.
    Unix,
    /// Microseconds since the epoch.
    UnixMicro,
    /// Milliseconds since the epoch.
    UnixMsec,
    /// Nanoseconds since the epoch.
    UnixNano,
    /// `YYYYMMDDHHMMSS`
    TimeStr,
    /// `YYYYMMDDHHMMSSmmm`
    MsecStr,
    /// `YYYYMMDDHHMMSSuuuuuu`
    MicroStr,
    /// `YYYYMMDDHHMMSSnnnnnnnnn`
    NanoStr,
    /// `YYYYMMDD`
    Dir,
}

/// One reading of the clock: the time that has passed since the epoch, and
/// what the local clock face shows at that moment.
#[derive(Clone, Copy, Debug, PartialEq, Eq, Structural)]
pub struct ClockReading {
    pub unix_secs: u64,
    pub subsec_nanos: u32,
    pub local: LocalTime,
}

impl ClockReading {
    /// The nanoseconds are less than a second, and the local face shows
    /// the moment of the reading, to the nanosecond.
    pub open spec fn wf(&self) -> bool {
        &&& self.subsec_nanos < 1_000_000_000
        &&& self.local.shows(self.unix_secs as int)
        &&& self.local.civil.nano == self.subsec_nanos
    }

    /// Nanoseconds since the epoch.
    pub open spec fn unix_nanos(&self) -> nat {
        (self.unix_secs * 1_000_000_000 + self.subsec_nanos) as nat
    }
}

/// The layout that a selector word names, if it names one.
pub open spec fn selector_of(word: Seq<char>) -> Option<Selector> {
    if word == "time"@ {
        Some(Selector::Time)
    } else if word == "msec"@ {
        Some(Selector::Msec)
    } else if word == "micro"@ {
        Some(Selector::Micro)
    } else if word == "nano"@ {
        Some(Selector::Nano)
    } else if word == "unix"@ {
        Some(Selector::Unix)
    } else if word == "unix_micro"@ {
        Some(Selector::UnixMicro)
    } else if word == "unix_msec"@ {
        Some(Selector::UnixMsec)
    } else if word == "unix_nano"@ {
        Some(Selector::UnixNano)
    } else if word == "time_str"@ {
        Some(Selector::TimeStr)
    } else if word == "msec_str"@ {
        Some(Selector::MsecStr)
    } else if word == "micro_str"@ {
        Some(Selector::MicroStr)
    } else if word == "nano_str"@ {
        Some(Selector::NanoStr)
    } else if word == "dir"@ {
        Some(Selector::Dir)
    } else {
        None
    }
}

/// A reading written in the layout that `selector` names.
pub open spec fn reading_text(c: ClockReading, selector: Selector) -> Seq<char> {
    match selector {
        Selector::Time => dashed_text(c.local.civil),
        Selector::Msec => dashed_text(c.local.civil) + seq!['.'] + fraction_digits(c.local.civil, '3'),
        Selector::Micro => dashed_text(c.local.civil) + seq!['.'] + fraction_digits(c.local.civil, '6'),
        Selector::Nano => dashed_text(c.local.civil) + seq!['.'] + fraction_digits(c.local.civil, '9'),
        Selector::Unix => padded_digits(c.unix_secs as nat, 1),
        Selector::UnixMicro => padded_digits(c.unix_nanos() / 1000, 1),
        Selector::UnixMsec => padded_digits(c.unix_nanos() / 1_000_000, 1),
        Selector::UnixNano => padded_digits(c.unix_nanos(), 1),
        Selector::TimeStr => compact_text(c.local.civil),
        Selector::MsecStr => compact_text(c.local.civil) + fraction_digits(c.local.civil, '3'),
        Selector::MicroStr => compact_text(c.local.civil) + fraction_digits(c.local.civil, '6'),
        Selector::NanoStr => compact_text(c.local.civil) + fraction_digits(c.local.civil, '9'),
        Selector::Dir => day_text(c.local.civil),
    }
}

/// What a selector word gives for a reading: the reading in the layout it
/// names, or the help text if it names none.
pub open spec fn selected_text(c: ClockReading, word: Seq<char>) -> Seq<char> {
    match selector_of(word) {
        Some(selector) => reading_text(c, selector),
        None => HELP_TEXT@,
    }
}

/// Reads a selector word.
pub fn parse_selector(word: &str) -> (r: Option<Selector>)
    ensures
        r == selector_of(word@),
{
    if same_text(word, "time") {
        Some(Selector::Time)
    } else if same_text(word, "msec") {
        Some(Selector::Msec)
    } else if same_text(word, "micro") {
        Some(Selector::Micro)
    } else if same_text(word, "nano") {
        Some(Selector::Nano)
    } else if same_text(word, "unix") {
        Some(Selector::Unix)
    } else if same_text(word, "unix_micro") {
        Some(Selector::UnixMicro)
    } else if same_text(word, "unix_msec") {
        Some(Selector::UnixMsec)
    } else if same_text(word, "unix_nano") {
        Some(Selector::UnixNano)
    } else if same_text(word, "time_str") {
        Some(Selector::TimeStr)
    } else if same_text(word, "msec_str") {
        Some(Selector::MsecStr)
    } else if same_text(word, "micro_str") {
        Some(Selector::MicroStr)
    } else if same_text(word, "nano_str") {
        Some(Selector::NanoStr)
    } else if same_text(word, "dir") {
        Some(Selector::Dir)
    } else {
        None
    }
}

/// Takes the dot out of a compact time with a fraction.
fn fraction_joined(
    dotted: String,
    Ghost(t): Ghost<CivilTime>,
    Ghost(width): Ghost<char>,
) -> (r: String)
    requires
        dotted@ == compact_text(t) + seq!['.'] + fraction_digits(t, width),
    ensures
        r@ == compact_text(t) + fraction_digits(t, width),
{
    let r = strip_char(dotted.as_str(), '.');
    proof {
        let head = compact_text(t);
        let tail = fraction_digits(t, width);
        lemma_without_char_concat(head + seq!['.'], tail, '.');
        lemma_without_char_concat(head, seq!['.'], '.');
        lemma_compact_text_no_dot(t);
        lemma_without_char_absent(head, '.');
        lemma_fraction_digits_plain(t, width);
        lemma_digits_free_of(tail, '.');
        lemma_without_char_absent(tail, '.');
        assert(without_char(seq!['.'], '.') == Seq::<char>::empty()) by {
            reveal_with_fuel(without_char, 2);
            assert(seq!['.'].drop_last() == Seq::<char>::empty());
        }
        assert(head + Seq::<char>::empty() + tail == head + tail);
    }
    r
}

/// A number in plain decimal.
fn decimal_string(value: u128) -> (r: String)
    ensures
        r@ == padded_digits(value as nat, 1),
{
    let mut out = String::new();
    push_padded(&mut out, value, 1);
    assert(Seq::<char>::empty() + padded_digits(value as nat, 1) == padded_digits(
        value as nat,
        1,
    ));
    out
}

/// Writes a reading in the layout that the selector word names, or gives
/// the help text if the word names none.
pub fn format_reading(reading: &ClockReading, type_str: &str) -> (r: String)
    requires
        reading.wf(),
    ensures
        r@ == selected_text(*reading, type_str@),
{
    let local = &reading.local.civil;
    let nanos: u128 = reading.unix_secs as u128 * 1_000_000_000 + reading.subsec_nanos as u128;
    match parse_selector(type_str) {
        None => HELP_TEXT.to_owned(),
        Some(Selector::Time) => {
            proof {
                lemma_dashed_pattern(*local);
            }
            chrono_format(local, DASHED)
        },
        Some(Selector::Msec) => {
            proof {
                lemma_dashed_millis_pattern(*local);
            }
            chrono_format(local, DASHED_MILLIS)
        },
        Some(Selector::Micro) => {
            proof {
                lemma_dashed_micros_pattern(*local);
            }
            chrono_format(local, DASHED_MICROS)
        },
        Some(Selector::Nano) => {
            proof {
                lemma_dashed_nanos_pattern(*local);
            }
            chrono_format(local, DASHED_NANOS)
        },
        Some(Selector::Unix) => decimal_string(reading.unix_secs as u128),
        Some(Selector::UnixMicro) => decimal_string(nanos / 1000),
        Some(Selector::UnixMsec) => decimal_string(nanos / 1_000_000),
        Some(Selector::UnixNano) => decimal_string(nanos),
        Some(Selector::TimeStr) => {
            proof {
                lemma_compact_pattern(*local);
            }
            chrono_format(local, COMPACT)
        },
        Some(Selector::MsecStr) => {
            proof {
                lemma_compact_millis_pattern(*local);
            }
            fraction_joined(chrono_format(local, COMPACT_MILLIS), Ghost(*local), Ghost('3'))
        },
        Some(Selector::MicroStr) => {
            proof {
                lemma_compact_micros_pattern(*local);
            }
            fraction_joined(chrono_format(local, COMPACT_MICROS), Ghost(*local), Ghost('6'))
        },
        Some(Selector::NanoStr) => {
            proof {
                lemma_compact_nanos_pattern(*local);
            }
            fraction_joined(chrono_format(local, COMPACT_NANOS), Ghost(*local), Ghost('9'))
        },
        Some(Selector::Dir) => {
            proof {
                lemma_day_pattern(*local);
            }
            chrono_format(local, DAY)
        },
    }
}

/// Reads the system clock: the time since the epoch, and the local civil
/// time of the same moment. `None` where the clock stands before the epoch
/// or farther from it than the calendar reaches.
pub fn read_clock() -> (r: Option<ClockReading>)
    ensures
        r matches Some(c) ==> c.wf(),
{
    let now = system_now();
    match since_epoch(&now) {
        None => None,
        Some((secs, nanos)) => reading_at(secs, nanos),
    }
}

/// Whether a moment `secs` seconds and `nanos` nanoseconds after the epoch
/// can be read: the nanoseconds are less than a second, and the moment lies
/// no farther from the epoch than the calendar reaches.
pub open spec fn readable(secs: u64, nanos: u32) -> bool {
    secs <= MAX_INSTANT && nanos < 1_000_000_000
}

/// The reading of the moment `secs` seconds and `nanos` nanoseconds after
/// the epoch: that time, and what the local clock face shows at it. `None`
/// exactly where the moment is not [`readable`].
pub fn reading_at(secs: u64, nanos: u32) -> (r: Option<ClockReading>)
    ensures
        r is Some <==> readable(secs, nanos),
        r matches Some(c) ==> c.wf() && c.unix_secs == secs && c.subsec_nanos == nanos,
{
    if secs > MAX_INSTANT as u64 || nanos >= 1_000_000_000 {
        None
    } else {
        let face = local_time_at(secs as i64, nanos);
        Some(ClockReading { unix_secs: secs, subsec_nanos: nanos, local: face })
    }
}

/// What [`create_format_time`] may return for a selector word: the help
/// text for a word that names no layout; for one that does, a reading of
/// the clock in that layout, or nothing where the clock could not be read.
pub open spec fn clock_text(text: Seq<char>, word: Seq<char>) -> bool {
    match selector_of(word) {
        None => text == HELP_TEXT@,
        Some(selector) => text.len() == 0 || exists|c: ClockReading|
            c.wf() && text == #[trigger] reading_text(c, selector),
    }
}

/// The current moment in the layout that `type_str` names.
///
/// | selector | text |
/// |---|---|
/// | `time` | `YYYY-MM-DD HH:MM:SS`, local time |
/// | `msec`, `micro`, `nano` | the same, then a dot and 3, 6 or 9 digits |
/// | `unix` | seconds since the epoch |
/// | `unix_micro`, `unix_msec`, `unix_nano` | micro-, milli- or nanoseconds since the epoch |
/// | `time_str` | `YYYYMMDDHHMMSS` |
/// | `msec_str`, `micro_str`, `nano_str` | the same, then 3, 6 or 9 digits |
/// | `dir` | `YYYYMMDD` |
///
/// Any other word gives [`HELP_TEXT`]. Where the clock cannot be read the
/// text is empty.
pub fn create_format_time(type_str: &str) -> (r: String)
    ensures
        clock_text(r@, type_str@),
{
    match read_clock() {
        Some(reading) => format_reading(&reading, type_str),
        None => {
            match parse_selector(type_str) {
                Some(_) => String::new(),
                None => HELP_TEXT.to_owned(),
            }
        },
    }
}

} // verus!
