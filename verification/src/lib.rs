//! Time formatting, timestamp conversion and identifier helpers.
//!
//! Every function is a plain call with no state behind it: the current
//! moment as text in one of several layouts, conversions between stamps,
//! Unix seconds and the parts of a date, random integers, and identifiers
//! built from the clock.

pub mod calendar;
pub mod clock;
pub mod convert;
pub mod digits;
pub mod ident;
pub mod laws;
pub mod layout;
pub mod outside;
pub mod stamp;
pub mod text;

pub use crate::calendar::{CivilTime, LocalTime};
pub use crate::clock::{create_format_time, format_reading, read_clock, ClockReading};
pub use crate::convert::{
    create_time_id, data_sign_decode, data_sign_encode, get_time_str, time_standard, unix_number,
    unix_time,
};
pub use crate::ident::{generate_random_number, group_id_sec, random, res_id};
