//! The moment of a compilation, for the banner of the output. The library
//! reads no clock: its caller says what the moment is.

use vstd::prelude::*;
use vstd::string::StringExecFns;
use crate::decimal::{padded, padded_int, push_padded, push_padded_int};

verus! {

/// A moment of local time, to the second. The parts are written as they are
/// given, whether or not they make a date of the calendar.
#[derive(Clone, Copy, Debug, PartialEq, Eq)]
pub struct Timestamp {
    pub year: i32,
    pub month: u32,
    pub day: u32,
    pub hour: u32,
    pub minute: u32,
    pub second: u32,
}

/// The line of the banner that tells when the output was made.
pub open spec fn stamp_line(stamp: Timestamp) -> Seq<char> {
    "// Created on "@ + padded_int(stamp.year as int, 4) + "/"@ + padded(stamp.month as nat, 2) + "/"@ + padded(stamp.day as nat, 2)
        + " at "@ + padded(stamp.hour as nat, 2) + ":"@ + padded(stamp.minute as nat, 2) + ":"@ + padded(stamp.second as nat, 2)
        + " local time"@
}

/// The line of the banner for the given moment.
pub fn stamp_text(stamp: &Timestamp) -> (line: String)
    ensures
        line@ == stamp_line(*stamp),
{
    let mut line = String::from_str("// Created on ");
    push_padded_int(&mut line, stamp.year, 4);
    line.append("/");
    push_padded(&mut line, stamp.month as u64, 2);
    line.append("/");
    push_padded(&mut line, stamp.day as u64, 2);
    line.append(" at ");
    push_padded(&mut line, stamp.hour as u64, 2);
    line.append(":");
    push_padded(&mut line, stamp.minute as u64, 2);
    line.append(":");
    push_padded(&mut line, stamp.second as u64, 2);
    line.append(" local time");
    line
}

} // verus!
