//! The crate's own calendar-date value.
//!
//! The wire encodes a date as up to three numbers: a year, and optionally
//! a month and a day.  A missing month or day is completed with the
//! sentinel value zero, so a value of this type is a raw completed triple,
//! not necessarily a valid day of any calendar.

use vstd::prelude::*;
use crate::strutil::{dec_str, push_char, push_pad2_u32, push_pad4_u32, zero_pad};

verus! {

/// A completed calendar date: a year with a month and day that may be the
/// `0` sentinel standing for "unknown".
#[derive(Debug, Clone, PartialEq, Eq, Structural, Copy)]
pub struct CalendarDate {
    /// The year.
    pub year: u32,
    /// The month, `0` when unknown.
    pub month: u32,
    /// The day of month, `0` when unknown.
    pub day: u32,
}

impl CalendarDate {
    /// Builds a date from its three numbers.
    pub fn new(year: u32, month: u32, day: u32) -> (r: CalendarDate)
        ensures
            r == (CalendarDate { year, month, day }),
    {
        CalendarDate { year, month, day }
    }
}

/// The wire rendering of a date: `YYYY-MM-DD`, the year zero-padded to
/// four digits and month and day to two.
pub open spec fn date_str(d: CalendarDate) -> Seq<char> {
    zero_pad(dec_str(d.year as int), 4) + seq!['-'] + zero_pad(dec_str(d.month as int), 2) + seq![
        '-',
    ] + zero_pad(dec_str(d.day as int), 2)
}

/// Appends the wire rendering of `d`, as `date_str` describes.
pub fn push_date(s: &mut String, d: &CalendarDate)
    ensures
        final(s)@ == old(s)@ + date_str(*d),
{
    push_pad4_u32(s, d.year);
    push_char(s, '-');
    push_pad2_u32(s, d.month);
    push_char(s, '-');
    push_pad2_u32(s, d.day);
    proof {
        assert(old(s)@ + zero_pad(dec_str(d.year as int), 4) + seq!['-'] + zero_pad(
            dec_str(d.month as int),
            2,
        ) + seq!['-'] + zero_pad(dec_str(d.day as int), 2) =~= old(s)@ + date_str(*d));
    }
}

/// The wire rendering of `d` as a fresh string.
pub fn date_string(d: &CalendarDate) -> (r: String)
    ensures
        r@ == date_str(*d),
{
    let mut s = String::new();
    push_date(&mut s, d);
    s
}

} // verus!
