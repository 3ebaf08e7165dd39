//! Date filters applied to the messages an export selects.

use vstd::prelude::*;

use crate::ascii::{digit_value, is_digit};

verus! {

/// A day of the proleptic Gregorian calendar.
#[derive(Debug, PartialEq, Eq, Clone, Copy, Structural)]
pub struct CalendarDate {
    pub year: u16,
    pub month: u8,
    pub day: u8,
}

/// Whether `year` is a leap year of the Gregorian calendar.
pub open spec fn is_leap_year(year: int) -> bool {
    year % 4 == 0 && (year % 100 != 0 || year % 400 == 0)
}

/// The number of days in `month` (1 to 12) of `year`.
pub open spec fn days_in_month(year: int, month: int) -> int {
    if month == 2 {
        if is_leap_year(year) {
            29
        } else {
            28
        }
    } else if month == 4 || month == 6 || month == 9 || month == 11 {
        30
    } else {
        31
    }
}

/// The value of the decimal digits `s[from..from + n]`.
pub open spec fn digits_value(s: Seq<char>, from: int, n: nat) -> int
    decreases n,
{
    if n == 0 {
        0
    } else {
        digits_value(s, from, (n - 1) as nat) * 10 + digit_value(s[from + n - 1])
    }
}

/// Whether `s` has the shape `YYYY-MM-DD`: ten characters, with decimal
/// digits everywhere but the two dashes.
pub open spec fn is_date_shaped(s: Seq<char>) -> bool {
    &&& s.len() == 10
    &&& s[4] == '-'
    &&& s[7] == '-'
    &&& forall|i: int| 0 <= i < 10 && i != 4 && i != 7 ==> is_digit(#[trigger] s[i])
}

/// The date that `s` names, when it is a `YYYY-MM-DD` date that exists in the calendar.
pub open spec fn spec_parse_date(s: Seq<char>) -> Option<CalendarDate> {
    if is_date_shaped(s) {
        let year = digits_value(s, 0, 4);
        let month = digits_value(s, 5, 2);
        let day = digits_value(s, 8, 2);
        if 1 <= month <= 12 && 1 <= day <= days_in_month(year, month) {
            Some(CalendarDate { year: year as u16, month: month as u8, day: day as u8 })
        } else {
            None
        }
    } else {
        None
    }
}

fn digit(c: char) -> (res: u16)
    requires
        is_digit(c),
    ensures
        res == digit_value(c),
{
    ((c as u32) - ('0' as u32)) as u16
}

/// Parse a `YYYY-MM-DD` date, accepting only days that exist in the calendar.
pub fn parse_date(s: &str) -> (res: Option<CalendarDate>)
    ensures
        res == spec_parse_date(s@),
{
    if s.unicode_len() != 10 {
        return None;
    }
    let mut i: usize = 0;
    while i < 10
        invariant
            s@.len() == 10,
            i <= 10,
            forall|j: int| 0 <= j < i && j != 4 && j != 7 ==> is_digit(#[trigger] s@[j]),
        decreases 10 - i,
    {
        if i != 4 && i != 7 {
            let c = s.get_char(i);
            if !('0' <= c && c <= '9') {
                return None;
            }
        }
        i = i + 1;
    }
    if s.get_char(4) != '-' || s.get_char(7) != '-' {
        return None;
    }
    assert(is_date_shaped(s@));
    let year: u16 = ((digit(s.get_char(0)) * 10 + digit(s.get_char(1))) * 10 + digit(
        s.get_char(2),
    )) * 10 + digit(s.get_char(3));
    let month: u16 = digit(s.get_char(5)) * 10 + digit(s.get_char(6));
    let day: u16 = digit(s.get_char(8)) * 10 + digit(s.get_char(9));
    proof {
        reveal_with_fuel(digits_value, 5);
        assert(year == digits_value(s@, 0, 4));
        assert(month == digits_value(s@, 5, 2));
        assert(day == digits_value(s@, 8, 2));
    }
    if month < 1 || month > 12 {
        return None;
    }
    let leap = year % 4 == 0 && (year % 100 != 0 || year % 400 == 0);
    let days: u16 = if month == 2 {
        if leap {
            29
        } else {
            28
        }
    } else if month == 4 || month == 6 || month == 9 || month == 11 {
        30
    } else {
        31
    };
    if day < 1 || day > days {
        return None;
    }
    Some(CalendarDate { year, month: month as u8, day: day as u8 })
}

/// The text given for a date filter could not be read as a date
#[derive(Debug, PartialEq, Eq)]
pub enum QueryContextError {
    /// The text is not a `YYYY-MM-DD` date that exists in the calendar
    InvalidDate(String),
}

/// Filters applied to the messages an export selects
#[derive(Debug, PartialEq, Eq, Clone, Copy)]
pub struct QueryContext {
    /// The first day whose messages are included
    pub start: Option<CalendarDate>,
    /// The day before which messages are included
    pub end: Option<CalendarDate>,
}

impl Default for QueryContext {
    /// A context that selects every message
    fn default() -> (res: QueryContext)
        ensures
            res.start is None,
            res.end is None,
    {
        QueryContext { start: None, end: None }
    }
}

impl QueryContext {
    /// Set the start date filter from `YYYY-MM-DD` text
    pub fn set_start(&mut self, start: &str) -> (res: Result<(), QueryContextError>)
        ensures
            match spec_parse_date(start@) {
                Some(d) => res is Ok && final(self).start == Some(d) && final(self).end == old(
                    self,
                ).end,
                None => res matches Err(QueryContextError::InvalidDate(t)) && t@ == start@
                    && *final(self) == *old(self),
            },
    {
        match parse_date(start) {
            Some(d) => {
                self.start = Some(d);
                Ok(())
            },
            None => Err(QueryContextError::InvalidDate(String::from_str(start))),
        }
    }

    /// Set the end date filter from `YYYY-MM-DD` text
    pub fn set_end(&mut self, end: &str) -> (res: Result<(), QueryContextError>)
        ensures
            match spec_parse_date(end@) {
                Some(d) => res is Ok && final(self).end == Some(d) && final(self).start == old(
                    self,
                ).start,
                None => res matches Err(QueryContextError::InvalidDate(t)) && t@ == end@
                    && *final(self) == *old(self),
            },
    {
        match parse_date(end) {
            Some(d) => {
                self.end = Some(d);
                Ok(())
            },
            None => Err(QueryContextError::InvalidDate(String::from_str(end))),
        }
    }

    /// Whether any filter is set
    pub fn has_filters(&self) -> (res: bool)
        ensures
            res == (self.start is Some || self.end is Some),
    {
        self.start.is_some() || self.end.is_some()
    }
}

} // verus!
