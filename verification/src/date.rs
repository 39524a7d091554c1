//! Calendar dates for the report date ranges.
//!
//! The portal's payloads carry plain `YYYY-MM-DD` dates; this module
//! models them as year/month/day triples with the Gregorian validity
//! rules, so that range construction ("one year prior to today through
//! today") is verified arithmetic rather than an opaque library value.

use vstd::prelude::*;

use crate::text::{append_dec2, append_dec4, dec2, dec4};

verus! {

/// Gregorian leap-year rule.
pub open spec fn is_leap_year(y: int) -> bool {
    (y % 4 == 0 && y % 100 != 0) || y % 400 == 0
}

/// Days in a month of a given year.
pub open spec fn days_in_month(y: int, m: int) -> int {
    if m == 2 {
        if is_leap_year(y) {
            29
        } else {
            28
        }
    } else if m == 4 || m == 6 || m == 9 || m == 11 {
        30
    } else {
        31
    }
}

/// A valid calendar date within the four-digit-year range the portal's
/// date format can carry.
pub open spec fn valid_ymd(y: int, m: int, d: int) -> bool {
    1 <= y <= 9999 && 1 <= m <= 12 && 1 <= d <= days_in_month(y, m)
}

/// A calendar date.
#[derive(Clone, Copy, Debug, PartialEq, Eq, Structural)]
pub struct Date {
    pub year: u16,
    pub month: u8,
    pub day: u8,
}

impl Date {
    pub open spec fn valid(self) -> bool {
        valid_ymd(self.year as int, self.month as int, self.day as int)
    }

    /// The `YYYY-MM-DD` rendering of the date.
    pub open spec fn ymd_seq(self) -> Seq<char> {
        dec4(self.year as nat) + seq!['-'] + dec2(self.month as nat) + seq!['-'] + dec2(
            self.day as nat,
        )
    }

    /// Build a date, rejecting triples that name no calendar day.
    pub fn new(year: u16, month: u8, day: u8) -> (r: Option<Date>)
        ensures
            match r {
                Some(d) => valid_ymd(year as int, month as int, day as int) && d == (Date {
                    year,
                    month,
                    day,
                }),
                None => !valid_ymd(year as int, month as int, day as int),
            },
    {
        if year < 1 || year > 9999 || month < 1 || month > 12 || day < 1 {
            return None;
        }
        let limit: u8 = if month == 2 {
            let y = year as u64;
            if (y % 4 == 0 && y % 100 != 0) || y % 400 == 0 {
                29
            } else {
                28
            }
        } else if month == 4 || month == 6 || month == 9 || month == 11 {
            30
        } else {
            31
        };
        if day > limit {
            None
        } else {
            Some(Date { year, month, day })
        }
    }

    /// The same day one year earlier, when that day exists: it does not
    /// for February 29 above a common year, and no year precedes year 1.
    pub fn prev_year(&self) -> (r: Option<Date>)
        requires
            self.valid(),
        ensures
            match r {
                Some(d) => self.year > 1 && valid_ymd(
                    self.year - 1,
                    self.month as int,
                    self.day as int,
                ) && d == (Date { year: (self.year - 1) as u16, ..*self }),
                None => self.year == 1 || !valid_ymd(
                    self.year - 1,
                    self.month as int,
                    self.day as int,
                ),
            },
    {
        if self.year <= 1 {
            return None;
        }
        match Date::new(self.year - 1, self.month, self.day) {
            Some(d) => Some(d),
            None => None,
        }
    }

    /// Render the date as `YYYY-MM-DD`.
    pub fn format_ymd(&self) -> (r: String)
        ensures
            r@ == self.ymd_seq(),
    {
        let mut s = String::new();
        append_dec4(&mut s, self.year as u64);
        s.append("-");
        append_dec2(&mut s, self.month as u64);
        s.append("-");
        append_dec2(&mut s, self.day as u64);
        proof {
            reveal_strlit("-");
            assert(s@ =~= self.ymd_seq());
        }
        s
    }
}

/// Relies on chrono's `Local::now` and `NaiveDate`: the local calendar
/// date right now. The value depends on the clock and the machine's time
/// zone, so nothing relates it to the arguments; chrono documents that
/// the triple names a real calendar day and that its year stays within
/// six digits.
#[verifier::external_body]
fn now_ymd() -> (r: (i32, u32, u32))
    ensures
        valid_ymd(r.0 as int, r.1 as int, r.2 as int) || !(1 <= r.0 <= 9999),
        -1000000 < r.0 < 1000000,
        1 <= r.1 <= 12,
        1 <= r.2 <= 31,
{
    let now = chrono::Local::now().date_naive();
    (chrono::Datelike::year(&now), chrono::Datelike::month(&now), chrono::Datelike::day(&now))
}

/// Today's local date, or `None` in eras the four-digit date format
/// cannot express.
pub fn current_date() -> (r: Option<Date>)
    ensures
        r matches Some(d) ==> d.valid(),
{
    let (y, m, d) = now_ymd();
    if y < 1 || y > 9999 {
        return None;
    }
    Date::new(y as u16, m as u8, d as u8)
}

} // verus!
