//! Proleptic Gregorian calendar dates as plain numbers, and the
//! month-end arithmetic that the invoice date policy needs.

use vstd::prelude::*;

verus! {

/// A calendar date held as plain year, month and day numbers.
#[derive(Clone, Copy, PartialEq, Eq, Structural, Debug)]
pub struct Date {
    pub year: i32,
    pub month: u8,
    pub day: u8,
}

/// A Gregorian leap year: divisible by 4, except centuries not divisible
/// by 400.
pub open spec fn is_leap_year(y: int) -> bool {
    (y % 4 == 0 && y % 100 != 0) || y % 400 == 0
}

/// How many days month `m` of year `y` has.
pub open spec fn days_in_month_of(y: int, m: int) -> int {
    if m == 2 {
        if is_leap_year(y) {
            29
        } else {
            28
        }
    } else if m == 4 || m == 6 || m == 9 || m == 11 {
        30
    } else {
        31
    }
}

/// The last day of month `m` of year `y`.
pub open spec fn month_end_of(y: int, m: int) -> Date {
    Date { year: y as i32, month: m as u8, day: days_in_month_of(y, m) as u8 }
}

/// The month after `(y, m)`, rolling over into January of the next year.
pub open spec fn month_after(y: int, m: int) -> (int, int) {
    if m == 12 {
        (y + 1, 1)
    } else {
        (y, m + 1)
    }
}

/// The last day of the month after `(y, m)`: the due date an invoice
/// raised in month `(y, m)` carries.
pub open spec fn due_date_of(y: int, m: int) -> Date {
    month_end_of(month_after(y, m).0, month_after(y, m).1)
}

impl Date {
    /// A well-formed date: the month exists and the day lies within it.
    pub open spec fn wf(self) -> bool {
        &&& 1 <= self.month <= 12
        &&& 1 <= self.day <= days_in_month_of(self.year as int, self.month as int)
    }
}

/// Whether `y` is a Gregorian leap year.
pub fn leap_year(y: i32) -> (r: bool)
    ensures
        r == is_leap_year(y as int),
{
    (y % 4 == 0 && y % 100 != 0) || y % 400 == 0
}

/// The number of days in month `m` of year `y`.
pub fn days_in_month(y: i32, m: u8) -> (r: u8)
    requires
        1 <= m <= 12,
    ensures
        r as int == days_in_month_of(y as int, m as int),
{
    if m == 2 {
        if leap_year(y) {
            29
        } else {
            28
        }
    } else if m == 4 || m == 6 || m == 9 || m == 11 {
        30
    } else {
        31
    }
}

/// The last day of month `m` of year `y`, as a date.
pub fn month_end(y: i32, m: u8) -> (r: Date)
    requires
        1 <= m <= 12,
    ensures
        r == month_end_of(y as int, m as int),
        r.wf(),
{
    Date { year: y, month: m, day: days_in_month(y, m) }
}

/// The last day of the month after `(y, m)`.
pub fn due_date(y: i32, m: u8) -> (r: Date)
    requires
        1 <= m <= 12,
        y < i32::MAX,
    ensures
        r == due_date_of(y as int, m as int),
        r.wf(),
{
    if m == 12 {
        month_end(y + 1, 1)
    } else {
        month_end(y, m + 1)
    }
}

} // verus!
