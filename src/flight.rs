//! The rules of a flight booking form: the kind of flight, and date inputs
//! that may not fall before a given earliest date.
use std::cmp::Ordering;
use vstd::prelude::*;

verus! {

#[derive(PartialEq, Eq, Structural, Clone, Copy, Debug)]
pub enum FlightKind {
    OneWay,
    Return,
}

impl FlightKind {
    pub fn default() -> (r: FlightKind)
        ensures
            r == FlightKind::OneWay,
    {
        FlightKind::OneWay
    }

    /// The label of the kind, as shown to the user.
    pub fn as_str(&self) -> (r: &'static str)
        ensures
            *self == FlightKind::OneWay ==> r@ == "one-way flight"@,
            *self == FlightKind::Return ==> r@ == "return flight"@,
    {
        match self {
            FlightKind::OneWay => "one-way flight",
            FlightKind::Return => "return flight",
        }
    }
}

/// Whether `year` is a leap year of the Gregorian calendar.
pub open spec fn is_leap_year(year: int) -> bool {
    year % 4 == 0 && (year % 100 != 0 || year % 400 == 0)
}

/// The number of days of month `month` (1 to 12) of `year`.
pub open spec fn days_in_month_spec(year: int, month: int) -> int {
    if month == 2 {
        if is_leap_year(year) {
            29
        } else {
            28
        }
    } else if month == 4 || month == 6 || month == 9 || month == 11 {
        30
    } else {
        31
    }
}

/// Relies on time's `Month::try_from(u8)`, which accepts 1 to 12, and
/// `util::days_in_month`, the length of that month in that year of the
/// Gregorian calendar.
#[verifier::external_body]
fn month_length(year: i32, month: u8) -> (r: u8)
    requires
        1 <= month <= 12,
    ensures
        r as int == days_in_month_spec(year as int, month as int),
{
    match time::Month::try_from(month) {
        Ok(m) => time::util::days_in_month(m, year),
        Err(_) => 0,
    }
}

/// A date as the form edits it: year, month from 1 to 12, day of month.
#[derive(PartialEq, Eq, Structural, Clone, Copy, Debug)]
pub struct DateInput {
    pub year: i32,
    pub month: u8,
    pub day: u8,
}

/// A valid calendar date.
pub open spec fn is_valid(d: DateInput) -> bool {
    1 <= d.month <= 12 && 1 <= d.day <= days_in_month_spec(d.year as int, d.month as int)
}

/// Whether `a` falls before `b`, by year, then month, then day.
pub open spec fn is_before(a: DateInput, b: DateInput) -> bool {
    a.year < b.year || (a.year == b.year && (a.month < b.month || (a.month == b.month && a.day
        < b.day)))
}

/// The smallest day a date in the same month as `d` may take so as not to
/// fall before `min`.
pub open spec fn first_allowed_day(d: DateInput, min: DateInput) -> int {
    if d.year == min.year && d.month == min.month {
        min.day as int
    } else {
        1
    }
}

/// What `constrain_to` makes of `d`: the earliest date when `d` falls
/// before it, and otherwise `d` with its day brought into the allowed range
/// of its month.
pub open spec fn constrained(d: DateInput, min: DateInput) -> DateInput {
    if is_before(d, min) {
        min
    } else {
        let lo = first_allowed_day(d, min);
        let hi = days_in_month_spec(d.year as int, d.month as int);
        DateInput {
            day: if (d.day as int) < lo {
                lo as u8
            } else if (d.day as int) > hi {
                hi as u8
            } else {
                d.day
            },
            ..d
        }
    }
}

impl DateInput {
    pub fn new(year: i32, month: u8, day: u8) -> (r: DateInput)
        ensures
            r == (DateInput { year, month, day }),
    {
        DateInput { year, month, day }
    }

    /// Compares by year, then month, then day.
    pub fn cmp(&self, other: &DateInput) -> (r: Ordering)
        ensures
            (r == Ordering::Less) == is_before(*self, *other),
            (r == Ordering::Equal) == (*self == *other),
            (r == Ordering::Greater) == is_before(*other, *self),
    {
        if self.year != other.year {
            if self.year < other.year {
                Ordering::Less
            } else {
                Ordering::Greater
            }
        } else if self.month != other.month {
            if self.month < other.month {
                Ordering::Less
            } else {
                Ordering::Greater
            }
        } else if self.day != other.day {
            if self.day < other.day {
                Ordering::Less
            } else {
                Ordering::Greater
            }
        } else {
            Ordering::Equal
        }
    }

    pub fn set_date(&mut self, date: &DateInput)
        ensures
            *final(self) == *date,
    {
        *self = *date;
    }

    /// The number of days in this date's month.
    pub fn days_in_month(&self) -> (r: u8)
        requires
            1 <= self.month <= 12,
        ensures
            r as int == days_in_month_spec(self.year as int, self.month as int),
    {
        month_length(self.year, self.month)
    }

    /// The first month that may be chosen in this date's year without
    /// falling before `min`.
    pub fn first_allowed_month(&self, min: &DateInput) -> (r: u8)
        ensures
            r == if self.year == min.year {
                min.month
            } else {
                1
            },
    {
        if self.year == min.year {
            min.month
        } else {
            1
        }
    }

    /// The range of days that may be chosen in this date's month without
    /// falling before `min`.
    pub fn allowed_days(&self, min: &DateInput) -> (r: (u8, u8))
        requires
            1 <= self.month <= 12,
        ensures
            r.0 as int == first_allowed_day(*self, *min),
            r.1 as int == days_in_month_spec(self.year as int, self.month as int),
    {
        let lo = if self.year == min.year && self.month == min.month {
            min.day
        } else {
            1
        };
        (lo, self.days_in_month())
    }

    /// Brings the date to `min` when it falls before it, and otherwise its
    /// day into the allowed range of its month. Returns whether it changed.
    /// The result is a valid date not before `min`.
    pub fn constrain_to(&mut self, min: &DateInput) -> (r: bool)
        requires
            1 <= old(self).month <= 12,
            is_valid(*min),
        ensures
            *final(self) == constrained(*old(self), *min),
            r == (*final(self) != *old(self)),
            is_valid(*final(self)),
            !is_before(*final(self), *min),
    {
        if is_before_exec(self, min) {
            let changed = *self != *min;
            *self = *min;
            return changed;
        }
        let (lo, hi) = self.allowed_days(min);
        let old_day = self.day;
        if self.day < lo {
            self.day = lo;
        } else if self.day > hi {
            self.day = hi;
        }
        self.day != old_day
    }
}

fn is_before_exec(a: &DateInput, b: &DateInput) -> (r: bool)
    ensures
        r == is_before(*a, *b),
{
    match a.cmp(b) {
        Ordering::Less => true,
        _ => false,
    }
}

} // verus!
