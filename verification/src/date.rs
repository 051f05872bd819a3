//! Calendar dates as the registry compares them.

use vstd::prelude::*;

verus! {

/// A calendar date. Two dates are the same day exactly when year, month and
/// day all agree; nothing else about a date is ever inspected.
#[derive(Clone, Copy, Debug, PartialEq, Eq, Structural)]
pub struct Date {
    pub year: i32,
    pub month: u32,
    pub day: u32,
}

impl Date {
    /// The date with these three parts, taken as they are.
    pub fn new(year: i32, month: u32, day: u32) -> (date: Date)
        ensures
            date == (Date { year, month, day }),
    {
        Date { year, month, day }
    }

    /// Whether `self` and `other` name the same calendar day.
    pub fn same_day(&self, other: &Date) -> (same: bool)
        ensures
            same == (*self == *other),
    {
        self.year == other.year && self.month == other.month && self.day == other.day
    }
}

} // verus!
