//! Calendar dates as plain values.
//!
//! The engine only ever compares dates and uses them as keys, so a date is
//! three plain integers ordered lexicographically; it is never validated
//! against a calendar.

use vstd::prelude::*;

verus! {

/// A calendar date, ordered by year, then month, then day.
#[derive(Clone, Copy, PartialEq, Eq, Structural, Debug)]
pub struct Date {
    pub year: i32,
    pub month: u8,
    pub day: u8,
}

impl Date {
    /// Strict lexicographic order on (year, month, day).
    pub open spec fn lt_spec(self, other: Date) -> bool {
        self.year < other.year || (self.year == other.year && (self.month < other.month || (
        self.month == other.month && self.day < other.day)))
    }

    /// Reflexive order on (year, month, day).
    pub open spec fn le_spec(self, other: Date) -> bool {
        self.lt_spec(other) || self == other
    }

    pub fn from_ymd(year: i32, month: u8, day: u8) -> (d: Date)
        ensures
            d == (Date { year, month, day }),
    {
        Date { year, month, day }
    }

    /// Whether this date falls strictly before `other`.
    pub fn before(&self, other: &Date) -> (r: bool)
        ensures
            r == self.lt_spec(*other),
    {
        self.year < other.year || (self.year == other.year && (self.month < other.month || (
        self.month == other.month && self.day < other.day)))
    }

    /// Whether this date falls before `other` or equals it.
    pub fn before_or_equal(&self, other: &Date) -> (r: bool)
        ensures
            r == self.le_spec(*other),
    {
        self.year < other.year || (self.year == other.year && (self.month < other.month || (
        self.month == other.month && self.day <= other.day)))
    }

    /// Whether two dates are the same day.
    pub fn same(&self, other: &Date) -> (r: bool)
        ensures
            r == (*self == *other),
    {
        self.year == other.year && self.month == other.month && self.day == other.day
    }
}

} // verus!
