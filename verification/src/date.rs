//! Calendar stamps carried by books and transactions.

use vstd::prelude::*;

verus! {

/// A day, month and year as they were entered. No calendar rule is applied:
/// the three numbers are an opaque stamp.
#[derive(Clone, Copy, Debug, PartialEq, Eq, Structural)]
pub struct Date {
    pub day: i32,
    pub month: i32,
    pub year: i32,
}

impl Date {
    /// Builds the stamp from its three parts, unchanged.
    pub fn new(day: i32, month: i32, year: i32) -> (date: Self)
        ensures
            date.day == day,
            date.month == month,
            date.year == year,
    {
        Date { day, month, year }
    }
}

} // verus!
