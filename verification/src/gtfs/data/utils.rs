//! Values that several tables of the static feed share.

use vstd::prelude::*;

verus! {

/// A calendar date, as its Julian day number.
#[derive(Clone, Copy, Debug, PartialEq, Eq, PartialOrd, Ord, Hash, Structural)]
pub struct Date {
    pub julian_day: i32,
}

/// The day of the week of a Julian day number, from 0 for Monday to 6 for
/// Sunday.
pub open spec fn weekday_of(julian_day: int) -> int {
    julian_day % 7
}

impl Date {
    /// The day of the week, from 0 for Monday to 6 for Sunday.
    pub fn weekday(&self) -> (r: u8)
        ensures
            r == weekday_of(self.julian_day as int),
            r < 7,
    {
        let shifted: i64 = self.julian_day as i64 + 2_147_483_653;
        (shifted % 7) as u8
    }
}

/// The truth value that a number of the feed stands for.
pub open spec fn num_bool_of(code: u8) -> Option<bool> {
    if code == 0 {
        Some(false)
    } else if code == 1 {
        Some(true)
    } else {
        None
    }
}

/// Reads a truth value written as 0 or 1.
pub fn deserialize_num_bool(code: u8) -> (r: Option<bool>)
    ensures
        r == num_bool_of(code),
{
    if code == 0 {
        Some(false)
    } else if code == 1 {
        Some(true)
    } else {
        None
    }
}

} // verus!
