//! Times of day as the static feed writes them: `H:MM:SS`, where the hour
//! runs past 24 for a journey that goes on after midnight.

use crate::gtfs::data::utils::Date;
use crate::text::{parse_short_number, short_number};
use vstd::prelude::*;

verus! {

#[derive(Clone, Copy, Debug, PartialEq, Eq, Structural)]
pub enum TimeError {
    /// A part of the time is not a number below 256.
    ParseIntError,
    InvalidSecond,
    /// The minute is above 60.
    InvalidMinute,
    /// The time is not three parts with colons between them.
    InvalidFormat,
}

#[derive(Clone, Copy, Debug, PartialEq, Eq, Structural)]
pub struct Time {
    pub hour: u8,
    pub minute: u8,
    pub second: u8,
}

/// The place of the first colon of `s` at or after `from`, the length of
/// `s` where there is none.
pub open spec fn colon_from(s: Seq<char>, from: int) -> int
    decreases s.len() - from,
{
    if from < 0 || from >= s.len() {
        s.len() as int
    } else if s[from] == ':' {
        from
    } else {
        colon_from(s, from + 1)
    }
}

/// The number below 256 that `s` writes in decimal digits.
pub open spec fn small_number(s: Seq<char>) -> Option<u8> {
    match short_number(s) {
        Some(n) if n <= 255 => Some(n as u8),
        _ => None,
    }
}

/// What `Time::new` makes of three numbers.
pub open spec fn checked(hour: u8, minute: u8, second: u8) -> Result<Time, TimeError> {
    if minute > 60 {
        Err(TimeError::InvalidMinute)
    } else {
        Ok(Time { hour, minute, second })
    }
}

/// The time that `s` writes: the text before the first colon is the hour,
/// the text up to the next colon the minute, and the rest the second.
pub open spec fn time_written(s: Seq<char>) -> Result<Time, TimeError> {
    let first = colon_from(s, 0);
    let second = colon_from(s, first + 1);
    if first >= s.len() || second >= s.len() {
        Err(TimeError::InvalidFormat)
    } else {
        match (
            small_number(s.subrange(0, first)),
            small_number(s.subrange(first + 1, second)),
            small_number(s.subrange(second + 1, s.len() as int)),
        ) {
            (Some(hour), Some(minute), Some(second)) => checked(hour, minute, second),
            _ => Err(TimeError::ParseIntError),
        }
    }
}

fn find_colon(s: &str, from: usize) -> (r: usize)
    ensures
        r == colon_from(s@, from as int),
        r <= s@.len(),
        from <= s@.len() ==> from <= r,
{
    let n: usize = s.unicode_len();
    let mut i: usize = from;
    while i < n
        invariant
            n == s@.len(),
            from <= i,
            colon_from(s@, from as int) == colon_from(s@, i as int),
        decreases n - i,
    {
        if s.get_char(i) == ':' {
            return i;
        }
        i = i + 1;
    }
    n
}

fn read_small_number(s: &str) -> (r: Option<u8>)
    ensures
        r == small_number(s@),
{
    match parse_short_number(s) {
        Some(n) => if n <= 255 {
            Some(n as u8)
        } else {
            None
        },
        None => None,
    }
}

impl Time {
    /// A time of three numbers. The minute is refused above 60; the hour
    /// and the second are taken as they are.
    pub fn new(hour: u8, minute: u8, second: u8) -> (r: Result<Time, TimeError>)
        ensures
            r == checked(hour, minute, second),
    {
        if minute > 60 {
            Err(TimeError::InvalidMinute)
        } else {
            Ok(Time { hour, minute, second })
        }
    }

    /// Reads a time written as `H:MM:SS`.
    pub fn from_str(s: &str) -> (r: Result<Time, TimeError>)
        ensures
            r == time_written(s@),
    {
        let n: usize = s.unicode_len();
        let first = find_colon(s, 0);
        if first >= n {
            return Err(TimeError::InvalidFormat);
        }
        let second = find_colon(s, first + 1);
        if second >= n {
            return Err(TimeError::InvalidFormat);
        }
        let hour = read_small_number(s.substring_char(0, first));
        let minute = read_small_number(s.substring_char(first + 1, second));
        let sec = read_small_number(s.substring_char(second + 1, n));
        match (hour, minute, sec) {
            (Some(hour), Some(minute), Some(sec)) => Time::new(hour, minute, sec),
            _ => Err(TimeError::ParseIntError),
        }
    }

    /// The time on the clock, as hour, minute and second, and the number of
    /// days after the day of service on which the clock shows it.
    pub fn to_time(&self) -> (r: ((u8, u8, u8), u8))
        ensures
            r.0.0 == self.hour % 24,
            r.0.1 == self.minute,
            r.0.2 == self.second,
            r.1 == self.hour / 24,
    {
        ((self.hour % 24, self.minute, self.second), self.hour / 24)
    }

    /// The date and the time on the clock for a service of the day `date`.
    pub fn to_datetime(&self, date: Date) -> (r: (Date, (u8, u8, u8)))
        requires
            date.julian_day + self.hour / 24 <= i32::MAX,
        ensures
            r.0.julian_day == date.julian_day + self.hour / 24,
            r.1.0 == self.hour % 24,
            r.1.1 == self.minute,
            r.1.2 == self.second,
    {
        let (time, days_to_add) = self.to_time();
        (Date { julian_day: date.julian_day + days_to_add as i32 }, time)
    }
}

/// Reads a time of the feed from a field of a record.
pub fn deserialize_time_struct(s: &str) -> (r: Result<Time, TimeError>)
    ensures
        r == time_written(s@),
{
    Time::from_str(s)
}

} // verus!
