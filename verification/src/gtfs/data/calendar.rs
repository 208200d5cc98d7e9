//! The service calendars of the static feed.

use crate::gtfs::data::utils::Date;
use vstd::prelude::*;

verus! {

/// The days of the week on which a service runs, between two dates.
#[derive(Clone, Debug, PartialEq, Eq)]
pub struct Calendar {
    pub service_id: String,
    pub monday: bool,
    pub tuesday: bool,
    pub wednesday: bool,
    pub thursday: bool,
    pub friday: bool,
    pub saturday: bool,
    pub sunday: bool,
    pub start_date: Date,
    pub end_date: Date,
}

/// Whether the calendar has the service run on a day of the week, from 0
/// for Monday to 6 for Sunday.
pub open spec fn runs_on(calendar: Calendar, weekday: int) -> bool {
    if weekday == 0 {
        calendar.monday
    } else if weekday == 1 {
        calendar.tuesday
    } else if weekday == 2 {
        calendar.wednesday
    } else if weekday == 3 {
        calendar.thursday
    } else if weekday == 4 {
        calendar.friday
    } else if weekday == 5 {
        calendar.saturday
    } else {
        calendar.sunday
    }
}

impl Calendar {
    /// Whether the service runs on a day of the week, from 0 for Monday to
    /// 6 for Sunday.
    pub fn runs_on_weekday(&self, weekday: u8) -> (r: bool)
        ensures
            r == runs_on(*self, weekday as int),
    {
        if weekday == 0 {
            self.monday
        } else if weekday == 1 {
            self.tuesday
        } else if weekday == 2 {
            self.wednesday
        } else if weekday == 3 {
            self.thursday
        } else if weekday == 4 {
            self.friday
        } else if weekday == 5 {
            self.saturday
        } else {
            self.sunday
        }
    }
}

#[derive(Clone, Copy, Debug, PartialEq, Eq, Structural)]
pub enum CalendarDateExceptionType {
    ServiceAdded,
    ServiceRemoved,
}

/// The kind of exception that a code of the feed stands for.
pub open spec fn exception_type_of(code: u8) -> Option<CalendarDateExceptionType> {
    if code == 1 {
        Some(CalendarDateExceptionType::ServiceAdded)
    } else if code == 2 {
        Some(CalendarDateExceptionType::ServiceRemoved)
    } else {
        None
    }
}

/// Reads the kind of exception from its code: 1 for a service added, 2 for
/// a service removed.
pub fn deserialize_exception_type(code: u8) -> (r: Option<CalendarDateExceptionType>)
    ensures
        r == exception_type_of(code),
{
    if code == 1 {
        Some(CalendarDateExceptionType::ServiceAdded)
    } else if code == 2 {
        Some(CalendarDateExceptionType::ServiceRemoved)
    } else {
        None
    }
}

/// One date on which a service departs from its calendar.
#[derive(Clone, Debug, PartialEq, Eq)]
pub struct CalendarDate {
    pub service_id: String,
    pub date: Date,
    pub exception_type: CalendarDateExceptionType,
}

} // verus!
