//! The tables of the static feed.

use crate::gtfs::data::agency::Agency;
use crate::gtfs::data::calendar::{Calendar, CalendarDate};
use crate::gtfs::data::feed_data::FeedInfo;
use crate::gtfs::data::route::Route;
use crate::gtfs::data::stop_pattern::{StopPattern, StopPatternTrip};
use crate::gtfs::data::trip::Trip;
use vstd::prelude::*;

pub mod agency;
pub mod calendar;
pub mod feed_data;
pub mod route;
pub mod stop;
pub mod stop_pattern;
pub mod time;
pub mod trip;
pub mod utils;

verus! {

/// The tables of one static feed that the lookups are built from.
#[derive(Clone, Debug, PartialEq, Eq)]
pub struct GtfsData {
    pub agency: Vec<Agency>,
    pub calendar: Vec<Calendar>,
    pub calendar_date: Vec<CalendarDate>,
    pub feed_info: Vec<FeedInfo>,
    pub route: Vec<Route>,
    pub stop_pattern: Vec<StopPattern>,
    pub stop_pattern_trip: Vec<StopPatternTrip>,
    pub trip: Vec<Trip>,
}

} // verus!
