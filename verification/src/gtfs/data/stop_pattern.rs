//! The stop patterns of the static feed.

use vstd::prelude::*;

verus! {

#[derive(Clone, Debug, PartialEq, Eq)]
pub struct StopPattern {
    pub stop_pattern_id: String,
    pub stop_id: String,
    pub stop_sequence: u16,
    pub timepoint: bool,
}

#[derive(Clone, Debug, PartialEq, Eq)]
pub struct StopPatternTrip {
    pub stop_pattern_id: String,
    pub trip_id: String,
    pub trip_sequence: u16,
}

} // verus!
