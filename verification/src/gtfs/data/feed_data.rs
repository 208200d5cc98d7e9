//! What the static feed says of itself.

use crate::gtfs::data::utils::Date;
use vstd::prelude::*;

verus! {

#[derive(Clone, Debug, PartialEq, Eq)]
pub struct FeedInfo {
    pub feed_publisher_name: String,
    pub feed_publisher_url: String,
    pub feed_lang: String,
    pub feed_start_date: Date,
    pub feed_end_date: Date,
    pub feed_version: String,
}

} // verus!
