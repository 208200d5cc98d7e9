//! Lookups over the static feed, by identifier.

use crate::db::routes::RouteDb;
use crate::db::services::ServiceDb;
use crate::gtfs::data::GtfsData;
use vstd::prelude::*;

pub mod routes;
pub mod services;

verus! {

/// The lookups built from one static feed.
#[derive(Clone, Debug, PartialEq, Eq)]
pub struct Database {
    pub routes: RouteDb,
    pub services: ServiceDb,
}

impl Database {
    /// Builds the lookups from the tables of a feed.
    pub fn from(parsed: &GtfsData) -> (r: Database)
        ensures
            routes::built_from(r.routes, parsed.route@),
            services::built_from(r.services, parsed.calendar@, parsed.calendar_date@),
    {
        Database { routes: RouteDb::from(parsed), services: ServiceDb::from(parsed) }
    }
}

} // verus!
