//! Routes by their identifier.

use crate::gtfs::data::route::RouteType;
use crate::gtfs::data::GtfsData;
use crate::text::same_text;
use vstd::prelude::*;

verus! {

#[derive(Clone, Debug, PartialEq, Eq)]
pub struct Route {
    pub id: String,
    pub agency_id: String,
    pub short_name: String,
    pub long_name: String,
    pub desc: String,
    pub route_type: RouteType,
    pub url: String,
    pub color: String,
    pub text_color: String,
}

/// The route of the lookup that a route of the feed becomes.
pub open spec fn route_of(route: crate::gtfs::data::route::Route) -> Route {
    Route {
        id: route.route_id,
        agency_id: route.agency_id,
        short_name: route.route_short_name,
        long_name: route.route_long_name,
        desc: route.route_desc,
        route_type: route.route_type,
        url: route.route_url,
        color: route.route_color,
        text_color: route.route_text_color,
    }
}

impl Route {
    /// The route of the lookup for a route of the feed, field by field.
    pub fn from(route: &crate::gtfs::data::route::Route) -> (r: Route)
        ensures
            r == route_of(*route),
    {
        Route {
            id: route.route_id.clone(),
            agency_id: route.agency_id.clone(),
            short_name: route.route_short_name.clone(),
            long_name: route.route_long_name.clone(),
            desc: route.route_desc.clone(),
            route_type: route.route_type,
            url: route.route_url.clone(),
            color: route.route_color.clone(),
            text_color: route.route_text_color.clone(),
        }
    }
}

/// Routes by identifier. They are kept in the order of the feed; of two
/// routes with one identifier the later stands for it.
#[derive(Clone, Debug, PartialEq, Eq)]
pub struct RouteDb {
    pub(crate) routes: Vec<Route>,
}

/// The lookup holds the routes of a feed, in its order.
pub open(crate) spec fn built_from(db: RouteDb, routes: Seq<crate::gtfs::data::route::Route>) -> bool {
    &&& db.routes@.len() == routes.len()
    &&& forall|i: int| 0 <= i < routes.len() ==> #[trigger] db.routes@[i] == route_of(routes[i])
}

/// The place of the last route with the identifier `id`, -1 where there is
/// none.
pub open spec fn last_with_id(routes: Seq<Route>, id: Seq<char>) -> int
    decreases routes.len(),
{
    if routes.len() == 0 {
        -1
    } else if routes.last().id@ == id {
        routes.len() - 1
    } else {
        last_with_id(routes.drop_last(), id)
    }
}

impl RouteDb {
    /// The routes of the lookup, in the order of the feed.
    pub open(crate) spec fn entries(self) -> Seq<Route> {
        self.routes@
    }

    /// The route that stands for the identifier `id`.
    pub open spec fn route(self, id: Seq<char>) -> Option<Route> {
        let place = last_with_id(self.entries(), id);
        if 0 <= place < self.entries().len() {
            Some(self.entries()[place])
        } else {
            None
        }
    }

    /// Looks a route up by its identifier.
    pub fn get_route(&self, id: &String) -> (r: Option<&Route>)
        ensures
            match r {
                Some(route) => self.route(id@) == Some(*route) && route.id@ == id@,
                None => self.route(id@).is_none(),
            },
    {
        let mut i: usize = self.routes.len();
        proof {
            assert(self.routes@.subrange(0, i as int) =~= self.routes@);
        }
        while i > 0
            invariant
                i <= self.routes@.len(),
                last_with_id(self.routes@, id@) == last_with_id(
                    self.routes@.subrange(0, i as int),
                    id@,
                ),
            decreases i,
        {
            let ghost upto = self.routes@.subrange(0, i as int);
            assert(upto.last() == self.routes@[i - 1]);
            assert(upto.drop_last() =~= self.routes@.subrange(0, i - 1));
            if same_text(self.routes[i - 1].id.as_str(), id.as_str()) {
                return Some(&self.routes[i - 1]);
            }
            i = i - 1;
        }
        None
    }

    /// The routes of the lookup, in the order of the feed.
    pub fn routes(&self) -> (r: &Vec<Route>)
        ensures
            r@ == self.entries(),
    {
        &self.routes
    }

    /// The lookup of a list of routes, in its order.
    pub fn from_routes(routes: Vec<Route>) -> (r: RouteDb)
        ensures
            r.entries() == routes@,
    {
        RouteDb { routes }
    }

    /// Builds the lookup from the routes of a feed.
    pub fn from(parsed: &GtfsData) -> (r: RouteDb)
        ensures
            built_from(r, parsed.route@),
    {
        let mut routes: Vec<Route> = Vec::new();
        let mut i: usize = 0;
        while i < parsed.route.len()
            invariant
                i <= parsed.route@.len(),
                routes@.len() == i,
                forall|k: int| 0 <= k < i ==> #[trigger] routes@[k] == route_of(parsed.route@[k]),
            decreases parsed.route.len() - i,
        {
            routes.push(Route::from(&parsed.route[i]));
            i = i + 1;
        }
        RouteDb { routes }
    }
}

} // verus!
