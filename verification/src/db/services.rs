//! Services by their identifier, each with the days on which it runs.

use crate::gtfs::data::calendar::{runs_on, Calendar, CalendarDate, CalendarDateExceptionType};
use crate::gtfs::data::utils::{weekday_of, Date};
use crate::gtfs::data::GtfsData;
use crate::text::same_text;
use vstd::prelude::*;

verus! {

/// A service and the days on which it runs. No day is held twice.
#[derive(Clone, Debug, PartialEq, Eq)]
pub struct Service {
    pub(crate) id: String,
    pub(crate) dates: Vec<Date>,
}

/// The days that a list of dates holds, as Julian day numbers.
pub open spec fn days_of(dates: Seq<Date>) -> Set<int> {
    Set::new(|d: int| exists|k: int| 0 <= k < dates.len() && (#[trigger] dates[k]).julian_day == d)
}

/// No date of the list occurs twice.
pub open spec fn no_day_twice(dates: Seq<Date>) -> bool {
    forall|j: int, k: int|
        0 <= j < k < dates.len() ==> (#[trigger] dates[j]).julian_day != (
        #[trigger] dates[k]).julian_day
}

/// The days from the start of a calendar up to, and without, its end on
/// which the calendar has the service run.
pub open spec fn regular_days(calendar: Calendar) -> Set<int> {
    Set::new(
        |d: int|
            calendar.start_date.julian_day <= d < calendar.end_date.julian_day && runs_on(
                calendar,
                weekday_of(d),
            ),
    )
}

/// The feed lists an exception of the kind for the service.
pub open spec fn has_exception(
    exceptions: Seq<CalendarDate>,
    id: Seq<char>,
    kind: CalendarDateExceptionType,
) -> bool {
    exists|k: int|
        0 <= k < exceptions.len() && (#[trigger] exceptions[k]).service_id@ == id
            && exceptions[k].exception_type == kind
}

/// The feed lists an exception of the kind for the service on the day.
pub open spec fn excepted(
    exceptions: Seq<CalendarDate>,
    id: Seq<char>,
    kind: CalendarDateExceptionType,
    day: int,
) -> bool {
    exists|k: int|
        0 <= k < exceptions.len() && (#[trigger] exceptions[k]).service_id@ == id
            && exceptions[k].exception_type == kind && exceptions[k].date.julian_day == day
}

/// The days on which the feed lists an exception of the kind for the
/// service.
pub open spec fn listed_days(
    exceptions: Seq<CalendarDate>,
    id: Seq<char>,
    kind: CalendarDateExceptionType,
) -> Set<int> {
    Set::new(|d: int| excepted(exceptions, id, kind, d))
}

/// The days on which the service of a calendar runs, given the exceptions
/// of the feed.
///
/// Where the feed lists removals for the service, only the regular days
/// that it lists as removed are kept. The days that the feed lists as added
/// go to the first calendar of the service alone.
pub open spec fn days_in_force(calendar: Calendar, exceptions: Seq<CalendarDate>, first: bool) -> Set<
    int,
> {
    let id = calendar.service_id@;
    let kept = if has_exception(exceptions, id, CalendarDateExceptionType::ServiceRemoved) {
        regular_days(calendar).intersect(
            listed_days(exceptions, id, CalendarDateExceptionType::ServiceRemoved),
        )
    } else {
        regular_days(calendar)
    };
    if first {
        kept.union(listed_days(exceptions, id, CalendarDateExceptionType::ServiceAdded))
    } else {
        kept
    }
}

/// No earlier calendar of the list is for the same service.
pub open spec fn is_first_with_id(calendar: Seq<Calendar>, place: int) -> bool {
    forall|j: int| 0 <= j < place ==> (#[trigger] calendar[j]).service_id@ != calendar[place].service_id@
}

impl Service {
    /// The identifier of the service.
    pub open(crate) spec fn id(self) -> Seq<char> {
        self.id@
    }

    /// The days on which the service runs, as Julian day numbers.
    pub open(crate) spec fn days(self) -> Set<int> {
        days_of(self.dates@)
    }

    /// No day is held twice.
    pub open(crate) spec fn wf(self) -> bool {
        no_day_twice(self.dates@)
    }

    pub fn service_id(&self) -> (r: &String)
        ensures
            r@ == self.id(),
    {
        &self.id
    }

    /// The days on which the service runs.
    pub fn dates(&self) -> (r: &Vec<Date>)
        ensures
            days_of(r@) == self.days(),
    {
        &self.dates
    }

    /// The service that runs on the days of a list, each day held once.
    pub fn from_dates(id: String, dates: &Vec<Date>) -> (r: Service)
        ensures
            r.id() == id@,
            r.days() == days_of(dates@),
            r.wf(),
    {
        let mut held: Vec<Date> = Vec::new();
        let mut k: usize = 0;
        proof {
            assert(days_of(held@) =~= days_of(dates@.subrange(0, 0)));
        }
        while k < dates.len()
            invariant
                k <= dates@.len(),
                no_day_twice(held@),
                days_of(held@) == days_of(dates@.subrange(0, k as int)),
            decreases dates.len() - k,
        {
            proof {
                assert(dates@.subrange(0, k + 1) =~= dates@.subrange(0, k as int).push(
                    dates@[k as int],
                ));
                lemma_days_of_push(dates@.subrange(0, k as int), dates@[k as int]);
            }
            if !holds_day(&held, dates[k].julian_day) {
                proof {
                    lemma_days_of_push(held@, dates@[k as int]);
                    lemma_no_day_twice_push(held@, dates@[k as int]);
                }
                held.push(dates[k]);
            }
            proof {
                assert(days_of(held@) =~= days_of(dates@.subrange(0, k + 1)));
            }
            k = k + 1;
        }
        proof {
            assert(dates@.subrange(0, k as int) =~= dates@);
        }
        Service { id, dates: held }
    }

    /// The service of a calendar: it runs on each day from the start up to,
    /// and without, the end whose day of the week the calendar names.
    pub fn from(calendar: &Calendar) -> (r: Service)
        ensures
            r.id() == calendar.service_id@,
            r.days() == regular_days(*calendar),
            r.wf(),
    {
        let mut dates: Vec<Date> = Vec::new();
        let mut curr: i32 = calendar.start_date.julian_day;
        let end: i32 = calendar.end_date.julian_day;
        while curr < end
            invariant
                calendar.start_date.julian_day <= curr,
                curr <= end || curr == calendar.start_date.julian_day,
                end == calendar.end_date.julian_day,
                no_day_twice(dates@),
                forall|k: int| 0 <= k < dates@.len() ==> (#[trigger] dates@[k]).julian_day < curr,
                forall|d: int|
                    days_of(dates@).contains(d) <==> (calendar.start_date.julian_day <= d < curr
                        && runs_on(*calendar, weekday_of(d))),
            decreases end - curr,
        {
            let today = Date { julian_day: curr };
            if calendar.runs_on_weekday(today.weekday()) {
                proof {
                    lemma_days_of_push(dates@, today);
                    lemma_no_day_twice_push(dates@, today);
                }
                dates.push(today);
            }
            curr = curr + 1;
        }
        proof {
            assert(days_of(dates@) =~= regular_days(*calendar));
        }
        Service { id: calendar.service_id.clone(), dates }
    }
}

/// Services by identifier. They are kept in the order of the feed's
/// calendars; of two with one identifier the later stands for it.
#[derive(Clone, Debug, PartialEq, Eq)]
pub struct ServiceDb {
    pub(crate) services: Vec<Service>,
}

/// The lookup holds, for each calendar of a feed and in its order, the
/// service with the days in force.
pub open(crate) spec fn built_from(
    db: ServiceDb,
    calendar: Seq<Calendar>,
    exceptions: Seq<CalendarDate>,
) -> bool {
    &&& db.services@.len() == calendar.len()
    &&& forall|i: int|
        0 <= i < calendar.len() ==> {
            &&& (#[trigger] db.services@[i]).id() == calendar[i].service_id@
            &&& db.services@[i].days() == days_in_force(
                calendar[i],
                exceptions,
                is_first_with_id(calendar, i),
            )
            &&& db.services@[i].wf()
        }
}

/// The place of the last service with the identifier `id`, -1 where there
/// is none.
pub open(crate) spec fn last_with_id(services: Seq<Service>, id: Seq<char>) -> int
    decreases services.len(),
{
    if services.len() == 0 {
        -1
    } else if services.last().id() == id {
        services.len() - 1
    } else {
        last_with_id(services.drop_last(), id)
    }
}

fn lists_exception(exceptions: &Vec<CalendarDate>, id: &str, kind: CalendarDateExceptionType) -> (r:
    bool)
    ensures
        r == has_exception(exceptions@, id@, kind),
{
    let mut k: usize = 0;
    while k < exceptions.len()
        invariant
            k <= exceptions@.len(),
            forall|j: int|
                0 <= j < k ==> !((#[trigger] exceptions@[j]).service_id@ == id@
                    && exceptions@[j].exception_type == kind),
        decreases exceptions.len() - k,
    {
        if exceptions[k].exception_type == kind && same_text(
            exceptions[k].service_id.as_str(),
            id,
        ) {
            return true;
        }
        k = k + 1;
    }
    false
}

fn lists_exception_on(
    exceptions: &Vec<CalendarDate>,
    id: &str,
    kind: CalendarDateExceptionType,
    day: i32,
) -> (r: bool)
    ensures
        r == excepted(exceptions@, id@, kind, day as int),
{
    let mut k: usize = 0;
    while k < exceptions.len()
        invariant
            k <= exceptions@.len(),
            forall|j: int|
                0 <= j < k ==> !((#[trigger] exceptions@[j]).service_id@ == id@
                    && exceptions@[j].exception_type == kind && exceptions@[j].date.julian_day
                    == day),
        decreases exceptions.len() - k,
    {
        if exceptions[k].exception_type == kind && exceptions[k].date.julian_day == day
            && same_text(exceptions[k].service_id.as_str(), id) {
            return true;
        }
        k = k + 1;
    }
    false
}

fn holds_day(dates: &Vec<Date>, day: i32) -> (r: bool)
    ensures
        r == days_of(dates@).contains(day as int),
{
    let mut k: usize = 0;
    while k < dates.len()
        invariant
            k <= dates@.len(),
            forall|j: int| 0 <= j < k ==> (#[trigger] dates@[j]).julian_day != day,
        decreases dates.len() - k,
    {
        if dates[k].julian_day == day {
            return true;
        }
        k = k + 1;
    }
    false
}

fn first_with_id(calendar: &Vec<Calendar>, place: usize) -> (r: bool)
    requires
        place < calendar@.len(),
    ensures
        r == is_first_with_id(calendar@, place as int),
{
    let mut j: usize = 0;
    while j < place
        invariant
            j <= place < calendar@.len(),
            forall|k: int|
                0 <= k < j ==> (#[trigger] calendar@[k]).service_id@ != calendar@[place as int].service_id@,
        decreases place - j,
    {
        if same_text(calendar[j].service_id.as_str(), calendar[place].service_id.as_str()) {
            return false;
        }
        j = j + 1;
    }
    true
}

/// Pushing a date adds its day to the days held.
proof fn lemma_days_of_push(dates: Seq<Date>, date: Date)
    ensures
        days_of(dates.push(date)) == days_of(dates).insert(date.julian_day as int),
{
    let pushed = dates.push(date);
    assert forall|d: int| days_of(pushed).contains(d) <==> days_of(dates).insert(
        date.julian_day as int,
    ).contains(d) by {
        if days_of(pushed).contains(d) {
            let k = choose|k: int| 0 <= k < pushed.len() && (#[trigger] pushed[k]).julian_day == d;
            if k < dates.len() {
                assert(dates[k].julian_day == d);
            }
        }
        if days_of(dates).contains(d) {
            let k = choose|k: int| 0 <= k < dates.len() && (#[trigger] dates[k]).julian_day == d;
            assert(pushed[k].julian_day == d);
        }
        if d == date.julian_day {
            assert(pushed[dates.len() as int].julian_day == d);
        }
    }
    assert(days_of(pushed) =~= days_of(dates).insert(date.julian_day as int));
}

/// Pushing a date whose day is not held keeps every day held once.
proof fn lemma_no_day_twice_push(dates: Seq<Date>, date: Date)
    requires
        no_day_twice(dates),
        !days_of(dates).contains(date.julian_day as int),
    ensures
        no_day_twice(dates.push(date)),
{
    let pushed = dates.push(date);
    assert forall|j: int, k: int| 0 <= j < k < pushed.len() implies (
    #[trigger] pushed[j]).julian_day != (#[trigger] pushed[k]).julian_day by {
        if k == dates.len() {
            if dates[j].julian_day == date.julian_day {
                assert(days_of(dates).contains(date.julian_day as int));
            }
        } else {
            assert(pushed[j] == dates[j] && pushed[k] == dates[k]);
        }
    }
}

/// One more exception of a list adds its day where it is of the kind and
/// for the service.
proof fn lemma_listed_days_step(
    exceptions: Seq<CalendarDate>,
    id: Seq<char>,
    kind: CalendarDateExceptionType,
    k: int,
)
    requires
        0 <= k < exceptions.len(),
    ensures
        listed_days(exceptions.subrange(0, k + 1), id, kind) == if exceptions[k].service_id@ == id
            && exceptions[k].exception_type == kind {
            listed_days(exceptions.subrange(0, k), id, kind).insert(
                exceptions[k].date.julian_day as int,
            )
        } else {
            listed_days(exceptions.subrange(0, k), id, kind)
        },
{
    let seen = exceptions.subrange(0, k);
    let next = exceptions.subrange(0, k + 1);
    let matches = exceptions[k].service_id@ == id && exceptions[k].exception_type == kind;
    let expected = if matches {
        listed_days(seen, id, kind).insert(exceptions[k].date.julian_day as int)
    } else {
        listed_days(seen, id, kind)
    };
    assert forall|d: int| listed_days(next, id, kind).contains(d) <==> expected.contains(d) by {
        if listed_days(next, id, kind).contains(d) {
            let w = choose|w: int|
                0 <= w < next.len() && (#[trigger] next[w]).service_id@ == id
                    && next[w].exception_type == kind && next[w].date.julian_day == d;
            if w < k {
                assert(seen[w] == next[w]);
                assert(excepted(seen, id, kind, d));
            }
        }
        if expected.contains(d) {
            if listed_days(seen, id, kind).contains(d) {
                let w = choose|w: int|
                    0 <= w < seen.len() && (#[trigger] seen[w]).service_id@ == id
                        && seen[w].exception_type == kind && seen[w].date.julian_day == d;
                assert(next[w] == seen[w]);
                assert(excepted(next, id, kind, d));
            } else {
                assert(next[k] == exceptions[k]);
                assert(excepted(next, id, kind, d));
            }
        }
    }
    assert(listed_days(next, id, kind) =~= expected);
}

/// The dates of `dates` that the feed lists as removed for the service.
fn keep_removed(dates: &Vec<Date>, exceptions: &Vec<CalendarDate>, id: &str) -> (r: Vec<Date>)
    requires
        no_day_twice(dates@),
    ensures
        no_day_twice(r@),
        days_of(r@) == days_of(dates@).intersect(
            listed_days(exceptions@, id@, CalendarDateExceptionType::ServiceRemoved),
        ),
{
    let ghost removed = listed_days(exceptions@, id@, CalendarDateExceptionType::ServiceRemoved);
    let mut kept: Vec<Date> = Vec::new();
    let mut i: usize = 0;
    proof {
        assert(days_of(kept@) =~= days_of(dates@.subrange(0, 0)).intersect(removed));
    }
    while i < dates.len()
        invariant
            i <= dates@.len(),
            no_day_twice(dates@),
            no_day_twice(kept@),
            removed == listed_days(exceptions@, id@, CalendarDateExceptionType::ServiceRemoved),
            days_of(kept@) == days_of(dates@.subrange(0, i as int)).intersect(removed),
        decreases dates.len() - i,
    {
        let day = dates[i].julian_day;
        let ghost seen = dates@.subrange(0, i as int);
        proof {
            assert(dates@.subrange(0, i + 1) =~= seen.push(dates@[i as int]));
            lemma_days_of_push(seen, dates@[i as int]);
            if days_of(seen).contains(day as int) {
                let w = choose|w: int| 0 <= w < seen.len() && (#[trigger] seen[w]).julian_day == day;
                assert(dates@[w].julian_day == dates@[i as int].julian_day);
            }
        }
        if lists_exception_on(exceptions, id, CalendarDateExceptionType::ServiceRemoved, day) {
            proof {
                lemma_days_of_push(kept@, dates@[i as int]);
                lemma_no_day_twice_push(kept@, dates@[i as int]);
            }
            kept.push(dates[i]);
        }
        proof {
            assert(days_of(kept@) =~= days_of(dates@.subrange(0, i + 1)).intersect(removed));
        }
        i = i + 1;
    }
    proof {
        assert(dates@.subrange(0, dates@.len() as int) =~= dates@);
    }
    kept
}

/// Adds to `dates` the days that the feed lists as added for the service.
fn add_listed(dates: &mut Vec<Date>, exceptions: &Vec<CalendarDate>, id: &str)
    requires
        no_day_twice(old(dates)@),
    ensures
        no_day_twice(final(dates)@),
        days_of(final(dates)@) == days_of(old(dates)@).union(
            listed_days(exceptions@, id@, CalendarDateExceptionType::ServiceAdded),
        ),
{
    let ghost start = dates@;
    let mut k: usize = 0;
    proof {
        assert(days_of(dates@) =~= days_of(start).union(
            listed_days(
                exceptions@.subrange(0, 0),
                id@,
                CalendarDateExceptionType::ServiceAdded,
            ),
        ));
    }
    while k < exceptions.len()
        invariant
            k <= exceptions@.len(),
            no_day_twice(dates@),
            days_of(dates@) == days_of(start).union(
                listed_days(
                    exceptions@.subrange(0, k as int),
                    id@,
                    CalendarDateExceptionType::ServiceAdded,
                ),
            ),
        decreases exceptions.len() - k,
    {
        let day = exceptions[k].date.julian_day;
        let ghost before = dates@;
        proof {
            lemma_listed_days_step(
                exceptions@,
                id@,
                CalendarDateExceptionType::ServiceAdded,
                k as int,
            );
        }
        if exceptions[k].exception_type == CalendarDateExceptionType::ServiceAdded && same_text(
            exceptions[k].service_id.as_str(),
            id,
        ) {
            if !holds_day(dates, day) {
                proof {
                    lemma_days_of_push(dates@, exceptions@[k as int].date);
                    lemma_no_day_twice_push(dates@, exceptions@[k as int].date);
                }
                dates.push(exceptions[k].date);
            }
        }
        proof {
            assert(days_of(dates@) =~= days_of(start).union(
                listed_days(
                    exceptions@.subrange(0, k + 1),
                    id@,
                    CalendarDateExceptionType::ServiceAdded,
                ),
            ));
        }
        k = k + 1;
    }
    proof {
        assert(exceptions@.subrange(0, exceptions@.len() as int) =~= exceptions@);
    }
}

impl ServiceDb {
    /// The services of the lookup, in the order of the feed's calendars.
    pub open(crate) spec fn entries(self) -> Seq<Service> {
        self.services@
    }

    /// The service that stands for the identifier `id`.
    pub open(crate) spec fn service(self, id: Seq<char>) -> Option<Service> {
        let place = last_with_id(self.entries(), id);
        if 0 <= place < self.entries().len() {
            Some(self.entries()[place])
        } else {
            None
        }
    }

    /// Looks a service up by its identifier.
    pub fn get_service(&self, id: &String) -> (r: Option<&Service>)
        ensures
            match r {
                Some(service) => self.service(id@) == Some(*service) && service.id() == id@,
                None => self.service(id@).is_none(),
            },
    {
        let mut i: usize = self.services.len();
        proof {
            assert(self.services@.subrange(0, i as int) =~= self.services@);
        }
        while i > 0
            invariant
                i <= self.services@.len(),
                last_with_id(self.services@, id@) == last_with_id(
                    self.services@.subrange(0, i as int),
                    id@,
                ),
            decreases i,
        {
            let ghost upto = self.services@.subrange(0, i as int);
            assert(upto.last() == self.services@[i - 1]);
            assert(upto.drop_last() =~= self.services@.subrange(0, i - 1));
            if same_text(self.services[i - 1].id.as_str(), id.as_str()) {
                return Some(&self.services[i - 1]);
            }
            i = i - 1;
        }
        None
    }

    /// The services of the lookup, in the order of the feed's calendars.
    pub fn services(&self) -> (r: &Vec<Service>)
        ensures
            r@ == self.entries(),
    {
        &self.services
    }

    /// The lookup of a list of services, in its order.
    pub fn from_services(services: Vec<Service>) -> (r: ServiceDb)
        ensures
            r.entries() == services@,
    {
        ServiceDb { services }
    }

    /// Builds the lookup from the calendars of a feed and their exceptions.
    pub fn from(parsed: &GtfsData) -> (r: ServiceDb)
        ensures
            built_from(r, parsed.calendar@, parsed.calendar_date@),
    {
        let mut services: Vec<Service> = Vec::new();
        let mut i: usize = 0;
        while i < parsed.calendar.len()
            invariant
                i <= parsed.calendar@.len(),
                services@.len() == i,
                forall|k: int|
                    0 <= k < i ==> {
                        &&& (#[trigger] services@[k]).id() == parsed.calendar@[k].service_id@
                        &&& services@[k].days() == days_in_force(
                            parsed.calendar@[k],
                            parsed.calendar_date@,
                            is_first_with_id(parsed.calendar@, k),
                        )
                        &&& services@[k].wf()
                    },
            decreases parsed.calendar.len() - i,
        {
            let calendar = &parsed.calendar[i];
            let id = calendar.service_id.as_str();
            let regular = Service::from(calendar);
            let mut dates = if lists_exception(
                &parsed.calendar_date,
                id,
                CalendarDateExceptionType::ServiceRemoved,
            ) {
                keep_removed(&regular.dates, &parsed.calendar_date, id)
            } else {
                regular.dates
            };
            let first = first_with_id(&parsed.calendar, i);
            if first {
                add_listed(&mut dates, &parsed.calendar_date, id);
            }
            let service = Service { id: regular.id, dates };
            proof {
                assert(service.days() =~= days_in_force(
                    parsed.calendar@[i as int],
                    parsed.calendar_date@,
                    is_first_with_id(parsed.calendar@, i as int),
                ));
            }
            services.push(service);
            i = i + 1;
        }
        ServiceDb { services }
    }
}

} // verus!
