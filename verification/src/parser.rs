//! From one message to the notices it holds.

use crate::pattern::{
    captures, catalog, groups_view, pattern_text, regex_accepts, regex_captures,
    template_at, Groups, Template, CATALOG_LEN,
};
use crate::text::{
    contains, has_infix, has_prefix, lemma_digits_value_bound, parse_short_number, same_text,
    short_number, starts_with, trim, trimmed,
};
use crate::time::{
    do_time_from, is_time_text, resolved, LocalInstant, Meridiem, TimeError, Timestamp,
};
use crate::tweet_cache::TweetContent;
use vstd::prelude::*;

verus! {

/// A notice about one scheduled journey.
///
/// `raw_time` is the scheduled time as normalized text, `tweet_time` the
/// instant of the message, `time` the scheduled instant.
#[derive(Clone, Debug, PartialEq, Eq)]
pub enum Cancellations {
    BusCancelled {
        route: String,
        origin: String,
        destination: String,
        raw_time: String,
        tweet_time: Timestamp,
        time: LocalInstant,
    },
    BusPartCancelled {
        route: String,
        origin: String,
        destination: String,
        cancelled_from: String,
        cancelled_to: String,
        raw_time: String,
        tweet_time: Timestamp,
        time: LocalInstant,
    },
    BusReinstated {
        route: String,
        origin: String,
        destination: String,
        raw_time: String,
        tweet_time: Timestamp,
        time: LocalInstant,
    },
    BusDelayed {
        route: String,
        origin: String,
        destination: String,
        /// The minutes of delay as written, empty where the message gives none.
        delay_minutes: String,
        raw_time: String,
        tweet_time: Timestamp,
        time: LocalInstant,
    },
}

/// A notice with its texts as characters.
pub enum Notice {
    Cancelled {
        route: Seq<char>,
        origin: Seq<char>,
        destination: Seq<char>,
        raw_time: Seq<char>,
        tweet_time: Timestamp,
        time: LocalInstant,
    },
    PartCancelled {
        route: Seq<char>,
        origin: Seq<char>,
        destination: Seq<char>,
        cancelled_from: Seq<char>,
        cancelled_to: Seq<char>,
        raw_time: Seq<char>,
        tweet_time: Timestamp,
        time: LocalInstant,
    },
    Reinstated {
        route: Seq<char>,
        origin: Seq<char>,
        destination: Seq<char>,
        raw_time: Seq<char>,
        tweet_time: Timestamp,
        time: LocalInstant,
    },
    Delayed {
        route: Seq<char>,
        origin: Seq<char>,
        destination: Seq<char>,
        delay_minutes: Seq<char>,
        raw_time: Seq<char>,
        tweet_time: Timestamp,
        time: LocalInstant,
    },
}

impl View for Cancellations {
    type V = Notice;

    open spec fn view(&self) -> Notice {
        match *self {
            Cancellations::BusCancelled { route, origin, destination, raw_time, tweet_time, time } =>
                Notice::Cancelled {
                    route: route@,
                    origin: origin@,
                    destination: destination@,
                    raw_time: raw_time@,
                    tweet_time,
                    time,
                },
            Cancellations::BusPartCancelled {
                route,
                origin,
                destination,
                cancelled_from,
                cancelled_to,
                raw_time,
                tweet_time,
                time,
            } => Notice::PartCancelled {
                route: route@,
                origin: origin@,
                destination: destination@,
                cancelled_from: cancelled_from@,
                cancelled_to: cancelled_to@,
                raw_time: raw_time@,
                tweet_time,
                time,
            },
            Cancellations::BusReinstated {
                route,
                origin,
                destination,
                raw_time,
                tweet_time,
                time,
            } => Notice::Reinstated {
                route: route@,
                origin: origin@,
                destination: destination@,
                raw_time: raw_time@,
                tweet_time,
                time,
            },
            Cancellations::BusDelayed {
                route,
                origin,
                destination,
                delay_minutes,
                raw_time,
                tweet_time,
                time,
            } => Notice::Delayed {
                route: route@,
                origin: origin@,
                destination: destination@,
                delay_minutes: delay_minutes@,
                raw_time: raw_time@,
                tweet_time,
                time,
            },
        }
    }
}

impl Notice {
    pub open spec fn route(self) -> Seq<char> {
        match self {
            Notice::Cancelled { route, .. } => route,
            Notice::PartCancelled { route, .. } => route,
            Notice::Reinstated { route, .. } => route,
            Notice::Delayed { route, .. } => route,
        }
    }

    pub open spec fn origin(self) -> Seq<char> {
        match self {
            Notice::Cancelled { origin, .. } => origin,
            Notice::PartCancelled { origin, .. } => origin,
            Notice::Reinstated { origin, .. } => origin,
            Notice::Delayed { origin, .. } => origin,
        }
    }

    pub open spec fn destination(self) -> Seq<char> {
        match self {
            Notice::Cancelled { destination, .. } => destination,
            Notice::PartCancelled { destination, .. } => destination,
            Notice::Reinstated { destination, .. } => destination,
            Notice::Delayed { destination, .. } => destination,
        }
    }

    pub open spec fn raw_time(self) -> Seq<char> {
        match self {
            Notice::Cancelled { raw_time, .. } => raw_time,
            Notice::PartCancelled { raw_time, .. } => raw_time,
            Notice::Reinstated { raw_time, .. } => raw_time,
            Notice::Delayed { raw_time, .. } => raw_time,
        }
    }

    /// When the message was posted.
    pub open spec fn tweet_time(self) -> Timestamp {
        match self {
            Notice::Cancelled { tweet_time, .. } => tweet_time,
            Notice::PartCancelled { tweet_time, .. } => tweet_time,
            Notice::Reinstated { tweet_time, .. } => tweet_time,
            Notice::Delayed { tweet_time, .. } => tweet_time,
        }
    }

    /// When the journey was scheduled.
    pub open spec fn time(self) -> LocalInstant {
        match self {
            Notice::Cancelled { time, .. } => time,
            Notice::PartCancelled { time, .. } => time,
            Notice::Reinstated { time, .. } => time,
            Notice::Delayed { time, .. } => time,
        }
    }
}

impl Cancellations {
    /// When the message was posted.
    pub fn tweet_time(&self) -> (r: &Timestamp)
        ensures
            *r == self@.tweet_time(),
    {
        match self {
            Cancellations::BusCancelled { tweet_time, .. } => tweet_time,
            Cancellations::BusPartCancelled { tweet_time, .. } => tweet_time,
            Cancellations::BusReinstated { tweet_time, .. } => tweet_time,
            Cancellations::BusDelayed { tweet_time, .. } => tweet_time,
        }
    }

    /// When the journey was scheduled.
    pub fn time(&self) -> (r: &LocalInstant)
        ensures
            *r == self@.time(),
    {
        match self {
            Cancellations::BusCancelled { time, .. } => time,
            Cancellations::BusPartCancelled { time, .. } => time,
            Cancellations::BusReinstated { time, .. } => time,
            Cancellations::BusDelayed { time, .. } => time,
        }
    }
}

/// Why a message gave no notices.
#[derive(Clone, Copy, Debug, PartialEq, Eq, Structural)]
pub enum ParseError {
    /// The message fits no known template.
    UnrecognizedMessageTemplate,
    /// A template matched, but the scheduled time could not be resolved.
    Time(TimeError),
    /// A template matched, but a group that it always fills is missing or
    /// its number cannot be read: the catalog is at odds with itself.
    MalformedCapture,
    /// The engine refused the pattern of a template.
    BadPattern(Template),
}

/// Every notice of the list has its scheduled time as normalized text.
pub open spec fn times_normalized(found: Seq<Notice>) -> bool {
    forall|i: int| 0 <= i < found.len() ==> is_time_text((#[trigger] found[i]).raw_time())
}

/// The notices of a list of events.
pub open spec fn notices(events: Seq<Cancellations>) -> Seq<Notice> {
    Seq::new(events.len(), |i: int| events[i]@)
}

/// The outcome of reading a message, with the events as notices.
pub open spec fn outcome_view(r: Result<Vec<Cancellations>, ParseError>) -> Result<
    Seq<Notice>,
    ParseError,
> {
    match r {
        Ok(events) => Ok(notices(events@)),
        Err(e) => Err(e),
    }
}

/// The text of the group at `place`, `None` where the match has no such
/// group or the group took no part in it.
pub open spec fn group(groups: Groups, place: int) -> Option<Seq<char>> {
    if 0 <= place < groups.len() {
        groups[place]
    } else {
        None
    }
}

/// The text of the group at `place` without the spaces around it.
pub open spec fn span(groups: Groups, place: int) -> Option<Seq<char>> {
    match group(groups, place) {
        Some(s) => Some(trimmed(s)),
        None => None,
    }
}

/// The meridiem that the text after a clock time names, if it names one.
pub open spec fn meridiem_of(period: Seq<char>) -> Option<Meridiem> {
    if period == "am"@ {
        Some(Meridiem::Am)
    } else if period == "pm"@ {
        Some(Meridiem::Pm)
    } else {
        None
    }
}

/// A clock time as a message writes it.
pub struct Clock {
    pub hour: u32,
    pub minute: u32,
    pub meridiem: Option<Meridiem>,
}

/// The number that `s` writes in one or two decimal digits.
pub open spec fn clock_number(s: Seq<char>) -> Option<u32> {
    if s.len() <= 2 {
        short_number(s)
    } else {
        None
    }
}

/// The clock time of a match: the hour from the second group, the minute
/// from the third or 0 where the message gives none, the meridiem from the
/// fourth. `None` where a number cannot be read or a group is missing.
pub open spec fn clock_of(groups: Groups) -> Option<Clock> {
    match (group(groups, 2), group(groups, 4)) {
        (Some(hour_text), Some(period)) => {
            let minute = match group(groups, 3) {
                Some(minute_text) => clock_number(minute_text),
                None => Some(0u32),
            };
            match (clock_number(hour_text), minute) {
                (Some(hour), Some(minute)) => Some(
                    Clock { hour, minute, meridiem: meridiem_of(period) },
                ),
                _ => None,
            }
        },
        _ => None,
    }
}

/// The notice that a template makes of a match, given the resolved time.
/// The route is the first group, and the stops follow the clock time in the
/// order in which the template names them, each without the spaces around
/// it. `None` where a group that the template fills is missing.
pub open spec fn notice_of(
    template: Template,
    groups: Groups,
    raw_time: Seq<char>,
    tweet_time: Timestamp,
    time: LocalInstant,
) -> Option<Notice> {
    match template {
        Template::FullCancel => match (span(groups, 1), span(groups, 5), span(groups, 6)) {
            (Some(route), Some(origin), Some(destination)) => Some(
                Notice::Cancelled { route, origin, destination, raw_time, tweet_time, time },
            ),
            _ => None,
        },
        Template::Reinstated => match (span(groups, 1), span(groups, 5), span(groups, 6)) {
            (Some(route), Some(origin), Some(destination)) => Some(
                Notice::Reinstated { route, origin, destination, raw_time, tweet_time, time },
            ),
            _ => None,
        },
        Template::DelayedByMinutes | Template::DelayedRunningLate => match (
            span(groups, 1),
            span(groups, 5),
            span(groups, 6),
            span(groups, 7),
        ) {
            (Some(route), Some(origin), Some(destination), Some(delay_minutes)) => Some(
                Notice::Delayed {
                    route,
                    origin,
                    destination,
                    delay_minutes,
                    raw_time,
                    tweet_time,
                    time,
                },
            ),
            _ => None,
        },
        Template::DelayedIndeterminate => match (
            span(groups, 1),
            span(groups, 5),
            span(groups, 6),
        ) {
            (Some(route), Some(origin), Some(destination)) => Some(
                Notice::Delayed {
                    route,
                    origin,
                    destination,
                    delay_minutes: Seq::empty(),
                    raw_time,
                    tweet_time,
                    time,
                },
            ),
            _ => None,
        },
        Template::PartCancelledBetween => match (
            span(groups, 1),
            span(groups, 5),
            span(groups, 6),
            span(groups, 7),
            span(groups, 8),
        ) {
            (
                Some(route),
                Some(origin),
                Some(destination),
                Some(cancelled_from),
                Some(cancelled_to),
            ) => Some(
                Notice::PartCancelled {
                    route,
                    origin,
                    destination,
                    cancelled_from,
                    cancelled_to,
                    raw_time,
                    tweet_time,
                    time,
                },
            ),
            _ => None,
        },
        Template::PartCancelledBetweenNoOrigin => match (
            span(groups, 1),
            span(groups, 5),
            span(groups, 6),
            span(groups, 7),
        ) {
            (Some(route), Some(destination), Some(cancelled_from), Some(cancelled_to)) => Some(
                Notice::PartCancelled {
                    route,
                    origin: cancelled_from,
                    destination,
                    cancelled_from,
                    cancelled_to,
                    raw_time,
                    tweet_time,
                    time,
                },
            ),
            _ => None,
        },
        Template::PartCancelledFrom => match (
            span(groups, 1),
            span(groups, 5),
            span(groups, 6),
            span(groups, 7),
        ) {
            (Some(route), Some(origin), Some(destination), Some(cancelled_from)) => Some(
                Notice::PartCancelled {
                    route,
                    origin,
                    destination,
                    cancelled_from,
                    cancelled_to: destination,
                    raw_time,
                    tweet_time,
                    time,
                },
            ),
            _ => None,
        },
    }
}

/// The scheduled time of a match, resolved against the posting.
pub open(crate) spec fn time_of(groups: Groups, posted: Timestamp) -> Result<
    (Seq<char>, LocalInstant),
    ParseError,
> {
    match clock_of(groups) {
        None => Err(ParseError::MalformedCapture),
        Some(clock) => match resolved(posted, clock.hour, clock.minute, clock.meridiem) {
            Ok(found) => Ok(found),
            Err(e) => Err(ParseError::Time(e)),
        },
    }
}

/// What a template makes of a match in a message posted at `posted`.
pub open(crate) spec fn reading_of(template: Template, groups: Groups, posted: Timestamp) -> Result<
    Seq<Notice>,
    ParseError,
> {
    match time_of(groups, posted) {
        Err(e) => Err(e),
        Ok(found) => match notice_of(template, groups, found.0, posted, found.1) {
            Some(notice) => Ok(seq![notice]),
            None => Err(ParseError::MalformedCapture),
        },
    }
}

/// A resolved time with its text as characters.
pub open spec fn time_view(r: Result<(String, LocalInstant), ParseError>) -> Result<
    (Seq<char>, LocalInstant),
    ParseError,
> {
    match r {
        Ok(found) => Ok((found.0@, found.1)),
        Err(e) => Err(e),
    }
}

fn group_at(groups: &Vec<Option<String>>, place: usize) -> (r: Option<&String>)
    ensures
        match r {
            Some(s) => group(groups_view(groups@), place as int) == Some(s@),
            None => group(groups_view(groups@), place as int).is_none(),
        },
{
    if place < groups.len() {
        match &groups[place] {
            Some(s) => Some(s),
            None => None,
        }
    } else {
        None
    }
}

fn span_at(groups: &Vec<Option<String>>, place: usize) -> (r: Option<String>)
    ensures
        match r {
            Some(s) => span(groups_view(groups@), place as int) == Some(s@),
            None => span(groups_view(groups@), place as int).is_none(),
        },
{
    match group_at(groups, place) {
        Some(s) => Some(trim(s.as_str())),
        None => None,
    }
}

fn read_clock_number(s: &str) -> (r: Option<u32>)
    ensures
        r == clock_number(s@),
        r matches Some(n) ==> n < 100,
{
    if s.unicode_len() <= 2 {
        proof {
            lemma_digits_value_bound(s@);
        }
        parse_short_number(s)
    } else {
        None
    }
}

fn read_meridiem(period: &str) -> (r: Option<Meridiem>)
    ensures
        r == meridiem_of(period@),
{
    if same_text(period, "am") {
        Some(Meridiem::Am)
    } else if same_text(period, "pm") {
        Some(Meridiem::Pm)
    } else {
        None
    }
}

/// Reads the clock time of a match and resolves it against the posting of
/// the message.
pub fn time_from_capture(tweet: &TweetContent, groups: &Vec<Option<String>>) -> (r: Result<
    (String, LocalInstant),
    ParseError,
>)
    ensures
        time_view(r) == time_of(groups_view(groups@), tweet.created_at),
        r matches Ok(found) ==> is_time_text(found.0@),
{
    let hour_text = match group_at(groups, 2) {
        Some(s) => s,
        None => { return Err(ParseError::MalformedCapture); },
    };
    let period = match group_at(groups, 4) {
        Some(s) => s,
        None => { return Err(ParseError::MalformedCapture); },
    };
    let minute = match group_at(groups, 3) {
        Some(s) => read_clock_number(s.as_str()),
        None => Some(0u32),
    };
    let hour = read_clock_number(hour_text.as_str());
    match (hour, minute) {
        (Some(hour), Some(minute)) => {
            let meridiem = read_meridiem(period.as_str());
            match do_time_from(tweet.created_at, hour, minute, meridiem) {
                Ok(found) => Ok(found),
                Err(e) => Err(ParseError::Time(e)),
            }
        },
        _ => Err(ParseError::MalformedCapture),
    }
}


/// Makes the notices of a match of `template`.
///
/// The time is read and resolved first; its failure is the outcome. The
/// route and the stops are the groups that the template designates, each
/// without the spaces around it.
pub fn event_from_captures(
    template: Template,
    groups: &Vec<Option<String>>,
    tweet: &TweetContent,
) -> (r: Result<Vec<Cancellations>, ParseError>)
    ensures
        outcome_view(r) == reading_of(template, groups_view(groups@), tweet.created_at),
        r matches Ok(events) ==> events.len() == 1 && is_time_text(events[0]@.raw_time()),
{
    let (raw_time, time) = match time_from_capture(tweet, groups) {
        Ok(found) => found,
        Err(e) => { return Err(e); },
    };
    let tweet_time = tweet.created_at;
    let route = span_at(groups, 1);
    let fifth = span_at(groups, 5);
    let sixth = span_at(groups, 6);
    let seventh = span_at(groups, 7);
    let eighth = span_at(groups, 8);
    let event = match template {
        Template::FullCancel => match (route, fifth, sixth) {
            (Some(route), Some(origin), Some(destination)) => Cancellations::BusCancelled {
                route,
                origin,
                destination,
                raw_time,
                tweet_time,
                time,
            },
            _ => { return Err(ParseError::MalformedCapture); },
        },
        Template::Reinstated => match (route, fifth, sixth) {
            (Some(route), Some(origin), Some(destination)) => Cancellations::BusReinstated {
                route,
                origin,
                destination,
                raw_time,
                tweet_time,
                time,
            },
            _ => { return Err(ParseError::MalformedCapture); },
        },
        Template::DelayedByMinutes | Template::DelayedRunningLate => match (
            route,
            fifth,
            sixth,
            seventh,
        ) {
            (
                Some(route),
                Some(origin),
                Some(destination),
                Some(delay_minutes),
            ) => Cancellations::BusDelayed {
                route,
                origin,
                destination,
                delay_minutes,
                raw_time,
                tweet_time,
                time,
            },
            _ => { return Err(ParseError::MalformedCapture); },
        },
        Template::DelayedIndeterminate => match (route, fifth, sixth) {
            (Some(route), Some(origin), Some(destination)) => Cancellations::BusDelayed {
                route,
                origin,
                destination,
                delay_minutes: String::new(),
                raw_time,
                tweet_time,
                time,
            },
            _ => { return Err(ParseError::MalformedCapture); },
        },
        Template::PartCancelledBetween => match (route, fifth, sixth, seventh, eighth) {
            (
                Some(route),
                Some(origin),
                Some(destination),
                Some(cancelled_from),
                Some(cancelled_to),
            ) => Cancellations::BusPartCancelled {
                route,
                origin,
                destination,
                cancelled_from,
                cancelled_to,
                raw_time,
                tweet_time,
                time,
            },
            _ => { return Err(ParseError::MalformedCapture); },
        },
        Template::PartCancelledBetweenNoOrigin => match (route, fifth, sixth, seventh) {
            (
                Some(route),
                Some(destination),
                Some(cancelled_from),
                Some(cancelled_to),
            ) => Cancellations::BusPartCancelled {
                route,
                origin: cancelled_from.clone(),
                destination,
                cancelled_from,
                cancelled_to,
                raw_time,
                tweet_time,
                time,
            },
            _ => { return Err(ParseError::MalformedCapture); },
        },
        Template::PartCancelledFrom => match (route, fifth, sixth, seventh) {
            (
                Some(route),
                Some(origin),
                Some(destination),
                Some(cancelled_from),
            ) => Cancellations::BusPartCancelled {
                route,
                origin,
                cancelled_to: destination.clone(),
                destination,
                cancelled_from,
                raw_time,
                tweet_time,
                time,
            },
            _ => { return Err(ParseError::MalformedCapture); },
        },
    };
    let events = vec![event];
    proof {
        assert(notices(events@) =~= seq![event@]);
    }
    Ok(events)
}

/// The first template of the catalog, from place `from` on, that matches
/// `text`, with the groups of its match; `None` where none matches. The
/// search fails at the first template whose pattern the engine refuses.
pub open spec fn first_match(text: Seq<char>, from: int) -> Result<
    Option<(Template, Groups)>,
    ParseError,
>
    decreases CATALOG_LEN - from,
{
    if from < 0 || from >= CATALOG_LEN {
        Ok(None)
    } else {
        let template = catalog()[from];
        if !regex_accepts(pattern_text(template)) {
            Err(ParseError::BadPattern(template))
        } else {
            match regex_captures(pattern_text(template), text) {
                Some(groups) => Ok(Some((template, groups))),
                None => first_match(text, from + 1),
            }
        }
    }
}

/// A message about buses that holds no notice: one that carries a link, or
/// that tells of a road that buses cannot pass.
pub open spec fn is_known_chatter(text: Seq<char>) -> bool {
    has_infix(text, "https://t.co/"@) || has_infix(text, "buses cannot pass"@)
}

/// What `parse_bus_tweet` makes of a message.
pub open(crate) spec fn bus_reading(text: Seq<char>, posted: Timestamp) -> Result<
    Seq<Notice>,
    ParseError,
> {
    match first_match(text, 0) {
        Err(e) => Err(e),
        Ok(Some(found)) => reading_of(found.0, found.1, posted),
        Ok(None) => if is_known_chatter(text) {
            Ok(Seq::empty())
        } else {
            Err(ParseError::UnrecognizedMessageTemplate)
        },
    }
}

/// Reads a message about buses.
///
/// The templates are tried in the order of the catalog and the first that
/// matches decides. A message that fits none holds no notice where it is
/// known chatter, and is unrecognized else.
pub fn parse_bus_tweet(tweet: &TweetContent) -> (r: Result<Vec<Cancellations>, ParseError>)
    ensures
        outcome_view(r) == bus_reading(tweet.text@, tweet.created_at),
        r matches Ok(events) ==> times_normalized(notices(events@)),
{
    let mut place: usize = 0;
    while place < CATALOG_LEN
        invariant
            place <= CATALOG_LEN,
            first_match(tweet.text@, 0) == first_match(tweet.text@, place as int),
        decreases CATALOG_LEN - place,
    {
        let template = template_at(place);
        match captures(template.pattern().as_str(), tweet.text.as_str()) {
            Err(_) => {
                return Err(ParseError::BadPattern(template));
            },
            Ok(Some(groups)) => {
                return event_from_captures(template, &groups, tweet);
            },
            Ok(None) => {},
        }
        place = place + 1;
    }
    if contains(tweet.text.as_str(), "https://t.co/") || contains(
        tweet.text.as_str(),
        "buses cannot pass",
    ) {
        let none: Vec<Cancellations> = Vec::new();
        proof {
            assert(notices(none@) =~= Seq::<Notice>::empty());
        }
        Ok(none)
    } else {
        Err(ParseError::UnrecognizedMessageTemplate)
    }
}

/// What a message turned out to be.
#[derive(Clone, Debug, PartialEq, Eq)]
pub enum ClassificationOutcome {
    /// A message about buses, with the notices read from it; there are none
    /// where the message is known to hold none.
    Disruption(Vec<Cancellations>),
    /// Noise: a message on the ignore-list, one that only carries a link,
    /// or one about trains or ferries.
    Ignored,
    /// A message that fits no known template.
    Unrecognized,
}

/// A classification with its events as notices.
pub enum Classified {
    Disruption(Seq<Notice>),
    Ignored,
    Unrecognized,
}

impl View for ClassificationOutcome {
    type V = Classified;

    open spec fn view(&self) -> Classified {
        match *self {
            ClassificationOutcome::Disruption(events) => Classified::Disruption(notices(events@)),
            ClassificationOutcome::Ignored => Classified::Ignored,
            ClassificationOutcome::Unrecognized => Classified::Unrecognized,
        }
    }
}

/// The text opens with the code of a train line, with `Trains`, or with the
/// marker of the harbour ferry.
pub open spec fn is_train_or_ferry(text: Seq<char>) -> bool {
    ||| has_prefix(text, "WRL"@)
    ||| has_prefix(text, "KPL"@)
    ||| has_prefix(text, "HVL"@)
    ||| has_prefix(text, "JVL"@)
    ||| has_prefix(text, "MEL"@)
    ||| has_prefix(text, "Trains"@)
    ||| has_prefix(text, "Ferry WHF:"@)
}

/// The text opens with the marker of a bus or of school transport.
pub open spec fn is_bus_or_school(text: Seq<char>) -> bool {
    has_prefix(text, "Bus"@) || has_prefix(text, "School"@)
}

/// What `classify` makes of a message, given the ignore-list.
pub open(crate) spec fn classification(
    ignored: Seq<u64>,
    id: u64,
    text: Seq<char>,
    posted: Timestamp,
) -> Result<Classified, ParseError> {
    if ignored.contains(id) {
        Ok(Classified::Ignored)
    } else if has_infix(text, "https://t.co/"@) {
        Ok(Classified::Ignored)
    } else if is_train_or_ferry(text) {
        Ok(Classified::Ignored)
    } else if is_bus_or_school(text) {
        match bus_reading(text, posted) {
            Ok(found) => Ok(Classified::Disruption(found)),
            Err(ParseError::UnrecognizedMessageTemplate) => Ok(Classified::Unrecognized),
            Err(e) => Err(e),
        }
    } else {
        Ok(Classified::Unrecognized)
    }
}

/// A result of `classify` with its events as notices.
pub open spec fn classified_view(r: Result<ClassificationOutcome, ParseError>) -> Result<
    Classified,
    ParseError,
> {
    match r {
        Ok(outcome) => Ok(outcome@),
        Err(e) => Err(e),
    }
}

/// The identifiers of messages known to be malformed or without substance.
pub open spec fn ignored_tweet_ids() -> Seq<u64> {
    seq![
        1313942434309525504u64,
        1314353142742482944u64,
        1314733655579922435u64,
        1314737174181367812u64,
        1314737926467579907u64,
        1318041702188216321u64,
        1318391755377496065u64,
        1319510878396370946u64,
        1322661891441745921u64,
        1325978495604830208u64,
        1330659892303052801u64,
        1331688367751237632u64,
        1332174572502716417u64,
        1333449475386294272u64,
        1334628241722626050u64,
        1335667339166167046u64,
        1335745856847286275u64,
        1337504190365462528u64,
        1339338275341791233u64,
        1340450608818601984u64,
        1346992964510248961u64,
        1348859010426892290u64,
        1349203333723033603u64,
        1346657252422270976u64,
        1350225276978909184u64,
        1351244750372921345u64,
        1346375145888206849u64,
        1353179739381395456u64,
        1315364812663083010u64,
        1339766601579548672u64,
        1354564608745381890u64,
        1354966519957000195u64,
        1354966526365892612u64,
        1356690879805681664u64,
        1356836623581806593u64,
        1357189987502944257u64,
        1357200754935758849u64,
        1358956553324228610u64,
        1360050266813329410u64,
        1360053285831364608u64,
        1360870398640807937u64,
    ]
}

/// The ignore-list that `parse_tweet` goes by.
pub fn default_ignored_ids() -> (r: Vec<u64>)
    ensures
        r@ == ignored_tweet_ids(),
{
    let r = vec![
        1313942434309525504u64,
        1314353142742482944u64,
        1314733655579922435u64,
        1314737174181367812u64,
        1314737926467579907u64,
        1318041702188216321u64,
        1318391755377496065u64,
        1319510878396370946u64,
        1322661891441745921u64,
        1325978495604830208u64,
        1330659892303052801u64,
        1331688367751237632u64,
        1332174572502716417u64,
        1333449475386294272u64,
        1334628241722626050u64,
        1335667339166167046u64,
        1335745856847286275u64,
        1337504190365462528u64,
        1339338275341791233u64,
        1340450608818601984u64,
        1346992964510248961u64,
        1348859010426892290u64,
        1349203333723033603u64,
        1346657252422270976u64,
        1350225276978909184u64,
        1351244750372921345u64,
        1346375145888206849u64,
        1353179739381395456u64,
        1315364812663083010u64,
        1339766601579548672u64,
        1354564608745381890u64,
        1354966519957000195u64,
        1354966526365892612u64,
        1356690879805681664u64,
        1356836623581806593u64,
        1357189987502944257u64,
        1357200754935758849u64,
        1358956553324228610u64,
        1360050266813329410u64,
        1360053285831364608u64,
        1360870398640807937u64,
    ];
    assert(r@ =~= ignored_tweet_ids());
    r
}

fn is_listed(ids: &Vec<u64>, id: u64) -> (r: bool)
    ensures
        r == ids@.contains(id),
{
    let mut i: usize = 0;
    while i < ids.len()
        invariant
            i <= ids.len(),
            forall|k: int| 0 <= k < i ==> ids@[k] != id,
        decreases ids.len() - i,
    {
        if ids[i] == id {
            return true;
        }
        i = i + 1;
    }
    false
}

fn opens_with_train_or_ferry(text: &str) -> (r: bool)
    ensures
        r == is_train_or_ferry(text@),
{
    starts_with(text, "WRL") || starts_with(text, "KPL") || starts_with(text, "HVL")
        || starts_with(text, "JVL") || starts_with(text, "MEL") || starts_with(text, "Trains")
        || starts_with(text, "Ferry WHF:")
}

/// Classifies one message, given the ignore-list.
///
/// A message on the ignore-list, one that carries a link, and one about
/// trains or ferries are noise, whatever else they hold. A message about
/// buses or school transport is read against the catalog. Any other message
/// is unrecognized. The outcome depends on the message and the list alone.
pub fn classify(ignored: &Vec<u64>, tweet: &TweetContent) -> (r: Result<
    ClassificationOutcome,
    ParseError,
>)
    ensures
        classified_view(r) == classification(
            ignored@,
            tweet.id,
            tweet.text@,
            tweet.created_at,
        ),
        r matches Ok(ClassificationOutcome::Disruption(events)) ==> times_normalized(
            notices(events@),
        ),
{
    let text = tweet.text.as_str();
    if is_listed(ignored, tweet.id) {
        Ok(ClassificationOutcome::Ignored)
    } else if contains(text, "https://t.co/") {
        Ok(ClassificationOutcome::Ignored)
    } else if opens_with_train_or_ferry(text) {
        Ok(ClassificationOutcome::Ignored)
    } else if starts_with(text, "Bus") || starts_with(text, "School") {
        match parse_bus_tweet(tweet) {
            Ok(events) => Ok(ClassificationOutcome::Disruption(events)),
            Err(ParseError::UnrecognizedMessageTemplate) => Ok(ClassificationOutcome::Unrecognized),
            Err(e) => Err(e),
        }
    } else {
        Ok(ClassificationOutcome::Unrecognized)
    }
}

/// The notices that a classification stands for: those of a disruption,
/// none for noise, and an error for an unrecognized message.
pub open spec fn parsed(c: Result<Classified, ParseError>) -> Result<Seq<Notice>, ParseError> {
    match c {
        Ok(Classified::Disruption(found)) => Ok(found),
        Ok(Classified::Ignored) => Ok(Seq::empty()),
        Ok(Classified::Unrecognized) => Err(ParseError::UnrecognizedMessageTemplate),
        Err(e) => Err(e),
    }
}

/// Reads the notices of one message, going by the default ignore-list.
///
/// Noise gives no notices. A message that fits no template is an error, as
/// is one whose scheduled time cannot be resolved.
pub fn parse_tweet(tweet: &TweetContent) -> (r: Result<Vec<Cancellations>, ParseError>)
    ensures
        outcome_view(r) == parsed(
            classification(ignored_tweet_ids(), tweet.id, tweet.text@, tweet.created_at),
        ),
        r matches Ok(events) ==> times_normalized(notices(events@)),
{
    let ignored = default_ignored_ids();
    match classify(&ignored, tweet) {
        Ok(ClassificationOutcome::Disruption(events)) => Ok(events),
        Ok(ClassificationOutcome::Ignored) => {
            let none: Vec<Cancellations> = Vec::new();
            proof {
                assert(notices(none@) =~= Seq::<Notice>::empty());
            }
            Ok(none)
        },
        Ok(ClassificationOutcome::Unrecognized) => Err(ParseError::UnrecognizedMessageTemplate),
        Err(e) => Err(e),
    }
}


/// The group that a template designates as the origin of the journey. A
/// message that names no origin has the stop that the cancelled part
/// starts from stand for it.
pub open spec fn origin_place(template: Template) -> int {
    match template {
        Template::PartCancelledBetweenNoOrigin => 6,
        _ => 5,
    }
}

/// The group that a template designates as the destination of the journey.
pub open spec fn destination_place(template: Template) -> int {
    match template {
        Template::PartCancelledBetweenNoOrigin => 5,
        _ => 6,
    }
}

/// The route, the origin and the destination of a notice are the texts of
/// the groups that its template designates, without the spaces around
/// them; its times are the ones handed in.
pub proof fn lemma_notice_spans(
    template: Template,
    groups: Groups,
    raw_time: Seq<char>,
    tweet_time: Timestamp,
    time: LocalInstant,
)
    ensures
        notice_of(template, groups, raw_time, tweet_time, time) matches Some(notice) ==> {
            &&& group(groups, 1) matches Some(route) && notice.route() == trimmed(route)
            &&& group(groups, origin_place(template)) matches Some(origin) && notice.origin()
                == trimmed(origin)
            &&& group(groups, destination_place(template)) matches Some(destination)
                && notice.destination() == trimmed(destination)
            &&& notice.raw_time() == raw_time
            &&& notice.tweet_time() == tweet_time
            &&& notice.time() == time
        },
{
}

/// A message on the ignore-list, one that carries a link, and one that
/// opens as a message about trains or ferries is noise, whatever template
/// its text would fit.
pub proof fn lemma_noise_is_ignored(ignored: Seq<u64>, id: u64, text: Seq<char>, posted: Timestamp)
    requires
        ignored.contains(id) || has_infix(text, "https://t.co/"@) || is_train_or_ferry(text),
    ensures
        classification(ignored, id, text, posted) == Ok::<Classified, ParseError>(
            Classified::Ignored,
        ),
        parsed(classification(ignored, id, text, posted)) == Ok::<Seq<Notice>, ParseError>(
            Seq::empty(),
        ),
{
}


} // verus!
