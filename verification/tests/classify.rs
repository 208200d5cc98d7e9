use chrono::DateTime;
use metlink_notices::parser::{
    classify, default_ignored_ids, event_from_captures, parse_bus_tweet, parse_tweet,
    time_from_capture, Cancellations, ClassificationOutcome, ParseError,
};
use metlink_notices::pattern::{template_at, templates, Template, CATALOG_LEN};
use metlink_notices::time::{convert_time_to_instant, TimeError, Timestamp};
use metlink_notices::tweet_cache::TweetContent;

fn sample_time() -> Timestamp {
    let at = DateTime::parse_from_rfc3339("2021-01-24T21:00:06Z").unwrap();
    Timestamp::new(at.timestamp(), at.timestamp_subsec_nanos()).unwrap()
}

fn tweet(id: u64, text: &str) -> TweetContent {
    TweetContent {
        id,
        created_at: sample_time(),
        text: text.to_string(),
    }
}

const CANCELLED: &str =
    "Bus 3: Bus 3: 10:30am Wellington Station to Lyall Bay is cancelled. Please check RTI for next available bus.";

fn groups(texts: &[Option<&str>]) -> Vec<Option<String>> {
    texts.iter().map(|g| g.map(|s| s.to_string())).collect()
}

#[test]
fn a_cancellation_is_one_event_with_its_fields() {
    let found = parse_tweet(&tweet(1353447509805342721, CANCELLED)).unwrap();
    assert_eq!(found.len(), 1);
    match &found[0] {
        Cancellations::BusCancelled {
            route,
            origin,
            destination,
            raw_time,
            tweet_time,
            time,
        } => {
            assert_eq!(route, "3");
            assert_eq!(origin, "Wellington Station");
            assert_eq!(destination, "Lyall Bay");
            assert_eq!(raw_time, "10:30 am");
            assert_eq!(*tweet_time, sample_time());
            assert_eq!(*time, convert_time_to_instant(sample_time(), 10, 30).unwrap());
        }
        other => panic!("not a cancellation: {:?}", other),
    }
}

#[test]
fn a_listed_id_is_ignored_whatever_the_text() {
    let ignored = default_ignored_ids();
    assert_eq!(ignored.len(), 41);
    for id in ignored.iter() {
        assert_eq!(
            classify(&ignored, &tweet(*id, CANCELLED)),
            Ok(ClassificationOutcome::Ignored)
        );
        assert_eq!(parse_tweet(&tweet(*id, CANCELLED)), Ok(vec![]));
    }
}

#[test]
fn the_ignore_list_is_configuration() {
    let none: Vec<u64> = vec![];
    assert!(matches!(
        classify(&none, &tweet(1313942434309525504, CANCELLED)),
        Ok(ClassificationOutcome::Disruption(found)) if found.len() == 1
    ));
    let own: Vec<u64> = vec![7];
    assert_eq!(
        classify(&own, &tweet(7, CANCELLED)),
        Ok(ClassificationOutcome::Ignored)
    );
}

#[test]
fn a_train_line_prefix_is_ignored() {
    let ignored = default_ignored_ids();
    for line in ["WRL", "KPL", "HVL", "JVL", "MEL"] {
        let text = format!("{}: {}", line, CANCELLED);
        assert_eq!(
            classify(&ignored, &tweet(1, &text)),
            Ok(ClassificationOutcome::Ignored)
        );
        assert_eq!(parse_tweet(&tweet(1, &text)), Ok(vec![]));
    }
    assert_eq!(
        classify(&ignored, &tweet(1, "Trains replaced by buses between Petone and Wellington.")),
        Ok(ClassificationOutcome::Ignored)
    );
    assert_eq!(
        classify(&ignored, &tweet(1, "Ferry WHF: 5:30pm sailing is cancelled.")),
        Ok(ClassificationOutcome::Ignored)
    );
}

#[test]
fn a_message_with_a_link_is_ignored() {
    let ignored = default_ignored_ids();
    let text = format!("{} https://t.co/abc", CANCELLED);
    assert_eq!(
        classify(&ignored, &tweet(1, &text)),
        Ok(ClassificationOutcome::Ignored)
    );
    assert_eq!(parse_tweet(&tweet(1, &text)), Ok(vec![]));
}

#[test]
fn any_other_message_is_unrecognized() {
    let ignored = default_ignored_ids();
    assert_eq!(
        classify(&ignored, &tweet(1, "Good morning Wellington!")),
        Ok(ClassificationOutcome::Unrecognized)
    );
    assert_eq!(
        parse_tweet(&tweet(1, "Good morning Wellington!")),
        Err(ParseError::UnrecognizedMessageTemplate)
    );
    assert_eq!(
        classify(&ignored, &tweet(1, "")),
        Ok(ClassificationOutcome::Unrecognized)
    );
}

#[test]
fn a_bus_message_that_fits_no_template_is_unrecognized() {
    let ignored = default_ignored_ids();
    let text = "Bus 3: Thanks for your patience this morning.";
    assert_eq!(
        classify(&ignored, &tweet(1, text)),
        Ok(ClassificationOutcome::Unrecognized)
    );
    assert_eq!(
        parse_bus_tweet(&tweet(1, text)),
        Err(ParseError::UnrecognizedMessageTemplate)
    );
    assert_eq!(
        parse_tweet(&tweet(1, "School bus 700 is running today.")),
        Err(ParseError::UnrecognizedMessageTemplate)
    );
}

#[test]
fn known_chatter_about_buses_holds_no_notice() {
    let ignored = default_ignored_ids();
    let text = "Bus 83: Slip on the road, buses cannot pass. Detour in place.";
    assert_eq!(
        classify(&ignored, &tweet(1, text)),
        Ok(ClassificationOutcome::Disruption(vec![]))
    );
    assert_eq!(parse_tweet(&tweet(1, text)), Ok(vec![]));
    assert_eq!(
        parse_bus_tweet(&tweet(1, "Bus 1: see https://t.co/xyz")),
        Ok(vec![])
    );
}

#[test]
fn reinstated_wins_over_cancelled() {
    for text in [
        "Bus 27: Bus 27: 5:23pm Kingston - Wellington Stn has been REINSTATED.",
        "Bus 1: Bus 1: 8:13am Churton Park to Island Bay that was cancelled will now run.",
    ] {
        let found = parse_tweet(&tweet(1, text)).unwrap();
        assert_eq!(found.len(), 1);
        assert!(matches!(found[0], Cancellations::BusReinstated { .. }));
    }
}

#[test]
fn delays_carry_their_minutes() {
    let cases = [
        ("Bus 29: Bus 29: 7:00pm Brooklyn to Wellington Station is delayed by 20 minutes. Please check RTI.", "20"),
        ("Bus 25: Bus 25: 7:05am Khandallah to Highbury will run 20 minutes late.", "20"),
        ("Bus 130: Bus 130: 10:15am from Petone to Naenae has been delayed due to vehicle breakdown.", ""),
        ("Bus 130: Bus 130: 11:00am from Naenae to Petone is delayed 15-20 minutes due to mechanical issues.", "20"),
    ];
    for (text, minutes) in cases {
        let found = parse_tweet(&tweet(1, text)).unwrap();
        assert_eq!(found.len(), 1);
        match &found[0] {
            Cancellations::BusDelayed { delay_minutes, .. } => assert_eq!(delay_minutes, minutes),
            other => panic!("not a delay: {:?}", other),
        }
    }
}

#[test]
fn a_part_cancellation_without_origin_starts_where_the_gap_starts() {
    let text = "Bus 1: 7:10am to Island Bay is part cancelled between Johnsonville and Wellington Station.";
    let found = parse_tweet(&tweet(1, text)).unwrap();
    assert_eq!(
        found,
        vec![Cancellations::BusPartCancelled {
            route: "1".to_string(),
            origin: "Johnsonville".to_string(),
            destination: "Island Bay".to_string(),
            cancelled_from: "Johnsonville".to_string(),
            cancelled_to: "Wellington Station".to_string(),
            raw_time: "7:10 am".to_string(),
            tweet_time: sample_time(),
            time: convert_time_to_instant(sample_time(), 7, 10).unwrap(),
        }]
    );
}

#[test]
fn lax_times_are_normalized() {
    let cases = [
        ("Bus 3: Bus 3: 6pm Tirangi Road to Wellington Station has been cancelled.", "6:00 pm"),
        ("Bus 3: Bus 3: 12.30am Tirangi Road to Wellington Station has been cancelled.", "12:30 am"),
        ("Bus 3: Bus 3: 9 Tirangi Road to Wellington Station has been cancelled.", "9:00 am"),
        ("Bus220: 1.14pm Ascot Park to Titahi Bay is cancelled.", "1:14 pm"),
    ];
    for (text, raw) in cases {
        let found = parse_tweet(&tweet(1, text)).unwrap();
        assert_eq!(found.len(), 1);
        match &found[0] {
            Cancellations::BusCancelled { raw_time, .. } => assert_eq!(raw_time, raw),
            other => panic!("not a cancellation: {:?}", other),
        }
    }
}

#[test]
fn spaces_around_a_span_are_trimmed() {
    let text = "Bus 12: Bus 12: 12:48pm  Strathmore to Kilbirnie  is cancelled.";
    let found = parse_tweet(&tweet(1, text)).unwrap();
    match &found[0] {
        Cancellations::BusCancelled { origin, destination, .. } => {
            assert_eq!(origin, "Strathmore");
            assert_eq!(destination, "Kilbirnie");
        }
        other => panic!("not a cancellation: {:?}", other),
    }
}

#[test]
fn an_ambiguous_time_is_an_error_of_its_own() {
    let text = "Bus 3: Bus 3: 3:15 Lyall Bay - Wellington Stn has been cancelled.";
    let found = parse_tweet(&tweet(1, text));
    assert!(matches!(
        found,
        Err(ParseError::Time(TimeError::AmbiguousTimeOfDay { hour: 3, minute: 15, .. }))
    ));
    let ignored = default_ignored_ids();
    assert!(matches!(
        classify(&ignored, &tweet(1, text)),
        Err(ParseError::Time(TimeError::AmbiguousTimeOfDay { .. }))
    ));
}

#[test]
fn an_hour_that_cannot_be_set_is_a_time_error() {
    let text = "Bus 3: Bus 3: 25:15am Lyall Bay - Wellington Stn has been cancelled.";
    assert_eq!(
        parse_tweet(&tweet(1, text)),
        Err(ParseError::Time(TimeError::HourNotSet { hour: 25 }))
    );
}

#[test]
fn events_are_made_from_the_groups_that_the_template_names() {
    let at = tweet(1, "");
    let full = groups(&[
        Some("whole"),
        Some("83"),
        Some("8"),
        Some("35"),
        Some("pm"),
        Some(" Courtenay Place "),
        Some("Eastbourne"),
        Some("15"),
        Some(" Petone"),
    ]);
    assert_eq!(
        event_from_captures(Template::DelayedByMinutes, &full, &at),
        Ok(vec![Cancellations::BusDelayed {
            route: "83".to_string(),
            origin: "Courtenay Place".to_string(),
            destination: "Eastbourne".to_string(),
            delay_minutes: "15".to_string(),
            raw_time: "8:35 pm".to_string(),
            tweet_time: sample_time(),
            time: convert_time_to_instant(sample_time(), 20, 35).unwrap(),
        }])
    );
    assert_eq!(
        event_from_captures(Template::PartCancelledFrom, &full, &at),
        Ok(vec![Cancellations::BusPartCancelled {
            route: "83".to_string(),
            origin: "Courtenay Place".to_string(),
            destination: "Eastbourne".to_string(),
            cancelled_from: "15".to_string(),
            cancelled_to: "Eastbourne".to_string(),
            raw_time: "8:35 pm".to_string(),
            tweet_time: sample_time(),
            time: convert_time_to_instant(sample_time(), 20, 35).unwrap(),
        }])
    );
    assert_eq!(
        event_from_captures(Template::PartCancelledBetween, &full, &at),
        Ok(vec![Cancellations::BusPartCancelled {
            route: "83".to_string(),
            origin: "Courtenay Place".to_string(),
            destination: "Eastbourne".to_string(),
            cancelled_from: "15".to_string(),
            cancelled_to: "Petone".to_string(),
            raw_time: "8:35 pm".to_string(),
            tweet_time: sample_time(),
            time: convert_time_to_instant(sample_time(), 20, 35).unwrap(),
        }])
    );
}

#[test]
fn a_missing_or_unreadable_group_is_a_malformed_capture() {
    let at = tweet(1, "");
    let no_hour = groups(&[Some("w"), Some("83"), None, None, Some("pm"), Some("A"), Some("B")]);
    assert_eq!(
        event_from_captures(Template::FullCancel, &no_hour, &at),
        Err(ParseError::MalformedCapture)
    );
    let bad_hour =
        groups(&[Some("w"), Some("83"), Some("x1"), None, Some("pm"), Some("A"), Some("B")]);
    assert_eq!(
        time_from_capture(&at, &bad_hour),
        Err(ParseError::MalformedCapture)
    );
    let long_hour =
        groups(&[Some("w"), Some("83"), Some("123"), None, Some("pm"), Some("A"), Some("B")]);
    assert_eq!(
        time_from_capture(&at, &long_hour),
        Err(ParseError::MalformedCapture)
    );
    let no_destination = groups(&[Some("w"), Some("83"), Some("8"), None, Some("pm"), Some("A")]);
    assert_eq!(
        event_from_captures(Template::FullCancel, &no_destination, &at),
        Err(ParseError::MalformedCapture)
    );
    let no_delay =
        groups(&[Some("w"), Some("83"), Some("8"), None, Some("pm"), Some("A"), Some("B")]);
    assert_eq!(
        event_from_captures(Template::DelayedRunningLate, &no_delay, &at),
        Err(ParseError::MalformedCapture)
    );
    assert_eq!(
        time_from_capture(&at, &no_delay),
        Ok(("8:00 pm".to_string(), convert_time_to_instant(sample_time(), 20, 0).unwrap()))
    );
}

#[test]
fn every_pattern_of_the_catalog_is_accepted_by_the_engine() {
    for template in [
        Template::Reinstated,
        Template::DelayedByMinutes,
        Template::DelayedRunningLate,
        Template::DelayedIndeterminate,
        Template::PartCancelledBetween,
        Template::PartCancelledBetweenNoOrigin,
        Template::PartCancelledFrom,
        Template::FullCancel,
    ] {
        assert!(regex::Regex::new(&template.pattern()).is_ok());
    }
    assert_eq!(
        Template::FullCancel.pattern(),
        "Bu[sa] ?(?P<bus_num>[0-9ex]+)(?:: +|:| )(?P<hour>[0-9]{1,2})(?:[.:](?P<minute>[0-9]{2}))?(?P<period>am|pm|m|)[:]? (?:from )?(?P<origin>.*?) (?:to|tp|-) (?P<destination>.*?) +(?:(?:is|has been|was) |)cancelled"
    );
}

#[test]
fn stricter_templates_are_tried_first() {
    let order = templates();
    assert_eq!(order.len(), CATALOG_LEN);
    for (place, template) in order.iter().enumerate() {
        assert_eq!(template_at(place), *template);
    }
    let place = |wanted: Template| order.iter().position(|t| *t == wanted).unwrap();
    assert!(place(Template::Reinstated) < place(Template::DelayedByMinutes));
    assert!(place(Template::DelayedByMinutes) < place(Template::DelayedRunningLate));
    assert!(place(Template::DelayedRunningLate) < place(Template::DelayedIndeterminate));
    assert!(place(Template::DelayedIndeterminate) < place(Template::PartCancelledBetween));
    assert!(place(Template::PartCancelledBetween) < place(Template::PartCancelledBetweenNoOrigin));
    assert!(place(Template::PartCancelledBetweenNoOrigin) < place(Template::PartCancelledFrom));
    assert!(place(Template::PartCancelledFrom) < place(Template::FullCancel));
}

#[test]
fn the_first_template_that_matches_decides() {
    // The pattern of a whole cancellation matches this text as well.
    let text = "Bus 2: Bus 2: 2:50pm Karori - Miramar is part cancelled between Kilbrinie and Miramar.";
    assert!(regex::Regex::new(&Template::FullCancel.pattern()).unwrap().is_match(text));
    let found = parse_tweet(&tweet(1, text)).unwrap();
    assert!(matches!(found[0], Cancellations::BusPartCancelled { .. }));
    let text = "Bus 27: Bus 27: 5:23pm Kingston - Wellington Stn that was cancelled will now run.";
    assert!(regex::Regex::new(&Template::FullCancel.pattern()).unwrap().is_match(text));
    let found = parse_tweet(&tweet(1, text)).unwrap();
    assert!(matches!(found[0], Cancellations::BusReinstated { .. }));
}
