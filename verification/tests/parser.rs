use chrono::DateTime;
use metlink_notices::parser::{parse_tweet, Cancellations};
use metlink_notices::pattern::{Template, TIME_RE};
use metlink_notices::time::{convert_time_to_instant, Timestamp};
use metlink_notices::tweet_cache::TweetContent;
use regex::Regex;

fn timestamp(text: &str) -> Timestamp {
    let at = DateTime::parse_from_rfc3339(text).unwrap();
    Timestamp::new(at.timestamp(), at.timestamp_subsec_nanos()).unwrap()
}

fn sample_time() -> Timestamp {
    timestamp("2021-01-24T21:00:06Z")
}

fn parse_tweet_str(text: &dyn ToString, expected: Vec<Cancellations>) {
    parse_tweet_time_str(sample_time(), text, expected)
}

fn parse_tweet_time_str(created_at: Timestamp, text: &dyn ToString, expected: Vec<Cancellations>) {
    let text = text.to_string();
    let tweet = TweetContent {
        id: 1353447509805342721,
        created_at,
        text: text.clone(),
    };
    assert_eq!((&text, parse_tweet(&tweet)), (&text, Ok(expected)));
}

#[test]
fn test_time_re() {
    assert!(Regex::new(TIME_RE).is_ok());
    assert!(Regex::new(TIME_RE).unwrap().is_match("5.30pm"));
    assert!(Regex::new(TIME_RE).unwrap().is_match("5:30pm"));
    assert!(Regex::new(TIME_RE).unwrap().is_match("12.30am"));
    assert!(Regex::new(TIME_RE).unwrap().is_match("12:30am"));
}

#[test]
fn test_cancelled_bus() {
    parse_tweet_str(
        &"Bus 3: Bus 3: 10:30am Wellington Station to Lyall Bay is cancelled. Please check RTI for next available bus.",
        vec![Cancellations::BusCancelled {
            route: "3".to_string(),
            origin: "Wellington Station".to_string(),
            destination: "Lyall Bay".to_string(),
            raw_time: "10:30 am".to_string(),
            tweet_time: sample_time(),
            time: convert_time_to_instant(sample_time(), 10, 30).unwrap()
        }]
    );
}

#[test]
fn test_cancelled_bus_alt() {
    println!("{}", Template::FullCancel.pattern());

    parse_tweet_str(
        &"Bus 27: Bus 27: 5:23pm Kingston - Wellington Stn has been cancelled. Please check RTI for next available service.",
        vec![Cancellations::BusCancelled {
            route: "27".to_string(),
            origin: "Kingston".to_string(),
            destination: "Wellington Stn".to_string(),
            raw_time: "5:23 pm".to_string(),
            tweet_time: sample_time(),
            time: convert_time_to_instant(sample_time(), 17, 23).unwrap()
        }]
    );
}

#[test]
fn test_cancelled_bus_alt2() {
    println!("{}", Template::FullCancel.pattern());

    parse_tweet_str(
        &"Bus 3: Bus 3: 6pm Tirangi Road to Wellington Station has been cancelled.",
        vec![Cancellations::BusCancelled {
            route: "3".to_string(),
            origin: "Tirangi Road".to_string(),
            destination: "Wellington Station".to_string(),
            raw_time: "6:00 pm".to_string(),
            tweet_time: sample_time(),
            time: convert_time_to_instant(sample_time(), 18, 00).unwrap(),
        }],
    );
}

#[test]
fn test_cancelled_bus_alt3() {
    println!("{}", Template::FullCancel.pattern());

    parse_tweet_str(
        &"Bus 83: Bus 83: 8:35pm Courtenay Place tp Eastbourne is cancelled. Check RTI for next service.",
        vec![Cancellations::BusCancelled {
            route: "83".to_string(),
            origin: "Courtenay Place".to_string(),
            destination: "Eastbourne".to_string(),
            raw_time: "8:35 pm".to_string(),
            tweet_time: sample_time(),
            time: convert_time_to_instant(sample_time(), 20, 35).unwrap()
        }],
    );
}

#[test]
fn test_cancelled_bus_alt4() {
    println!("{}", Template::FullCancel.pattern());

    parse_tweet_str(
        &"Bus 14: Bus 14: 1:30pm Wilton to Kilbirnie was cancelled. Please check RTI for next available bus.",
        vec![Cancellations::BusCancelled {
            route: "14".to_string(),
            origin: "Wilton".to_string(),
            destination: "Kilbirnie".to_string(),
            raw_time: "1:30 pm".to_string(),
            tweet_time: sample_time(),
            time: convert_time_to_instant(sample_time(), 13, 30).unwrap()
        }],
    );
}

#[test]
fn test_cancelled_bus_alt5() {
    println!("{}", Template::FullCancel.pattern());

    parse_tweet_str(
        &"Bus 3: Bus 3: 3:40pm Tirangi Road to Wellington Station cancelled. Please check RTI for next available bus.",
        vec![Cancellations::BusCancelled {
            route: "3".to_string(),
            origin: "Tirangi Road".to_string(),
            destination: "Wellington Station".to_string(),
            raw_time: "3:40 pm".to_string(),
            tweet_time: sample_time(),
            time: convert_time_to_instant(sample_time(), 15, 40).unwrap()
        }],
    );
}

#[test]
fn test_cancelled_bus_alt6() {
    println!("{}", Template::FullCancel.pattern());

    parse_tweet_str(
        &"Bus 12: Bus 12: 12:48pm Strathmore to Kilbirnie  is cancelled. Please check RTI for next service.",
        vec![Cancellations::BusCancelled {
            route: "12".to_string(),
            origin: "Strathmore".to_string(),
            destination: "Kilbirnie".to_string(),
            raw_time: "12:48 pm".to_string(),
            tweet_time: sample_time(),
            time: convert_time_to_instant(sample_time(), 12, 48).unwrap()
        }],
    );
}

#[test]
fn test_cancelled_bus_alt7() {
    println!("{}", Template::FullCancel.pattern());
    let tweet_time = timestamp("2021-02-04T03:58:06Z");
    parse_tweet_time_str(
        tweet_time,
        &"Bus 3: Bus 3: 5:10 Lyall Bay - Wellington Stn has been cancelled. Please check RTI for next available service.",
        vec![Cancellations::BusCancelled {
            route: "3".to_string(),
            origin: "Lyall Bay".to_string(),
            destination: "Wellington Stn".to_string(),
            raw_time: "5:10 pm".to_string(),
            tweet_time,
            time: convert_time_to_instant(tweet_time, 17, 10).unwrap()
        }],
    );
}

#[test]
fn test_cancelled_bus_alt8() {
    println!("{}", Template::FullCancel.pattern());

    parse_tweet_str(
        &"Bus 17: Bua 17: 8:20pm Wellington Station to Kowhai Park is cancelled. Please check RTI for next service.",
        vec![Cancellations::BusCancelled {
            route: "17".to_string(),
            origin: "Wellington Station".to_string(),
            destination: "Kowhai Park".to_string(),
            raw_time: "8:20 pm".to_string(),
            tweet_time: sample_time(),
            time: convert_time_to_instant(sample_time(), 20, 20).unwrap()
        }],
    );
}

#[test]
fn test_cancelled_bus_alt9() {
    println!("{}", Template::FullCancel.pattern());

    parse_tweet_str(
        &"Bus 22: Bus 22 8pm: Wellington Station to Mairangi is cancelled. Please check RTI for next service.",
        vec![Cancellations::BusCancelled {
            route: "22".to_string(),
            origin: "Wellington Station".to_string(),
            destination: "Mairangi".to_string(),
            raw_time: "8:00 pm".to_string(),
            tweet_time: sample_time(),
            time: convert_time_to_instant(sample_time(), 20, 00).unwrap()
        }],
    );
}

#[test]
fn test_cancelled_bus_alt10() {
    println!("{}", Template::FullCancel.pattern());

    parse_tweet_str(
        &"Bus 3: Bus 3 3:50pm Wellington Station to Tirangi Road is cancelled. Check RTI to find next available bus",
        vec![Cancellations::BusCancelled {
            route: "3".to_string(),
            origin: "Wellington Station".to_string(),
            destination: "Tirangi Road".to_string(),
            raw_time: "3:50 pm".to_string(),
            tweet_time: sample_time(),
            time: convert_time_to_instant(sample_time(), 15, 50).unwrap()
        }],
    );
}

#[test]
fn test_cancelled_bus_alt11() {
    println!("{}", Template::FullCancel.pattern());

    parse_tweet_str(
        &"Bus 2: Bus 2 3:57pm Miramar to Karori is cancelled. Check RTI to find next available bus",
        vec![Cancellations::BusCancelled {
            route: "2".to_string(),
            origin: "Miramar".to_string(),
            destination: "Karori".to_string(),
            raw_time: "3:57 pm".to_string(),
            tweet_time: sample_time(),
            time: convert_time_to_instant(sample_time(), 15, 57).unwrap()
        }],
    );
}

#[test]
fn test_cancelled_bus_alt12() {
    println!("{}", Template::FullCancel.pattern());

    parse_tweet_str(
        &"Bus 3: Bus 3 3:50pm Wellington Station to Tirangi Road is cancelled. Check RTI to find next available bus",
        vec![Cancellations::BusCancelled {
            route: "3".to_string(),
            origin: "Wellington Station".to_string(),
            destination: "Tirangi Road".to_string(),
            raw_time: "3:50 pm".to_string(),
            tweet_time: sample_time(),
            time: convert_time_to_instant(sample_time(), 15, 50).unwrap()
        }],
    );
}

#[test]
fn test_cancelled_bus_alt13() {
    println!("{}", Template::FullCancel.pattern());

    parse_tweet_str(
        &"Bus 1: 6:36pm Grenada Village to Island Bay is cancelled. Check RTI to find next available bus",
        vec![Cancellations::BusCancelled {
            route: "1".to_string(),
            origin: "Grenada Village".to_string(),
            destination: "Island Bay".to_string(),
            raw_time: "6:36 pm".to_string(),
            tweet_time: sample_time(),
            time: convert_time_to_instant(sample_time(), 18, 36).unwrap()
        }],
    );
}

#[test]
fn test_reinstated_bus() {
    println!("{}", Template::FullCancel.pattern());

    parse_tweet_str(
        &"Bus 27: Bus 27: 5:23pm Kingston - Wellington Stn has been REINSTATED.",
        vec![Cancellations::BusReinstated {
            route: "27".to_string(),
            origin: "Kingston".to_string(),
            destination: "Wellington Stn".to_string(),
            raw_time: "5:23 pm".to_string(),
            tweet_time: sample_time(),
            time: convert_time_to_instant(sample_time(), 17, 23).unwrap(),
        }],
    );
}

#[test]
fn test_reinstated_bus_alt() {
    parse_tweet_str(
        &"Bus 14: Bus 14: 7:43am Kilbirnie to Wilton has been reinstated and will now run.",
        vec![Cancellations::BusReinstated {
            route: "14".to_string(),
            origin: "Kilbirnie".to_string(),
            destination: "Wilton".to_string(),
            raw_time: "7:43 am".to_string(),
            tweet_time: sample_time(),
            time: convert_time_to_instant(sample_time(), 7, 43).unwrap(),
        }],
    );
}

#[test]
fn test_reinstated_bus_alt2() {
    parse_tweet_str(
        &"Bus 1: Bus 1: 8:13am Churton Park to Island Bay that was cancelled will now run.",
        vec![Cancellations::BusReinstated {
            route: "1".to_string(),
            origin: "Churton Park".to_string(),
            destination: "Island Bay".to_string(),
            raw_time: "8:13 am".to_string(),
            tweet_time: sample_time(),
            time: convert_time_to_instant(sample_time(), 8, 13).unwrap(),
        }],
    );
}

#[test]
fn test_reinstated_bus_alt3() {
    println!("{}", Template::Reinstated.pattern());

    parse_tweet_str(
        &"Bus 160: Bus 160: 9:00am from Lower Hutt to Wainuiomata is REINSTATED.",
        vec![Cancellations::BusReinstated {
            route: "160".to_string(),
            origin: "Lower Hutt".to_string(),
            destination: "Wainuiomata".to_string(),
            raw_time: "9:00 am".to_string(),
            tweet_time: sample_time(),
            time: convert_time_to_instant(sample_time(), 9, 00).unwrap(),
        }],
    );
}

#[test]
fn test_reinstated_bus_alt4() {
    println!("{}", Template::Reinstated.pattern());

    parse_tweet_str(
        &"Bus 160: Bus 160: 8:23am from Wainuiomata to Lower Hutt is reinstated.",
        vec![Cancellations::BusReinstated {
            route: "160".to_string(),
            origin: "Wainuiomata".to_string(),
            destination: "Lower Hutt".to_string(),
            raw_time: "8:23 am".to_string(),
            tweet_time: sample_time(),
            time: convert_time_to_instant(sample_time(), 8, 23).unwrap(),
        }],
    );
}

#[test]
fn test_delayed_bus() {
    println!("{}", Template::DelayedByMinutes.pattern());

    parse_tweet_str(
        &"Bus 29: Bus 29: 7:00pm Brooklyn to Wellington Station is delayed by 20 minutes. Please check RTI for next available bus.",
        vec![Cancellations::BusDelayed {
            route: "29".to_string(),
            origin: "Brooklyn".to_string(),
            destination: "Wellington Station".to_string(),
            delay_minutes: "20".to_string(),
            raw_time: "7:00 pm".to_string(),
            tweet_time: sample_time(),
            time: convert_time_to_instant(sample_time(), 19, 00).unwrap()
        }],
    );
}

#[test]
fn test_delayed_bus_alt() {
    println!("{}", Template::DelayedByMinutes.pattern());

    parse_tweet_str(
        &"Bus 17: Bus 17: 5:03pm Wellington Station - Kowhai Park has been delayed 20 minutes due to mechanical issues. Please check RTI for updates.",
        vec![Cancellations::BusDelayed {
            route: "17".to_string(),
            origin: "Wellington Station".to_string(),
            destination: "Kowhai Park".to_string(),
            delay_minutes: "20".to_string(),
            raw_time: "5:03 pm".to_string(),
            tweet_time: sample_time(),
            time: convert_time_to_instant(sample_time(), 17, 03).unwrap()
        }],
    );
}

#[test]
fn test_delayed_bus_alt2() {
    println!("{}", Template::DelayedByMinutes.pattern());

    parse_tweet_str(
        &"Bus 220: Bus 220: 7:10am Titahi Bay to Ascot Park will be delayed 20 minutes. Sorry for the inconvenience!",
        vec![Cancellations::BusDelayed {
            route: "220".to_string(),
            origin: "Titahi Bay".to_string(),
            destination: "Ascot Park".to_string(),
            delay_minutes: "20".to_string(),
            raw_time: "7:10 am".to_string(),
            tweet_time: sample_time(),
            time: convert_time_to_instant(sample_time(), 7, 10).unwrap()
        }],
    );
}

#[test]
fn test_delayed_bus_alt3() {
    println!("{}", Template::DelayedByMinutes.pattern());

    parse_tweet_str(
        &"Bus 130: Bus 130: 11:00am from Naenae to Petone is delayed 15-20 minutes due to mechanical issues. Check RTI for updates.",
        vec![Cancellations::BusDelayed {
            route: "130".to_string(),
            origin: "Naenae".to_string(),
            destination: "Petone".to_string(),
            delay_minutes: "20".to_string(),
            raw_time: "11:00 am".to_string(),
            tweet_time: sample_time(),
            time: convert_time_to_instant(sample_time(), 11, 00).unwrap()
        }],
    );
}

#[test]
fn test_delayed_bus_alt4() {
    println!("{}", Template::DelayedByMinutes.pattern());

    parse_tweet_str(
        &"Bus 130: Bus 130: 10:15am from Petone to Naenae is delayed due to vehicle breakdown. Check RTI for updates.",
        vec![Cancellations::BusDelayed {
            route: "130".to_string(),
            origin: "Petone".to_string(),
            destination: "Naenae".to_string(),
            delay_minutes: "".to_string(),
            raw_time: "10:15 am".to_string(),
            tweet_time: sample_time(),
            time: convert_time_to_instant(sample_time(), 10, 15).unwrap()
        }],
    );
}

#[test]
fn test_delayed_bus_alt5() {
    println!("{}", Template::DelayedByMinutes.pattern());

    parse_tweet_str(
        &"Bus 25: Bus 25: 7:05am Khandallah to Highbury will run 15 minutes late.",
        vec![Cancellations::BusDelayed {
            route: "25".to_string(),
            origin: "Khandallah".to_string(),
            destination: "Highbury".to_string(),
            delay_minutes: "15".to_string(),
            raw_time: "7:05 am".to_string(),
            tweet_time: sample_time(),
            time: convert_time_to_instant(sample_time(), 7, 05).unwrap(),
        }],
    );
}

#[test]
fn test_delayed_bus_alt6() {
    println!("{}", Template::DelayedByMinutes.pattern());

    parse_tweet_str(
        &"Bus 220: 1.14pm Ascot Park to Titahi Bay is delayed. Please check RTI for updates on this service.",
        vec![Cancellations::BusDelayed {
            route: "220".to_string(),
            origin: "Ascot Park".to_string(),
            destination: "Titahi Bay".to_string(),
            delay_minutes: "".to_string(),
            raw_time: "1:14 pm".to_string(),
            tweet_time: sample_time(),
            time: convert_time_to_instant(sample_time(), 13, 14).unwrap(),
        }],
    );
}

#[test]
fn test_delayed_bus_alt7() {
    println!("{}", Template::DelayedIndeterminate.pattern());

    parse_tweet_str(
        &"Bus 24: Bus 24: 9:10am Miramar - Johnsonville has been delayed due to road block. Please check RTI for updates.",
        vec![Cancellations::BusDelayed {
            route: "24".to_string(),
            origin: "Miramar".to_string(),
            destination: "Johnsonville".to_string(),
            delay_minutes: "".to_string(),
            raw_time: "9:10 am".to_string(),
            tweet_time: sample_time(),
            time: convert_time_to_instant(sample_time(), 9, 10).unwrap(),
        }],
    );
}

#[test]
fn test_part_cancelled_bus() {
    println!("{}", Template::PartCancelledFrom.pattern());

    parse_tweet_str(
        &"Bus 2: Bus 2: 6:15pm Karori - Miramar has been part cancelled from Rongotai. Please check RTI for next available service.",
        vec![Cancellations::BusPartCancelled {
            route: "2".to_string(),
            origin: "Karori".to_string(),
            destination: "Miramar".to_string(),
            cancelled_from: "Rongotai".to_string(),
            cancelled_to: "Miramar".to_string(),
            raw_time: "6:15 pm".to_string(),
            tweet_time: sample_time(),
            time: convert_time_to_instant(sample_time(), 18, 15).unwrap()
        }],
    );
}

#[test]
fn test_part_cancelled_bus_alt() {
    println!("{}", Template::PartCancelledBetween.pattern());

    parse_tweet_str(
        &"Bus 2: Bus 2: 2:50pm Karori - Miramar is part cancelled between Kilbrinie and Miramar. Please check RTI for next service.",
        vec![Cancellations::BusPartCancelled {
            route: "2".to_string(),
            origin: "Karori".to_string(),
            destination: "Miramar".to_string(),
            cancelled_from: "Kilbrinie".to_string(),
            cancelled_to: "Miramar".to_string(),
            raw_time: "2:50 pm".to_string(),
            tweet_time: sample_time(),
            time: convert_time_to_instant(sample_time(), 14, 50).unwrap()
        }],
    );
}

#[test]
fn test_part_cancelled_bus_alt2() {
    println!("{}", Template::PartCancelledBetween.pattern());

    parse_tweet_str(
        &"Bus 29: Bus 29: 6.20pm from Wellington Stn to Island Bay is part-cancelled between Wgtn Stn and Courtenay Pl. Check RTI to find next service.",
        vec![Cancellations::BusPartCancelled {
            route: "29".to_string(),
            origin: "Wellington Stn".to_string(),
            destination: "Island Bay".to_string(),
            cancelled_from: "Wgtn Stn".to_string(),
            cancelled_to: "Courtenay Pl".to_string(),
            raw_time: "6:20 pm".to_string(),
            tweet_time: sample_time(),
            time: convert_time_to_instant(sample_time(), 18, 20).unwrap()
        }],
    );
}

#[test]
fn test_part_cancelled_bus_alt3() {
    println!("{}", Template::PartCancelledBetween.pattern());

    parse_tweet_str(
        &"Bus 220: Bus 220: 9:11am Titahi Bay to Ascot Park will be part cancelled between Titahi Bay and Porirua Station. Please check RTI",
        vec![Cancellations::BusPartCancelled {
            route: "220".to_string(),
            origin: "Titahi Bay".to_string(),
            destination: "Ascot Park".to_string(),
            cancelled_from: "Titahi Bay".to_string(),
            cancelled_to: "Porirua Station".to_string(),
            raw_time: "9:11 am".to_string(),
            tweet_time: sample_time(),
            time: convert_time_to_instant(sample_time(), 9, 11).unwrap()
        }],
    );
}

#[test]
fn test_part_cancelled_bus_alt4() {
    println!("{}", Template::PartCancelledBetween.pattern());

    parse_tweet_str(
        &"Bus 110: Bus 110: 5pm Emerald Hill to Petone. Is part-cancelled from Emerald hill to Upper Hutt.",
        vec![Cancellations::BusPartCancelled {
            route: "110".to_string(),
            origin: "Emerald Hill".to_string(),
            destination: "Petone".to_string(),
            cancelled_from: "Emerald hill".to_string(),
            cancelled_to: "Upper Hutt".to_string(),
            raw_time: "5:00 pm".to_string(),
            tweet_time: sample_time(),
            time: convert_time_to_instant(sample_time(), 17, 00).unwrap()
        }],
    );
}

#[test]
fn test_part_cancelled_bus_alt5() {
    println!("{}", Template::PartCancelledBetween.pattern());

    parse_tweet_str(
        & "Bus 2: Bus 2: 6:46pm Seatoun Park to Kilbirnie part-cancelled from Seatount to Rongotai Rd.",
        vec![Cancellations::BusPartCancelled {
            route: "2".to_string(),
            origin: "Seatoun Park".to_string(),
            destination: "Kilbirnie".to_string(),
            cancelled_from: "Seatount".to_string(),
            cancelled_to: "Rongotai Rd".to_string(),
            raw_time: "6:46 pm".to_string(),
            tweet_time: sample_time(),
            time: convert_time_to_instant(sample_time(), 18, 46).unwrap()
        }],
    );
}
