use chrono::DateTime;
use metlink_notices::time::{convert_time_to_instant, LocalInstant, Timestamp};

fn timestamp(text: &str) -> Timestamp {
    let at = DateTime::parse_from_rfc3339(text).unwrap();
    Timestamp::new(at.timestamp(), at.timestamp_subsec_nanos()).unwrap()
}

fn local_instant(text: &str) -> LocalInstant {
    let at = DateTime::parse_from_rfc3339(text).unwrap();
    LocalInstant::new(
        at.timestamp(),
        at.timestamp_subsec_nanos(),
        at.offset().local_minus_utc(),
    )
    .unwrap()
}

#[test]
fn test_time() {
    assert_eq!(
        Ok(local_instant("2021-02-06T13:15:00+13:00")),
        convert_time_to_instant(timestamp("2021-02-06T00:12:34.567Z"), 13, 15)
    )
}
