use metlink_notices::parser::Cancellations;
use metlink_notices::summary::{
    summarize, CancellationNoticeStats, CancellationStats, Duration, TimeOfDay,
};
use metlink_notices::time::{LocalInstant, Timestamp};

fn event(posted: (i64, u32), time: (i64, u32, i32)) -> Cancellations {
    Cancellations::BusCancelled {
        route: "3".to_string(),
        origin: "A".to_string(),
        destination: "B".to_string(),
        raw_time: "10:30 am".to_string(),
        tweet_time: Timestamp::new(posted.0, posted.1).unwrap(),
        time: LocalInstant::new(time.0, time.1, time.2).unwrap(),
    }
}

fn secs(n: i64) -> Duration {
    Duration::new(n, 0).unwrap()
}

fn nothing() -> CancellationNoticeStats {
    CancellationNoticeStats {
        count: 0,
        earliest: None,
        latest: None,
        average: Duration::zero(),
    }
}

// Posted at 10:00:06 on 25 January 2021 in Wellington (UTC+13).
const POSTED: i64 = 1_611_522_006;
const OFFSET: i32 = 13 * 3600;

fn three() -> Vec<Cancellations> {
    vec![
        // 10:30, 29 min 54 s ahead.
        event((POSTED, 0), (POSTED + 1794, 0, OFFSET)),
        // 09:00, 1 h 00 min 06 s ago.
        event((POSTED, 0), (POSTED - 3606, 0, OFFSET)),
        // 17:23, 7 h 22 min 54 s ahead.
        event((POSTED, 0), (POSTED + 26574, 0, OFFSET)),
    ]
}

fn stats_of_three() -> CancellationStats {
    CancellationStats {
        count: 3,
        earliest: Some(TimeOfDay { nanos: 9 * 3600 * 1_000_000_000 }),
        latest: Some(TimeOfDay { nanos: (17 * 3600 + 23 * 60) * 1_000_000_000 }),
        notice: CancellationNoticeStats {
            count: 3,
            earliest: Some(secs(26574)),
            latest: Some(secs(-3606)),
            average: secs(8254),
        },
        before_notice: CancellationNoticeStats {
            count: 2,
            earliest: Some(secs(26574)),
            latest: Some(secs(1794)),
            average: secs(14184),
        },
        after_notice: CancellationNoticeStats {
            count: 1,
            earliest: Some(secs(-3606)),
            latest: Some(secs(-3606)),
            average: secs(-3606),
        },
    }
}

#[test]
fn an_empty_batch_counts_nothing() {
    let summary = summarize(&[]);
    assert_eq!(
        summary.stats,
        CancellationStats {
            count: 0,
            earliest: None,
            latest: None,
            notice: nothing(),
            before_notice: nothing(),
            after_notice: nothing(),
        }
    );
    assert_eq!(summary.stats.notice.average.whole_secs(), 0);
    assert_eq!(summary.stats.notice.average.subsec_nanos(), 0);
}

#[test]
fn a_batch_is_counted_and_split_by_sign() {
    assert_eq!(summarize(&three()).stats, stats_of_three());
}

#[test]
fn the_order_of_the_batch_does_not_matter() {
    let batch = three();
    let orders = [[0, 1, 2], [0, 2, 1], [1, 0, 2], [1, 2, 0], [2, 0, 1], [2, 1, 0]];
    for order in orders {
        let shuffled: Vec<Cancellations> = order.iter().map(|i| batch[*i].clone()).collect();
        assert_eq!(summarize(&shuffled), summarize(&batch));
        assert_eq!(summarize(&shuffled).stats, stats_of_three());
    }
}

#[test]
fn a_notice_at_the_scheduled_time_counts_as_after() {
    let stats = summarize(&[event((100, 0), (100, 0, 0))]).stats;
    assert_eq!(stats.before_notice, nothing());
    assert_eq!(stats.after_notice.count, 1);
    assert_eq!(stats.after_notice.average, Duration::zero());
    assert_eq!(stats.notice.earliest, Some(Duration::zero()));
}

#[test]
fn a_nanosecond_ahead_counts_as_before() {
    let stats = summarize(&[event((100, 0), (100, 1, 0))]).stats;
    assert_eq!(stats.after_notice, nothing());
    assert_eq!(stats.before_notice.count, 1);
    assert_eq!(stats.before_notice.average, Duration::new(0, 1).unwrap());
}

#[test]
fn averages_round_towards_zero() {
    let batch = vec![
        // 1.5 s late.
        event((100, 500_000_000), (99, 0, 0)),
        // On time.
        event((100, 0), (100, 0, 0)),
        // 1 ns ahead.
        event((100, 0), (100, 1, 0)),
    ];
    let stats = summarize(&batch).stats;
    // -1_499_999_999 ns over 3 is -499_999_999.67 ns.
    assert_eq!(stats.notice.average, Duration::new(-1, 500_000_001).unwrap());
    assert_eq!(stats.notice.average.whole_secs(), -1);
    assert_eq!(stats.notice.average.subsec_nanos(), 500_000_001);
    // -1.5 s over 2 is -0.75 s.
    assert_eq!(stats.after_notice.average, Duration::new(-1, 250_000_000).unwrap());
    assert_eq!(stats.before_notice.average, Duration::new(0, 1).unwrap());
    assert_eq!(stats.notice.earliest, Some(Duration::new(0, 1).unwrap()));
    assert_eq!(stats.notice.latest, Some(Duration::new(-2, 500_000_000).unwrap()));
}

#[test]
fn positive_averages_round_down() {
    let batch = vec![event((0, 0), (1, 0, 0)), event((0, 0), (2, 0, 0)), event((0, 0), (2, 0, 0))];
    let stats = summarize(&batch).stats;
    // 5 s over 3 is 1.666666666 s.
    assert_eq!(stats.notice.average, Duration::new(1, 666_666_666).unwrap());
}

#[test]
fn times_of_day_are_read_on_the_clock_of_each_event() {
    let batch = vec![
        // 23:00 UTC is 11:00 the next day at +12.
        event((0, 0), (23 * 3600, 0, 12 * 3600)),
        // 12:00 UTC is 12:00.
        event((0, 0), (12 * 3600, 5, 0)),
        // 01:00 UTC is 23:00 the day before at -2.
        event((0, 0), (3600, 0, -2 * 3600)),
    ];
    let stats = summarize(&batch).stats;
    assert_eq!(stats.earliest, Some(TimeOfDay { nanos: 11 * 3600 * 1_000_000_000 }));
    assert_eq!(stats.latest, Some(TimeOfDay { nanos: 23 * 3600 * 1_000_000_000 }));
    assert_eq!(TimeOfDay::of(batch[1].time()), TimeOfDay { nanos: 12 * 3600 * 1_000_000_000 + 5 });
}

#[test]
fn the_longest_spans_do_not_overflow() {
    let first = (-62_167_219_200, 0);
    let last = (253_402_300_799, 999_999_999);
    let batch = vec![event(first, (last.0, last.1, 0)); 1000];
    let stats = summarize(&batch).stats;
    let span = Duration::new(315_569_519_999, 999_999_999).unwrap();
    assert_eq!(stats.notice.average, span);
    assert_eq!(stats.notice.earliest, Some(span));
    let back = vec![event(last, (first.0, first.1, 0)); 1000];
    let stats = summarize(&back).stats;
    assert_eq!(stats.notice.average, Duration::new(-315_569_520_000, 1).unwrap());
}

#[test]
fn durations_are_held_to_the_longest_span() {
    assert!(Duration::new(315_569_520_000, 0).is_some());
    assert!(Duration::new(315_569_520_001, 0).is_none());
    assert!(Duration::new(-315_569_520_000, 0).is_some());
    assert!(Duration::new(-315_569_520_001, 0).is_none());
    assert!(Duration::new(0, 1_000_000_000).is_none());
    assert!(Duration::new(0, 1).unwrap().is_positive());
    assert!(!Duration::zero().is_positive());
    assert!(!Duration::new(-1, 999_999_999).unwrap().is_positive());
    assert!(secs(2).at_least(&secs(2)));
    assert!(!secs(-2).at_least(&Duration::new(-2, 1).unwrap()));
    assert_eq!(
        Duration::between(
            &Timestamp::new(10, 900_000_000).unwrap(),
            &LocalInstant::new(12, 100_000_000, 3600).unwrap()
        ),
        Duration::new(1, 200_000_000).unwrap()
    );
    assert_eq!(
        CancellationNoticeStats::from_durations(&[secs(4), secs(-1)]),
        CancellationNoticeStats {
            count: 2,
            earliest: Some(secs(4)),
            latest: Some(secs(-1)),
            average: Duration::new(1, 500_000_000).unwrap(),
        }
    );
}

#[test]
fn durations_and_instants_are_ordered_by_length_and_time() {
    assert!(secs(-2) < Duration::new(-2, 1).unwrap());
    assert!(Duration::new(-1, 999_999_999).unwrap() < Duration::zero());
    assert!(Duration::zero() < Duration::new(0, 1).unwrap());
    assert!(Duration::new(0, 999_999_999).unwrap() < secs(1));
    assert!(Timestamp::new(5, 0).unwrap() < Timestamp::new(5, 1).unwrap());
    assert!(Timestamp::new(-5, 999).unwrap() < Timestamp::new(-4, 0).unwrap());
    assert!(TimeOfDay { nanos: 1 } < TimeOfDay { nanos: 2 });
}
