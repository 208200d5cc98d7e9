//! The notices of a batch of messages, by the week in which each message
//! was posted.

use crate::parser::{
    classification, ignored_tweet_ids, notices, parse_tweet, parsed, Cancellations, Notice,
    ParseError,
};
use crate::time::Timestamp;
use crate::tweet_cache::{copy_of, TweetContent};
use vstd::prelude::*;

verus! {

/// Seconds in a week.
pub const WEEK_SECS: i64 = 604_800;

/// The number of weekly slots of a report. The slot 0 stands for the
/// running week and stays empty.
pub const SLOTS: usize = 4;

/// The slot of a message posted at `posted`, for a report as of `monday`:
/// the number of whole weeks from the posting to `monday`, where that is 1,
/// 2 or 3. A message of the running week, a later one and one older than
/// that has no slot.
pub open spec fn slot_of(monday: Timestamp, posted: Timestamp) -> Option<usize> {
    let week = WEEK_SECS * 1_000_000_000;
    let age = monday.total_nanos() - posted.total_nanos();
    if week <= age < 2 * week {
        Some(1usize)
    } else if 2 * week <= age < 3 * week {
        Some(2usize)
    } else if 3 * week <= age < 4 * week {
        Some(3usize)
    } else {
        None
    }
}

/// Finds the slot of a message posted at `posted`.
pub fn week_slot(monday: &Timestamp, posted: &Timestamp) -> (r: Option<usize>)
    ensures
        r == slot_of(*monday, *posted),
{
    let week: i128 = (WEEK_SECS as i128) * 1_000_000_000;
    let from: i128 = (posted.unix_secs() as i128) * 1_000_000_000 + (posted.subsec_nanos() as i128);
    let to: i128 = (monday.unix_secs() as i128) * 1_000_000_000 + (monday.subsec_nanos() as i128);
    let age: i128 = to - from;
    if age < week {
        None
    } else if age < 2 * week {
        Some(1)
    } else if age < 3 * week {
        Some(2)
    } else if age < 4 * week {
        Some(3)
    } else {
        None
    }
}

/// A message that could not be read, with the reason.
#[derive(Clone, Debug, PartialEq, Eq)]
pub struct Failure {
    pub tweet: TweetContent,
    pub error: ParseError,
}

/// The notices of a batch by weekly slot, and the messages that could not
/// be read.
#[derive(Clone, Debug, PartialEq, Eq)]
pub struct WeeklyReport {
    /// The notices of each slot, in the order of the batch; `SLOTS` lists.
    pub weeks: Vec<Vec<Cancellations>>,
    /// The failures, in the order of the batch.
    pub broken: Vec<Failure>,
}

/// A report with its events as notices.
pub struct Report {
    pub weeks: Seq<Seq<Notice>>,
    pub broken: Seq<Failure>,
}

impl View for WeeklyReport {
    type V = Report;

    open spec fn view(&self) -> Report {
        Report {
            weeks: Seq::new(self.weeks@.len(), |i: int| notices(self.weeks@[i]@)),
            broken: self.broken@,
        }
    }
}

/// What one message adds to a report: nothing where it has no slot, its
/// notices to its slot where it can be read, and a failure else.
pub open(crate) spec fn with_message(report: Report, tweet: TweetContent, monday: Timestamp) -> Report {
    match slot_of(monday, tweet.created_at) {
        None => report,
        Some(slot) => match parsed(
            classification(ignored_tweet_ids(), tweet.id, tweet.text@, tweet.created_at),
        ) {
            Ok(found) => Report {
                weeks: report.weeks.update(slot as int, report.weeks[slot as int] + found),
                broken: report.broken,
            },
            Err(error) => Report {
                weeks: report.weeks,
                broken: report.broken.push(Failure { tweet, error }),
            },
        },
    }
}

/// The report of a batch of messages: each message in turn adds to the
/// report of the ones before it.
pub open(crate) spec fn report_of(tweets: Seq<TweetContent>, monday: Timestamp) -> Report
    decreases tweets.len(),
{
    if tweets.len() == 0 {
        Report { weeks: Seq::new(SLOTS as nat, |i: int| Seq::empty()), broken: Seq::empty() }
    } else {
        with_message(report_of(tweets.drop_last(), monday), tweets.last(), monday)
    }
}

/// Reads a batch of messages into a report as of `monday`.
///
/// A message that cannot be read does not end the run: it is listed among
/// the failures, and the messages after it are read as well.
pub fn weekly_report(tweets: &[TweetContent], monday: &Timestamp) -> (r: WeeklyReport)
    ensures
        r@ == report_of(tweets@, *monday),
        r.weeks@.len() == SLOTS,
{
    let mut first: Vec<Cancellations> = Vec::new();
    let mut second: Vec<Cancellations> = Vec::new();
    let mut third: Vec<Cancellations> = Vec::new();
    let mut broken: Vec<Failure> = Vec::new();
    let mut i: usize = 0;
    proof {
        let start = report_of(tweets@.subrange(0, 0), *monday);
        assert(start.weeks[1] =~= notices(first@));
        assert(start.weeks[2] =~= notices(second@));
        assert(start.weeks[3] =~= notices(third@));
    }
    while i < tweets.len()
        invariant
            i <= tweets@.len(),
            report_of(tweets@.subrange(0, i as int), *monday).weeks.len() == SLOTS,
            report_of(tweets@.subrange(0, i as int), *monday).weeks[0] == Seq::<Notice>::empty(),
            report_of(tweets@.subrange(0, i as int), *monday).weeks[1] == notices(first@),
            report_of(tweets@.subrange(0, i as int), *monday).weeks[2] == notices(second@),
            report_of(tweets@.subrange(0, i as int), *monday).weeks[3] == notices(third@),
            report_of(tweets@.subrange(0, i as int), *monday).broken == broken@,
        decreases tweets.len() - i,
    {
        let tweet = &tweets[i];
        proof {
            let next = tweets@.subrange(0, i + 1);
            assert(next.drop_last() =~= tweets@.subrange(0, i as int));
            assert(next.last() == *tweet);
        }
        let ghost first_before = first@;
        let ghost second_before = second@;
        let ghost third_before = third@;
        match week_slot(monday, &tweet.created_at) {
            None => {},
            Some(slot) => match parse_tweet(tweet) {
                Ok(found) => {
                    let mut found = found;
                    let ghost added = found@;
                    if slot == 1 {
                        first.append(&mut found);
                        proof {
                            assert(notices(first@) =~= notices(first_before) + notices(added));
                        }
                    } else if slot == 2 {
                        second.append(&mut found);
                        proof {
                            assert(notices(second@) =~= notices(second_before) + notices(added));
                        }
                    } else {
                        third.append(&mut found);
                        proof {
                            assert(notices(third@) =~= notices(third_before) + notices(added));
                        }
                    }
                },
                Err(error) => {
                    broken.push(Failure { tweet: copy_of(tweet), error });
                },
            },
        }
        i = i + 1;
    }
    proof {
        assert(tweets@.subrange(0, i as int) =~= tweets@);
    }
    let mut weeks: Vec<Vec<Cancellations>> = Vec::new();
    weeks.push(Vec::new());
    weeks.push(first);
    weeks.push(second);
    weeks.push(third);
    let r = WeeklyReport { weeks, broken };
    proof {
        let expected = report_of(tweets@, *monday);
        assert(notices(r.weeks@[0]@) =~= Seq::<Notice>::empty());
        assert(r@.weeks =~= expected.weeks);
    }
    r
}

} // verus!
