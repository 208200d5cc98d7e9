//! Messages as they come from the feed, and the cache that keeps them.

use crate::time::Timestamp;
use vstd::prelude::*;

verus! {

/// One message of the feed.
#[derive(Clone, Debug, PartialOrd, Ord, PartialEq, Eq)]
pub struct TweetContent {
    /// The identifier that the feed gave the message; no two messages share it.
    pub id: u64,
    /// When the message was posted.
    pub created_at: Timestamp,
    pub text: String,
}

/// How old, in seconds, the newest message may be for the cache to count as
/// recent.
pub const RECENT_SECS: i64 = 7_200;

/// The identifiers of the list rise from each message to the next.
pub open spec fn ids_increase(tweets: Seq<TweetContent>) -> bool {
    forall|i: int, j: int|
        0 <= i < j < tweets.len() ==> (#[trigger] tweets[i]).id < (#[trigger] tweets[j]).id
}

/// The place of the first message of the list whose identifier is `id` or
/// above, the length of the list where there is none.
pub open spec fn lower(tweets: Seq<TweetContent>, id: u64) -> int
    decreases tweets.len(),
{
    if tweets.len() == 0 || tweets[0].id >= id {
        0
    } else {
        1 + lower(tweets.subrange(1, tweets.len() as int), id)
    }
}

/// The list holds a message with the identifier.
pub open spec fn holds(tweets: Seq<TweetContent>, id: u64) -> bool {
    exists|i: int| 0 <= i < tweets.len() && (#[trigger] tweets[i]).id == id
}

/// The list with a message added: as it was where it holds the identifier
/// already, else with the message at the place that keeps the identifiers
/// rising.
pub open spec fn added(tweets: Seq<TweetContent>, tweet: TweetContent) -> Seq<TweetContent> {
    let at = lower(tweets, tweet.id);
    if at < tweets.len() && tweets[at].id == tweet.id {
        tweets
    } else {
        tweets.insert(at, tweet)
    }
}

/// The list with each message of `more` added in turn.
pub open spec fn added_all(tweets: Seq<TweetContent>, more: Seq<TweetContent>) -> Seq<TweetContent>
    decreases more.len(),
{
    if more.len() == 0 {
        tweets
    } else {
        added(added_all(tweets, more.drop_last()), more.last())
    }
}

/// The list with a message put in: in the place of the message that has
/// its identifier, else at the place that keeps the identifiers rising.
pub open spec fn put(tweets: Seq<TweetContent>, tweet: TweetContent) -> Seq<TweetContent> {
    let at = lower(tweets, tweet.id);
    if at < tweets.len() && tweets[at].id == tweet.id {
        tweets.update(at, tweet)
    } else {
        tweets.insert(at, tweet)
    }
}

/// The messages of a list by rising identifier, the later of two with one
/// identifier standing for both.
pub open spec fn collected(tweets: Seq<TweetContent>) -> Seq<TweetContent>
    decreases tweets.len(),
{
    if tweets.len() == 0 {
        Seq::empty()
    } else {
        put(collected(tweets.drop_last()), tweets.last())
    }
}

/// Whether a message of the list was posted less than two hours before
/// `now`, or after it.
pub open spec fn recent(tweets: Seq<TweetContent>, now: Timestamp) -> bool {
    exists|i: int|
        0 <= i < tweets.len() && now.total_nanos() - (#[trigger] tweets[i]).created_at.total_nanos()
            < RECENT_SECS * 1_000_000_000
}

/// The place that `lower` gives is within the list, with the smaller
/// identifiers before it and none of them at it.
pub proof fn lemma_lower(tweets: Seq<TweetContent>, id: u64)
    ensures
        0 <= lower(tweets, id) <= tweets.len(),
        forall|k: int| 0 <= k < lower(tweets, id) ==> (#[trigger] tweets[k]).id < id,
        lower(tweets, id) < tweets.len() ==> tweets[lower(tweets, id)].id >= id,
    decreases tweets.len(),
{
    if tweets.len() > 0 && tweets[0].id < id {
        let rest = tweets.subrange(1, tweets.len() as int);
        lemma_lower(rest, id);
        assert forall|k: int| 0 <= k < lower(tweets, id) implies (#[trigger] tweets[k]).id < id by {
            if k > 0 {
                assert(tweets[k] == rest[k - 1]);
            }
        }
        if lower(tweets, id) < tweets.len() {
            assert(tweets[lower(tweets, id)] == rest[lower(rest, id)]);
        }
    }
}

/// A place with the smaller identifiers before it and none of them at it is
/// the place that `lower` gives.
pub proof fn lemma_lower_is(tweets: Seq<TweetContent>, id: u64, place: int)
    requires
        0 <= place <= tweets.len(),
        forall|k: int| 0 <= k < place ==> (#[trigger] tweets[k]).id < id,
        place < tweets.len() ==> tweets[place].id >= id,
    ensures
        lower(tweets, id) == place,
{
    lemma_lower(tweets, id);
    let found = lower(tweets, id);
    if found < place {
        assert(tweets[found].id < id);
    }
}

/// Adding or putting a message keeps the identifiers rising, and a list
/// with rising identifiers is left as it was exactly where it holds the
/// identifier.
pub proof fn lemma_placing_keeps_order(tweets: Seq<TweetContent>, tweet: TweetContent)
    requires
        ids_increase(tweets),
    ensures
        ids_increase(added(tweets, tweet)),
        ids_increase(put(tweets, tweet)),
        holds(tweets, tweet.id) <==> added(tweets, tweet) == tweets,
        holds(added(tweets, tweet), tweet.id),
{
    lemma_lower(tweets, tweet.id);
    let at = lower(tweets, tweet.id);
    if at < tweets.len() && tweets[at].id == tweet.id {
        let after = tweets.update(at, tweet);
        assert forall|i: int, j: int| 0 <= i < j < after.len() implies (#[trigger] after[i]).id < (
        #[trigger] after[j]).id by {
            assert(after[i].id == tweets[i].id);
            assert(after[j].id == tweets[j].id);
        }
        assert(tweets[at].id == tweet.id);
    } else {
        let after = tweets.insert(at, tweet);
        assert forall|i: int, j: int| 0 <= i < j < after.len() implies (#[trigger] after[i]).id < (
        #[trigger] after[j]).id by {
            if i < at {
                assert(after[i] == tweets[i]);
            } else if i > at {
                assert(after[i] == tweets[i - 1]);
            }
            if j < at {
                assert(after[j] == tweets[j]);
            } else if j > at {
                assert(after[j] == tweets[j - 1]);
            }
            if i < at && j > at && at < tweets.len() {
                assert(tweets[i].id < tweets[at].id || i == at);
            }
            if i == at && j > at {
                assert(tweets[at].id <= tweets[j - 1].id) by {
                    if at < j - 1 {
                        assert(tweets[at].id < tweets[j - 1].id);
                    }
                }
            }
        }
        assert(after[at].id == tweet.id);
        if holds(tweets, tweet.id) {
            let i = choose|i: int| 0 <= i < tweets.len() && (#[trigger] tweets[i]).id == tweet.id;
            if i > at {
                assert(tweets[at].id < tweets[i].id);
            }
        }
        assert(after.len() != tweets.len());
    }
}

pub(crate) fn copy_of(tweet: &TweetContent) -> (r: TweetContent)
    ensures
        r == *tweet,
{
    TweetContent { id: tweet.id, created_at: tweet.created_at, text: tweet.text.clone() }
}

fn place_in(tweets: &Vec<TweetContent>, id: u64) -> (r: usize)
    ensures
        r == lower(tweets@, id),
        r <= tweets@.len(),
{
    let mut i: usize = 0;
    while i < tweets.len() && tweets[i].id < id
        invariant
            i <= tweets@.len(),
            forall|k: int| 0 <= k < i ==> (#[trigger] tweets@[k]).id < id,
        decreases tweets.len() - i,
    {
        i = i + 1;
    }
    proof {
        lemma_lower_is(tweets@, id, i as int);
    }
    i
}

/// The messages kept from the feed, by rising identifier and each
/// identifier once.
#[derive(Debug)]
pub struct TweetCache {
    pub(crate) tweets: Vec<TweetContent>,
}

impl View for TweetCache {
    type V = Seq<TweetContent>;

    open(crate) spec fn view(&self) -> Seq<TweetContent> {
        self.tweets@
    }
}

impl TweetCache {
    #[verifier::type_invariant]
    pub open(crate) spec fn inv(self) -> bool {
        ids_increase(self.tweets@)
    }

    /// A cache without messages.
    pub fn new() -> (r: TweetCache)
        ensures
            r@.len() == 0,
    {
        TweetCache { tweets: Vec::new() }
    }

    /// The messages of the cache, by rising identifier.
    pub fn tweets(&self) -> (r: &Vec<TweetContent>)
        ensures
            r@ == self@,
            ids_increase(r@),
    {
        proof {
            use_type_invariant(self);
        }
        &self.tweets
    }

    fn place_of(&self, id: u64) -> (r: usize)
        ensures
            r == lower(self@, id),
            r <= self@.len(),
    {
        place_in(&self.tweets, id)
    }

    /// Adds a message, unless the cache holds one with its identifier.
    pub fn add_tweet(&mut self, tweet: &TweetContent)
        ensures
            final(self)@ == added(old(self)@, *tweet),
            holds(old(self)@, tweet.id) ==> final(self)@ == old(self)@,
            holds(final(self)@, tweet.id),
    {
        proof {
            use_type_invariant(&*self);
            lemma_placing_keeps_order(self.tweets@, *tweet);
        }
        let at = self.place_of(tweet.id);
        if at < self.tweets.len() && self.tweets[at].id == tweet.id {
        } else {
            let mut next: Vec<TweetContent> = Vec::new();
            let mut k: usize = 0;
            while k < at
                invariant
                    k <= at <= self.tweets@.len(),
                    next@ == self.tweets@.subrange(0, k as int),
                decreases at - k,
            {
                next.push(copy_of(&self.tweets[k]));
                proof {
                    assert(next@ =~= self.tweets@.subrange(0, k + 1));
                }
                k = k + 1;
            }
            next.push(copy_of(tweet));
            while k < self.tweets.len()
                invariant
                    at <= k <= self.tweets@.len(),
                    next@ == self.tweets@.subrange(0, at as int).push(*tweet)
                        + self.tweets@.subrange(at as int, k as int),
                decreases self.tweets.len() - k,
            {
                next.push(copy_of(&self.tweets[k]));
                proof {
                    assert(next@ =~= self.tweets@.subrange(0, at as int).push(*tweet)
                        + self.tweets@.subrange(at as int, k + 1));
                }
                k = k + 1;
            }
            proof {
                assert(next@ =~= self.tweets@.insert(at as int, *tweet));
            }
            *self = TweetCache { tweets: next };
        }
    }

    /// Adds each message in turn, as `add_tweet` does.
    pub fn add_all_tweets(&mut self, tweets: &[TweetContent])
        ensures
            final(self)@ == added_all(old(self)@, tweets@),
    {
        let mut i: usize = 0;
        while i < tweets.len()
            invariant
                i <= tweets@.len(),
                self@ == added_all(old(self)@, tweets@.subrange(0, i as int)),
            decreases tweets.len() - i,
        {
            proof {
                let next = tweets@.subrange(0, i + 1);
                assert(next.drop_last() =~= tweets@.subrange(0, i as int));
                assert(next.last() == tweets@[i as int]);
            }
            self.add_tweet(&tweets[i]);
            i = i + 1;
        }
        proof {
            assert(tweets@.subrange(0, i as int) =~= tweets@);
        }
    }

    /// The cache of a list of messages: by rising identifier, the later of
    /// two messages with one identifier standing for both.
    pub fn from_tweets(tweets: Vec<TweetContent>) -> (r: TweetCache)
        ensures
            r@ == collected(tweets@),
    {
        let mut kept: Vec<TweetContent> = Vec::new();
        let mut i: usize = 0;
        proof {
            assert(kept@ =~= collected(tweets@.subrange(0, 0)));
        }
        while i < tweets.len()
            invariant
                i <= tweets@.len(),
                ids_increase(kept@),
                kept@ == collected(tweets@.subrange(0, i as int)),
            decreases tweets.len() - i,
        {
            proof {
                let next = tweets@.subrange(0, i + 1);
                assert(next.drop_last() =~= tweets@.subrange(0, i as int));
                assert(next.last() == tweets@[i as int]);
                lemma_placing_keeps_order(kept@, tweets@[i as int]);
            }
            let tweet = &tweets[i];
            let at = place_in(&kept, tweet.id);
            if at < kept.len() && kept[at].id == tweet.id {
                kept.set(at, copy_of(tweet));
            } else {
                kept.insert(at, copy_of(tweet));
            }
            i = i + 1;
        }
        proof {
            assert(tweets@.subrange(0, i as int) =~= tweets@);
        }
        TweetCache { tweets: kept }
    }

    /// Whether the newest message was posted less than two hours before
    /// `now`.
    pub fn has_recent_data(&self, now: &Timestamp) -> (r: bool)
        ensures
            r == recent(self@, *now),
    {
        let limit: i128 = (RECENT_SECS as i128) * 1_000_000_000;
        let now_nanos: i128 = (now.unix_secs() as i128) * 1_000_000_000 + (
        now.subsec_nanos() as i128);
        let mut i: usize = 0;
        while i < self.tweets.len()
            invariant
                i <= self.tweets@.len(),
                limit == RECENT_SECS * 1_000_000_000,
                now_nanos == now.total_nanos(),
                forall|k: int|
                    0 <= k < i ==> now.total_nanos() - (
                    #[trigger] self.tweets@[k]).created_at.total_nanos() >= RECENT_SECS
                        * 1_000_000_000,
            decreases self.tweets.len() - i,
        {
            let at = &self.tweets[i].created_at;
            let posted: i128 = (at.unix_secs() as i128) * 1_000_000_000 + (
            at.subsec_nanos() as i128);
            if now_nanos - posted < limit {
                return true;
            }
            i = i + 1;
        }
        false
    }
}

} // verus!
