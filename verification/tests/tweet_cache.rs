use metlink_notices::time::Timestamp;
use metlink_notices::tweet_cache::{TweetCache, TweetContent};

fn tweet(id: u64, secs: i64, text: &str) -> TweetContent {
    TweetContent {
        id,
        created_at: Timestamp::new(secs, 0).unwrap(),
        text: text.to_string(),
    }
}

fn ids(cache: &TweetCache) -> Vec<u64> {
    cache.tweets().iter().map(|t| t.id).collect()
}

#[test]
fn tweets_are_kept_by_rising_id() {
    let mut cache = TweetCache::new();
    cache.add_tweet(&tweet(5, 0, "five"));
    cache.add_tweet(&tweet(2, 0, "two"));
    cache.add_tweet(&tweet(9, 0, "nine"));
    cache.add_tweet(&tweet(7, 0, "seven"));
    assert_eq!(ids(&cache), vec![2, 5, 7, 9]);
    assert_eq!(cache.tweets()[2], tweet(7, 0, "seven"));
}

#[test]
fn a_known_id_is_not_added_again() {
    let mut cache = TweetCache::new();
    cache.add_tweet(&tweet(5, 0, "first"));
    cache.add_tweet(&tweet(5, 10, "second"));
    assert_eq!(cache.tweets(), &vec![tweet(5, 0, "first")]);
}

#[test]
fn all_tweets_are_added_in_turn() {
    let mut cache = TweetCache::new();
    cache.add_tweet(&tweet(4, 0, "kept"));
    cache.add_all_tweets(&[tweet(6, 0, "a"), tweet(4, 0, "other"), tweet(1, 0, "b"), tweet(6, 0, "c")]);
    assert_eq!(
        cache.tweets(),
        &vec![tweet(1, 0, "b"), tweet(4, 0, "kept"), tweet(6, 0, "a")]
    );
    cache.add_all_tweets(&[]);
    assert_eq!(ids(&cache), vec![1, 4, 6]);
}

#[test]
fn a_list_is_collected_by_id_with_the_later_standing() {
    let cache = TweetCache::from_tweets(vec![
        tweet(3, 0, "a"),
        tweet(1, 0, "b"),
        tweet(3, 0, "c"),
        tweet(2, 0, "d"),
    ]);
    assert_eq!(
        cache.tweets(),
        &vec![tweet(1, 0, "b"), tweet(2, 0, "d"), tweet(3, 0, "c")]
    );
    assert!(TweetCache::from_tweets(vec![]).tweets().is_empty());
}

#[test]
fn data_is_recent_for_two_hours() {
    let mut cache = TweetCache::new();
    assert!(!cache.has_recent_data(&Timestamp::new(0, 0).unwrap()));
    cache.add_tweet(&tweet(1, 1_000, "old"));
    cache.add_tweet(&tweet(2, 10_000, "new"));
    assert!(cache.has_recent_data(&Timestamp::new(10_000, 0).unwrap()));
    assert!(cache.has_recent_data(&Timestamp::new(17_199, 999_999_999).unwrap()));
    assert!(!cache.has_recent_data(&Timestamp::new(17_200, 0).unwrap()));
    assert!(cache.has_recent_data(&Timestamp::new(5_000, 0).unwrap()));
}
