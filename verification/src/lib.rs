//! Structured disruption notices from the free-text messages of a transit
//! agency.
//!
//! A message is classified ([`parser`]), matched against an ordered catalog
//! of templates ([`pattern`]), and turned into typed notices whose
//! scheduled time is resolved against the moment the message was posted
//! ([`time`]). Batches of notices are summarized ([`summary`]) and sorted by
//! week ([`report`]); the messages themselves are kept in a cache
//! ([`tweet_cache`]).
//!
//! Beside this stand the agency's feeds: the tables of the static feed
//! ([`gtfs`]), the lookups built from them ([`db`]), the service alerts of
//! the realtime feed ([`realtime`]) and what to post about them
//! ([`tweeter`]).

pub mod db;
pub mod gtfs;
pub mod parser;
pub mod pattern;
pub mod realtime;
pub mod report;
pub mod summary;
pub mod text;
pub mod time;
pub mod tweet_cache;
pub mod tweeter;
