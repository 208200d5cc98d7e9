//! Instants, and the agency's civil clock.
//!
//! A message carries the instant it was posted and a time of day read from
//! its text. The scheduled service it speaks of is that time of day on the
//! agency's clock (Pacific/Auckland), on the calendar day of posting.

use crate::text::{decimal, digit_char, digit_value, to_decimal, to_two_digits, two_digits};
use chrono::{Offset, TimeZone, Timelike};
use chrono_tz::Pacific::Auckland;
use vstd::arithmetic::div_mod::{lemma_fundamental_div_mod, lemma_fundamental_div_mod_converse};
use vstd::prelude::*;

verus! {

/// First second of the year 0000, in seconds since the Unix epoch.
pub const MIN_SECS: i64 = -62_167_219_200;

/// Last second of the year 9999, in seconds since the Unix epoch.
pub const MAX_SECS: i64 = 253_402_300_799;

pub const NANOS_PER_SEC: u32 = 1_000_000_000;

pub const SECS_PER_DAY: i32 = 86_400;

/// An instant on the UTC time line, within the years 0000 to 9999.
#[derive(Clone, Copy, Debug, PartialEq, Eq, PartialOrd, Ord, Hash, Structural)]
pub struct Timestamp {
    pub(crate) secs: i64,
    pub(crate) nanos: u32,
}

/// An instant together with the fixed UTC offset of the clock it is read on.
#[derive(Clone, Copy, Debug, PartialEq, Eq, Structural)]
pub struct LocalInstant {
    pub(crate) secs: i64,
    pub(crate) nanos: u32,
    pub(crate) offset: i32,
}

/// Why a time of day could not be placed on the day of posting.
#[derive(Clone, Copy, Debug, PartialEq, Eq, Structural)]
pub enum TimeError {
    /// The hour cannot be set: it is not below 24, or the agency's clock
    /// does not show the resulting time exactly once on that day.
    HourNotSet { hour: u32 },
    /// The minute cannot be set: it is not below 60, or the agency's clock
    /// does not show the resulting time exactly once on that day.
    MinuteNotSet { minute: u32 },
    /// The clock cannot be put on the whole minute, or the result lies
    /// outside the years 0000 to 9999.
    Unrepresentable,
    /// No meridiem was given and neither reading is plausible.
    AmbiguousTimeOfDay { hour: u32, minute: u32, am: LocalInstant, pm: LocalInstant },
}

pub open spec fn secs_in_range(secs: int) -> bool {
    MIN_SECS <= secs <= MAX_SECS
}

impl Timestamp {
    #[verifier::type_invariant]
    pub open(crate) spec fn inv(self) -> bool {
        secs_in_range(self.secs as int) && self.nanos < NANOS_PER_SEC
    }

    /// Whole seconds since the Unix epoch.
    pub open(crate) spec fn secs(self) -> i64 {
        self.secs
    }

    /// Nanoseconds past the whole second.
    pub open(crate) spec fn nanos(self) -> u32 {
        self.nanos
    }

    /// Nanoseconds since the Unix epoch.
    pub open spec fn total_nanos(self) -> int {
        self.secs() * 1_000_000_000 + self.nanos()
    }

    /// The instant `secs` seconds and `nanos` nanoseconds after the Unix
    /// epoch, if it lies within the years 0000 to 9999.
    pub fn new(secs: i64, nanos: u32) -> (r: Option<Timestamp>)
        ensures
            r.is_some() == (secs_in_range(secs as int) && nanos < NANOS_PER_SEC),
            r matches Some(t) ==> t.secs() == secs && t.nanos() == nanos,
    {
        if MIN_SECS <= secs && secs <= MAX_SECS && nanos < NANOS_PER_SEC {
            Some(Timestamp { secs, nanos })
        } else {
            None
        }
    }

    pub fn unix_secs(&self) -> (r: i64)
        ensures
            r == self.secs(),
            secs_in_range(r as int),
    {
        proof {
            use_type_invariant(self);
        }
        self.secs
    }

    pub fn subsec_nanos(&self) -> (r: u32)
        ensures
            r == self.nanos(),
            r < NANOS_PER_SEC,
    {
        proof {
            use_type_invariant(self);
        }
        self.nanos
    }
}

impl LocalInstant {
    #[verifier::type_invariant]
    pub open(crate) spec fn inv(self) -> bool {
        &&& secs_in_range(self.secs as int)
        &&& self.nanos < NANOS_PER_SEC
        &&& -SECS_PER_DAY < self.offset < SECS_PER_DAY
    }

    /// Whole seconds since the Unix epoch.
    pub open(crate) spec fn secs(self) -> i64 {
        self.secs
    }

    /// Nanoseconds past the whole second.
    pub open(crate) spec fn nanos(self) -> u32 {
        self.nanos
    }

    /// Seconds that the clock is ahead of UTC.
    pub open(crate) spec fn offset(self) -> i32 {
        self.offset
    }

    /// Nanoseconds since the Unix epoch.
    pub open spec fn total_nanos(self) -> int {
        self.secs() * 1_000_000_000 + self.nanos()
    }

    /// Seconds since the Unix epoch as the clock shows them.
    pub open spec fn clock_secs(self) -> int {
        self.secs() + self.offset()
    }

    /// Seconds past midnight on the clock.
    pub open spec fn second_of_day(self) -> int {
        self.clock_secs() % 86_400
    }

    /// The instant `secs` seconds and `nanos` nanoseconds after the Unix
    /// epoch, read on a clock `offset` seconds ahead of UTC; `None` outside
    /// the years 0000 to 9999, or when the offset is a day or more.
    pub fn new(secs: i64, nanos: u32, offset: i32) -> (r: Option<LocalInstant>)
        ensures
            r.is_some() == (secs_in_range(secs as int) && nanos < NANOS_PER_SEC && -SECS_PER_DAY
                < offset < SECS_PER_DAY),
            r matches Some(t) ==> t.secs() == secs && t.nanos() == nanos && t.offset() == offset,
    {
        if MIN_SECS <= secs && secs <= MAX_SECS && nanos < NANOS_PER_SEC && -SECS_PER_DAY < offset
            && offset < SECS_PER_DAY {
            Some(LocalInstant { secs, nanos, offset })
        } else {
            None
        }
    }

    pub fn unix_secs(&self) -> (r: i64)
        ensures
            r == self.secs(),
            secs_in_range(r as int),
    {
        proof {
            use_type_invariant(self);
        }
        self.secs
    }

    pub fn subsec_nanos(&self) -> (r: u32)
        ensures
            r == self.nanos(),
            r < NANOS_PER_SEC,
    {
        proof {
            use_type_invariant(self);
        }
        self.nanos
    }

    pub fn offset_secs(&self) -> (r: i32)
        ensures
            r == self.offset(),
            -SECS_PER_DAY < r < SECS_PER_DAY,
    {
        proof {
            use_type_invariant(self);
        }
        self.offset
    }

    /// Seconds past midnight on the clock.
    pub fn clock_second(&self) -> (r: u32)
        ensures
            r == self.second_of_day(),
            r < 86_400,
    {
        proof {
            use_type_invariant(self);
        }
        // 62_167_305_600 is a whole number of days, and more than any
        // instant or offset can be below zero.
        let shifted: i64 = self.secs + (self.offset as i64) + 62_167_305_600;
        let r = (shifted % 86_400) as u32;
        proof {
            lemma_fundamental_div_mod(shifted as int, 86_400);
            lemma_fundamental_div_mod_converse(
                self.clock_secs(),
                86_400,
                shifted as int / 86_400 - 719_529,
                shifted as int % 86_400,
            );
        }
        r
    }
}

/// Seconds that the agency's clock is ahead of UTC at the instant `secs`
/// seconds after the Unix epoch; `None` where the instant is out of reach.
pub uninterp spec fn auckland_offset(secs: i64) -> Option<i32>;

/// The instant that the agency's clock shows at `secs`, `nanos` with its
/// hour replaced by `hour`, as seconds and nanoseconds; `None` where that
/// time is not shown exactly once.
pub uninterp spec fn hour_set(secs: i64, nanos: u32, hour: u32) -> Option<(i64, u32)>;

/// As `hour_set`, for the minute.
pub uninterp spec fn minute_set(secs: i64, nanos: u32, minute: u32) -> Option<(i64, u32)>;

/// As `hour_set`, for the second.
pub uninterp spec fn second_set(secs: i64, nanos: u32, second: u32) -> Option<(i64, u32)>;

/// As `hour_set`, for the nanoseconds past the whole second.
pub uninterp spec fn nanosecond_set(secs: i64, nanos: u32, nano: u32) -> Option<(i64, u32)>;

/// Seconds since the Unix epoch as the agency's clock shows them at the
/// instant `secs`.
pub open spec fn clock_at(secs: i64) -> int {
    match auckland_offset(secs) {
        Some(offset) => secs + offset,
        None => secs as int,
    }
}

/// The agency's clock has a reading at both instants.
pub open spec fn clock_known(before: i64, after: i64) -> bool {
    auckland_offset(before).is_some() && auckland_offset(after).is_some()
}

/// The clock reading `clock` with its hour of day replaced.
pub open spec fn clock_with_hour(clock: int, hour: int) -> int {
    clock - clock % 86_400 + hour * 3_600 + clock % 3_600
}

/// The clock reading `clock` with its minute of the hour replaced.
pub open spec fn clock_with_minute(clock: int, minute: int) -> int {
    clock - clock % 3_600 + minute * 60 + clock % 60
}

/// The clock reading `clock` with its second of the minute replaced.
pub open spec fn clock_with_second(clock: int, second: int) -> int {
    clock - clock % 60 + second
}

/// `chrono_tz::Tz::offset_from_utc_datetime` for Pacific/Auckland, through
/// `TimeZone::timestamp_opt`: the offset in force at the instant, which
/// chrono keeps strictly within a day. `None` where chrono cannot hold the
/// instant.
#[verifier::external_body]
fn auckland_offset_at(secs: i64) -> (r: Option<i32>)
    ensures
        r == auckland_offset(secs),
        r matches Some(o) ==> -SECS_PER_DAY < o < SECS_PER_DAY,
{
    let at = Auckland.timestamp_opt(secs, 0).single()?;
    Some(at.offset().fix().local_minus_utc())
}

/// `chrono::DateTime::with_hour` on the instant seen in Pacific/Auckland.
/// The result depends on the arguments alone. Where there is one, `hour` is
/// below 24, the nanoseconds are kept, and the agency's clock at the result
/// shows the reading it showed before with the hour replaced.
#[verifier::external_body]
fn auckland_with_hour(secs: i64, nanos: u32, hour: u32) -> (r: Option<(i64, u32)>)
    ensures
        r == hour_set(secs, nanos, hour),
        r matches Some(z) ==> {
            &&& hour < 24
            &&& z.1 == nanos
            &&& clock_known(secs, z.0)
            &&& clock_at(z.0) == clock_with_hour(clock_at(secs), hour as int)
        },
{
    let at = Auckland.timestamp_opt(secs, nanos).single()?;
    let set = at.with_hour(hour)?;
    Some((set.timestamp(), set.timestamp_subsec_nanos()))
}

/// `chrono::DateTime::with_minute` on the instant seen in Pacific/Auckland.
/// The result depends on the arguments alone. Where there is one, `minute`
/// is below 60, the nanoseconds are kept, and the agency's clock at the
/// result shows the reading it showed before with the minute replaced.
#[verifier::external_body]
fn auckland_with_minute(secs: i64, nanos: u32, minute: u32) -> (r: Option<(i64, u32)>)
    ensures
        r == minute_set(secs, nanos, minute),
        r matches Some(z) ==> {
            &&& minute < 60
            &&& z.1 == nanos
            &&& clock_known(secs, z.0)
            &&& clock_at(z.0) == clock_with_minute(clock_at(secs), minute as int)
        },
{
    let at = Auckland.timestamp_opt(secs, nanos).single()?;
    let set = at.with_minute(minute)?;
    Some((set.timestamp(), set.timestamp_subsec_nanos()))
}

/// `chrono::DateTime::with_second` on the instant seen in Pacific/Auckland.
/// The result depends on the arguments alone. Where there is one, `second`
/// is below 60, the nanoseconds are kept, and the agency's clock at the
/// result shows the reading it showed before with the second replaced.
#[verifier::external_body]
fn auckland_with_second(secs: i64, nanos: u32, second: u32) -> (r: Option<(i64, u32)>)
    ensures
        r == second_set(secs, nanos, second),
        r matches Some(z) ==> {
            &&& second < 60
            &&& z.1 == nanos
            &&& clock_known(secs, z.0)
            &&& clock_at(z.0) == clock_with_second(clock_at(secs), second as int)
        },
{
    let at = Auckland.timestamp_opt(secs, nanos).single()?;
    let set = at.with_second(second)?;
    Some((set.timestamp(), set.timestamp_subsec_nanos()))
}

/// `chrono::DateTime::with_nanosecond` on the instant seen in
/// Pacific/Auckland. The result depends on the arguments alone. Where there
/// is one, its nanoseconds are `nano` and the agency's clock shows the same
/// second as before.
#[verifier::external_body]
fn auckland_with_nanosecond(secs: i64, nanos: u32, nano: u32) -> (r: Option<(i64, u32)>)
    ensures
        r == nanosecond_set(secs, nanos, nano),
        r matches Some(z) ==> {
            &&& z.1 == nano
            &&& clock_known(secs, z.0)
            &&& clock_at(z.0) == clock_at(secs)
        },
{
    let at = Auckland.timestamp_opt(secs, nanos).single()?;
    let set = at.with_nanosecond(nano)?;
    Some((set.timestamp(), set.timestamp_subsec_nanos()))
}

/// Setting the hour, the minute and the second 0 in turn leaves the clock on
/// the same day, at `hour:minute:00`.
pub proof fn lemma_clock_on_whole_minute(clock: int, hour: int, minute: int)
    requires
        0 <= hour < 24,
        0 <= minute < 60,
    ensures
        ({
            let set = clock_with_second(
                clock_with_minute(clock_with_hour(clock, hour), minute),
                0,
            );
            set % 86_400 == hour * 3_600 + minute * 60 && set / 86_400 == clock / 86_400
        }),
{
    let day = clock / 86_400;
    let c1 = clock_with_hour(clock, hour);
    let c2 = clock_with_minute(c1, minute);
    let c3 = clock_with_second(c2, 0);
    let r = clock % 3_600;
    let q = c1 % 60;
    lemma_fundamental_div_mod(clock, 86_400);
    assert(c1 == (24 * day + hour) * 3_600 + r);
    lemma_fundamental_div_mod_converse(c1, 3_600, 24 * day + hour, r);
    assert(c2 == (1_440 * day + 60 * hour + minute) * 60 + q);
    lemma_fundamental_div_mod_converse(c2, 60, 1_440 * day + 60 * hour + minute, q);
    assert(c3 == day * 86_400 + (hour * 3_600 + minute * 60));
    lemma_fundamental_div_mod_converse(c3, 86_400, day, hour * 3_600 + minute * 60);
}

/// Whether the instant and offset make a `LocalInstant`.
pub open spec fn representable(secs: i64, nanos: u32, offset: i32) -> bool {
    secs_in_range(secs as int) && nanos < NANOS_PER_SEC && -SECS_PER_DAY < offset < SECS_PER_DAY
}

/// The time of day `hour:minute:00` on the agency's clock, on the day that
/// the clock shows at `posted`: the hour, the minute, the second and the
/// nanoseconds set in turn, each step failing where the clock does not show
/// the time exactly once.
pub open(crate) spec fn time_on_day(posted: Timestamp, hour: u32, minute: u32) -> Result<
    LocalInstant,
    TimeError,
> {
    match hour_set(posted.secs, posted.nanos, hour) {
        None => Err(TimeError::HourNotSet { hour }),
        Some(h) => match minute_set(h.0, h.1, minute) {
            None => Err(TimeError::MinuteNotSet { minute }),
            Some(m) => match second_set(m.0, m.1, 0) {
                None => Err(TimeError::Unrepresentable),
                Some(s) => match nanosecond_set(s.0, s.1, 0) {
                    None => Err(TimeError::Unrepresentable),
                    Some(n) => match auckland_offset(n.0) {
                        Some(offset) if representable(n.0, n.1, offset) => Ok(
                            LocalInstant { secs: n.0, nanos: n.1, offset },
                        ),
                        _ => Err(TimeError::Unrepresentable),
                    },
                },
            },
        },
    }
}

/// Places the time of day `hour:minute` on the agency's clock, on the
/// calendar day that the clock shows at `tweeted_at`.
///
/// The instant returned is on the whole minute, and carries the UTC offset
/// that the agency's clock has at that instant. The hour and the minute are
/// refused where they are out of range or where the clock, for a change of
/// daylight saving time, does not show the time exactly once.
pub fn convert_time_to_instant(tweeted_at: Timestamp, hour: u32, minute: u32) -> (r: Result<
    LocalInstant,
    TimeError,
>)
    ensures
        r == time_on_day(tweeted_at, hour, minute),
        r matches Ok(t) ==> {
            &&& hour < 24
            &&& minute < 60
            &&& t.nanos() == 0
            &&& auckland_offset(t.secs()) == Some(t.offset())
            &&& t.second_of_day() == hour * 3_600 + minute * 60
            &&& t.clock_secs() / 86_400 == clock_at(tweeted_at.secs()) / 86_400
        },
{
    let secs: i64 = tweeted_at.unix_secs();
    let nanos: u32 = tweeted_at.subsec_nanos();
    let h = match auckland_with_hour(secs, nanos, hour) {
        None => { return Err(TimeError::HourNotSet { hour }); },
        Some(h) => h,
    };
    let m = match auckland_with_minute(h.0, h.1, minute) {
        None => { return Err(TimeError::MinuteNotSet { minute }); },
        Some(m) => m,
    };
    let s = match auckland_with_second(m.0, m.1, 0) {
        None => { return Err(TimeError::Unrepresentable); },
        Some(s) => s,
    };
    let n = match auckland_with_nanosecond(s.0, s.1, 0) {
        None => { return Err(TimeError::Unrepresentable); },
        Some(n) => n,
    };
    let offset = match auckland_offset_at(n.0) {
        None => { return Err(TimeError::Unrepresentable); },
        Some(o) => o,
    };
    match LocalInstant::new(n.0, n.1, offset) {
        None => Err(TimeError::Unrepresentable),
        Some(t) => {
            proof {
                lemma_clock_on_whole_minute(clock_at(secs), hour as int, minute as int);
            }
            Ok(t)
        },
    }
}

/// Half of the day that a clock time falls in.
#[derive(Clone, Copy, Debug, PartialEq, Eq, Structural)]
pub enum Meridiem {
    Am,
    Pm,
}

/// How far, in seconds, a scheduled time may lie from the posting for a
/// reading without meridiem to be plausible.
pub const PLAUSIBILITY_WINDOW_SECS: i64 = 7_200;

/// The hour on a 24-hour clock: the hour as written before noon, and
/// `hour mod 12` plus 12 after noon.
pub open spec fn hour_of_day(hour: u32, meridiem: Meridiem) -> u32 {
    match meridiem {
        Meridiem::Am => hour,
        Meridiem::Pm => ((hour % 12) + 12) as u32,
    }
}

/// The normalized text of a clock time: the hour as written, a colon, the
/// minute in two digits, a space, and `am` or `pm`.
pub open spec fn time_text(hour: u32, minute: u32, meridiem: Meridiem) -> Seq<char> {
    decimal(hour as nat) + seq![':'] + two_digits(minute as nat) + match meridiem {
        Meridiem::Am => " am"@,
        Meridiem::Pm => " pm"@,
    }
}

/// `s` reads `H:MM am` or `H:MM pm`: an hour of one or two digits without a
/// leading zero, a colon, two digits, a space and the meridiem.
pub open spec fn is_time_text(s: Seq<char>) -> bool {
    let n = s.len() as int;
    &&& 7 <= n <= 8
    &&& digit_value(s[0]).is_some()
    &&& n == 8 ==> s[0] != '0' && digit_value(s[1]).is_some()
    &&& s[n - 6] == ':'
    &&& digit_value(s[n - 5]).is_some()
    &&& digit_value(s[n - 4]).is_some()
    &&& s[n - 3] == ' '
    &&& (s[n - 2] == 'a' || s[n - 2] == 'p')
    &&& s[n - 1] == 'm'
}

/// The normalized text of an hour below 100 and a minute below 60 reads
/// `H:MM am` or `H:MM pm`.
pub proof fn lemma_time_text_form(hour: u32, minute: u32, meridiem: Meridiem)
    requires
        hour < 100,
        minute < 60,
    ensures
        is_time_text(time_text(hour, minute, meridiem)),
{
    reveal_strlit(" am");
    reveal_strlit(" pm");
    let h = decimal(hour as nat);
    let m = two_digits(minute as nat);
    reveal_with_fuel(decimal, 3);
    assert(hour < 10 ==> h =~= seq![digit_char(hour as int)]);
    assert(hour >= 10 ==> h =~= seq![digit_char(hour as int / 10), digit_char(hour as int % 10)]);
    assert(minute < 10 ==> m =~= seq!['0', digit_char(minute as int)]);
    assert(minute >= 10 ==> m =~= seq![
        digit_char(minute as int / 10),
        digit_char(minute as int % 10),
    ]);
    let tail = match meridiem {
        Meridiem::Am => " am"@,
        Meridiem::Pm => " pm"@,
    };
    assert(tail.len() == 3);
    let s = time_text(hour, minute, meridiem);
    assert(s == h + seq![':'] + m + tail);
    assert(s.len() == h.len() + 6);
    let n = s.len() as int;
    assert(s[0] == h[0]);
    assert(h.len() == 2 ==> s[1] == h[1]);
    assert(s[n - 6] == ':');
    assert(s[n - 5] == m[0]);
    assert(s[n - 4] == m[1]);
    assert(s[n - 3] == tail[0]);
    assert(s[n - 2] == tail[1]);
    assert(s[n - 1] == tail[2]);
}

/// Which reading of a clock time without meridiem is plausible for a
/// message posted at `posted`, all in nanoseconds since the Unix epoch:
/// the morning where the posting precedes it, the afternoon where the
/// posting follows it, else the one less than the window away from the
/// posting, the morning first; none where both are further away.
pub open spec fn plausible_reading(posted: int, am: int, pm: int) -> Option<Meridiem> {
    let window = PLAUSIBILITY_WINDOW_SECS * 1_000_000_000;
    if posted < am {
        Some(Meridiem::Am)
    } else if posted > pm {
        Some(Meridiem::Pm)
    } else if posted - am < window {
        Some(Meridiem::Am)
    } else if pm - posted < window {
        Some(Meridiem::Pm)
    } else {
        None
    }
}

/// Picks the plausible reading of a clock time without meridiem, given the
/// instants of its two readings.
pub fn choose_reading(posted: &Timestamp, am: &LocalInstant, pm: &LocalInstant) -> (r: Option<
    Meridiem,
>)
    ensures
        r == plausible_reading(posted.total_nanos(), am.total_nanos(), pm.total_nanos()),
{
    let posted_nanos: i128 = (posted.unix_secs() as i128) * 1_000_000_000 + (
    posted.subsec_nanos() as i128);
    let am_nanos: i128 = (am.unix_secs() as i128) * 1_000_000_000 + (am.subsec_nanos() as i128);
    let pm_nanos: i128 = (pm.unix_secs() as i128) * 1_000_000_000 + (pm.subsec_nanos() as i128);
    let window: i128 = (PLAUSIBILITY_WINDOW_SECS as i128) * 1_000_000_000;
    if posted_nanos < am_nanos {
        Some(Meridiem::Am)
    } else if posted_nanos > pm_nanos {
        Some(Meridiem::Pm)
    } else if posted_nanos - am_nanos < window {
        Some(Meridiem::Am)
    } else if pm_nanos - posted_nanos < window {
        Some(Meridiem::Pm)
    } else {
        None
    }
}

/// The reading of `hour:minute` with the given meridiem, on the day of
/// posting: its normalized text and its instant.
pub open(crate) spec fn explicit_reading(
    posted: Timestamp,
    hour: u32,
    minute: u32,
    meridiem: Meridiem,
) -> Result<(Seq<char>, LocalInstant), TimeError> {
    match time_on_day(posted, hour_of_day(hour, meridiem), minute) {
        Ok(t) => Ok((time_text(hour, minute, meridiem), t)),
        Err(e) => Err(e),
    }
}

/// The reading that `do_time_from` settles on, given the outcome for each
/// half of the day.
pub open(crate) spec fn settled(
    posted: Timestamp,
    hour: u32,
    minute: u32,
    am: Result<(Seq<char>, LocalInstant), TimeError>,
    pm: Result<(Seq<char>, LocalInstant), TimeError>,
) -> Result<(Seq<char>, LocalInstant), TimeError> {
    match am {
        Err(e) => Err(e),
        Ok(a) => match pm {
            Err(e) => Err(e),
            Ok(p) => match plausible_reading(
                posted.total_nanos(),
                a.1.total_nanos(),
                p.1.total_nanos(),
            ) {
                Some(Meridiem::Am) => Ok(a),
                Some(Meridiem::Pm) => Ok(p),
                None => Err(TimeError::AmbiguousTimeOfDay { hour, minute, am: a.1, pm: p.1 }),
            },
        },
    }
}

/// What `do_time_from` returns.
pub open(crate) spec fn resolved(
    posted: Timestamp,
    hour: u32,
    minute: u32,
    meridiem: Option<Meridiem>,
) -> Result<(Seq<char>, LocalInstant), TimeError> {
    match meridiem {
        Some(m) => explicit_reading(posted, hour, minute, m),
        None => settled(
            posted,
            hour,
            minute,
            explicit_reading(posted, hour, minute, Meridiem::Am),
            explicit_reading(posted, hour, minute, Meridiem::Pm),
        ),
    }
}

/// A resolution with its text taken as characters.
pub open spec fn reading_view(r: Result<(String, LocalInstant), TimeError>) -> Result<
    (Seq<char>, LocalInstant),
    TimeError,
> {
    match r {
        Ok(found) => Ok((found.0@, found.1)),
        Err(e) => Err(e),
    }
}

/// Writes the normalized text of a clock time.
pub fn format_time(hour: u32, minute: u32, meridiem: Meridiem) -> (r: String)
    ensures
        r@ == time_text(hour, minute, meridiem),
{
    let mut r = to_decimal(hour);
    r.append(":");
    r.append(to_two_digits(minute).as_str());
    match meridiem {
        Meridiem::Am => r.append(" am"),
        Meridiem::Pm => r.append(" pm"),
    }
    proof {
        reveal_strlit(":");
        assert(":"@ =~= seq![':']);
    }
    r
}

fn read_explicit(posted: Timestamp, hour: u32, minute: u32, meridiem: Meridiem) -> (r: Result<
    (String, LocalInstant),
    TimeError,
>)
    ensures
        reading_view(r) == explicit_reading(posted, hour, minute, meridiem),
        r matches Ok(found) ==> hour < 100 ==> is_time_text(found.0@),
{
    let hour24: u32 = match meridiem {
        Meridiem::Am => hour,
        Meridiem::Pm => (hour % 12) + 12,
    };
    match convert_time_to_instant(posted, hour24, minute) {
        Err(e) => Err(e),
        Ok(t) => {
            proof {
                if hour < 100 {
                    lemma_time_text_form(hour, minute, meridiem);
                }
            }
            Ok((format_time(hour, minute, meridiem), t))
        },
    }
}

/// Settles between the two readings of a clock time without meridiem.
///
/// Either failure is passed on, the morning's first. With both readings at
/// hand the plausible one is returned, and `AmbiguousTimeOfDay` where
/// neither is.
pub fn settle_reading(
    posted: Timestamp,
    hour: u32,
    minute: u32,
    am: Result<(String, LocalInstant), TimeError>,
    pm: Result<(String, LocalInstant), TimeError>,
) -> (r: Result<(String, LocalInstant), TimeError>)
    ensures
        reading_view(r) == settled(posted, hour, minute, reading_view(am), reading_view(pm)),
{
    let a = match am {
        Err(e) => { return Err(e); },
        Ok(a) => a,
    };
    let p = match pm {
        Err(e) => { return Err(e); },
        Ok(p) => p,
    };
    match choose_reading(&posted, &a.1, &p.1) {
        Some(Meridiem::Am) => Ok(a),
        Some(Meridiem::Pm) => Ok(p),
        None => Err(TimeError::AmbiguousTimeOfDay { hour, minute, am: a.1, pm: p.1 }),
    }
}

/// Resolves a clock time read from a message against the instant the
/// message was posted.
///
/// With a meridiem the time is placed on the day of posting as it stands.
/// Without one both readings are placed, and the plausible one is chosen;
/// where neither lies within the window the resolution fails rather than
/// guess. For an hour of one or two digits the text returned is of the form
/// `H:MM am` or `H:MM pm`.
pub fn do_time_from(time: Timestamp, hour: u32, minute: u32, period: Option<Meridiem>) -> (r:
    Result<(String, LocalInstant), TimeError>)
    ensures
        reading_view(r) == resolved(time, hour, minute, period),
        r matches Ok(found) ==> hour < 100 ==> is_time_text(found.0@),
{
    match period {
        Some(m) => read_explicit(time, hour, minute, m),
        None => {
            let am = read_explicit(time, hour, minute, Meridiem::Am);
            let pm = read_explicit(time, hour, minute, Meridiem::Pm);
            settle_reading(time, hour, minute, am, pm)
        },
    }
}


/// Resolution is a function of the posting, the clock time and the
/// meridiem: two resolutions of the same request give the same text and
/// the same instant, or the same error.
pub proof fn lemma_resolution_repeats(
    posted: Timestamp,
    hour: u32,
    minute: u32,
    meridiem: Option<Meridiem>,
    first: Result<(String, LocalInstant), TimeError>,
    second: Result<(String, LocalInstant), TimeError>,
)
    requires
        reading_view(first) == resolved(posted, hour, minute, meridiem),
        reading_view(second) == resolved(posted, hour, minute, meridiem),
    ensures
        reading_view(first) == reading_view(second),
        first matches Ok(a) ==> second matches Ok(b) && a.0@ == b.0@ && a.1 == b.1,
{
}

/// With a meridiem, resolution succeeds wherever the agency's clock shows
/// the time exactly once on the day of posting, and then gives that instant
/// and the normalized text. It never reports an ambiguous time of day.
pub proof fn lemma_explicit_meridiem(posted: Timestamp, hour: u32, minute: u32, meridiem: Meridiem)
    ensures
        !(resolved(posted, hour, minute, Some(meridiem)) matches Err(
            TimeError::AmbiguousTimeOfDay { .. },
        )),
        time_on_day(posted, hour_of_day(hour, meridiem), minute) matches Ok(t) ==> resolved(
            posted,
            hour,
            minute,
            Some(meridiem),
        ) == Ok::<(Seq<char>, LocalInstant), TimeError>((time_text(hour, minute, meridiem), t)),
        1 <= hour <= 12 && minute < 60 ==> hour_of_day(hour, meridiem) < 24,
{
}

/// Without a meridiem, a posting that lies between the two readings and is
/// the window or more away from both is not resolved: the outcome is
/// `AmbiguousTimeOfDay` with both readings.
pub proof fn lemma_ambiguous_between(
    posted: Timestamp,
    hour: u32,
    minute: u32,
    am: LocalInstant,
    pm: LocalInstant,
)
    requires
        time_on_day(posted, hour_of_day(hour, Meridiem::Am), minute) == Ok::<
            LocalInstant,
            TimeError,
        >(am),
        time_on_day(posted, hour_of_day(hour, Meridiem::Pm), minute) == Ok::<
            LocalInstant,
            TimeError,
        >(pm),
        am.total_nanos() <= posted.total_nanos() <= pm.total_nanos(),
        posted.total_nanos() - am.total_nanos() >= PLAUSIBILITY_WINDOW_SECS * 1_000_000_000,
        pm.total_nanos() - posted.total_nanos() >= PLAUSIBILITY_WINDOW_SECS * 1_000_000_000,
    ensures
        resolved(posted, hour, minute, None) == Err::<(Seq<char>, LocalInstant), TimeError>(
            TimeError::AmbiguousTimeOfDay { hour, minute, am, pm },
        ),
{
}


} // verus!
