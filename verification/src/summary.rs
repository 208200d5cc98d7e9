//! Statistics over a batch of notices: how many, at which times of day, and
//! how long before the scheduled time each was posted.

use crate::parser::{notices, Cancellations, Notice};
use crate::time::{LocalInstant, Timestamp, NANOS_PER_SEC};
use vstd::arithmetic::div_mod::{
    lemma_div_is_ordered, lemma_div_multiples_vanish, lemma_div_nonincreasing,
    lemma_div_pos_is_pos, lemma_fundamental_div_mod, lemma_fundamental_div_mod_converse,
    lemma_mod_bound,
};
use vstd::prelude::*;

verus! {

/// The sum of a list of numbers.
pub open spec fn sum_of(d: Seq<int>) -> int
    decreases d.len(),
{
    if d.len() == 0 {
        0
    } else {
        sum_of(d.drop_last()) + d.last()
    }
}

/// The largest of a list of numbers, `None` for the empty list.
pub open spec fn largest(d: Seq<int>) -> Option<int>
    decreases d.len(),
{
    if d.len() == 0 {
        None
    } else {
        match largest(d.drop_last()) {
            Some(m) if m >= d.last() => Some(m),
            _ => Some(d.last()),
        }
    }
}

/// The smallest of a list of numbers, `None` for the empty list.
pub open spec fn smallest(d: Seq<int>) -> Option<int>
    decreases d.len(),
{
    if d.len() == 0 {
        None
    } else {
        match smallest(d.drop_last()) {
            Some(m) if m <= d.last() => Some(m),
            _ => Some(d.last()),
        }
    }
}

/// The mean of `count` numbers that add up to `total`, rounded towards
/// zero; zero for no numbers.
pub open spec fn truncated_mean(total: int, count: int) -> int {
    if count <= 0 {
        0
    } else if total >= 0 {
        total / count
    } else {
        -((-total) / count)
    }
}

/// The statistics of a list of notice periods, in nanoseconds.
pub struct NoticeTally {
    pub count: nat,
    /// The longest period: the notice given furthest ahead.
    pub earliest: Option<int>,
    /// The shortest period.
    pub latest: Option<int>,
    pub average: int,
}

/// The statistics of a list of notice periods.
pub open spec fn tally_of(d: Seq<int>) -> NoticeTally {
    NoticeTally {
        count: d.len(),
        earliest: largest(d),
        latest: smallest(d),
        average: truncated_mean(sum_of(d), d.len() as int),
    }
}

/// The period of notice of a notice, in nanoseconds: from the posting to
/// the scheduled time, negative where the posting came after it.
pub open spec fn lead(notice: Notice) -> int {
    notice.time().total_nanos() - notice.tweet_time().total_nanos()
}

/// The scheduled time of day of a notice on its own clock, in nanoseconds
/// past midnight.
pub open spec fn clock(notice: Notice) -> int {
    notice.time().second_of_day() * 1_000_000_000 + notice.time().nanos()
}

/// Which notices a statistic is about.
pub enum Side {
    /// Every notice.
    All,
    /// The notices posted before the scheduled time.
    Before,
    /// The notices posted at the scheduled time or after it.
    After,
}

pub open spec fn admits(side: Side, notice: Notice) -> bool {
    match side {
        Side::All => true,
        Side::Before => lead(notice) > 0,
        Side::After => lead(notice) <= 0,
    }
}

/// The periods of notice of the notices of one side, in their order.
pub open spec fn leads(s: Seq<Notice>, side: Side) -> Seq<int>
    decreases s.len(),
{
    if s.len() == 0 {
        Seq::empty()
    } else if admits(side, s.last()) {
        leads(s.drop_last(), side).push(lead(s.last()))
    } else {
        leads(s.drop_last(), side)
    }
}

/// The scheduled times of day of the notices, in their order.
pub open spec fn clocks(s: Seq<Notice>) -> Seq<int>
    decreases s.len(),
{
    if s.len() == 0 {
        Seq::empty()
    } else {
        clocks(s.drop_last()).push(clock(s.last()))
    }
}

/// The statistics of a batch of notices.
pub struct Tally {
    pub count: nat,
    /// The earliest scheduled time of day, in nanoseconds past midnight.
    pub earliest: Option<int>,
    /// The latest scheduled time of day, in nanoseconds past midnight.
    pub latest: Option<int>,
    pub notice: NoticeTally,
    pub before_notice: NoticeTally,
    pub after_notice: NoticeTally,
}

/// The statistics of a batch of notices.
pub open spec fn stats_of(s: Seq<Notice>) -> Tally {
    Tally {
        count: s.len(),
        earliest: smallest(clocks(s)),
        latest: largest(clocks(s)),
        notice: tally_of(leads(s, Side::All)),
        before_notice: tally_of(leads(s, Side::Before)),
        after_notice: tally_of(leads(s, Side::After)),
    }
}

/// The largest of a list is one of its numbers and none is larger.
pub proof fn lemma_largest(d: Seq<int>)
    ensures
        d.len() == 0 <==> largest(d).is_none(),
        largest(d) matches Some(m) ==> d.contains(m) && forall|i: int|
            0 <= i < d.len() ==> d[i] <= m,
    decreases d.len(),
{
    if d.len() > 0 {
        let rest = d.drop_last();
        lemma_largest(rest);
        let m = largest(d).unwrap();
        if m == d.last() {
            assert(d[d.len() - 1] == m);
        } else {
            let i = choose|i: int| 0 <= i < rest.len() && rest[i] == m;
            assert(d[i] == m);
        }
        assert forall|i: int| 0 <= i < d.len() implies d[i] <= m by {
            if i < rest.len() {
                assert(rest[i] == d[i]);
            }
        }
    }
}

/// The smallest of a list is one of its numbers and none is smaller.
pub proof fn lemma_smallest(d: Seq<int>)
    ensures
        d.len() == 0 <==> smallest(d).is_none(),
        smallest(d) matches Some(m) ==> d.contains(m) && forall|i: int|
            0 <= i < d.len() ==> d[i] >= m,
    decreases d.len(),
{
    if d.len() > 0 {
        let rest = d.drop_last();
        lemma_smallest(rest);
        let m = smallest(d).unwrap();
        if m == d.last() {
            assert(d[d.len() - 1] == m);
        } else {
            let i = choose|i: int| 0 <= i < rest.len() && rest[i] == m;
            assert(d[i] == m);
        }
        assert forall|i: int| 0 <= i < d.len() implies d[i] >= m by {
            if i < rest.len() {
                assert(rest[i] == d[i]);
            }
        }
    }
}

/// Taking one number out of a list takes it off the sum.
pub proof fn lemma_sum_remove(d: Seq<int>, i: int)
    requires
        0 <= i < d.len(),
    ensures
        sum_of(d) == sum_of(d.remove(i)) + d[i],
    decreases d.len(),
{
    if i == d.len() - 1 {
        assert(d.remove(i) =~= d.drop_last());
    } else {
        lemma_sum_remove(d.drop_last(), i);
        assert(d.remove(i).drop_last() =~= d.drop_last().remove(i));
        assert(d.remove(i).last() == d.last());
    }
}

/// Two lists that hold the same numbers, each as often, have the same
/// statistics.
pub proof fn lemma_tally_permutation(x: Seq<int>, y: Seq<int>)
    requires
        x.to_multiset() == y.to_multiset(),
    ensures
        tally_of(x) == tally_of(y),
    decreases x.len(),
{
    broadcast use vstd::seq_lib::group_to_multiset_ensures;

    x.to_multiset_ensures();
    y.to_multiset_ensures();
    assert(x.len() == y.len());
    lemma_sum_permutation(x, y);
    lemma_largest(x);
    lemma_largest(y);
    lemma_smallest(x);
    lemma_smallest(y);
    if x.len() > 0 {
        let mx = largest(x).unwrap();
        let my = largest(y).unwrap();
        assert(x.to_multiset().count(mx) > 0);
        assert(y.to_multiset().count(mx) > 0);
        assert(y.to_multiset().count(my) > 0);
        assert(x.to_multiset().count(my) > 0);
        let nx = smallest(x).unwrap();
        let ny = smallest(y).unwrap();
        assert(x.to_multiset().count(nx) > 0);
        assert(y.to_multiset().count(nx) > 0);
        assert(y.to_multiset().count(ny) > 0);
        assert(x.to_multiset().count(ny) > 0);
    }
}

/// Two lists that hold the same numbers, each as often, have the same sum.
pub proof fn lemma_sum_permutation(x: Seq<int>, y: Seq<int>)
    requires
        x.to_multiset() == y.to_multiset(),
    ensures
        sum_of(x) == sum_of(y),
    decreases x.len(),
{
    broadcast use vstd::seq_lib::group_to_multiset_ensures;

    x.to_multiset_ensures();
    y.to_multiset_ensures();
    if x.len() > 0 {
        let last = x.last();
        assert(x[x.len() - 1] == last);
        assert(x.to_multiset().count(last) > 0);
        assert(y.to_multiset().count(last) > 0);
        let j = choose|j: int| 0 <= j < y.len() && y[j] == last;
        assert(x.drop_last() =~= x.remove(x.len() - 1));
        assert(x.drop_last().to_multiset() =~= y.remove(j).to_multiset());
        lemma_sum_permutation(x.drop_last(), y.remove(j));
        lemma_sum_remove(y, j);
    } else {
        assert(y.len() == 0);
    }
}

/// Taking one notice out of a batch takes its period out of the periods of
/// its side, and leaves those of the other sides as they are.
pub proof fn lemma_leads_remove(s: Seq<Notice>, side: Side, i: int)
    requires
        0 <= i < s.len(),
    ensures
        leads(s, side).to_multiset() == if admits(side, s[i]) {
            leads(s.remove(i), side).to_multiset().insert(lead(s[i]))
        } else {
            leads(s.remove(i), side).to_multiset()
        },
    decreases s.len(),
{
    broadcast use vstd::seq_lib::group_to_multiset_ensures;

    if i == s.len() - 1 {
        assert(s.remove(i) =~= s.drop_last());
    } else {
        lemma_leads_remove(s.drop_last(), side, i);
        assert(s.remove(i).drop_last() =~= s.drop_last().remove(i));
        assert(s.remove(i).last() == s.last());
        assert(s.drop_last()[i] == s[i]);
        if admits(side, s.last()) {
            let a = leads(s.drop_last().remove(i), side).to_multiset();
            assert(leads(s, side).to_multiset() =~= leads(s.drop_last(), side).to_multiset().insert(
                lead(s.last()),
            ));
            assert(leads(s.remove(i), side).to_multiset() =~= a.insert(lead(s.last())));
            if admits(side, s[i]) {
                assert(a.insert(lead(s[i])).insert(lead(s.last())) =~= a.insert(
                    lead(s.last()),
                ).insert(lead(s[i])));
            }
        }
    }
}

/// Two batches that hold the same notices, each as often, have the same
/// periods of notice on each side, each as often.
pub proof fn lemma_leads_permutation(a: Seq<Notice>, b: Seq<Notice>, side: Side)
    requires
        a.to_multiset() == b.to_multiset(),
    ensures
        leads(a, side).to_multiset() == leads(b, side).to_multiset(),
    decreases a.len(),
{
    broadcast use vstd::seq_lib::group_to_multiset_ensures;

    a.to_multiset_ensures();
    b.to_multiset_ensures();
    if a.len() > 0 {
        let last = a.last();
        assert(a[a.len() - 1] == last);
        assert(a.to_multiset().count(last) > 0);
        assert(b.to_multiset().count(last) > 0);
        let j = choose|j: int| 0 <= j < b.len() && b[j] == last;
        assert(a.drop_last() =~= a.remove(a.len() - 1));
        assert(a.drop_last().to_multiset() =~= b.remove(j).to_multiset());
        lemma_leads_permutation(a.drop_last(), b.remove(j), side);
        lemma_leads_remove(b, side, j);
        if admits(side, last) {
            assert(leads(a, side).to_multiset() =~= leads(a.drop_last(), side).to_multiset().insert(
                lead(last),
            ));
        }
    } else {
        assert(b.len() == 0);
    }
}

/// Taking one notice out of a batch takes its time of day out of the times
/// of day.
pub proof fn lemma_clocks_remove(s: Seq<Notice>, i: int)
    requires
        0 <= i < s.len(),
    ensures
        clocks(s).to_multiset() == clocks(s.remove(i)).to_multiset().insert(clock(s[i])),
    decreases s.len(),
{
    broadcast use vstd::seq_lib::group_to_multiset_ensures;

    if i == s.len() - 1 {
        assert(s.remove(i) =~= s.drop_last());
    } else {
        lemma_clocks_remove(s.drop_last(), i);
        assert(s.remove(i).drop_last() =~= s.drop_last().remove(i));
        assert(s.remove(i).last() == s.last());
        assert(s.drop_last()[i] == s[i]);
        let a = clocks(s.drop_last().remove(i)).to_multiset();
        assert(clocks(s).to_multiset() =~= clocks(s.drop_last()).to_multiset().insert(
            clock(s.last()),
        ));
        assert(clocks(s.remove(i)).to_multiset() =~= a.insert(clock(s.last())));
        assert(a.insert(clock(s[i])).insert(clock(s.last())) =~= a.insert(clock(s.last())).insert(
            clock(s[i]),
        ));
    }
}

/// Two batches that hold the same notices, each as often, have the same
/// times of day, each as often.
pub proof fn lemma_clocks_permutation(a: Seq<Notice>, b: Seq<Notice>)
    requires
        a.to_multiset() == b.to_multiset(),
    ensures
        clocks(a).to_multiset() == clocks(b).to_multiset(),
    decreases a.len(),
{
    broadcast use vstd::seq_lib::group_to_multiset_ensures;

    a.to_multiset_ensures();
    b.to_multiset_ensures();
    if a.len() > 0 {
        let last = a.last();
        assert(a[a.len() - 1] == last);
        assert(a.to_multiset().count(last) > 0);
        assert(b.to_multiset().count(last) > 0);
        let j = choose|j: int| 0 <= j < b.len() && b[j] == last;
        assert(a.drop_last() =~= a.remove(a.len() - 1));
        assert(a.drop_last().to_multiset() =~= b.remove(j).to_multiset());
        lemma_clocks_permutation(a.drop_last(), b.remove(j));
        lemma_clocks_remove(b, j);
        assert(clocks(a).to_multiset() =~= clocks(a.drop_last()).to_multiset().insert(clock(last)));
    } else {
        assert(b.len() == 0);
    }
}

/// The statistics of a batch do not depend on the order of its notices:
/// two batches that hold the same notices, each as often, have the same
/// statistics.
pub proof fn lemma_summary_permutation(a: Seq<Notice>, b: Seq<Notice>)
    requires
        a.to_multiset() == b.to_multiset(),
    ensures
        stats_of(a) == stats_of(b),
{
    a.to_multiset_ensures();
    b.to_multiset_ensures();
    lemma_clocks_permutation(a, b);
    lemma_tally_permutation(clocks(a), clocks(b));
    lemma_leads_permutation(a, b, Side::All);
    lemma_tally_permutation(leads(a, Side::All), leads(b, Side::All));
    lemma_leads_permutation(a, b, Side::Before);
    lemma_tally_permutation(leads(a, Side::Before), leads(b, Side::Before));
    lemma_leads_permutation(a, b, Side::After);
    lemma_tally_permutation(leads(a, Side::After), leads(b, Side::After));
}

/// The statistics of no notices: none counted, no earliest and no latest
/// time, and every average zero.
pub proof fn lemma_summary_of_nothing()
    ensures
        stats_of(Seq::empty()) == (Tally {
            count: 0,
            earliest: None,
            latest: None,
            notice: NoticeTally { count: 0, earliest: None, latest: None, average: 0 },
            before_notice: NoticeTally { count: 0, earliest: None, latest: None, average: 0 },
            after_notice: NoticeTally { count: 0, earliest: None, latest: None, average: 0 },
        }),
{
    let none = Seq::<Notice>::empty();
    assert(clocks(none) =~= Seq::<int>::empty());
    assert(leads(none, Side::All) =~= Seq::<int>::empty());
    assert(leads(none, Side::Before) =~= Seq::<int>::empty());
    assert(leads(none, Side::After) =~= Seq::<int>::empty());
}

/// The longest period that can lie between two instants, in seconds.
pub const MAX_SPAN_SECS: i64 = 315_569_520_000;

/// A signed length of time: whole seconds, and nanoseconds that count
/// forward from them. No longer than the years 0000 to 9999.
#[derive(Clone, Copy, Debug, PartialEq, Eq, PartialOrd, Ord, Structural)]
pub struct Duration {
    pub(crate) secs: i64,
    pub(crate) nanos: u32,
}

impl Duration {
    #[verifier::type_invariant]
    pub open(crate) spec fn inv(self) -> bool {
        -MAX_SPAN_SECS <= self.secs <= MAX_SPAN_SECS && self.nanos < NANOS_PER_SEC
    }

    /// The length in nanoseconds.
    pub open(crate) spec fn total_nanos(self) -> int {
        self.secs * 1_000_000_000 + self.nanos
    }

    /// The length of `secs` seconds and `nanos` nanoseconds more; `None`
    /// where it is out of range or `nanos` is a second or more.
    pub fn new(secs: i64, nanos: u32) -> (r: Option<Duration>)
        ensures
            r.is_some() == (-MAX_SPAN_SECS <= secs <= MAX_SPAN_SECS && nanos < NANOS_PER_SEC),
            r matches Some(d) ==> d.total_nanos() == secs * 1_000_000_000 + nanos,
    {
        if -MAX_SPAN_SECS <= secs && secs <= MAX_SPAN_SECS && nanos < NANOS_PER_SEC {
            Some(Duration { secs, nanos })
        } else {
            None
        }
    }

    pub fn zero() -> (r: Duration)
        ensures
            r.total_nanos() == 0,
    {
        Duration { secs: 0, nanos: 0 }
    }

    /// The whole seconds, rounded down.
    pub fn whole_secs(&self) -> (r: i64)
        ensures
            r * 1_000_000_000 <= self.total_nanos() < (r + 1) * 1_000_000_000,
    {
        proof {
            use_type_invariant(self);
        }
        self.secs
    }

    /// The nanoseconds past the whole seconds.
    pub fn subsec_nanos(&self) -> (r: u32)
        ensures
            r < NANOS_PER_SEC,
            (self.total_nanos() - r) % 1_000_000_000 == 0,
    {
        proof {
            use_type_invariant(self);
            lemma_fundamental_div_mod_converse(
                self.total_nanos() - self.nanos,
                1_000_000_000,
                self.secs as int,
                0,
            );
        }
        self.nanos
    }

    /// The time from the posting to the scheduled time.
    pub fn between(posted: &Timestamp, time: &LocalInstant) -> (r: Duration)
        ensures
            r.total_nanos() == time.total_nanos() - posted.total_nanos(),
    {
        let secs: i64 = time.unix_secs() - posted.unix_secs();
        let from: u32 = posted.subsec_nanos();
        let to: u32 = time.subsec_nanos();
        if to >= from {
            Duration { secs, nanos: to - from }
        } else {
            Duration { secs: secs - 1, nanos: NANOS_PER_SEC - from + to }
        }
    }

    /// Whether the length is above zero.
    pub fn is_positive(&self) -> (r: bool)
        ensures
            r == (self.total_nanos() > 0),
    {
        proof {
            use_type_invariant(self);
        }
        self.secs > 0 || (self.secs == 0 && self.nanos > 0)
    }

    /// Whether the length is at least that of `other`.
    pub fn at_least(&self, other: &Duration) -> (r: bool)
        ensures
            r == (self.total_nanos() >= other.total_nanos()),
    {
        proof {
            use_type_invariant(self);
            use_type_invariant(other);
        }
        self.secs > other.secs || (self.secs == other.secs && self.nanos >= other.nanos)
    }
}

/// A time of day, in nanoseconds past midnight.
#[derive(Clone, Copy, Debug, PartialEq, Eq, PartialOrd, Ord, Structural)]
pub struct TimeOfDay {
    pub nanos: u64,
}

impl TimeOfDay {
    /// The time of day that the clock of an instant shows.
    pub fn of(time: &LocalInstant) -> (r: TimeOfDay)
        ensures
            r.nanos == time.second_of_day() * 1_000_000_000 + time.nanos(),
    {
        let second: u32 = time.clock_second();
        let nanos: u32 = time.subsec_nanos();
        TimeOfDay { nanos: (second as u64) * 1_000_000_000 + (nanos as u64) }
    }
}

/// The statistics of the periods of notice of a batch.
#[derive(Clone, Copy, Debug, PartialEq, Eq, PartialOrd, Structural)]
pub struct CancellationNoticeStats {
    pub count: usize,
    /// The longest period: the notice given furthest ahead.
    pub earliest: Option<Duration>,
    /// The shortest period.
    pub latest: Option<Duration>,
    /// The mean period, rounded towards zero; zero for an empty batch.
    pub average: Duration,
}

/// The length of an optional period, in nanoseconds.
pub open spec fn period_view(d: Option<Duration>) -> Option<int> {
    match d {
        Some(d) => Some(d.total_nanos()),
        None => None,
    }
}

impl View for CancellationNoticeStats {
    type V = NoticeTally;

    open spec fn view(&self) -> NoticeTally {
        NoticeTally {
            count: self.count as nat,
            earliest: period_view(self.earliest),
            latest: period_view(self.latest),
            average: self.average.total_nanos(),
        }
    }
}

/// The lengths of a list of periods, in nanoseconds.
pub open spec fn periods(d: Seq<Duration>) -> Seq<int> {
    Seq::new(d.len(), |i: int| d[i].total_nanos())
}

/// A quotient rounded down, with its remainder.
fn floor_div_rem(s: i128, n: i128) -> (r: (i128, i128))
    requires
        n > 0,
        -0x4000_0000_0000_0000_0000_0000_0000_0000 <= s <= 0x4000_0000_0000_0000_0000_0000_0000_0000,
    ensures
        r.0 == s / n,
        r.1 == s % n,
{
    if s >= 0 {
        (s / n, s % n)
    } else {
        let p: i128 = -s;
        let k: i128 = p / n;
        let m: i128 = p % n;
        proof {
            lemma_fundamental_div_mod(p as int, n as int);
            lemma_div_pos_is_pos(p as int, n as int);
            lemma_div_nonincreasing(p as int, n as int);
            lemma_mod_bound(p as int, n as int);
        }
        if m == 0 {
            proof {
                assert(s == (-k) * n + 0) by (nonlinear_arith)
                    requires
                        p == n * k + m,
                        m == 0,
                        s == -p,
                ;
                lemma_fundamental_div_mod_converse(s as int, n as int, -k, 0);
            }
            (-k, 0)
        } else {
            proof {
                assert(s == (-k - 1) * n + (n - m)) by (nonlinear_arith)
                    requires
                        p == n * k + m,
                        s == -p,
                ;
                lemma_fundamental_div_mod_converse(s as int, n as int, -k - 1, n - m);
            }
            (-k - 1, n - m)
        }
    }
}

/// The mean, rounded towards zero, of `n` numbers that add up to
/// `floor * n + rest`.
proof fn lemma_truncated_from_floor(total: int, n: int, floor: int, rest: int)
    requires
        n > 0,
        total == floor * n + rest,
        0 <= rest < n,
    ensures
        truncated_mean(total, n) == if floor >= 0 || rest == 0 {
            floor
        } else {
            floor + 1
        },
{
    if floor >= 0 {
        assert(total >= 0) by (nonlinear_arith)
            requires
                total == floor * n + rest,
                floor >= 0,
                n > 0,
                rest >= 0,
        ;
        lemma_fundamental_div_mod_converse(total, n, floor, rest);
    } else {
        assert(total < 0) by (nonlinear_arith)
            requires
                total == floor * n + rest,
                floor <= -1,
                n > 0,
                rest < n,
        ;
        if rest == 0 {
            assert(-total == (-floor) * n + 0) by (nonlinear_arith)
                requires
                    total == floor * n + rest,
                    rest == 0,
            ;
            lemma_fundamental_div_mod_converse(-total, n, -floor, 0);
        } else {
            assert(-total == (-floor - 1) * n + (n - rest)) by (nonlinear_arith)
                requires
                    total == floor * n + rest,
            ;
            lemma_fundamental_div_mod_converse(-total, n, -floor - 1, n - rest);
        }
    }
}

/// A quotient lies between the bounds of what it divides.
proof fn lemma_quotient_within(total: int, n: int, low: int, high: int)
    requires
        n > 0,
        n * low <= total <= n * high,
    ensures
        low <= total / n <= high,
{
    lemma_div_is_ordered(n * low, total, n);
    lemma_div_is_ordered(total, n * high, n);
    lemma_div_multiples_vanish(low, n);
    lemma_div_multiples_vanish(high, n);
}

/// The mean, rounded towards zero, of `count` periods whose whole seconds
/// add up to `sum_secs` and whose nanoseconds add up to `sum_nanos`.
fn mean(sum_secs: i128, sum_nanos: i128, count: usize) -> (r: Duration)
    requires
        count > 0,
        -count * MAX_SPAN_SECS <= sum_secs <= count * MAX_SPAN_SECS,
        0 <= sum_nanos <= count * 999_999_999,
    ensures
        r.total_nanos() == truncated_mean(sum_secs * 1_000_000_000 + sum_nanos, count as int),
{
    let n: i128 = count as i128;
    let ghost total: int = sum_secs * 1_000_000_000 + sum_nanos;
    let (q1, r1) = floor_div_rem(sum_secs, n);
    proof {
        lemma_fundamental_div_mod(sum_secs as int, n as int);
        lemma_quotient_within(sum_secs as int, n as int, -MAX_SPAN_SECS as int, MAX_SPAN_SECS as int);
        lemma_mod_bound(sum_secs as int, n as int);
    }
    let t: i128 = r1 * 1_000_000_000 + sum_nanos;
    let q2: i128 = t / n;
    let r2: i128 = t % n;
    proof {
        lemma_fundamental_div_mod(t as int, n as int);
        lemma_mod_bound(t as int, n as int);
        assert(total == (q1 * 1_000_000_000 + q2) * n + r2) by (nonlinear_arith)
            requires
                total == sum_secs * 1_000_000_000 + sum_nanos,
                sum_secs == n * q1 + r1,
                t == r1 * 1_000_000_000 + sum_nanos,
                t == n * q2 + r2,
        ;
        lemma_fundamental_div_mod_converse(total, n as int, q1 * 1_000_000_000 + q2, r2 as int);
        assert(n * (-MAX_SPAN_SECS * 1_000_000_000) <= total <= n * (MAX_SPAN_SECS * 1_000_000_000
            + 999_999_999)) by (nonlinear_arith)
            requires
                total == sum_secs * 1_000_000_000 + sum_nanos,
                -n * MAX_SPAN_SECS <= sum_secs <= n * MAX_SPAN_SECS,
                0 <= sum_nanos <= n * 999_999_999,
        ;
        lemma_quotient_within(
            total,
            n as int,
            -MAX_SPAN_SECS * 1_000_000_000,
            MAX_SPAN_SECS * 1_000_000_000 + 999_999_999,
        );
        lemma_truncated_from_floor(total, n as int, q1 * 1_000_000_000 + q2, r2 as int);
    }
    let floor: i128 = q1 * 1_000_000_000 + q2;
    let a: i128 = if floor >= 0 || r2 == 0 {
        floor
    } else {
        floor + 1
    };
    let (secs, nanos) = floor_div_rem(a, 1_000_000_000);
    proof {
        lemma_fundamental_div_mod(a as int, 1_000_000_000);
    }
    Duration { secs: secs as i64, nanos: nanos as u32 }
}

impl CancellationNoticeStats {
    /// The statistics of a list of periods of notice.
    pub fn from_durations(durations: &[Duration]) -> (r: CancellationNoticeStats)
        ensures
            r@ == tally_of(periods(durations@)),
    {
        let ghost all = periods(durations@);
        let mut earliest: Option<Duration> = None;
        let mut latest: Option<Duration> = None;
        let mut sum_secs: i128 = 0;
        let mut sum_nanos: i128 = 0;
        let mut count: usize = 0;
        while count < durations.len()
            invariant
                count <= durations@.len(),
                all == periods(durations@),
                period_view(earliest) == largest(all.subrange(0, count as int)),
                period_view(latest) == smallest(all.subrange(0, count as int)),
                sum_secs * 1_000_000_000 + sum_nanos == sum_of(all.subrange(0, count as int)),
                -count * MAX_SPAN_SECS <= sum_secs <= count * MAX_SPAN_SECS,
                0 <= sum_nanos <= count * 999_999_999,
            decreases durations.len() - count,
        {
            let item = durations[count];
            proof {
                use_type_invariant(&item);
                let next = all.subrange(0, count + 1);
                assert(next.drop_last() =~= all.subrange(0, count as int));
                assert(next.last() == item.total_nanos());
            }
            earliest = match earliest {
                Some(longest) => if longest.at_least(&item) {
                    Some(longest)
                } else {
                    Some(item)
                },
                None => Some(item),
            };
            latest = match latest {
                Some(shortest) => if item.at_least(&shortest) {
                    Some(shortest)
                } else {
                    Some(item)
                },
                None => Some(item),
            };
            sum_secs = sum_secs + item.secs as i128;
            sum_nanos = sum_nanos + item.nanos as i128;
            count = count + 1;
        }
        proof {
            assert(all.subrange(0, count as int) =~= all);
        }
        let average = if count == 0 {
            Duration::zero()
        } else {
            mean(sum_secs, sum_nanos, count)
        };
        CancellationNoticeStats { count, earliest, latest, average }
    }
}

/// The statistics of a batch of notices.
#[derive(Clone, Copy, Debug, PartialEq, Eq, PartialOrd, Structural)]
pub struct CancellationStats {
    pub count: usize,
    /// The earliest scheduled time of day in the batch.
    pub earliest: Option<TimeOfDay>,
    /// The latest scheduled time of day in the batch.
    pub latest: Option<TimeOfDay>,
    /// The periods of notice of every notice.
    pub notice: CancellationNoticeStats,
    /// The periods of the notices posted before the scheduled time.
    pub before_notice: CancellationNoticeStats,
    /// The periods of the notices posted at the scheduled time or after it.
    pub after_notice: CancellationNoticeStats,
}

/// An optional time of day, in nanoseconds past midnight.
pub open spec fn time_of_day_view(t: Option<TimeOfDay>) -> Option<int> {
    match t {
        Some(t) => Some(t.nanos as int),
        None => None,
    }
}

impl View for CancellationStats {
    type V = Tally;

    open spec fn view(&self) -> Tally {
        Tally {
            count: self.count as nat,
            earliest: time_of_day_view(self.earliest),
            latest: time_of_day_view(self.latest),
            notice: self.notice@,
            before_notice: self.before_notice@,
            after_notice: self.after_notice@,
        }
    }
}

impl CancellationStats {
    /// The statistics of a batch of notices.
    pub fn from_events(events: &[Cancellations]) -> (r: CancellationStats)
        ensures
            r@ == stats_of(notices(events@)),
    {
        let ghost batch = notices(events@);
        let mut earliest: Option<TimeOfDay> = None;
        let mut latest: Option<TimeOfDay> = None;
        let mut every: Vec<Duration> = Vec::new();
        let mut before: Vec<Duration> = Vec::new();
        let mut after: Vec<Duration> = Vec::new();
        let mut i: usize = 0;
        proof {
            assert(periods(every@) =~= leads(batch.subrange(0, 0), Side::All));
            assert(periods(before@) =~= leads(batch.subrange(0, 0), Side::Before));
            assert(periods(after@) =~= leads(batch.subrange(0, 0), Side::After));
        }
        while i < events.len()
            invariant
                i <= events@.len(),
                batch == notices(events@),
                time_of_day_view(earliest) == smallest(clocks(batch.subrange(0, i as int))),
                time_of_day_view(latest) == largest(clocks(batch.subrange(0, i as int))),
                periods(every@) == leads(batch.subrange(0, i as int), Side::All),
                periods(before@) == leads(batch.subrange(0, i as int), Side::Before),
                periods(after@) == leads(batch.subrange(0, i as int), Side::After),
            decreases events.len() - i,
        {
            let event = &events[i];
            let at = TimeOfDay::of(event.time());
            let period = Duration::between(event.tweet_time(), event.time());
            proof {
                let next = batch.subrange(0, i + 1);
                assert(next.drop_last() =~= batch.subrange(0, i as int));
                assert(next.last() == event@);
                assert(clocks(next).drop_last() =~= clocks(next.drop_last()));
                assert(clocks(next).last() == clock(event@));
            }
            earliest = match earliest {
                Some(first) => if first.nanos <= at.nanos {
                    Some(first)
                } else {
                    Some(at)
                },
                None => Some(at),
            };
            latest = match latest {
                Some(last) => if last.nanos >= at.nanos {
                    Some(last)
                } else {
                    Some(at)
                },
                None => Some(at),
            };
            let ghost every_before = every@;
            let ghost before_before = before@;
            let ghost after_before = after@;
            every.push(period);
            if period.is_positive() {
                before.push(period);
            } else {
                after.push(period);
            }
            proof {
                assert(periods(every@) =~= periods(every_before).push(period.total_nanos()));
                if period.total_nanos() > 0 {
                    assert(periods(before@) =~= periods(before_before).push(period.total_nanos()));
                } else {
                    assert(periods(after@) =~= periods(after_before).push(period.total_nanos()));
                }
            }
            i = i + 1;
        }
        proof {
            assert(batch.subrange(0, i as int) =~= batch);
        }
        CancellationStats {
            count: events.len(),
            earliest,
            latest,
            notice: CancellationNoticeStats::from_durations(every.as_slice()),
            before_notice: CancellationNoticeStats::from_durations(before.as_slice()),
            after_notice: CancellationNoticeStats::from_durations(after.as_slice()),
        }
    }
}

/// The summary of a batch of notices.
#[derive(Clone, Copy, Debug, PartialEq, Eq, PartialOrd, Structural)]
pub struct CancellationSummary {
    pub stats: CancellationStats,
}

/// Summarizes a batch of notices.
///
/// The result depends on which notices the batch holds and how often, not
/// on their order. For an empty batch nothing is counted, there is no
/// earliest and no latest, and every average is zero.
pub fn summarize(cancellations: &[Cancellations]) -> (r: CancellationSummary)
    ensures
        r.stats@ == stats_of(notices(cancellations@)),
{
    CancellationSummary { stats: CancellationStats::from_events(cancellations) }
}


} // verus!
