//! Character-level helpers over strings, stated over `Seq<char>`.

use vstd::prelude::*;

verus! {

/// `needle` occurs in `hay` starting at position `at`.
pub open spec fn occurs_at(hay: Seq<char>, needle: Seq<char>, at: int) -> bool {
    0 <= at && at + needle.len() <= hay.len() && hay.subrange(at, at + needle.len()) == needle
}

/// `hay` begins with `needle`.
pub open spec fn has_prefix(hay: Seq<char>, needle: Seq<char>) -> bool {
    occurs_at(hay, needle, 0)
}

/// `needle` occurs somewhere in `hay`.
pub open spec fn has_infix(hay: Seq<char>, needle: Seq<char>) -> bool {
    exists|at: int| occurs_at(hay, needle, at)
}

/// Tests whether `needle` occurs in `hay` at character position `at`.
pub fn matches_at(hay: &str, needle: &str, at: usize) -> (r: bool)
    ensures
        r == occurs_at(hay@, needle@, at as int),
{
    let n: usize = hay.unicode_len();
    let m: usize = needle.unicode_len();
    if at > n || m > n - at {
        return false;
    }
    let mut i: usize = 0;
    while i < m
        invariant
            n == hay@.len(),
            m == needle@.len(),
            at + m <= n,
            i <= m,
            forall|k: int| 0 <= k < i ==> hay@[at + k] == needle@[k],
        decreases m - i,
    {
        if hay.get_char(at + i) != needle.get_char(i) {
            assert(hay@.subrange(at as int, at + m)[i as int] == hay@[at + i]);
            return false;
        }
        i = i + 1;
    }
    assert(hay@.subrange(at as int, at + m) =~= needle@);
    true
}

/// Tests whether `hay` begins with `needle`.
pub fn starts_with(hay: &str, needle: &str) -> (r: bool)
    ensures
        r == has_prefix(hay@, needle@),
{
    matches_at(hay, needle, 0)
}

/// Tests whether `needle` occurs anywhere in `hay`.
pub fn contains(hay: &str, needle: &str) -> (r: bool)
    ensures
        r == has_infix(hay@, needle@),
{
    let n: usize = hay.unicode_len();
    let mut at: usize = 0;
    while at < n
        invariant
            n == hay@.len(),
            at <= n,
            forall|k: int| 0 <= k < at ==> !occurs_at(hay@, needle@, k),
        decreases n - at,
    {
        if matches_at(hay, needle, at) {
            return true;
        }
        at = at + 1;
    }
    // Only the empty text occurs at the very end.
    matches_at(hay, needle, n)
}

/// The decimal digit for `d`, which is below 10.
pub open spec fn digit_char(d: int) -> char {
    if d == 0 {
        '0'
    } else if d == 1 {
        '1'
    } else if d == 2 {
        '2'
    } else if d == 3 {
        '3'
    } else if d == 4 {
        '4'
    } else if d == 5 {
        '5'
    } else if d == 6 {
        '6'
    } else if d == 7 {
        '7'
    } else if d == 8 {
        '8'
    } else {
        '9'
    }
}

/// The value of a decimal digit, `None` for any other character.
pub open spec fn digit_value(c: char) -> Option<int> {
    if c == '0' {
        Some(0)
    } else if c == '1' {
        Some(1)
    } else if c == '2' {
        Some(2)
    } else if c == '3' {
        Some(3)
    } else if c == '4' {
        Some(4)
    } else if c == '5' {
        Some(5)
    } else if c == '6' {
        Some(6)
    } else if c == '7' {
        Some(7)
    } else if c == '8' {
        Some(8)
    } else if c == '9' {
        Some(9)
    } else {
        None
    }
}

/// `n` written in decimal, without leading zeros.
pub open spec fn decimal(n: nat) -> Seq<char>
    decreases n,
{
    if n < 10 {
        seq![digit_char(n as int)]
    } else {
        decimal(n / 10).push(digit_char((n % 10) as int))
    }
}

/// `n` written in decimal, with a leading zero where it is below 10.
pub open spec fn two_digits(n: nat) -> Seq<char> {
    if n < 10 {
        seq!['0', digit_char(n as int)]
    } else {
        decimal(n)
    }
}

/// Every character of `s` is a decimal digit.
pub open spec fn all_digits(s: Seq<char>) -> bool {
    forall|i: int| 0 <= i < s.len() ==> digit_value(#[trigger] s[i]).is_some()
}

/// The number that the digits of `s` write in decimal; 0 for no digits.
pub open spec fn digits_value(s: Seq<char>) -> nat
    decreases s.len(),
{
    if s.len() == 0 {
        0
    } else {
        let last = match digit_value(s.last()) {
            Some(d) => d,
            None => 0,
        };
        (digits_value(s.drop_last()) * 10 + last) as nat
    }
}

/// The number that `s` writes, where `s` is one to nine decimal digits.
pub open spec fn short_number(s: Seq<char>) -> Option<u32> {
    if 1 <= s.len() <= 9 && all_digits(s) {
        Some(digits_value(s) as u32)
    } else {
        None
    }
}

/// A number of up to `len` digits is below the matching power of ten.
pub proof fn lemma_digits_value_bound(s: Seq<char>)
    requires
        s.len() <= 9,
    ensures
        s.len() <= 1 ==> digits_value(s) < 10,
        s.len() <= 2 ==> digits_value(s) < 100,
        s.len() <= 3 ==> digits_value(s) < 1_000,
        s.len() <= 4 ==> digits_value(s) < 10_000,
        s.len() <= 5 ==> digits_value(s) < 100_000,
        s.len() <= 6 ==> digits_value(s) < 1_000_000,
        s.len() <= 7 ==> digits_value(s) < 10_000_000,
        s.len() <= 8 ==> digits_value(s) < 100_000_000,
        digits_value(s) < 1_000_000_000,
    decreases s.len(),
{
    if s.len() > 0 {
        lemma_digits_value_bound(s.drop_last());
    }
}

fn digit_str(d: u32) -> (r: &'static str)
    requires
        d < 10,
    ensures
        r@ == seq![digit_char(d as int)],
{
    proof {
        reveal_strlit("0");
        reveal_strlit("1");
        reveal_strlit("2");
        reveal_strlit("3");
        reveal_strlit("4");
        reveal_strlit("5");
        reveal_strlit("6");
        reveal_strlit("7");
        reveal_strlit("8");
        reveal_strlit("9");
    }
    let r = if d == 0 {
        "0"
    } else if d == 1 {
        "1"
    } else if d == 2 {
        "2"
    } else if d == 3 {
        "3"
    } else if d == 4 {
        "4"
    } else if d == 5 {
        "5"
    } else if d == 6 {
        "6"
    } else if d == 7 {
        "7"
    } else if d == 8 {
        "8"
    } else {
        "9"
    };
    assert(r@ =~= seq![digit_char(d as int)]);
    r
}

/// Writes `n` in decimal.
pub fn to_decimal(n: u32) -> (r: String)
    ensures
        r@ == decimal(n as nat),
    decreases n,
{
    if n < 10 {
        String::from_str(digit_str(n))
    } else {
        let mut r = to_decimal(n / 10);
        r.append(digit_str(n % 10));
        assert(r@ =~= decimal(n as nat));
        r
    }
}

/// Writes `n` in decimal, padded with a zero to two digits.
pub fn to_two_digits(n: u32) -> (r: String)
    ensures
        r@ == two_digits(n as nat),
{
    if n < 10 {
        let mut r = String::from_str("0");
        r.append(digit_str(n));
        proof {
            reveal_strlit("0");
            assert(r@ =~= two_digits(n as nat));
        }
        r
    } else {
        to_decimal(n)
    }
}

fn digit_of(c: char) -> (r: Option<u32>)
    ensures
        r.is_some() == digit_value(c).is_some(),
        r matches Some(d) ==> digit_value(c) == Some(d as int) && d < 10,
{
    if c == '0' {
        Some(0)
    } else if c == '1' {
        Some(1)
    } else if c == '2' {
        Some(2)
    } else if c == '3' {
        Some(3)
    } else if c == '4' {
        Some(4)
    } else if c == '5' {
        Some(5)
    } else if c == '6' {
        Some(6)
    } else if c == '7' {
        Some(7)
    } else if c == '8' {
        Some(8)
    } else if c == '9' {
        Some(9)
    } else {
        None
    }
}

/// Reads a number written as one to nine decimal digits.
pub fn parse_short_number(s: &str) -> (r: Option<u32>)
    ensures
        r == short_number(s@),
{
    let n: usize = s.unicode_len();
    if n == 0 || n > 9 {
        return None;
    }
    let mut value: u32 = 0;
    let mut i: usize = 0;
    while i < n
        invariant
            n == s@.len(),
            1 <= n <= 9,
            i <= n,
            all_digits(s@.subrange(0, i as int)),
            value == digits_value(s@.subrange(0, i as int)),
        decreases n - i,
    {
        let c = s.get_char(i);
        proof {
            lemma_digits_value_bound(s@.subrange(0, i as int));
            assert(s@.subrange(0, i + 1).drop_last() =~= s@.subrange(0, i as int));
            assert(s@.subrange(0, i + 1).last() == s@[i as int]);
        }
        match digit_of(c) {
            None => {
                assert(!all_digits(s@));
                return None;
            },
            Some(d) => {
                value = value * 10 + d;
                assert forall|k: int| 0 <= k < i + 1 implies digit_value(
                    #[trigger] s@.subrange(0, i + 1)[k],
                ).is_some() by {
                    if k < i {
                        assert(s@.subrange(0, i + 1)[k] == s@.subrange(0, i as int)[k]);
                    }
                }
                proof {
                    if i + 1 <= 8 {
                        lemma_digits_value_bound(s@.subrange(0, i + 1));
                    }
                }
            },
        }
        i = i + 1;
    }
    proof {
        assert(s@.subrange(0, n as int) =~= s@);
        lemma_digits_value_bound(s@);
    }
    Some(value)
}

/// A space, a tab, a line feed or a carriage return.
pub open spec fn is_space(c: char) -> bool {
    c == ' ' || c == '\t' || c == '\n' || c == '\r'
}

/// `s` without the spaces it begins with.
pub open spec fn without_leading_space(s: Seq<char>) -> Seq<char>
    decreases s.len(),
{
    if s.len() > 0 && is_space(s[0]) {
        without_leading_space(s.subrange(1, s.len() as int))
    } else {
        s
    }
}

/// `s` without the spaces it ends with.
pub open spec fn without_trailing_space(s: Seq<char>) -> Seq<char>
    decreases s.len(),
{
    if s.len() > 0 && is_space(s.last()) {
        without_trailing_space(s.drop_last())
    } else {
        s
    }
}

/// `s` without the spaces around it.
pub open spec fn trimmed(s: Seq<char>) -> Seq<char> {
    without_trailing_space(without_leading_space(s))
}

/// Dropping leading spaces from a suffix that starts inside them.
proof fn lemma_leading_from(s: Seq<char>, from: int)
    requires
        0 <= from <= s.len(),
        forall|k: int| 0 <= k < from ==> is_space(s[k]),
    ensures
        without_leading_space(s) == without_leading_space(s.subrange(from, s.len() as int)),
    decreases from,
{
    if from == 0 {
        assert(s.subrange(0, s.len() as int) =~= s);
    } else {
        let rest = s.subrange(1, s.len() as int);
        assert forall|k: int| 0 <= k < from - 1 implies is_space(rest[k]) by {
            assert(rest[k] == s[k + 1]);
        }
        lemma_leading_from(rest, from - 1);
        assert(rest.subrange(from - 1, rest.len() as int) =~= s.subrange(from, s.len() as int));
    }
}

/// Dropping trailing spaces from a prefix that ends inside them.
proof fn lemma_trailing_to(s: Seq<char>, to: int)
    requires
        0 <= to <= s.len(),
        forall|k: int| to <= k < s.len() ==> is_space(s[k]),
    ensures
        without_trailing_space(s) == without_trailing_space(s.subrange(0, to)),
    decreases s.len() - to,
{
    if to == s.len() {
        assert(s.subrange(0, to) =~= s);
    } else {
        let rest = s.drop_last();
        lemma_trailing_to(rest, to);
        assert(rest.subrange(0, to) =~= s.subrange(0, to));
    }
}

/// Removes the spaces around `s`.
pub fn trim(s: &str) -> (r: String)
    ensures
        r@ == trimmed(s@),
        r@.len() > 0 ==> !is_space(r@[0]) && !is_space(r@.last()),
{
    let n: usize = s.unicode_len();
    let mut from: usize = 0;
    while from < n && is_space_char(s.get_char(from))
        invariant
            n == s@.len(),
            from <= n,
            forall|k: int| 0 <= k < from ==> is_space(s@[k]),
        decreases n - from,
    {
        from = from + 1;
    }
    let mut to: usize = n;
    while to > from && is_space_char(s.get_char(to - 1))
        invariant
            n == s@.len(),
            from <= to <= n,
            forall|k: int| to <= k < n ==> is_space(s@[k]),
        decreases to,
    {
        to = to - 1;
    }
    let r = String::from_str(s.substring_char(from, to));
    proof {
        let tail = s@.subrange(from as int, n as int);
        lemma_leading_from(s@, from as int);
        assert(without_leading_space(tail) == tail);
        assert forall|k: int| to - from <= k < tail.len() implies is_space(tail[k]) by {
            assert(tail[k] == s@[k + from]);
        }
        lemma_trailing_to(tail, to - from);
        assert(tail.subrange(0, to - from) =~= s@.subrange(from as int, to as int));
        let kept = s@.subrange(from as int, to as int);
        if kept.len() > 0 {
            assert(kept.last() == s@[to - 1]);
            assert(kept[0] == s@[from as int]);
        }
        assert(without_trailing_space(kept) == kept);
    }
    r
}

fn is_space_char(c: char) -> (r: bool)
    ensures
        r == is_space(c),
{
    c == ' ' || c == '\t' || c == '\n' || c == '\r'
}


/// Tests whether two strings hold the same characters.
pub fn same_text(a: &str, b: &str) -> (r: bool)
    ensures
        r == (a@ == b@),
{
    if a.unicode_len() != b.unicode_len() {
        return false;
    }
    let r = matches_at(a, b, 0);
    proof {
        assert(a@.subrange(0, a@.len() as int) =~= a@);
    }
    r
}


} // verus!
