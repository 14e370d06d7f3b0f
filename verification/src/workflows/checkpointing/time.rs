//! Spans of time in whole seconds, within the bounds of a signed
//! millisecond count; instants of UTC time; and the parsing of whole
//! numbers.
use vstd::prelude::*;

verus! {

/// The largest number of seconds a span can hold (`i64::MAX` milliseconds).
pub open spec fn max_span_secs() -> int {
    9223372036854775
}

/// `secs` is within the bounds of a span.
pub open spec fn span_in_bounds(secs: int) -> bool {
    -max_span_secs() <= secs <= max_span_secs()
}

/// A signed span of time, in whole seconds.
#[derive(Debug, Clone, Copy, PartialEq, Eq, Structural)]
pub struct TimeDelta {
    secs: i64,
}

impl TimeDelta {
    /// The number of seconds of the span.
    pub closed spec fn spec_seconds(self) -> int {
        self.secs as int
    }

    /// The span of `n` seconds.
    pub closed spec fn of_seconds(n: int) -> TimeDelta {
        TimeDelta { secs: n as i64 }
    }

    /// A span built of `n` seconds, within bounds, holds `n` seconds.
    pub proof fn lemma_of_seconds(n: int)
        requires
            span_in_bounds(n),
        ensures
            TimeDelta::of_seconds(n).spec_seconds() == n,
    {
    }

    #[verifier::type_invariant]
    closed spec fn in_bounds(self) -> bool {
        span_in_bounds(self.secs as int)
    }

    /// A span of `secs` seconds.
    pub fn seconds(secs: i64) -> (r: Self)
        requires
            span_in_bounds(secs as int),
        ensures
            r.spec_seconds() == secs,
            r == TimeDelta::of_seconds(secs as int),
    {
        TimeDelta { secs }
    }

    /// A span of `minutes` minutes.
    pub fn minutes(minutes: i64) -> (r: Self)
        requires
            span_in_bounds(minutes * 60),
        ensures
            r.spec_seconds() == minutes * 60,
            r == TimeDelta::of_seconds(minutes * 60),
    {
        TimeDelta { secs: minutes * 60 }
    }

    /// A span of `hours` hours.
    pub fn hours(hours: i64) -> (r: Self)
        requires
            span_in_bounds(hours * 3600),
        ensures
            r.spec_seconds() == hours * 3600,
            r == TimeDelta::of_seconds(hours * 3600),
    {
        TimeDelta { secs: hours * 3600 }
    }

    /// A span of `days` days.
    pub fn days(days: i64) -> (r: Self)
        requires
            span_in_bounds(days * 86400),
        ensures
            r.spec_seconds() == days * 86400,
            r == TimeDelta::of_seconds(days * 86400),
    {
        TimeDelta { secs: days * 86400 }
    }

    /// The number of whole seconds of the span.
    pub fn num_seconds(&self) -> (r: i64)
        ensures
            r == self.spec_seconds(),
            span_in_bounds(r as int),
    {
        proof {
            use_type_invariant(self);
        }
        self.secs
    }
}

/// An instant of UTC time: whole seconds since the Unix epoch and the
/// nanoseconds past that second.
#[derive(Debug, Clone, Copy, PartialEq, Eq, Structural)]
pub struct Timestamp {
    pub secs: i64,
    pub nanos: u32,
}

/// The nanoseconds from the Unix epoch to `t`.
pub open spec fn epoch_nanos(t: Timestamp) -> int {
    t.secs * 1_000_000_000 + t.nanos
}

/// The current UTC time (`chrono::Utc::now`), split into its Unix
/// timestamp and the nanoseconds past that second. chrono documents the
/// nanoseconds as below 2,000,000,000 (they pass 999,999,999 only within a
/// leap second); nothing more is claimed, as the result depends on the clock.
#[verifier::external_body]
pub fn utc_now() -> (r: Timestamp)
    ensures
        r.nanos < 2_000_000_000,
{
    let now = chrono::Utc::now();
    Timestamp { secs: now.timestamp(), nanos: now.timestamp_subsec_nanos() }
}

/// An ASCII decimal digit.
pub open spec fn is_digit(c: char) -> bool {
    '0' <= c && c <= '9'
}

/// The value of a string of decimal digits.
pub open spec fn digits_value(s: Seq<char>) -> int
    decreases s.len(),
{
    if s.len() == 0 {
        0
    } else {
        digits_value(s.drop_last()) * 10 + (s.last() as int - '0' as int)
    }
}

/// `s` is a non-empty string of decimal digits.
pub open spec fn all_digits(s: Seq<char>) -> bool {
    s.len() > 0 && forall|i: int| 0 <= i < s.len() ==> is_digit(#[trigger] s[i])
}

/// The signed whole number that `s` writes: an optional `+` or `-`, then
/// decimal digits; none when that is not the form of `s` or the number does
/// not fit in 64 signed bits.
pub open spec fn parse_i64(s: Seq<char>) -> Option<i64> {
    if s.len() > 0 && s[0] == '-' {
        let d = s.skip(1);
        if all_digits(d) && -digits_value(d) >= i64::MIN {
            Some((-digits_value(d)) as i64)
        } else {
            None
        }
    } else {
        let d = if s.len() > 0 && s[0] == '+' {
            s.skip(1)
        } else {
            s
        };
        if all_digits(d) && digits_value(d) <= i64::MAX {
            Some(digits_value(d) as i64)
        } else {
            None
        }
    }
}

proof fn lemma_digits_nonneg(s: Seq<char>)
    requires
        forall|i: int| 0 <= i < s.len() ==> is_digit(#[trigger] s[i]),
    ensures
        digits_value(s) >= 0,
    decreases s.len(),
{
    if s.len() > 0 {
        lemma_digits_nonneg(s.drop_last());
    }
}

proof fn lemma_digits_monotone(s: Seq<char>, k: int)
    requires
        forall|i: int| 0 <= i < s.len() ==> is_digit(#[trigger] s[i]),
        0 <= k <= s.len(),
    ensures
        digits_value(s.take(k)) <= digits_value(s),
    decreases s.len() - k,
{
    if k < s.len() {
        lemma_digits_monotone(s, k + 1);
        assert(s.take(k + 1).drop_last() =~= s.take(k));
        lemma_digits_nonneg(s.take(k));
    } else {
        assert(s.take(k) =~= s);
    }
}

/// The value of the decimal digits of `s` from `start`, if they are all
/// digits (and there is one) and the value is at most `limit`.
pub(crate) fn digits_up_to(s: &str, start: usize, limit: u64) -> (r: Option<u64>)
    requires
        start <= s@.len(),
        limit >= 9,
    ensures
        r matches Some(v) ==> all_digits(s@.skip(start as int)) && v == digits_value(
            s@.skip(start as int),
        ) && v <= limit,
        r is None ==> !(all_digits(s@.skip(start as int)) && digits_value(s@.skip(start as int))
            <= limit),
{
    let n = s.unicode_len();
    if start >= n {
        return None;
    }
    let ghost d = s@.skip(start as int);
    let mut value: u64 = 0;
    let mut i: usize = start;
    while i < n
        invariant
            start <= i <= n,
            n == s@.len(),
            d == s@.skip(start as int),
            forall|q: int| 0 <= q < i - start ==> is_digit(#[trigger] d[q]),
            value == digits_value(d.take(i - start)),
            value <= limit,
            limit >= 9,
        decreases n - i,
    {
        let c = s.get_char(i);
        assert(c == d[i - start]);
        if !('0' <= c && c <= '9') {
            return None;
        }
        let digit: u64 = (c as u64) - ('0' as u64);
        assert(d.take(i - start + 1).drop_last() =~= d.take(i - start));
        if value > (limit - digit) / 10 {
            proof {
                assert(digits_value(d.take(i - start + 1)) == value * 10 + digit);
                assert(value * 10 + digit > limit) by (nonlinear_arith)
                    requires
                        value > (limit - digit) / 10,
                        digit <= 9,
                        digit <= limit || value > 0,
                ;
                if all_digits(d) {
                    lemma_digits_monotone(d, i - start + 1);
                }
            }
            return None;
        }
        proof {
            assert(value * 10 + digit <= limit) by (nonlinear_arith)
                requires
                    value <= (limit - digit) / 10,
                    digit <= limit,
            ;
        }
        value = value * 10 + digit;
        i = i + 1;
    }
    assert(d.take(n - start) =~= d);
    Some(value)
}

/// Reads a signed whole number: an optional `+` or `-`, then decimal
/// digits, within 64 signed bits.
pub fn parse_i64_str(s: &str) -> (r: Option<i64>)
    ensures
        r == parse_i64(s@),
{
    let n = s.unicode_len();
    if n > 0 && s.get_char(0) == '-' {
        match digits_up_to(s, 1, 9223372036854775808) {
            Some(v) => {
                if v == 9223372036854775808 {
                    Some(i64::MIN)
                } else {
                    Some(-(v as i64))
                }
            },
            None => None,
        }
    } else {
        let start: usize = if n > 0 && s.get_char(0) == '+' {
            1
        } else {
            0
        };
        assert(start == 0 ==> s@.skip(0) =~= s@);
        match digits_up_to(s, start, 9223372036854775807) {
            Some(v) => Some(v as i64),
            None => None,
        }
    }
}

} // verus!
