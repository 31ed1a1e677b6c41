//! Durations in nanoseconds: averaging, whole seconds, and the split into
//! hours, minutes and seconds used for display.
use vstd::arithmetic::div_mod::{
    lemma_fundamental_div_mod, lemma_fundamental_div_mod_converse,
};
use vstd::prelude::*;

verus! {

pub const NANOS_PER_SECOND: i128 = 1_000_000_000;

/// Largest magnitude, in nanoseconds, of a duration between two parsed
/// timestamps (two to the power of 95, comfortably above any difference of
/// two instants whose seconds fit in an `i64`).
pub const MAX_SPAN: i128 = 39614081257132168796771975168;

/// Division of `a` by a positive `b`, rounded toward zero.
pub open spec fn trunc_div(a: int, b: int) -> int
    recommends
        b > 0,
{
    if a >= 0 {
        a / b
    } else {
        -((-a) / b)
    }
}

/// The average of `count` durations summing to `total`; zero when there are none.
pub open spec fn average_spec(total: int, count: int) -> int {
    if count > 0 {
        trunc_div(total, count)
    } else {
        0
    }
}

/// The sum of a sequence of durations.
pub open spec fn total_of(s: Seq<int>) -> int
    decreases s.len(),
{
    if s.len() == 0 {
        0
    } else {
        total_of(s.drop_last()) + s.last()
    }
}

/// Divides by a positive `b`, rounding toward zero, on any `a`.
fn div_toward_zero(a: i128, b: i128) -> (r: i128)
    requires
        b > 0,
    ensures
        r == trunc_div(a as int, b as int),
{
    if a >= 0 {
        ((a as u128) / (b as u128)) as i128
    } else if b == 1 {
        proof {
            lemma_fundamental_div_mod_converse(-(a as int), 1, -(a as int), 0);
        }
        a
    } else {
        // -a - 1 is representable even for the smallest `i128`.
        let m: u128 = (-(a + 1)) as u128 + 1;
        let q: u128 = m / (b as u128);
        proof {
            lemma_fundamental_div_mod(m as int, b as int);
            assert(m as int == -(a as int));
            let (mi, bi, qi) = (m as int, b as int, q as int);
            assert(qi * 2 <= mi) by (nonlinear_arith)
                requires
                    bi >= 2,
                    qi >= 0,
                    mi == bi * qi + mi % bi,
                    mi % bi >= 0,
            ;
        }
        -(q as i128)
    }
}

/// The whole seconds of a duration given in nanoseconds, rounded toward zero.
pub fn whole_seconds(nanos: i128) -> (r: i128)
    ensures
        r == trunc_div(nanos as int, NANOS_PER_SECOND as int),
{
    div_toward_zero(nanos, NANOS_PER_SECOND)
}

/// The average of `count` durations summing to `total`, rounded toward zero;
/// zero, not a fault, when `count` is zero or negative.
pub fn average_duration(total: i128, count: i32) -> (r: i128)
    ensures
        r == average_spec(total as int, count as int),
        count <= 0 ==> r == 0,
{
    if count > 0 {
        div_toward_zero(total, count as i128)
    } else {
        0
    }
}

/// Splits a number of seconds into hours, minutes and seconds by Euclidean
/// division: the hours are rounded down, and minutes and seconds are never
/// negative, so a negative total loses its sign in the minutes and seconds.
pub fn decompose(total: i128) -> (r: (i128, i128, i128))
    ensures
        r.0 == total / 3600,
        r.1 == (total % 3600) / 60,
        r.2 == (total % 3600) % 60,
        r.0 * 3600 + r.1 * 60 + r.2 == total,
        0 <= r.1 < 60,
        0 <= r.2 < 60,
{
    let (hours, rest): (i128, u128) = if total >= 0 {
        let u: u128 = total as u128;
        proof {
            lemma_fundamental_div_mod(u as int, 3600);
        }
        ((u / 3600) as i128, u % 3600)
    } else {
        let u: u128 = (-(total + 1)) as u128;
        let q: u128 = u / 3600;
        let m: u128 = u % 3600;
        proof {
            lemma_fundamental_div_mod(u as int, 3600);
            lemma_fundamental_div_mod_converse(
                total as int,
                3600,
                -(q as int) - 1,
                3599 - m as int,
            );
        }
        (-(q as i128) - 1, 3599 - m)
    };
    proof {
        lemma_fundamental_div_mod(total as int, 3600);
        lemma_fundamental_div_mod(rest as int, 60);
    }
    let minutes: u128 = rest / 60;
    let seconds: u128 = rest % 60;
    (hours, minutes as i128, seconds as i128)
}

/// A duration in nanoseconds as whole hours, minutes and seconds: the
/// seconds are rounded toward zero, then split by Euclidean division.
pub fn hms_of_duration(nanos: i128) -> (r: (i128, i128, i128))
    ensures
        r.0 * 3600 + r.1 * 60 + r.2 == trunc_div(nanos as int, NANOS_PER_SECOND as int),
        r.0 == trunc_div(nanos as int, NANOS_PER_SECOND as int) / 3600,
        0 <= r.1 < 60,
        0 <= r.2 < 60,
{
    decompose(whole_seconds(nanos))
}

/// A running total of durations and how many were added.
pub struct Tally {
    pub total: i128,
    pub count: i32,
}

impl Tally {
    /// The total stays within what `count` spans of at most `MAX_SPAN` can sum to.
    pub open spec fn wf(&self) -> bool {
        &&& self.count >= 0
        &&& -(self.count as int) * MAX_SPAN <= self.total <= (self.count as int) * MAX_SPAN
    }

    /// An empty tally.
    pub fn new() -> (r: Tally)
        ensures
            r.wf(),
            r.total == 0,
            r.count == 0,
    {
        Tally { total: 0, count: 0 }
    }

    /// Adds one duration.
    pub fn record(&mut self, span: i128)
        requires
            old(self).wf(),
            old(self).count < i32::MAX,
            -MAX_SPAN <= span <= MAX_SPAN,
        ensures
            final(self).wf(),
            final(self).total == old(self).total + span,
            final(self).count == old(self).count + 1,
    {
        proof {
            let c = self.count as int;
            assert((c + 1) * MAX_SPAN == c * MAX_SPAN + MAX_SPAN) by (nonlinear_arith);
            assert(c * MAX_SPAN < 0x8000_0000 * MAX_SPAN) by (nonlinear_arith)
                requires
                    c < 0x8000_0000,
            ;
        }
        self.total = self.total + span;
        self.count = self.count + 1;
    }

    /// The average of the recorded durations, zero when none was recorded.
    pub fn average(&self) -> (r: i128)
        ensures
            r == average_spec(self.total as int, self.count as int),
    {
        average_duration(self.total, self.count)
    }
}

/// Averaging durations that are all equal to `d` gives back `d` exactly:
/// rounding shows only when the durations differ.
pub proof fn lemma_average_of_identical(s: Seq<int>, d: int)
    requires
        s.len() > 0,
        forall|i: int| 0 <= i < s.len() ==> s[i] == d,
    ensures
        average_spec(total_of(s), s.len() as int) == d,
{
    lemma_total_of_identical(s, d);
    let n = s.len() as int;
    if d >= 0 {
        lemma_fundamental_div_mod_converse(n * d, n, d, 0);
    } else {
        assert(-(n * d) == n * (-d)) by (nonlinear_arith);
        lemma_fundamental_div_mod_converse(n * (-d), n, -d, 0);
        assert(n * d < 0) by (nonlinear_arith)
            requires
                n > 0,
                d < 0,
        ;
    }
}

/// A sequence of equal durations sums to its length times the duration.
proof fn lemma_total_of_identical(s: Seq<int>, d: int)
    requires
        forall|i: int| 0 <= i < s.len() ==> s[i] == d,
    ensures
        total_of(s) == s.len() * d,
    decreases s.len(),
{
    if s.len() > 0 {
        lemma_total_of_identical(s.drop_last(), d);
        assert((s.len() - 1) * d + d == s.len() * d) by (nonlinear_arith);
    }
}

} // verus!
