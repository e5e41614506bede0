//! Points in time: an integer tick count against a time base.
use vstd::prelude::*;

use crate::rational::TimeBase;
use vstd::arithmetic::div_mod::{
    lemma_div_multiples_vanish, lemma_fundamental_div_mod, lemma_mod_multiples_basic,
};
use vstd::arithmetic::mul::{
    lemma_mul_is_commutative, lemma_mul_nonzero, lemma_mul_unary_negation, lemma_mul_upper_bound,
};

verus! {

/// The absolute value of `a`.
pub open spec fn magnitude(a: int) -> int {
    if a < 0 {
        -a
    } else {
        a
    }
}

/// `a / b` rounded toward zero, as Rust's `/` on signed integers.
pub open spec fn div_trunc(a: int, b: int) -> int {
    if (a < 0) == (b < 0) {
        magnitude(a) / magnitude(b)
    } else {
        -(magnitude(a) / magnitude(b))
    }
}

/// Whole seconds in `pts` ticks of `tb`: `pts × num ÷ den`, truncated.
pub open spec fn seconds_in(tb: TimeBase, pts: int) -> int {
    div_trunc(pts * tb.num(), tb.den())
}

/// Ticks of `tb` in `seconds` whole seconds: `seconds × den ÷ num`, truncated.
/// This is the inverse of `seconds_in` wherever the division is exact.
pub open spec fn ticks_in(tb: TimeBase, seconds: int) -> int {
    div_trunc(seconds * tb.den(), tb.num())
}

/// A product of two `i64` values lies well inside `i128`.
proof fn lemma_wide_product(x: int, y: int)
    requires
        i64::MIN <= x <= i64::MAX,
        i64::MIN <= y <= i64::MAX,
    ensures
        -0x4000_0000_0000_0000_0000_0000_0000_0000 <= x * y <= 0x4000_0000_0000_0000_0000_0000_0000_0000,
{
    let b: int = 0x8000_0000_0000_0000;
    lemma_mul_upper_bound(magnitude(x), b, magnitude(y), b);
    lemma_mul_unary_negation(x, y);
    lemma_mul_unary_negation(-x, y);
    lemma_mul_unary_negation(x, -y);
    assert(magnitude(x) * magnitude(y) == magnitude(x * y));
}

/// Where `b` divides `a`, rounding toward zero and rounding down agree.
proof fn lemma_div_trunc_exact(a: int, b: int)
    requires
        b != 0,
        a % b == 0,
    ensures
        div_trunc(a, b) == a / b,
{
    let q = a / b;
    lemma_fundamental_div_mod(a, b);
    assert(a == b * q);
    lemma_mul_unary_negation(b, q);
    lemma_mul_unary_negation(-b, q);
    lemma_mul_unary_negation(b, -q);
    lemma_mul_nonzero(b, q);
    assert(magnitude(a) == magnitude(b) * magnitude(q));
    lemma_div_multiples_vanish(magnitude(q), magnitude(b));
    assert(magnitude(a) / magnitude(b) == magnitude(q));
    if a != 0 {
        if (a < 0) == (b < 0) {
            assert(q > 0) by {
                if q < 0 {
                    if b > 0 {
                        assert(b * q < 0) by (nonlinear_arith)
                            requires b > 0, q < 0;
                    } else {
                        assert(b * q > 0) by (nonlinear_arith)
                            requires b < 0, q < 0;
                    }
                }
            }
        } else {
            assert(q < 0) by {
                if q > 0 {
                    if b > 0 {
                        assert(b * q > 0) by (nonlinear_arith)
                            requires b > 0, q > 0;
                    } else {
                        assert(b * q < 0) by (nonlinear_arith)
                            requires b < 0, q > 0;
                    }
                }
            }
        }
    }
}

fn div_trunc_i128(a: i128, b: i128) -> (q: i128)
    requires
        b != 0,
        a != i128::MIN,
        b != i128::MIN,
    ensures
        q == div_trunc(a as int, b as int),
{
    let ua: i128 = if a < 0 {
        -a
    } else {
        a
    };
    let ub: i128 = if b < 0 {
        -b
    } else {
        b
    };
    let q: i128 = ua / ub;
    proof {
        assert(0 <= q <= ua) by (nonlinear_arith)
            requires
                q == ua / ub,
                ua >= 0,
                ub >= 1,
        ;
    }
    if (a < 0) == (b < 0) {
        q
    } else {
        -q
    }
}

/// A point in time: `pts` ticks of `time_base`.
#[derive(Clone, Copy, Debug, PartialEq, Eq, Structural)]
pub struct Timestamp {
    pub(crate) time_base: TimeBase,
    pub(crate) pts: i64,
}

impl Timestamp {
    /// The time base that the ticks count in.
    pub open(crate) spec fn base(self) -> TimeBase {
        self.time_base
    }

    /// The tick count.
    pub open(crate) spec fn ticks(self) -> int {
        self.pts as int
    }

    /// The timestamp of `pts` ticks of `time_base`.
    pub open(crate) spec fn at(time_base: TimeBase, pts: i64) -> Timestamp {
        Timestamp { time_base, pts }
    }

    /// Zero ticks of `time_base`.
    pub fn new(time_base: TimeBase) -> (r: Timestamp)
        ensures
            r == Timestamp::at(time_base, 0),
    {
        Timestamp { time_base, pts: 0 }
    }

    /// The first tick of `time_base` at `seconds` whole seconds, counted as
    /// `seconds × den ÷ num`, truncated toward zero.
    pub fn from_seconds(time_base: TimeBase, seconds: i64) -> (r: Timestamp)
        requires
            time_base.num() != 0,
            i64::MIN <= ticks_in(time_base, seconds as int) <= i64::MAX,
        ensures
            r.base() == time_base,
            r.ticks() == ticks_in(time_base, seconds as int),
    {
        let pts = ticks_of_seconds(time_base, seconds);
        Timestamp { time_base, pts }
    }

    /// `pts` ticks of `time_base`, kept exactly.
    pub fn from_pts(time_base: TimeBase, pts: i64) -> (r: Timestamp)
        ensures
            r == Timestamp::at(time_base, pts),
    {
        Timestamp { time_base, pts }
    }

    /// Whole seconds: `pts × num ÷ den`, truncated toward zero.
    pub fn seconds(&self) -> (r: i64)
        requires
            i64::MIN <= seconds_in(self.base(), self.ticks()) <= i64::MAX,
        ensures
            r == seconds_in(self.base(), self.ticks()),
    {
        let tb = self.time_base;
        let num: i64 = tb.numer();
        let den: i64 = tb.denom();
        proof {
            lemma_wide_product(self.pts as int, num as int);
        }
        let prod: i128 = (self.pts as i128) * (num as i128);
        div_trunc_i128(prod, den as i128) as i64
    }

    /// Moves to the first tick at `seconds` whole seconds, as `from_seconds`
    /// counts it; the time base stays.
    pub fn set_seconds(&mut self, seconds: i64)
        requires
            old(self).base().num() != 0,
            i64::MIN <= ticks_in(old(self).base(), seconds as int) <= i64::MAX,
        ensures
            final(self).base() == old(self).base(),
            final(self).ticks() == ticks_in(old(self).base(), seconds as int),
    {
        self.pts = ticks_of_seconds(self.time_base, seconds);
    }

    pub fn pts(&self) -> (r: i64)
        ensures
            r == self.ticks(),
    {
        self.pts
    }

    pub fn set_pts(&mut self, pts: i64)
        ensures
            *final(self) == Timestamp::at(old(self).base(), pts),
    {
        self.pts = pts;
    }

    pub fn time_base(&self) -> (r: TimeBase)
        ensures
            r == self.base(),
    {
        self.time_base
    }
}

/// A timestamp made from a tick count reads back that tick count, in every
/// time base.
pub proof fn law_pts_round_trip(time_base: TimeBase, pts: i64)
    ensures
        Timestamp::at(time_base, pts).ticks() == pts,
        Timestamp::at(time_base, pts).base() == time_base,
{
}

/// Whole seconds turned into ticks and back come out unchanged wherever
/// `seconds × den` is a multiple of `num`, so that no tick is cut off; in
/// particular always when `num` is one.
pub proof fn law_seconds_round_trip(time_base: TimeBase, seconds: int)
    requires
        time_base.valid(),
        time_base.num() != 0,
        (seconds * time_base.den()) % time_base.num() == 0,
    ensures
        seconds_in(time_base, ticks_in(time_base, seconds)) == seconds,
{
    let num = time_base.num();
    let den = time_base.den();
    let a = seconds * den;
    lemma_div_trunc_exact(a, num);
    lemma_fundamental_div_mod(a, num);
    let t = ticks_in(time_base, seconds);
    assert(t * num == a) by {
        lemma_mul_is_commutative(t, num);
    }
    lemma_mod_multiples_basic(seconds, den);
    lemma_div_trunc_exact(a, den);
    lemma_mul_is_commutative(seconds, den);
    lemma_div_multiples_vanish(seconds, den);
}

/// `seconds × den ÷ num` of `tb`, truncated toward zero.
pub fn ticks_of_seconds(tb: TimeBase, seconds: i64) -> (r: i64)
    requires
        tb.num() != 0,
        i64::MIN <= ticks_in(tb, seconds as int) <= i64::MAX,
    ensures
        r == ticks_in(tb, seconds as int),
{
    let num: i64 = tb.numer();
    let den: i64 = tb.denom();
    proof {
        lemma_wide_product(seconds as int, den as int);
    }
    let prod: i128 = (seconds as i128) * (den as i128);
    div_trunc_i128(prod, num as i128) as i64
}

} // verus!
