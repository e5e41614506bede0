//! Time bases: the duration of one tick as a fraction in lowest terms.
use vstd::prelude::*;

verus! {

/// No integer above one divides both `p` and `q`.
pub open spec fn coprime(p: int, q: int) -> bool {
    forall|k: int| #![trigger p % k] #![trigger q % k] 1 < k ==> p % k != 0 || q % k != 0
}

/// `p / q` is the fraction `n / d` written in lowest terms with a positive denominator.
pub open spec fn is_lowest_terms(p: int, q: int, n: int, d: int) -> bool {
    &&& q > 0
    &&& p * d == n * q
    &&& coprime(p, q)
}

/// Relies on num's `Rational64::new`, which divides both parts by their gcd
/// and moves the sign to the numerator. It panics on a zero denominator, and
/// its negation can overflow when a part is `i64::MIN`.
#[verifier::external_body]
fn lowest_terms(numer: i64, denom: i64) -> (r: (i64, i64))
    requires
        denom != 0,
        numer != i64::MIN,
        denom != i64::MIN,
    ensures
        is_lowest_terms(r.0 as int, r.1 as int, numer as int, denom as int),
{
    let r = num::rational::Rational64::new(numer, denom);
    (*r.numer(), *r.denom())
}

/// The length of one tick, in seconds, as a reduced fraction.
#[derive(Clone, Copy, Debug, PartialEq, Eq, Structural)]
pub struct TimeBase {
    pub(crate) num: i64,
    pub(crate) den: i64,
}

impl TimeBase {
    #[verifier::type_invariant]
    pub(crate) open spec fn inv(self) -> bool {
        self.valid()
    }

    /// A positive denominator, in lowest terms: what every time base satisfies.
    pub open(crate) spec fn valid(self) -> bool {
        &&& self.den > 0
        &&& coprime(self.num as int, self.den as int)
    }

    /// The numerator of the fraction.
    pub open(crate) spec fn num(self) -> int {
        self.num as int
    }

    /// The denominator of the fraction.
    pub open(crate) spec fn den(self) -> int {
        self.den as int
    }

    /// The time base `numer / denom`, reduced.
    pub fn new(numer: i64, denom: i64) -> (r: TimeBase)
        requires
            denom != 0,
            numer != i64::MIN,
            denom != i64::MIN,
        ensures
            is_lowest_terms(r.num(), r.den(), numer as int, denom as int),
    {
        let (n, d) = lowest_terms(numer, denom);
        TimeBase { num: n, den: d }
    }

    pub fn numer(&self) -> (r: i64)
        ensures
            r == self.num(),
    {
        self.num
    }

    pub fn denom(&self) -> (r: i64)
        ensures
            r == self.den(),
            r > 0,
    {
        proof {
            use_type_invariant(self);
        }
        self.den
    }
}

} // verus!
