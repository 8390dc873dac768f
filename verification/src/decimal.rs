use vstd::arithmetic::div_mod::{
    lemma_div_is_ordered, lemma_div_multiples_vanish, lemma_fundamental_div_mod,
    lemma_hoist_over_denominator,
};
use vstd::prelude::*;

verus! {

/// Number of atomic units in one whole: a fraction carries eighteen
/// decimal places.
pub const DECIMAL_FRACTIONAL: u128 = 1_000_000_000_000_000_000;

/// A fixed-point fraction in `[0, 1]` with eighteen decimal places,
/// used for the fee percentage of transfers.
#[derive(Clone, Copy, Debug, PartialEq, Eq, Structural)]
pub struct Decimal {
    pub atomics: u128,
}

impl Decimal {
    /// The fraction denotes a value no greater than one, so that a fee
    /// never exceeds the amount it is taken from.
    pub open spec fn wf(self) -> bool {
        self.atomics <= DECIMAL_FRACTIONAL
    }

    /// `floor(a * p)` in exact integer arithmetic: the rounding rule of
    /// the fee computation, toward zero.
    pub open spec fn spec_mul_floor(self, a: u128) -> int {
        (a as int * self.atomics as int) / (DECIMAL_FRACTIONAL as int)
    }

    /// The fraction `p / 100`.
    pub fn percent(p: u64) -> (r: Decimal)
        requires
            p <= 100,
        ensures
            r.atomics == p as int * 10_000_000_000_000_000,
            r.wf(),
    {
        Decimal { atomics: (p as u128) * 10_000_000_000_000_000 }
    }

    /// `floor(a * p)`, computed without leaving 128 bits.
    ///
    /// The product is split at the fractional width: with `a = q*F + r`,
    /// `floor(a*p) == q*t + floor(r*t / F)` where `t` is the atomics of
    /// `p` and `F` the fractional unit.
    pub fn mul_floor(self, a: u128) -> (r: u128)
        requires
            self.wf(),
        ensures
            r == self.spec_mul_floor(a),
            r <= a,
    {
        let f: u128 = DECIMAL_FRACTIONAL;
        let q: u128 = a / f;
        let rem: u128 = a % f;
        proof {
            lemma_fundamental_div_mod(a as int, f as int);
            assert((q as int) * (self.atomics as int) <= a as int
                && (rem as int) * (self.atomics as int) < (f as int) * (f as int))
                by (nonlinear_arith)
                requires
                    a as int == (f as int) * (q as int) + rem as int,
                    0 <= rem < f,
                    0 <= self.atomics <= f,
                    0 <= q,
            ;
        }
        let hi: u128 = q * self.atomics;
        let lo: u128 = (rem * self.atomics) / f;
        proof {
            let fi = f as int;
            let t = self.atomics as int;
            let qi = q as int;
            let ri = rem as int;
            let ai = a as int;
            // (r*t + q*t*F) / F == q*t + floor(r*t / F), and a*t is that numerator.
            lemma_hoist_over_denominator(ri * t, qi * t, f as nat);
            assert(ai * t == ri * t + (qi * t) * fi) by (nonlinear_arith)
                requires
                    ai == fi * qi + ri,
            ;
            // floor(a*t / F) <= a, since t <= F.
            assert(ai * t <= ai * fi) by (nonlinear_arith)
                requires
                    0 <= ai,
                    t <= fi,
            ;
            lemma_div_is_ordered(ai * t, ai * fi, fi);
            assert((ai * fi) / fi == ai) by {
                lemma_div_multiples_vanish(ai, fi);
                assert(fi * ai == ai * fi) by (nonlinear_arith);
            }
        }
        hi + lo
    }
}

} // verus!
