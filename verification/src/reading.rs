//! Measured quantities. A quantity is an IEEE 754 double, held as its bit pattern: what is
//! needed of it here is how it compares with others.

use vstd::arithmetic::power2::pow2;
use vstd::prelude::*;

verus! {

/// A double by its bit pattern.
#[derive(Debug, Clone, Copy, PartialEq, Eq, Structural)]
pub struct Reading {
    pub bits: u64,
}

/// The sign bit of a pattern.
pub const SIGN_BIT: u64 = 0x8000_0000_0000_0000;

/// The pattern of positive infinity; the patterns above it, signs aside, are not numbers.
pub const INFINITY_BITS: u64 = 0x7ff0_0000_0000_0000;

/// The weight of the lowest exponent bit in a pattern.
pub const FRACTION_RANGE: u64 = 0x10_0000_0000_0000;

/// The number that a pattern without its sign bit denotes, counted in the smallest steps that a
/// double can express, of which `pow2(1074)` make one. Infinity counts as the next number
/// behind the largest finite one.
pub open spec fn steps(magnitude: nat) -> nat {
    let exponent = magnitude / FRACTION_RANGE as nat;
    let fraction = magnitude % FRACTION_RANGE as nat;
    if exponent == 0 {
        fraction
    } else {
        (FRACTION_RANGE as nat + fraction) * pow2((exponent - 1) as nat)
    }
}

/// The number of smallest steps in the whole number `n`.
pub open spec fn whole(n: nat) -> nat {
    n * pow2(1074)
}

impl Reading {
    /// The pattern without its sign bit.
    pub open spec fn magnitude(self) -> nat {
        if self.bits >= SIGN_BIT {
            (self.bits - SIGN_BIT) as nat
        } else {
            self.bits as nat
        }
    }

    /// Whether this is not a number.
    pub open spec fn is_nan(self) -> bool {
        self.magnitude() > INFINITY_BITS
    }

    /// The number, counted in smallest steps.
    pub open spec fn value(self) -> int {
        if self.bits >= SIGN_BIT {
            -(steps(self.magnitude()) as int)
        } else {
            steps(self.magnitude()) as int
        }
    }

    /// Whether this is a number that is at least the number `other`.
    pub open spec fn at_least(self, other: Reading) -> bool {
        !self.is_nan() && !other.is_nan() && self.value() >= other.value()
    }
}

/// Larger patterns denote larger numbers.
pub proof fn lemma_steps_increase(a: nat, b: nat)
    requires
        a < b,
    ensures
        steps(a) < steps(b),
{
    let range = FRACTION_RANGE as nat;
    let ea = a / range;
    let eb = b / range;
    let fa = a % range;
    let fb = b % range;
    assert(ea <= eb);
    if ea == eb {
        assert(fa < fb);
        if ea > 0 {
            let p = pow2((ea - 1) as nat);
            vstd::arithmetic::power2::lemma_pow2_pos((ea - 1) as nat);
            assert((range + fa) * p < (range + fb) * p) by (nonlinear_arith)
                requires
                    fa < fb,
                    p > 0,
            ;
        }
    } else {
        let q = pow2((eb - 1) as nat);
        vstd::arithmetic::power2::lemma_pow2_pos((eb - 1) as nat);
        assert(range * q <= (range + fb) * q) by (nonlinear_arith)
            requires
                q > 0,
                fb >= 0,
        ;
        if ea == 0 {
            assert(range <= range * q) by (nonlinear_arith)
                requires
                    q > 0,
            ;
        } else {
            let p = pow2((ea - 1) as nat);
            vstd::arithmetic::power2::lemma_pow2_pos((ea - 1) as nat);
            vstd::arithmetic::power2::lemma_pow2_unfold(ea);
            assert(pow2(ea) == 2 * p);
            assert((range + fa) * p < range * (2 * p)) by (nonlinear_arith)
                requires
                    fa < range,
                    p > 0,
            ;
            if ea < eb - 1 {
                vstd::arithmetic::power2::lemma_pow2_strictly_increases(ea, (eb - 1) as nat);
            }
            assert(pow2(ea) <= q);
            assert(range * pow2(ea) <= range * q) by (nonlinear_arith)
                requires
                    pow2(ea) <= q,
            ;
        }
    }
}

/// Only the zero pattern denotes zero.
proof fn lemma_zero_steps(m: nat)
    ensures
        steps(0) == 0,
        (steps(m) == 0) == (m == 0),
{
    if m > 0 {
        lemma_steps_increase(0, m);
    }
}

/// On numbers that are not negative the patterns are ordered as the numbers are.
pub proof fn law_patterns_order_measures(a: Reading, b: Reading)
    requires
        a.bits <= INFINITY_BITS,
        b.bits <= INFINITY_BITS,
    ensures
        a.bits <= b.bits <==> a.value() <= b.value(),
        a.bits == b.bits <==> a.value() == b.value(),
        !a.is_nan(),
        !b.is_nan(),
{
    if a.bits < b.bits {
        lemma_steps_increase(a.bits as nat, b.bits as nat);
    } else if b.bits < a.bits {
        lemma_steps_increase(b.bits as nat, a.bits as nat);
    }
}

impl Reading {
    /// Whether this is not a number.
    pub fn nan(&self) -> (r: bool)
        ensures
            r == self.is_nan(),
    {
        if self.bits >= SIGN_BIT {
            self.bits - SIGN_BIT > INFINITY_BITS
        } else {
            self.bits > INFINITY_BITS
        }
    }

    /// Whether this is a number that is at least the number `other`.
    pub fn ge(&self, other: &Reading) -> (r: bool)
        ensures
            r == self.at_least(*other),
    {
        if self.nan() || other.nan() {
            return false;
        }
        proof {
            lemma_zero_steps(self.magnitude());
            lemma_zero_steps(other.magnitude());
            if self.magnitude() < other.magnitude() {
                lemma_steps_increase(self.magnitude(), other.magnitude());
            } else if other.magnitude() < self.magnitude() {
                lemma_steps_increase(other.magnitude(), self.magnitude());
            }
        }
        if self.bits >= SIGN_BIT {
            if other.bits >= SIGN_BIT {
                self.bits <= other.bits
            } else {
                self.bits == SIGN_BIT && other.bits == 0
            }
        } else {
            if other.bits >= SIGN_BIT {
                true
            } else {
                self.bits >= other.bits
            }
        }
    }
}

/// What a pattern denotes: without an exponent its fraction in smallest steps, with the lowest
/// exponent as much more as the fraction's range, with each further exponent twice as much, and
/// with the sign bit the opposite.
pub proof fn law_patterns_denote_doubles(fraction: u64, exponent: u64)
    requires
        fraction < FRACTION_RANGE,
        exponent < 0x7ff,
    ensures
        (Reading { bits: fraction }).value() == fraction,
        (Reading { bits: (FRACTION_RANGE + fraction) as u64 }).value() == FRACTION_RANGE + fraction,
        ({
            let bits = exponent * FRACTION_RANGE + fraction;
            &&& 1 <= exponent < 0x7fe ==> (Reading { bits: (bits + FRACTION_RANGE) as u64 }).value()
                == 2 * (Reading { bits: bits as u64 }).value()
            &&& (Reading { bits: (bits + SIGN_BIT) as u64 }).value() == -(Reading {
                bits: bits as u64,
            }).value()
            &&& !(Reading { bits: bits as u64 }).is_nan()
        }),
{
    let range = FRACTION_RANGE as int;
    let bits = exponent * FRACTION_RANGE + fraction;
    assert(0 <= exponent * range <= 0x7fe * range) by (nonlinear_arith)
        requires
            0 <= exponent <= 0x7fe,
            range > 0,
    ;
    vstd::arithmetic::div_mod::lemma_fundamental_div_mod_converse(
        bits,
        range,
        exponent as int,
        fraction as int,
    );
    vstd::arithmetic::div_mod::lemma_fundamental_div_mod_converse(
        fraction as int,
        range,
        0,
        fraction as int,
    );
    vstd::arithmetic::div_mod::lemma_fundamental_div_mod_converse(
        range + fraction,
        range,
        1,
        fraction as int,
    );
    vstd::arithmetic::power2::lemma2_to64();
    assert((range + fraction) * pow2(0) == range + fraction) by (nonlinear_arith)
        requires
            pow2(0) == 1,
    ;
    assert(steps((range + fraction) as nat) == range + fraction);
    if 1 <= exponent < 0x7fe {
        assert((exponent + 1) * range == exponent * range + range) by (nonlinear_arith);
        vstd::arithmetic::div_mod::lemma_fundamental_div_mod_converse(
            bits + range,
            range,
            exponent + 1,
            fraction as int,
        );
        let p = pow2((exponent - 1) as nat);
        vstd::arithmetic::power2::lemma_pow2_unfold(exponent as nat);
        assert((range + fraction) * (2 * p) == 2 * ((range + fraction) * p)) by (nonlinear_arith);
    }
}

/// Numbers compare as their values do, and what is no number compares with nothing.
pub proof fn law_comparison_is_by_value(a: Reading, b: Reading)
    ensures
        a.is_nan() || b.is_nan() ==> !a.at_least(b) && !b.at_least(a),
        !a.is_nan() && !b.is_nan() ==> (a.at_least(b) <==> a.value() >= b.value()),
        a.bits > INFINITY_BITS && a.bits < SIGN_BIT ==> a.is_nan(),
        a.bits > SIGN_BIT + INFINITY_BITS ==> a.is_nan(),
        a.is_nan() ==> a.bits > INFINITY_BITS,
{
}

} // verus!
