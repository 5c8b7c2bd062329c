//! Binary64 numbers carried by their bit pattern.
//!
//! A pattern splits into a sign bit, an eleven-bit exponent field and a
//! fifty-two-bit fraction field. Every finite pattern denotes a whole multiple
//! of `2^-1074`; [`Scalar::units`] is that multiple, so the denoted value is
//! `units / 2^1074` and comparisons between values are comparisons between
//! integers.

use vstd::prelude::*;
use vstd::arithmetic::power2::{
    lemma2_to64, lemma2_to64_rest, lemma_pow2_adds, lemma_pow2_pos, lemma_pow2_strictly_increases,
    pow2,
};

verus! {

/// The pattern of the sign bit, `2^63`.
pub const SIGN_BIT: u64 = 0x8000_0000_0000_0000;

/// The number of patterns that share one exponent field, `2^52`.
pub const FRACTION_SPAN: u64 = 0x0010_0000_0000_0000;

/// The magnitude pattern of infinity: every exponent bit set, no fraction bit.
pub const INFINITY_BITS: u64 = 0x7ff0_0000_0000_0000;

/// The pattern of `1.0`.
pub const ONE_BITS: u64 = 0x3ff0_0000_0000_0000;

/// The multiple of `2^-1074` that a magnitude pattern denotes.
///
/// With exponent field `e` and fraction field `f` this is `f` for `e == 0`
/// (subnormal) and `(2^52 + f) * 2^(e - 1)` otherwise.
pub open spec fn magnitude_units(m: int) -> int {
    let e = m / (FRACTION_SPAN as int);
    let f = m % (FRACTION_SPAN as int);
    if e <= 0 {
        f
    } else {
        (FRACTION_SPAN + f) * pow2((e - 1) as nat)
    }
}

/// The number of units in `1.0`, `2^1074`.
pub open spec fn unit_one() -> int {
    pow2(1074) as int
}

/// Larger magnitude patterns denote larger magnitudes.
pub proof fn lemma_magnitude_units_increase(m1: int, m2: int)
    requires
        0 <= m1 < m2,
    ensures
        0 <= magnitude_units(m1) < magnitude_units(m2),
{
    let s = FRACTION_SPAN as int;
    let e1 = m1 / s;
    let f1 = m1 % s;
    let e2 = m2 / s;
    let f2 = m2 % s;
    assert(m1 == e1 * s + f1 && 0 <= f1 < s && 0 <= e1);
    assert(m2 == e2 * s + f2 && 0 <= f2 < s && 0 <= e2);
    assert(e1 <= e2);
    if e1 == e2 {
        assert(f1 < f2);
        if e1 > 0 {
            let p = pow2((e1 - 1) as nat) as int;
            lemma_pow2_pos((e1 - 1) as nat);
            assert((s + f1) * p < (s + f2) * p) by (nonlinear_arith)
                requires
                    f1 < f2,
                    p > 0,
            ;
            assert(0 <= (s + f1) * p) by (nonlinear_arith)
                requires
                    0 <= s + f1,
                    p > 0,
            ;
        }
    } else {
        let above = pow2((e2 - 1) as nat) as int;
        lemma_pow2_pos((e2 - 1) as nat);
        assert(s * above <= (s + f2) * above) by (nonlinear_arith)
            requires
                0 <= f2,
                above > 0,
        ;
        assert(s <= s * above) by (nonlinear_arith)
            requires
                s > 0,
                above >= 1,
        ;
        if e1 > 0 {
            let below = pow2((e1 - 1) as nat) as int;
            lemma_pow2_pos((e1 - 1) as nat);
            if e1 < e2 - 1 {
                lemma_pow2_strictly_increases(e1 as nat, (e2 - 1) as nat);
            }
            lemma_pow2_adds(1, (e1 - 1) as nat);
            lemma2_to64();
            assert(pow2(e1 as nat) == 2 * below);
            assert(2 * below <= above);
            assert((s + f1) * below < s * above) by (nonlinear_arith)
                requires
                    0 <= f1 < s,
                    below > 0,
                    2 * below <= above,
            ;
            assert(0 <= (s + f1) * below) by (nonlinear_arith)
                requires
                    0 <= s + f1,
                    below > 0,
            ;
        }
    }
}

/// The magnitude pattern of `1.0` denotes `2^1074` units.
pub proof fn lemma_one_units()
    ensures
        magnitude_units(ONE_BITS as int) == unit_one(),
{
    let s = FRACTION_SPAN as int;
    assert((ONE_BITS as int) / s == 1023);
    assert((ONE_BITS as int) % s == 0);
    lemma2_to64_rest();
    lemma_pow2_adds(52, 1022);
}

/// The zero magnitude pattern, and no other, denotes no units.
pub proof fn lemma_zero_units(m: int)
    requires
        0 <= m,
    ensures
        magnitude_units(m) == 0 <==> m == 0,
{
    if m > 0 {
        lemma_magnitude_units_increase(0, m);
    }
}

/// A binary64 number, held by its bit pattern.
#[derive(Clone, Copy, Debug)]
pub struct Scalar {
    pub bits: u64,
}

impl Scalar {
    /// Whether the sign bit is set.
    pub open spec fn sign_negative(self) -> bool {
        self.bits >= SIGN_BIT
    }

    /// The pattern with the sign bit cleared.
    pub open spec fn magnitude(self) -> int {
        if self.bits >= SIGN_BIT {
            self.bits - SIGN_BIT
        } else {
            self.bits as int
        }
    }

    /// Neither an infinity nor a NaN.
    pub open spec fn finite(self) -> bool {
        self.magnitude() < INFINITY_BITS
    }

    /// Not a number: every exponent bit set and some fraction bit set.
    pub open spec fn nan(self) -> bool {
        self.magnitude() > INFINITY_BITS
    }

    /// The signed multiple of `2^-1074` that the pattern denotes.
    ///
    /// For a finite pattern the denoted value is `units() / 2^1074`. The
    /// infinities get the units that their pattern would denote with one more
    /// exponent, which keeps them beyond every finite value.
    pub open spec fn units(self) -> int {
        if self.sign_negative() {
            -magnitude_units(self.magnitude())
        } else {
            magnitude_units(self.magnitude())
        }
    }

    /// The distance, in units, from one pattern to the next around this one.
    pub open spec fn spacing(self) -> int {
        let e = self.magnitude() / (FRACTION_SPAN as int);
        if e <= 1 {
            1
        } else {
            pow2((e - 1) as nat) as int
        }
    }

    /// Finite and within half a spacing of the fraction `num / den`.
    pub open spec fn approximates(self, num: int, den: int) -> bool {
        let off = self.units() * den - num * unit_one();
        self.finite() && den > 0 && -(den * self.spacing()) <= 2 * off <= den * self.spacing()
    }

    /// Finite and denoting the whole number `n`.
    pub open spec fn is_whole(self, n: int) -> bool {
        self.finite() && self.units() == n * unit_one()
    }

    /// The two patterns denote one number: neither is a NaN and their units
    /// agree, so the two zeros are the same number.
    pub open spec fn same_number(self, other: Scalar) -> bool {
        !self.nan() && !other.nan() && self.units() == other.units()
    }

    /// The number with the given pattern.
    pub fn from_bits(bits: u64) -> (r: Scalar)
        ensures
            r.bits == bits,
    {
        Scalar { bits }
    }

    /// The pattern of the number.
    pub fn to_bits(&self) -> (r: u64)
        ensures
            r == self.bits,
    {
        self.bits
    }

    fn magnitude_bits(&self) -> (m: u64)
        ensures
            m == self.magnitude(),
    {
        if self.bits >= SIGN_BIT {
            self.bits - SIGN_BIT
        } else {
            self.bits
        }
    }

    /// Whether the number is a NaN.
    pub fn is_nan(&self) -> (r: bool)
        ensures
            r == self.nan(),
    {
        self.magnitude_bits() > INFINITY_BITS
    }

    /// Whether the number is neither infinite nor a NaN.
    pub fn is_finite(&self) -> (r: bool)
        ensures
            r == self.finite(),
    {
        self.magnitude_bits() < INFINITY_BITS
    }

    /// Whether the number is zero, of either sign.
    pub fn is_zero(&self) -> (r: bool)
        ensures
            r == (self.finite() && self.units() == 0),
    {
        proof {
            lemma_zero_units(self.magnitude());
        }
        self.magnitude_bits() == 0
    }

    /// Whether the number is finite and above zero.
    pub fn is_positive(&self) -> (r: bool)
        ensures
            r == (self.finite() && self.units() > 0),
    {
        proof {
            lemma_zero_units(self.magnitude());
            if self.magnitude() > 0 {
                lemma_magnitude_units_increase(0, self.magnitude());
            }
        }
        0 < self.bits && self.bits < INFINITY_BITS
    }

    /// Whether the number is finite and below zero.
    pub fn is_negative(&self) -> (r: bool)
        ensures
            r == (self.finite() && self.units() < 0),
    {
        proof {
            lemma_zero_units(self.magnitude());
            if self.magnitude() > 0 {
                lemma_magnitude_units_increase(0, self.magnitude());
            }
        }
        self.bits > SIGN_BIT && self.magnitude_bits() < INFINITY_BITS
    }

    /// Whether the number lies strictly between `-1` and `1`.
    pub fn is_within_one(&self) -> (r: bool)
        ensures
            r == (self.finite() && -unit_one() < self.units() < unit_one()),
    {
        let m: u64 = self.magnitude_bits();
        proof {
            lemma_one_units();
            lemma_zero_units(self.magnitude());
            if m < ONE_BITS {
                lemma_magnitude_units_increase(m as int, ONE_BITS as int);
            } else if m > ONE_BITS {
                lemma_magnitude_units_increase(ONE_BITS as int, m as int);
            }
            if m > 0 {
                lemma_magnitude_units_increase(0, m as int);
            }
        }
        m < ONE_BITS
    }

    /// Whether the number is finite and lies strictly below `-1` or above `1`.
    pub fn is_beyond_one(&self) -> (r: bool)
        ensures
            r == (self.finite() && (self.units() < -unit_one() || unit_one() < self.units())),
    {
        let m: u64 = self.magnitude_bits();
        proof {
            lemma_one_units();
            if m < ONE_BITS {
                lemma_magnitude_units_increase(m as int, ONE_BITS as int);
            } else if m > ONE_BITS {
                lemma_magnitude_units_increase(ONE_BITS as int, m as int);
            }
        }
        ONE_BITS < m && m < INFINITY_BITS
    }
}

/// Two patterns that denote the same units are one pattern, or the two zeros.
pub proof fn lemma_units_determine_pattern(a: Scalar, b: Scalar)
    requires
        a.units() == b.units(),
    ensures
        a.bits == b.bits || (a.magnitude() == 0 && b.magnitude() == 0),
{
    let ma = a.magnitude();
    let mb = b.magnitude();
    lemma_zero_units(ma);
    lemma_zero_units(mb);
    if ma < mb {
        lemma_magnitude_units_increase(ma, mb);
    } else if mb < ma {
        lemma_magnitude_units_increase(mb, ma);
    }
    if ma > 0 {
        lemma_magnitude_units_increase(0, ma);
    }
    if mb > 0 {
        lemma_magnitude_units_increase(0, mb);
    }
}

impl PartialEq for Scalar {
    /// Numeric equality: a NaN equals nothing, and the two zeros are equal.
    fn eq(&self, other: &Scalar) -> (r: bool) {
        proof {
            if self.units() == other.units() {
                lemma_units_determine_pattern(*self, *other);
            }
        }
        !self.is_nan() && !other.is_nan() && (self.bits == other.bits || (self.magnitude_bits() == 0
            && other.magnitude_bits() == 0))
    }
}

impl vstd::std_specs::cmp::PartialEqSpecImpl for Scalar {
    open spec fn obeys_eq_spec() -> bool {
        true
    }

    open spec fn eq_spec(&self, other: &Scalar) -> bool {
        self.same_number(*other)
    }
}

} // verus!
