//! Single-precision numbers held by their IEEE-754 bit pattern.

use vstd::arithmetic::power2::{lemma_pow2_pos, lemma_pow2_strictly_increases, lemma_pow2_unfold, pow2};
use vstd::prelude::*;

verus! {

/// The bit that carries the sign.
pub const SIGN_BIT: u32 = 0x8000_0000;

/// The magnitude bits of an infinity: all exponent bits set, no fraction bit.
pub const INFINITY_BITS: u32 = 0x7f80_0000;

/// The weight of the lowest exponent bit: 2 to the 23, the number of
/// encodings that share one exponent.
pub const EXPONENT_UNIT: u32 = 0x0080_0000;

/// The absolute value that a magnitude below [`INFINITY_BITS`] encodes,
/// counted in units of 2 to the -149, the smallest positive number.
///
/// With exponent field `e` and fraction `f`, the value is `f` units where
/// `e` is 0 (no hidden bit), and `(2^23 + f) * 2^(e - 1)` units otherwise.
pub open spec fn units_of(magnitude: int) -> int {
    let e = magnitude / (EXPONENT_UNIT as int);
    let f = magnitude % (EXPONENT_UNIT as int);
    if e == 0 {
        f
    } else {
        (EXPONENT_UNIT + f) * pow2((e - 1) as nat)
    }
}

/// A single-precision number, stored as the 32 bits of its binary32
/// encoding: one sign bit, eight exponent bits, 23 fraction bits.
///
/// `==` on this type compares bit patterns, which is finer than numeric
/// equality (the two zeros differ, a NaN equals itself). Numeric order is
/// given by [`Scalar::spec_lt`] and [`Scalar::spec_gt`].
#[derive(Clone, Copy, Debug, PartialEq, Eq, Structural)]
pub struct Scalar {
    pub bits: u32,
}

impl Scalar {
    /// The sign bit is set.
    pub open spec fn sign_spec(self) -> bool {
        self.bits >= SIGN_BIT
    }

    /// The 31 bits below the sign bit, read as a number.
    pub open spec fn magnitude_spec(self) -> int {
        if self.bits >= SIGN_BIT {
            self.bits - SIGN_BIT
        } else {
            self.bits as int
        }
    }

    /// Not a number: the exponent is all ones and the fraction is not zero.
    pub open spec fn is_nan_spec(self) -> bool {
        self.magnitude_spec() > INFINITY_BITS
    }

    /// Neither an infinity nor a NaN.
    pub open spec fn is_finite_spec(self) -> bool {
        self.magnitude_spec() < INFINITY_BITS
    }

    /// An integer that orders the numbers as their values do. For a fixed
    /// sign the encoding grows with the absolute value, so the key is the
    /// magnitude, negated under a set sign bit. Both zeros have key 0.
    /// The key of a NaN means nothing.
    pub open spec fn key(self) -> int {
        if self.sign_spec() {
            -self.magnitude_spec()
        } else {
            self.magnitude_spec()
        }
    }

    /// The value of a finite number in units of 2 to the -149: a whole
    /// number, since every finite single-precision value is a multiple of
    /// that unit.
    pub open spec fn units(self) -> int {
        if self.sign_spec() {
            -units_of(self.magnitude_spec())
        } else {
            units_of(self.magnitude_spec())
        }
    }

    /// The exponent field: the eight bits below the sign.
    pub open spec fn exponent_spec(self) -> int {
        self.magnitude_spec() / (EXPONENT_UNIT as int)
    }

    /// The significand of a normal number: the fraction under its hidden
    /// bit. The number's absolute value is the significand times 2 to the
    /// (exponent field - 150).
    pub open spec fn significand_spec(self) -> int {
        EXPONENT_UNIT + self.magnitude_spec() % (EXPONENT_UNIT as int)
    }

    /// This number is a positive normal number below 2 that lies within
    /// half a unit in the last place of the fraction `num / den`: no
    /// single-precision number is nearer to the fraction.
    pub open spec fn rounds(self, num: int, den: int) -> bool {
        let e = self.exponent_spec();
        let gap = den * self.significand_spec() - num * pow2((150 - e) as nat);
        &&& !self.sign_spec()
        &&& 0 < e <= 127
        &&& den > 0
        &&& -den <= 2 * gap <= den
    }

    /// Numeric `<`: false as soon as either side is a NaN.
    pub open spec fn spec_lt(self, other: Scalar) -> bool {
        !self.is_nan_spec() && !other.is_nan_spec() && self.key() < other.key()
    }

    /// Numeric `>`: false as soon as either side is a NaN.
    pub open spec fn spec_gt(self, other: Scalar) -> bool {
        other.spec_lt(self)
    }

    /// The number with the given encoding.
    pub fn from_bits(bits: u32) -> (s: Scalar)
        ensures
            s.bits == bits,
    {
        Scalar { bits }
    }

    /// The encoding of this number.
    pub fn to_bits(self) -> (bits: u32)
        ensures
            bits == self.bits,
    {
        self.bits
    }

    fn magnitude(self) -> (m: u32)
        ensures
            m == self.magnitude_spec(),
            m < SIGN_BIT,
    {
        if self.bits >= SIGN_BIT {
            self.bits - SIGN_BIT
        } else {
            self.bits
        }
    }

    fn order_key(self) -> (k: i64)
        ensures
            k == self.key(),
    {
        let m: i64 = self.magnitude() as i64;
        if self.bits >= SIGN_BIT {
            -m
        } else {
            m
        }
    }

    #[verifier::when_used_as_spec(is_nan_spec)]
    pub fn is_nan(self) -> (r: bool)
        ensures
            r == self.is_nan_spec(),
    {
        self.magnitude() > INFINITY_BITS
    }

    #[verifier::when_used_as_spec(is_finite_spec)]
    pub fn is_finite(self) -> (r: bool)
        ensures
            r == self.is_finite_spec(),
    {
        self.magnitude() < INFINITY_BITS
    }

    /// Numeric `<` on the encodings.
    pub fn lt(self, other: Scalar) -> (r: bool)
        ensures
            r == self.spec_lt(other),
    {
        !self.is_nan() && !other.is_nan() && self.order_key() < other.order_key()
    }

    /// Numeric `>` on the encodings.
    pub fn gt(self, other: Scalar) -> (r: bool)
        ensures
            r == self.spec_gt(other),
    {
        other.lt(self)
    }
}

/// A larger magnitude encodes a larger absolute value, and only the
/// magnitude 0 encodes 0.
pub proof fn lemma_units_increase(m1: int, m2: int)
    requires
        0 <= m1 < m2 < SIGN_BIT,
    ensures
        0 <= units_of(m1) < units_of(m2),
{
    let c = EXPONENT_UNIT as int;
    let e1 = m1 / c;
    let f1 = m1 % c;
    let e2 = m2 / c;
    let f2 = m2 % c;
    if e1 > 0 {
        lemma_pow2_pos((e1 - 1) as nat);
        assert(0 <= (c + f1) * pow2((e1 - 1) as nat)) by (nonlinear_arith)
            requires
                0 <= c + f1,
                0 < pow2((e1 - 1) as nat),
        ;
    }
    if e1 == e2 {
        if e1 > 0 {
            let p = pow2((e1 - 1) as nat) as int;
            assert((c + f1) * p < (c + f2) * p) by (nonlinear_arith)
                requires
                    f1 < f2,
                    0 < p,
            ;
        }
    } else {
        let high = pow2((e2 - 1) as nat) as int;
        let low = pow2(e1 as nat) as int;
        lemma_pow2_pos(e1 as nat);
        if e1 < e2 - 1 {
            lemma_pow2_strictly_increases(e1 as nat, (e2 - 1) as nat);
        }
        assert(c * low <= (c + f2) * high) by (nonlinear_arith)
            requires
                0 < low <= high,
                0 <= f2,
                0 < c,
        ;
        if e1 > 0 {
            let q = pow2((e1 - 1) as nat) as int;
            lemma_pow2_unfold(e1 as nat);
            assert((c + f1) * q < c * (2 * q)) by (nonlinear_arith)
                requires
                    0 <= f1 < c,
                    0 < q,
            ;
        } else {
            assert(c * low >= c) by (nonlinear_arith)
                requires
                    0 < low,
                    0 < c,
            ;
        }
    }
}

/// On finite numbers the key orders as the values do: one key is below
/// another exactly when its value is, and two keys are equal exactly when
/// the values are (the two zeros share key and value).
pub proof fn lemma_key_orders_values(a: Scalar, b: Scalar)
    requires
        a.is_finite_spec(),
        b.is_finite_spec(),
    ensures
        a.key() < b.key() <==> a.units() < b.units(),
        a.key() == b.key() <==> a.units() == b.units(),
{
    let ma = a.magnitude_spec();
    let mb = b.magnitude_spec();
    if ma < mb {
        lemma_units_increase(ma, mb);
    } else if mb < ma {
        lemma_units_increase(mb, ma);
    }
    if 0 < ma {
        lemma_units_increase(0, ma);
    }
    if 0 < mb {
        lemma_units_increase(0, mb);
    }
}

} // verus!
