//! Single-precision values held as IEEE-754 bit patterns.
//!
//! The library never performs rounding arithmetic. It stores values, negates
//! them, classifies them and orders them, all of which are exact operations on
//! the bit pattern. The numeric meaning of a pattern is given by
//! [`Scalar::scaled`]: the value multiplied by two to the power 149, which is
//! an integer for every finite pattern.

use vstd::prelude::*;
use vstd::arithmetic::power2::{
    pow2, lemma_pow2_pos, lemma_pow2_adds, lemma_pow2_strictly_increases, lemma2_to64,
};
use vstd::arithmetic::mul::{lemma_mul_strict_inequality, lemma_mul_inequality};

verus! {

/// Number of mantissa patterns per exponent: two to the power 23.
pub const MANTISSA_SPAN: u32 = 0x80_0000;

/// First pattern with the sign bit set: two to the power 31.
pub const SIGN_SPAN: u32 = 0x8000_0000;

/// Magnitude pattern of positive infinity; every larger magnitude is a NaN.
pub const INFINITY_MAGNITUDE: u32 = 0x7f80_0000;

/// A single-precision value, stored as its bit pattern.
///
/// `==` on this type compares patterns, so it tells `0.0` from `-0.0` and
/// treats a NaN as equal to itself. Use [`Scalar::same_value`] for numeric
/// equality.
#[derive(Clone, Copy, Debug, PartialEq, Eq, Structural)]
pub struct Scalar {
    pub bits: u32,
}

/// The magnitude that a 31-bit pattern denotes, multiplied by two to the
/// power 149. Subnormals (exponent field zero) have no implicit leading bit.
pub open spec fn magnitude_scaled(pattern: int) -> int {
    let e = pattern / (MANTISSA_SPAN as int);
    let m = pattern % (MANTISSA_SPAN as int);
    if e == 0 {
        m
    } else {
        (MANTISSA_SPAN + m) * pow2((e - 1) as nat)
    }
}

/// A magnitude pattern below a power-of-two boundary denotes less than the
/// boundary: every pattern with exponent field `e` is below `2^(e + 23)`.
proof fn lemma_magnitude_upper(pattern: int)
    requires
        0 <= pattern < SIGN_SPAN,
    ensures
        magnitude_scaled(pattern) < pow2((pattern / (MANTISSA_SPAN as int) + 23) as nat),
{
    let e = pattern / (MANTISSA_SPAN as int);
    let m = pattern % (MANTISSA_SPAN as int);
    lemma2_to64();
    if e == 0 {
    } else {
        let p = pow2((e - 1) as nat) as int;
        lemma_pow2_pos((e - 1) as nat);
        lemma_mul_strict_inequality(MANTISSA_SPAN + m, 0x100_0000, p);
        lemma_pow2_adds(24, (e - 1) as nat);
        assert(pow2(24) == 0x100_0000);
        assert(24 + (e - 1) == e + 23);
    }
}

/// Every pattern with a nonzero exponent field `e` denotes at least
/// `2^(e + 22)`.
proof fn lemma_magnitude_lower(pattern: int)
    requires
        0 <= pattern < SIGN_SPAN,
        pattern / (MANTISSA_SPAN as int) >= 1,
    ensures
        magnitude_scaled(pattern) >= pow2((pattern / (MANTISSA_SPAN as int) + 22) as nat),
{
    let e = pattern / (MANTISSA_SPAN as int);
    let m = pattern % (MANTISSA_SPAN as int);
    let p = pow2((e - 1) as nat) as int;
    lemma2_to64();
    lemma_pow2_pos((e - 1) as nat);
    lemma_mul_inequality(0x80_0000, MANTISSA_SPAN + m, p);
    lemma_pow2_adds(23, (e - 1) as nat);
    assert(pow2(23) == 0x80_0000);
    assert(23 + (e - 1) == e + 22);
}

/// Larger magnitude patterns denote larger magnitudes.
pub proof fn lemma_magnitude_increases(a: int, b: int)
    requires
        0 <= a < b < SIGN_SPAN,
    ensures
        magnitude_scaled(a) < magnitude_scaled(b),
{
    let ea = a / (MANTISSA_SPAN as int);
    let ma = a % (MANTISSA_SPAN as int);
    let eb = b / (MANTISSA_SPAN as int);
    let mb = b % (MANTISSA_SPAN as int);
    if ea == eb {
        if ea != 0 {
            lemma_pow2_pos((ea - 1) as nat);
            lemma_mul_strict_inequality(
                MANTISSA_SPAN + ma,
                MANTISSA_SPAN + mb,
                pow2((ea - 1) as nat) as int,
            );
        }
    } else {
        assert(ea < eb);
        lemma_magnitude_upper(a);
        lemma_magnitude_lower(b);
        if ea + 23 < eb + 22 {
            lemma_pow2_strictly_increases((ea + 23) as nat, (eb + 22) as nat);
        }
    }
}

/// Only the all-zero magnitude pattern denotes zero.
pub proof fn lemma_magnitude_zero(a: int)
    requires
        0 <= a < SIGN_SPAN,
    ensures
        magnitude_scaled(a) >= 0,
        magnitude_scaled(a) == 0 <==> a == 0,
{
    assert(magnitude_scaled(0) == 0);
    if a > 0 {
        lemma_magnitude_increases(0, a);
    }
}

impl Scalar {
    /// The pattern with its sign bit cleared.
    pub open spec fn magnitude_bits(self) -> int {
        (self.bits as int) % (SIGN_SPAN as int)
    }

    /// Whether the sign bit is set.
    pub open spec fn is_negative(self) -> bool {
        self.bits >= SIGN_SPAN
    }

    /// Whether the pattern is a NaN: exponent field all ones, mantissa nonzero.
    pub open spec fn spec_is_nan(self) -> bool {
        self.magnitude_bits() > INFINITY_MAGNITUDE
    }

    /// Whether the pattern is neither a NaN nor an infinity.
    pub open spec fn is_finite(self) -> bool {
        self.magnitude_bits() < INFINITY_MAGNITUDE
    }

    /// Whether the pattern is `0.0` or `-0.0`.
    pub open spec fn spec_is_zero(self) -> bool {
        self.magnitude_bits() == 0
    }

    /// The value multiplied by two to the power 149.
    ///
    /// Exact for every finite pattern. The infinities map to plus and minus
    /// two to the power 277, beyond every finite value, so that the order of
    /// `scaled` is the numeric order on all patterns that are not NaN. The
    /// result carries no meaning for a NaN.
    pub open spec fn scaled(self) -> int {
        if self.is_negative() {
            -magnitude_scaled(self.magnitude_bits())
        } else {
            magnitude_scaled(self.magnitude_bits())
        }
    }

    /// Whether the pattern denotes exactly the integer `n`.
    pub open spec fn denotes(self, n: int) -> bool {
        self.is_finite() && self.scaled() == n * pow2(149)
    }

    /// Numeric `==`: false whenever a NaN is involved, and true of `0.0` and
    /// `-0.0`.
    pub open spec fn spec_same_value(self, other: Scalar) -> bool {
        !self.is_nan() && !other.is_nan() && self.scaled() == other.scaled()
    }

    /// Numeric `<`: false whenever a NaN is involved.
    pub open spec fn spec_less(self, other: Scalar) -> bool {
        !self.is_nan() && !other.is_nan() && self.scaled() < other.scaled()
    }

    /// Numeric `<=`: false whenever a NaN is involved.
    pub open spec fn spec_at_most(self, other: Scalar) -> bool {
        !self.is_nan() && !other.is_nan() && self.scaled() <= other.scaled()
    }

    /// A signed integer that orders patterns as their values are ordered.
    pub open spec fn spec_rank(self) -> int {
        if self.is_negative() {
            -self.magnitude_bits()
        } else {
            self.magnitude_bits()
        }
    }

    /// The rank orders exactly as the scaled value does.
    pub proof fn lemma_rank_orders(self, other: Scalar)
        ensures
            self.spec_rank() < other.spec_rank() <==> self.scaled() < other.scaled(),
            self.spec_rank() == other.spec_rank() <==> self.scaled() == other.scaled(),
    {
        let a = self.magnitude_bits();
        let b = other.magnitude_bits();
        lemma_magnitude_zero(a);
        lemma_magnitude_zero(b);
        if a < b {
            lemma_magnitude_increases(a, b);
        }
        if b < a {
            lemma_magnitude_increases(b, a);
        }
    }

    pub open spec fn spec_from_bits(bits: u32) -> Scalar {
        Scalar { bits }
    }

    /// The value with the given bit pattern.
    #[verifier::when_used_as_spec(spec_from_bits)]
    pub fn from_bits(bits: u32) -> (s: Scalar)
        ensures
            s.bits == bits,
    {
        Scalar { bits }
    }

    /// The bit pattern of the value.
    pub fn to_bits(self) -> (bits: u32)
        ensures
            bits == self.bits,
    {
        self.bits
    }

    fn rank(self) -> (r: i64)
        ensures
            r == self.spec_rank(),
    {
        let magnitude: i64 = (self.bits % SIGN_SPAN) as i64;
        if self.bits >= SIGN_SPAN {
            -magnitude
        } else {
            magnitude
        }
    }

    /// Whether the pattern is a NaN.
    #[verifier::when_used_as_spec(spec_is_nan)]
    pub fn is_nan(self) -> (r: bool)
        ensures
            r == self.is_nan(),
    {
        self.bits % SIGN_SPAN > INFINITY_MAGNITUDE
    }

    /// Whether the value is zero, of either sign.
    #[verifier::when_used_as_spec(spec_is_zero)]
    pub fn is_zero(self) -> (r: bool)
        ensures
            r == self.is_zero(),
            r == (!self.is_nan() && self.scaled() == 0),
    {
        proof {
            lemma_magnitude_zero(self.magnitude_bits());
        }
        self.bits % SIGN_SPAN == 0
    }

    /// Numeric equality of two values.
    #[verifier::when_used_as_spec(spec_same_value)]
    pub fn same_value(self, other: Scalar) -> (r: bool)
        ensures
            r == self.spec_same_value(other),
    {
        proof {
            self.lemma_rank_orders(other);
        }
        !self.is_nan() && !other.is_nan() && self.rank() == other.rank()
    }

    /// Whether `self` is numerically below `other`.
    #[verifier::when_used_as_spec(spec_less)]
    pub fn less(self, other: Scalar) -> (r: bool)
        ensures
            r == self.spec_less(other),
    {
        proof {
            self.lemma_rank_orders(other);
        }
        !self.is_nan() && !other.is_nan() && self.rank() < other.rank()
    }

    /// Whether `self` is numerically below or equal to `other`.
    #[verifier::when_used_as_spec(spec_at_most)]
    pub fn at_most(self, other: Scalar) -> (r: bool)
        ensures
            r == self.spec_at_most(other),
    {
        proof {
            self.lemma_rank_orders(other);
        }
        !self.is_nan() && !other.is_nan() && self.rank() <= other.rank()
    }

    /// The pattern with the sign bit flipped and every other bit kept.
    pub open spec fn spec_negated(self) -> Scalar {
        if self.bits >= SIGN_SPAN {
            Scalar { bits: (self.bits - SIGN_SPAN) as u32 }
        } else {
            Scalar { bits: (self.bits + SIGN_SPAN) as u32 }
        }
    }

    /// Flipping the sign bit negates the value and changes nothing else.
    pub proof fn lemma_negated(self)
        ensures
            self.negated().magnitude_bits() == self.magnitude_bits(),
            self.negated().is_negative() == !self.is_negative(),
            self.negated().scaled() == -self.scaled(),
            self.negated().negated() == self,
    {
    }

    /// The value with its sign flipped. Exact on every pattern, NaN included.
    #[verifier::when_used_as_spec(spec_negated)]
    pub fn negated(self) -> (r: Scalar)
        ensures
            r == self.spec_negated(),
    {
        if self.bits >= SIGN_SPAN {
            Scalar { bits: self.bits - SIGN_SPAN }
        } else {
            Scalar { bits: self.bits + SIGN_SPAN }
        }
    }
}

/// Pattern of `0.0`.
pub const ZERO_BITS: u32 = 0;

/// Pattern of `1.0`.
pub const ONE_BITS: u32 = 0x3f80_0000;

/// Pattern of `90.0`.
pub const QUARTER_TURN_BITS: u32 = 0x42b4_0000;

/// Pattern of `-90.0`.
pub const NEG_QUARTER_TURN_BITS: u32 = 0xc2b4_0000;

/// Pattern of `180.0`.
pub const HALF_TURN_BITS: u32 = 0x4334_0000;

/// Pattern of `360.0`.
pub const FULL_TURN_BITS: u32 = 0x43b4_0000;

/// The named patterns denote the integers that their names say.
pub proof fn lemma_named_patterns()
    ensures
        Scalar::from_bits(ZERO_BITS).denotes(0),
        Scalar::from_bits(ONE_BITS).denotes(1),
        Scalar::from_bits(QUARTER_TURN_BITS).denotes(90),
        Scalar::from_bits(NEG_QUARTER_TURN_BITS).denotes(-90),
        Scalar::from_bits(HALF_TURN_BITS).denotes(180),
        Scalar::from_bits(FULL_TURN_BITS).denotes(360),
{
    lemma2_to64();
    // 1 = 2^23 * 2^126
    lemma_pow2_adds(23, 126);
    // 90 = (45 * 2^18) * 2^132, 180 and 360 one exponent further each
    lemma_pow2_adds(17, 132);
    lemma_pow2_adds(16, 133);
    lemma_pow2_adds(15, 134);
    let unit = pow2(149) as int;
    let p132 = pow2(132) as int;
    let p133 = pow2(133) as int;
    let p134 = pow2(134) as int;
    assert(0xb4_0000 * p132 == 90 * (0x2_0000 * p132)) by (nonlinear_arith);
    assert(0xb4_0000 * p133 == 180 * (0x1_0000 * p133)) by (nonlinear_arith);
    assert(0xb4_0000 * p134 == 360 * (0x8000 * p134)) by (nonlinear_arith);
    assert(0 * unit == 0) by (nonlinear_arith);
    assert(1 * unit == unit) by (nonlinear_arith);
    assert((-90) * unit == -(90 * unit)) by (nonlinear_arith);
}

} // verus!
