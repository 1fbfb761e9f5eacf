//! IEEE 754 binary64 numbers held by their bit patterns.
//!
//! A pattern has a sign bit, eleven bits of exponent and 52 bits of
//! fraction. The library does no arithmetic on the numbers. It compares them,
//! and says what the comparison means for the numbers that the patterns
//! encode.

use vstd::arithmetic::power2::{
    lemma2_to64, lemma2_to64_rest, lemma_pow2_adds, lemma_pow2_pos, lemma_pow2_strictly_increases,
    lemma_pow2_unfold, pow2,
};
use vstd::prelude::*;

verus! {

/// The bit that carries the sign of a binary64 number.
pub const SIGN_BIT: u64 = 0x8000_0000_0000_0000;

/// The bit pattern of positive infinity; every larger magnitude is a NaN.
pub const INFINITY_BITS: u64 = 0x7FF0_0000_0000_0000;

/// The weight of the lowest bit of the exponent: 2^52, which is also the
/// leading bit that the fraction of a normal number leaves out.
pub const HIDDEN_BIT: u64 = 0x0010_0000_0000_0000;

/// The size of the number with the magnitude pattern `magnitude`, in units
/// of 2^-1074, the smallest positive number. With a zero exponent the size is
/// the fraction. Otherwise the fraction gets its leading bit, and doubles
/// with each step of the exponent. Infinity comes out as 2^1024, above every
/// finite number.
pub open spec fn size_of(magnitude: int) -> int {
    let exponent = magnitude / 0x0010_0000_0000_0000;
    let fraction = magnitude % 0x0010_0000_0000_0000;
    if exponent == 0 {
        fraction
    } else {
        (0x0010_0000_0000_0000 + fraction) * pow2((exponent - 1) as nat)
    }
}

/// An IEEE 754 binary64 number, held exactly by its 64-bit pattern.
///
/// Two values are equal (`==`) when their patterns are: the two zeros are
/// different values, and a NaN is equal to itself. To compare the numbers,
/// use [`Binary64::gt`].
#[derive(Clone, Copy, Debug, PartialEq, Eq, Hash, Structural)]
pub struct Binary64 {
    pub bits: u64,
}

impl Binary64 {
    /// The pattern without its sign bit.
    pub open spec fn magnitude(self) -> int {
        self.bits as int % 0x8000_0000_0000_0000
    }

    /// Whether the sign bit is set.
    pub open spec fn negative(self) -> bool {
        self.bits >= SIGN_BIT
    }

    /// Whether the pattern encodes no number.
    pub open spec fn is_nan(self) -> bool {
        self.magnitude() > INFINITY_BITS
    }

    /// The number that the pattern encodes, in units of 2^-1074. Both zeros
    /// are 0, and the infinities lie beyond all finite numbers.
    pub open spec fn scaled(self) -> int {
        if self.negative() {
            -size_of(self.magnitude())
        } else {
            size_of(self.magnitude())
        }
    }

    /// IEEE 754 `>`: whether this number is the larger one. False whenever
    /// either side is a NaN.
    pub open spec fn spec_gt(self, other: Binary64) -> bool {
        &&& !self.is_nan()
        &&& !other.is_nan()
        &&& self.scaled() > other.scaled()
    }

    /// Whether this number is larger than the integer `n`. False for a NaN.
    pub open spec fn exceeds(self, n: int) -> bool {
        &&& !self.is_nan()
        &&& self.scaled() > n * pow2(1074)
    }

    /// Whether this is a number that lies between `low` and `high`, the two
    /// included.
    pub open spec fn is_within(self, low: Binary64, high: Binary64) -> bool {
        &&& !self.is_nan()
        &&& !low.spec_gt(self)
        &&& !self.spec_gt(high)
    }

    /// This number where it lies between `low` and `high`, `high` where it is
    /// larger, and `low` where it is smaller or no number.
    pub open spec fn spec_clamped(self, low: Binary64, high: Binary64) -> Binary64 {
        if self.is_within(low, high) {
            self
        } else if self.spec_gt(high) {
            high
        } else {
            low
        }
    }

    /// The number with the bit pattern `bits`.
    pub fn from_bits(bits: u64) -> (r: Binary64)
        ensures
            r.bits == bits,
    {
        Binary64 { bits }
    }

    /// The bit pattern of the number.
    pub fn to_bits(self) -> (r: u64)
        ensures
            r == self.bits,
    {
        self.bits
    }

    /// Compares two numbers as IEEE 754 `>` does.
    pub fn gt(&self, other: &Binary64) -> (r: bool)
        ensures
            r == self.spec_gt(*other),
    {
        let mine: u64 = self.bits % SIGN_BIT;
        let theirs: u64 = other.bits % SIGN_BIT;
        proof {
            lemma_size_follows_magnitude(mine as int, theirs as int);
            lemma_size_follows_magnitude(theirs as int, mine as int);
            lemma_size_follows_magnitude(0, mine as int);
            lemma_size_follows_magnitude(0, theirs as int);
        }
        if mine > INFINITY_BITS || theirs > INFINITY_BITS {
            false
        } else if self.bits >= SIGN_BIT {
            other.bits >= SIGN_BIT && mine < theirs
        } else if other.bits >= SIGN_BIT {
            mine > 0 || theirs > 0
        } else {
            mine > theirs
        }
    }
}

impl Binary64 {
    /// Keeps the number between `low` and `high`.
    pub fn clamped(self, low: Binary64, high: Binary64) -> (r: Binary64)
        ensures
            r == self.spec_clamped(low, high),
    {
        if self.bits % SIGN_BIT > INFINITY_BITS {
            low
        } else if self.gt(&high) {
            high
        } else if low.gt(&self) {
            low
        } else {
            self
        }
    }
}

/// What is kept between two numbers, the lower of which does not exceed the
/// higher, lies between them.
pub proof fn lemma_clamped_is_within(x: Binary64, low: Binary64, high: Binary64)
    requires
        !low.is_nan(),
        !high.is_nan(),
        !low.spec_gt(high),
    ensures
        x.spec_clamped(low, high).is_within(low, high),
{
}

/// The larger magnitude pattern encodes the larger size: comparing patterns
/// compares the numbers.
pub proof fn lemma_size_follows_magnitude(a: int, b: int)
    requires
        0 <= a < 0x8000_0000_0000_0000,
        0 <= b < 0x8000_0000_0000_0000,
    ensures
        size_of(0) == 0,
        a < b ==> size_of(a) < size_of(b),
        a == b ==> size_of(a) == size_of(b),
{
    if a < b {
        let h: int = 0x0010_0000_0000_0000;
        let ea = a / h;
        let fa = a % h;
        let eb = b / h;
        let fb = b % h;
        if ea == eb {
            if ea > 0 {
                let p: int = pow2((ea - 1) as nat) as int;
                lemma_pow2_pos((ea - 1) as nat);
                assert((h + fa) * p < (h + fb) * p) by (nonlinear_arith)
                    requires
                        fa < fb,
                        p > 0,
                ;
            }
        } else {
            // The size of `a` stays below 2^52 doubled `ea` times, which the
            // size of `b` reaches.
            let bound: int = h * pow2(ea as nat);
            let pb: int = pow2((eb - 1) as nat) as int;
            lemma_pow2_pos(ea as nat);
            if ea == 0 {
                lemma2_to64();
            } else {
                let pa: int = pow2((ea - 1) as nat) as int;
                lemma_pow2_pos((ea - 1) as nat);
                lemma_pow2_unfold(ea as nat);
                assert((h + fa) * pa < h * (2 * pa)) by (nonlinear_arith)
                    requires
                        0 <= fa < h,
                        pa > 0,
                ;
            }
            assert(size_of(a) < bound);
            if ea < eb - 1 {
                lemma_pow2_strictly_increases(ea as nat, (eb - 1) as nat);
            }
            let pe: int = pow2(ea as nat) as int;
            assert(h * pe <= (h + fb) * pb) by (nonlinear_arith)
                requires
                    0 < pe <= pb,
                    0 <= fb,
                    h > 0,
            ;
        }
    }
}

/// `>` is a strict order on the numbers: no number exceeds itself, no two
/// numbers exceed each other, and what exceeds a number exceeds all that
/// the number exceeds.
pub proof fn lemma_gt_is_a_strict_order(a: Binary64, b: Binary64, c: Binary64)
    ensures
        !a.spec_gt(a),
        a.spec_gt(b) ==> !b.spec_gt(a),
        a.spec_gt(b) && b.spec_gt(c) ==> a.spec_gt(c),
{
}

/// Of two numbers that differ, one exceeds the other. The two zeros do not
/// differ, and a NaN is no number.
pub proof fn lemma_gt_is_total_on_numbers(a: Binary64, b: Binary64)
    requires
        !a.is_nan(),
        !b.is_nan(),
        a.scaled() != b.scaled(),
    ensures
        a.spec_gt(b) || b.spec_gt(a),
{
}

/// What the pattern `bits` encodes where its sign bit is clear and its
/// fraction is `significand` without the leading bit, `significand` being `n`
/// shifted up by `shift` bits: the integer `n`, if the exponent is the one
/// that undoes the scaling.
pub proof fn lemma_encodes_integer(bits: u64, n: int, significand: int, shift: nat)
    requires
        bits < SIGN_BIT,
        0x0010_0000_0000_0000 <= significand < 0x0020_0000_0000_0000,
        bits as int % 0x0010_0000_0000_0000 == significand - 0x0010_0000_0000_0000,
        significand == n * pow2(shift),
        shift <= 1074,
        bits as int / 0x0010_0000_0000_0000 == 1075 - shift,
    ensures
        (Binary64 { bits }).scaled() == n * pow2(1074),
        forall|x: Binary64| x.spec_gt(Binary64 { bits }) <==> x.exceeds(n),
{
    let exponent = (1075 - shift) as nat;
    let rest = (exponent - 1) as nat;
    lemma_pow2_adds(shift, rest);
    let p: int = pow2(shift) as int;
    let q: int = pow2(rest) as int;
    assert(shift + rest == 1074);
    assert((n * p) * q == n * (p * q)) by (nonlinear_arith);
}

} // verus!
