//! Numbers in the IEEE 754 binary64 interchange format, held as their 64 bits.
//!
//! A measurement arrives as a binary64 number. Its meaning is given here in
//! exact integer arithmetic: a finite number is a whole count of units of
//! 2^-1074, the spacing of the smallest subnormal numbers.

use vstd::prelude::*;
use vstd::arithmetic::power2::{
    lemma2_to64, lemma2_to64_rest, lemma_pow2_adds, lemma_pow2_pos, lemma_pow2_strictly_increases,
    lemma_pow2_unfold, pow2,
};
use vstd::arithmetic::div_mod::{
    lemma_basic_div, lemma_div_is_ordered, lemma_div_is_ordered_by_denominator,
    lemma_div_multiples_vanish, lemma_div_multiples_vanish_quotient,
};
use vstd::bits::lemma_u64_shr_is_div;

verus! {

/// The lowest bit pattern with the sign bit set.
pub const SIGN_BIT: u64 = 0x8000_0000_0000_0000;

/// Two to the power 52: the weight of the exponent field, and the hidden
/// leading bit of a normal number's significand.
pub const HIDDEN_BIT: u64 = 0x0010_0000_0000_0000;

/// The exponent field of infinities and of NaN.
pub const MAX_EXPONENT: u64 = 2047;

/// The exponent field of the numbers from 1 up to, not including, 2.
pub const EXPONENT_BIAS: u64 = 1023;

/// A binary64 number, given by its bit pattern.
#[derive(Clone, Copy, Debug, PartialEq, Eq, Structural)]
pub struct Binary64 {
    pub bits: u64,
}

/// The whole number `k`, counted in units of 2^-1074.
pub open spec fn whole(k: nat) -> nat {
    k * pow2(1074)
}

impl Binary64 {
    /// Whether the sign bit is set.
    pub open spec fn negative(self) -> bool {
        self.bits >= SIGN_BIT
    }

    /// The eleven bits of the exponent field.
    pub open spec fn exponent(self) -> nat {
        ((self.bits / HIDDEN_BIT) % 2048) as nat
    }

    /// The 52 bits of the fraction field.
    pub open spec fn fraction(self) -> nat {
        (self.bits % HIDDEN_BIT) as nat
    }

    /// Not a number.
    pub open spec fn is_nan(self) -> bool {
        self.exponent() == MAX_EXPONENT && self.fraction() != 0
    }

    /// Positive or negative infinity.
    pub open spec fn is_infinite(self) -> bool {
        self.exponent() == MAX_EXPONENT && self.fraction() == 0
    }

    /// Neither NaN nor an infinity.
    pub open spec fn is_finite(self) -> bool {
        self.exponent() < MAX_EXPONENT
    }

    /// The bit pattern without its sign bit.
    pub open spec fn magnitude(self) -> nat {
        (self.bits % SIGN_BIT) as nat
    }

    /// The absolute value of a finite number, in units of 2^-1074. A
    /// subnormal number (exponent field 0) is its fraction; a normal number
    /// is its significand, hidden bit included, scaled by its exponent.
    pub open spec fn units(self) -> nat {
        if self.exponent() == 0 {
            self.fraction()
        } else {
            ((HIDDEN_BIT + self.fraction()) * pow2((self.exponent() - 1) as nat)) as nat
        }
    }

    /// The value of a finite number, in units of 2^-1074.
    pub open spec fn scaled(self) -> int {
        if self.negative() {
            -(self.units() as int)
        } else {
            self.units() as int
        }
    }

    /// The number as a 16-bit unsigned integer: its whole part where that
    /// fits, 0 for NaN and for every negative number, 65535 for every number
    /// from 65535 up and for positive infinity.
    pub open spec fn truncated(self) -> nat {
        if self.is_nan() || self.negative() {
            0
        } else if self.is_infinite() || self.units() / pow2(1074) >= 65535 {
            65535
        } else {
            self.units() / pow2(1074)
        }
    }

    /// The number with the bit pattern `bits`.
    pub fn from_bits(bits: u64) -> (v: Binary64)
        ensures
            v.bits == bits,
    {
        Binary64 { bits }
    }

    /// The bit pattern of the number.
    pub fn to_bits(self) -> (bits: u64)
        ensures
            bits == self.bits,
    {
        self.bits
    }

    /// Converts to a 16-bit unsigned integer, dropping what follows the
    /// point and keeping to the integer's range.
    pub fn to_u16(self) -> (n: u16)
        ensures
            n == self.truncated(),
    {
        let bits: u64 = self.bits;
        if bits >= SIGN_BIT {
            return 0;
        }
        let e: u64 = bits / HIDDEN_BIT;
        let f: u64 = bits % HIDDEN_BIT;
        assert(e == self.exponent() && f == self.fraction());
        if e == MAX_EXPONENT {
            if f != 0 {
                0
            } else {
                65535
            }
        } else if e < EXPONENT_BIAS {
            proof {
                lemma_units_bounds(self);
                lemma_below_one(self);
            }
            0
        } else if e >= EXPONENT_BIAS + 16 {
            proof {
                lemma_units_bounds(self);
                lemma_beyond_sixteen_bits(self);
            }
            65535
        } else {
            let m: u64 = HIDDEN_BIT + f;
            let shift: u64 = 1075 - e;
            let whole_part: u64 = m >> shift;
            proof {
                lemma_u64_shr_is_div(m, shift);
                lemma_whole_part(self);
            }
            whole_part as u16
        }
    }
}

/// A number whose exponent field is below the bias is less than 1.
proof fn lemma_below_one(v: Binary64)
    requires
        v.exponent() < EXPONENT_BIAS,
    ensures
        v.units() / pow2(1074) == 0,
{
    let e = v.exponent();
    lemma_units_bounds(v);
    lemma2_to64_rest();
    lemma_pow2_adds(52, 1022);
    if e < 1022 {
        lemma_pow2_strictly_increases(e, 1022);
    }
    let h = HIDDEN_BIT as int;
    let pe = pow2(e) as int;
    let pm = pow2(1022) as int;
    assert(h * pe <= h * pm) by (nonlinear_arith)
        requires
            pe <= pm,
            0 < h,
    ;
    lemma_basic_div(v.units() as int, pow2(1074) as int);
}

/// A finite number whose exponent field is 16 or more above the bias is at
/// least 65536.
proof fn lemma_beyond_sixteen_bits(v: Binary64)
    requires
        v.is_finite(),
        v.exponent() >= EXPONENT_BIAS + 16,
    ensures
        v.units() / pow2(1074) >= 65536,
{
    let e = v.exponent();
    lemma_units_bounds(v);
    lemma2_to64();
    lemma2_to64_rest();
    lemma_pow2_adds(52, 1038);
    lemma_pow2_adds(16, 1074);
    lemma_pow2_pos(1074);
    if 1038 < e - 1 {
        lemma_pow2_strictly_increases(1038, (e - 1) as nat);
    }
    let h = HIDDEN_BIT as int;
    let pe = pow2((e - 1) as nat) as int;
    let pm = pow2(1038) as int;
    let w = pow2(1074) as int;
    assert(h * pm <= h * pe) by (nonlinear_arith)
        requires
            pm <= pe,
            0 < h,
    ;
    assert(65536 * w <= v.units());
    lemma_div_is_ordered(65536 * w, v.units() as int, w);
    lemma_div_multiples_vanish(65536, w);
    assert(65536 * w == w * 65536) by (nonlinear_arith);
}

/// The whole part of a number from 1 up to, not including, 65536 is its
/// significand without the bits that stand behind the point.
proof fn lemma_whole_part(v: Binary64)
    requires
        EXPONENT_BIAS <= v.exponent() < EXPONENT_BIAS + 16,
    ensures
        v.units() / pow2(1074) == (HIDDEN_BIT + v.fraction()) / (pow2((1075 - v.exponent()) as nat) as int),
        (HIDDEN_BIT + v.fraction()) / (pow2((1075 - v.exponent()) as nat) as int) < 65536,
{
    let e = v.exponent();
    let m = (HIDDEN_BIT + v.fraction()) as int;
    let shift = (1075 - e) as nat;
    let a = pow2((e - 1) as nat) as int;
    let b = pow2(shift) as int;
    lemma_pow2_adds((e - 1) as nat, shift);
    lemma_pow2_pos((e - 1) as nat);
    lemma_pow2_pos(shift);
    lemma_div_multiples_vanish_quotient(a, m, b);
    assert(m * a == a * m) by (nonlinear_arith);
    lemma2_to64_rest();
    if 37 < shift {
        lemma_pow2_strictly_increases(37, shift);
    }
    lemma_div_is_ordered_by_denominator(m, pow2(37) as int, b);
    assert(m / (pow2(37) as int) < 65536);
}

/// A finite number lies between the least and beyond the greatest number of
/// its exponent field.
pub proof fn lemma_units_bounds(v: Binary64)
    requires
        v.is_finite(),
    ensures
        v.exponent() == 0 ==> v.units() < HIDDEN_BIT,
        v.exponent() >= 1 ==> HIDDEN_BIT * pow2((v.exponent() - 1) as nat) <= v.units(),
        v.units() < HIDDEN_BIT * pow2(v.exponent()),
{
    let e = v.exponent();
    let f = v.fraction();
    let h = HIDDEN_BIT as int;
    if e == 0 {
        lemma2_to64();
    } else {
        let p = pow2((e - 1) as nat) as int;
        lemma_pow2_pos((e - 1) as nat);
        lemma_pow2_unfold(e);
        assert(h * p <= (h + f) * p) by (nonlinear_arith)
            requires
                0 <= f,
                0 < p,
        ;
        assert((h + f) * p < h * (2 * p)) by (nonlinear_arith)
            requires
                f < h,
                0 < p,
        ;
    }
}

/// Among finite numbers, a greater bit pattern below the sign bit is a
/// greater absolute value.
pub proof fn lemma_units_increase(a: Binary64, b: Binary64)
    requires
        a.is_finite(),
        b.is_finite(),
        a.magnitude() < b.magnitude(),
    ensures
        a.units() < b.units(),
{
    let h = HIDDEN_BIT as int;
    let ea = a.exponent();
    let eb = b.exponent();
    assert(a.magnitude() == ea * h + a.fraction());
    assert(b.magnitude() == eb * h + b.fraction());
    if ea == eb {
        assert(a.fraction() < b.fraction());
        if ea != 0 {
            let p = pow2((ea - 1) as nat) as int;
            lemma_pow2_pos((ea - 1) as nat);
            let fa = a.fraction() as int;
            let fb = b.fraction() as int;
            assert((h + fa) * p < (h + fb) * p) by (nonlinear_arith)
                requires
                    fa < fb,
                    0 < p,
            ;
        }
    } else {
        assert(ea < eb);
        lemma_units_bounds(a);
        lemma_units_bounds(b);
        let pa = pow2(ea) as int;
        let pb = pow2((eb - 1) as nat) as int;
        if ea < eb - 1 {
            lemma_pow2_strictly_increases(ea, (eb - 1) as nat);
        }
        assert(h * pa <= h * pb) by (nonlinear_arith)
            requires
                pa <= pb,
                0 < h,
        ;
    }
}

/// Among finite numbers that are not negative, the order of the values is
/// the order of the bit patterns.
pub proof fn lemma_order_follows_bits(a: Binary64, b: Binary64)
    requires
        a.is_finite(),
        b.is_finite(),
        !a.negative(),
        !b.negative(),
    ensures
        a.bits < b.bits <==> a.scaled() < b.scaled(),
        a.bits == b.bits <==> a.scaled() == b.scaled(),
{
    if a.bits < b.bits {
        lemma_units_increase(a, b);
    } else if b.bits < a.bits {
        lemma_units_increase(b, a);
    }
}

/// A negative finite number is at most zero, and zero only as the negative
/// zero.
pub proof fn lemma_negative_scaled(v: Binary64)
    requires
        v.is_finite(),
        v.negative(),
    ensures
        v.scaled() <= 0,
        v.scaled() == 0 <==> v.bits == SIGN_BIT,
{
    let zero = Binary64 { bits: SIGN_BIT };
    if v.bits != SIGN_BIT {
        lemma_units_increase(zero, v);
    }
}

} // verus!
