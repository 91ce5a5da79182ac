//! The three tones in which a gauge is drawn, and the rule that picks one
//! for a measurement.

use vstd::prelude::*;
use vstd::arithmetic::power2::{lemma2_to64, lemma2_to64_rest, lemma_pow2_adds, lemma_pow2_pos, pow2};
use crate::binary64::{whole, Binary64, SIGN_BIT, lemma_negative_scaled, lemma_order_follows_bits};

verus! {

/// The bit pattern of the number 60, where the warning range begins.
pub const SIXTY: u64 = 0x404E_0000_0000_0000;

/// The bit pattern of the number 85, where the warning range ends.
pub const EIGHTY_FIVE: u64 = 0x4055_4000_0000_0000;

/// How alarming a measurement is.
#[derive(Clone, Copy, Debug, PartialEq, Eq, Structural)]
pub enum Tone {
    /// Above 0 and below 60.
    Normal,
    /// From 60 up to, not including, 85.
    Warning,
    /// Everything else: 0 and below, 85 and above, infinities and NaN.
    Critical,
}

/// The tone of a measurement. The two ranges are tried in this order; a
/// number in neither, and anything that is not a finite number, is critical.
pub open spec fn tone_of(v: Binary64) -> Tone {
    if v.is_finite() && 0 < v.scaled() < whole(60) {
        Tone::Normal
    } else if v.is_finite() && whole(60) <= v.scaled() < whole(85) {
        Tone::Warning
    } else {
        Tone::Critical
    }
}

/// The two thresholds are the numbers 60 and 85.
pub proof fn lemma_thresholds()
    ensures
        (Binary64 { bits: SIXTY }).is_finite(),
        !(Binary64 { bits: SIXTY }).negative(),
        (Binary64 { bits: SIXTY }).scaled() == whole(60),
        (Binary64 { bits: EIGHTY_FIVE }).is_finite(),
        !(Binary64 { bits: EIGHTY_FIVE }).negative(),
        (Binary64 { bits: EIGHTY_FIVE }).scaled() == whole(85),
        0 < whole(60) < whole(85),
{
    let lo = Binary64 { bits: SIXTY };
    let hi = Binary64 { bits: EIGHTY_FIVE };
    lemma2_to64();
    lemma2_to64_rest();
    assert(lo.exponent() == 1028);
    assert(lo.fraction() == 0xE_0000_0000_0000);
    assert(hi.exponent() == 1029);
    assert(hi.fraction() == 0x5_4000_0000_0000);
    lemma_pow2_adds(47, 1027);
    lemma_pow2_adds(46, 1028);
    lemma_pow2_pos(1074);
    let p = pow2(1027) as int;
    let q = pow2(1028) as int;
    assert(0x1E_0000_0000_0000 * p == 60 * (0x8000_0000_0000 * p)) by (nonlinear_arith);
    assert(0x15_4000_0000_0000 * q == 85 * (0x4000_0000_0000 * q)) by (nonlinear_arith);
    let w = pow2(1074) as int;
    assert(0 < 60 * w < 85 * w) by (nonlinear_arith)
        requires
            0 < w,
    ;
}

/// Picks the tone in which a measurement is drawn.
pub fn classify(v: Binary64) -> (t: Tone)
    ensures
        t == tone_of(v),
{
    let bits: u64 = v.bits;
    proof {
        lemma_thresholds();
        let lo = Binary64 { bits: SIXTY };
        let hi = Binary64 { bits: EIGHTY_FIVE };
        if bits >= SIGN_BIT {
            if v.is_finite() {
                lemma_negative_scaled(v);
            }
        } else if v.is_finite() {
            lemma_order_follows_bits(Binary64 { bits: 0 }, v);
            lemma_order_follows_bits(v, lo);
            lemma_order_follows_bits(v, hi);
        } else {
            assert(bits >= 0x7FF0_0000_0000_0000);
        }
    }
    if 0 < bits && bits < SIXTY {
        Tone::Normal
    } else if SIXTY <= bits && bits < EIGHTY_FIVE {
        Tone::Warning
    } else {
        Tone::Critical
    }
}

} // verus!
