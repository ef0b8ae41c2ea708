//! Coordinates: a double-precision number held by its bit pattern, with the
//! exact range checks that latitude and longitude must pass.

use vstd::prelude::*;
use vstd::arithmetic::power2::{pow2, lemma2_to64, lemma2_to64_rest, lemma_pow2_pos, lemma_pow2_adds, lemma_pow2_strictly_increases};
use vstd::bits::lemma_u64_shl_is_mul;

use crate::json::Json;

verus! {

/// The biased exponent field of an IEEE-754 double.
pub open spec fn exponent_field(bits: u64) -> nat {
    ((bits >> 52u64) & 0x7ffu64) as nat
}

/// The fraction field of an IEEE-754 double.
pub open spec fn fraction_field(bits: u64) -> nat {
    (bits & 0xf_ffff_ffff_ffffu64) as nat
}

/// Whether the double is finite (neither infinite nor NaN).
pub open spec fn is_finite(bits: u64) -> bool {
    exponent_field(bits) != 0x7ff
}

/// The integer significand of a finite double: its magnitude is
/// `significand(bits) * 2^scale(bits)`.
pub open spec fn significand(bits: u64) -> nat {
    if exponent_field(bits) == 0 {
        fraction_field(bits)
    } else {
        fraction_field(bits) + pow2(52)
    }
}

/// The power of two that scales the significand of a finite double.
pub open spec fn scale(bits: u64) -> int {
    if exponent_field(bits) == 0 {
        -1074
    } else {
        exponent_field(bits) - 1075
    }
}

/// Whether the double is finite and its absolute value is at most `bound`.
pub open spec fn magnitude_at_most(bits: u64, bound: nat) -> bool {
    &&& is_finite(bits)
    &&& if scale(bits) >= 0 {
        significand(bits) * pow2(scale(bits) as nat) <= bound
    } else {
        significand(bits) <= bound * pow2((-scale(bits)) as nat)
    }
}

/// Decides whether the double with bit pattern `bits` is finite with absolute
/// value at most `bound`, by exact integer arithmetic in 64 bits. The bound
/// lies between 64 and 255, which covers the latitude and longitude limits and
/// keeps the shifted bound within 64 bits.
pub fn magnitude_within(bits: u64, bound: u64) -> (r: bool)
    requires
        64 <= bound <= 255,
    ensures
        r == magnitude_at_most(bits, bound as nat),
{
    let e = (bits >> 52u64) & 0x7ffu64;
    let f = bits & 0xf_ffff_ffff_ffffu64;
    assert(f <= 0xf_ffff_ffff_ffffu64) by (bit_vector)
        requires
            f == bits & 0xf_ffff_ffff_ffffu64,
    ;
    assert(e <= 0x7ffu64) by (bit_vector)
        requires
            e == (bits >> 52u64) & 0x7ffu64,
    ;
    proof {
        lemma2_to64();
        lemma2_to64_rest();
    }
    if e == 0x7ff {
        return false;
    }
    let m: u64 = if e == 0 {
        f
    } else {
        f + 0x10_0000_0000_0000u64
    };
    assert(m == significand(bits));
    if e >= 1075 {
        // The significand alone already exceeds the bound.
        proof {
            let s = scale(bits) as nat;
            lemma_pow2_pos(s);
            assert(m * pow2(s) >= m) by (nonlinear_arith)
                requires
                    pow2(s) > 0,
            ;
        }
        return false;
    }
    let k: u64 = if e == 0 {
        1074
    } else {
        1075 - e
    };
    assert(k as int == -scale(bits));
    if k >= 47 {
        // The magnitude is below 2^53 * 2^-47 = 64, within any bound of at least 64.
        proof {
            lemma_pow2_adds(6, 47);
            if k > 47 {
                lemma_pow2_strictly_increases(47, k as nat);
            }
            let p = pow2(k as nat);
            assert(p >= pow2(47));
            assert(bound * p >= 64 * pow2(47)) by (nonlinear_arith)
                requires
                    bound >= 64,
                    p >= pow2(47),
            ;
        }
        true
    } else {
        proof {
            if k < 47 {
                lemma_pow2_strictly_increases(k as nat, 47);
            }
            let p = pow2(k as nat);
            assert(bound * p <= 255 * pow2(47)) by (nonlinear_arith)
                requires
                    bound <= 255,
                    p <= pow2(47),
            ;
            lemma_u64_shl_is_mul(bound, k);
        }
        m <= (bound << k)
    }
}

/// The JSON number of a double, or `null` for a double that is not finite
/// (JSON has no infinities and no NaN).
pub open spec fn double_view(bits: u64) -> crate::json::JsonV {
    if is_finite(bits) {
        crate::json::JsonV::Float(bits)
    } else {
        crate::json::JsonV::Null
    }
}

/// The JSON number of a double given by its bit pattern, or `null` when it is not finite.
pub fn double_to_json(bits: u64) -> (r: Json)
    ensures
        r@ == double_view(bits),
{
    let e = (bits >> 52u64) & 0x7ffu64;
    if e == 0x7ff {
        Json::Null
    } else {
        Json::Float(bits)
    }
}

/// A latitude or longitude as given by a caller: the double's bit pattern, and
/// the decimal text that the double prints as.
#[derive(Debug)]
pub struct Coordinate {
    pub bits: u64,
    pub text: String,
}

impl Coordinate {
    /// Whether the coordinate is a valid latitude: finite and within [-90, 90].
    pub open spec fn is_latitude(&self) -> bool {
        magnitude_at_most(self.bits, 90)
    }

    /// Whether the coordinate is a valid longitude: finite and within [-180, 180].
    pub open spec fn is_longitude(&self) -> bool {
        magnitude_at_most(self.bits, 180)
    }

    /// The coordinate as a JSON number; a non-finite double has no JSON number
    /// and becomes `null`.
    pub fn to_json(&self) -> (r: Json)
        ensures
            r@ == double_view(self.bits),
    {
        double_to_json(self.bits)
    }
}

} // verus!
