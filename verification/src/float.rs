//! Floats as bit patterns, and the unsigned integers they are cut down to.
//!
//! A float is held as the 64 bits of its IEEE 754 double, and every computation
//! on it is integer arithmetic. Only the one call that reads a float from a text,
//! which is left to `std`, handles a float as such, and hands on its bits.

use vstd::arithmetic::power2::{
    lemma2_to64, lemma2_to64_rest, lemma_pow2_pos, lemma_pow2_strictly_increases, pow2,
};
use vstd::bits::{lemma_u64_shl_is_mul, lemma_u64_shr_is_div};
use vstd::prelude::*;

verus! {

/// Whether the sign bit is set.
pub open spec fn is_negative(bits: u64) -> bool {
    bits >= 0x8000_0000_0000_0000
}

/// The eleven exponent bits.
pub open spec fn exponent(bits: u64) -> nat {
    (bits as nat / 0x10_0000_0000_0000) % 0x800
}

/// The fifty-two fraction bits.
pub open spec fn fraction(bits: u64) -> nat {
    bits as nat % 0x10_0000_0000_0000
}

/// The magnitude of a finite float, cut off at the point: what is left of
/// `(2^52 + fraction) * 2^(exponent - 1075)` without its fractional part. A float
/// with exponent bits zero is below one.
pub open spec fn whole_part(bits: u64) -> nat {
    let e = exponent(bits);
    let significand = 0x10_0000_0000_0000 + fraction(bits);
    if e == 0 {
        0
    } else if e >= 1075 {
        significand * pow2((e - 1075) as nat)
    } else {
        significand / pow2((1075 - e) as nat)
    }
}

/// The `u64` that a float is cut down to. The float is cut off at the point;
/// what is left is an integer, and it is read as unsigned. A float that is not
/// negative gives its whole part, and `u64::MAX` where that lies above it,
/// infinity too. A negative float is read as a negative integer is, bit for bit:
/// one with the whole part `w`, from 1 to 2^63, gives 2^64 - `w`. Zero for what
/// is left: a negative float above -1, one below -2^63, and a NaN.
pub open spec fn float_to_u64(bits: u64) -> u64 {
    if exponent(bits) == 0x7ff {
        if fraction(bits) == 0 && !is_negative(bits) {
            u64::MAX
        } else {
            0
        }
    } else if is_negative(bits) {
        if 1 <= whole_part(bits) <= 0x8000_0000_0000_0000 {
            (0x1_0000_0000_0000_0000 - whole_part(bits)) as u64
        } else {
            0
        }
    } else if whole_part(bits) > u64::MAX {
        u64::MAX
    } else {
        whole_part(bits) as u64
    }
}

/// The whole part of a float, where it fits in a `u64`.
pub open spec fn whole_within(bits: u64) -> Option<u64> {
    if whole_part(bits) > u64::MAX {
        None
    } else {
        Some(whole_part(bits) as u64)
    }
}

/// The bits of the float that Rust reads from a text, where it reads one.
pub uninterp spec fn float_of_text(text: Seq<char>) -> Option<u64>;

/// `str::parse` at the float type of `serde_json`'s numbers, the float taken as
/// its bits. The empty option in front only fixes that type.
#[verifier::external_body]
pub(crate) fn parse_float_bits(s: &str) -> (r: Option<u64>)
    ensures
        r == float_of_text(s@),
{
    match serde_json::Value::Null.as_f64().or(s.parse().ok()) {
        Some(f) => Some(f.to_bits()),
        None => None,
    }
}

/// The whole part of a float, given by its bits, where it fits in a `u64`.
fn whole_of(bits: u64) -> (w: Option<u64>)
    ensures
        w == whole_within(bits),
{
    let e = (bits >> 52) & 0x7ff;
    let f = bits & 0xf_ffff_ffff_ffff;
    proof {
        assert(e == (bits / 0x10_0000_0000_0000) % 0x800) by (bit_vector)
            requires
                e == (bits >> 52) & 0x7ff,
        ;
        assert(f == bits % 0x10_0000_0000_0000) by (bit_vector)
            requires
                f == bits & 0xf_ffff_ffff_ffff,
        ;
        assert(e == exponent(bits));
        assert(f == fraction(bits));
        lemma2_to64();
        lemma2_to64_rest();
    }
    if e < 1023 {
        proof {
            if e > 0 {
                let k = (1075 - e) as nat;
                if k > 53 {
                    lemma_pow2_strictly_increases(53, k);
                }
                assert(0x10_0000_0000_0000 + f < pow2(k));
                vstd::arithmetic::div_mod::lemma_basic_div(
                    (0x10_0000_0000_0000 + f) as int,
                    pow2(k) as int,
                );
            }
        }
        Some(0)
    } else {
        let significand = f | 0x10_0000_0000_0000;
        proof {
            assert(significand == f + 0x10_0000_0000_0000) by (bit_vector)
                requires
                    significand == f | 0x10_0000_0000_0000,
                    f < 0x10_0000_0000_0000,
            ;
        }
        if e >= 1087 {
            proof {
                let k = (e - 1075) as nat;
                if k > 12 {
                    lemma_pow2_strictly_increases(12, k);
                }
                assert(pow2(k) >= 0x1000);
                assert(significand * pow2(k) >= 0x10_0000_0000_0000 * 0x1000) by (nonlinear_arith)
                    requires
                        significand >= 0x10_0000_0000_0000,
                        pow2(k) >= 0x1000,
                ;
            }
            None
        } else if e >= 1075 {
            let shift = e - 1075;
            proof {
                let k = shift as nat;
                if k < 11 {
                    lemma_pow2_strictly_increases(k, 11);
                }
                lemma_pow2_pos(k);
                assert(significand * pow2(k) <= 0x1f_ffff_ffff_ffff * 0x800) by (nonlinear_arith)
                    requires
                        significand <= 0x1f_ffff_ffff_ffff,
                        0 < pow2(k) <= 0x800,
                ;
                lemma_u64_shl_is_mul(significand, shift);
            }
            Some(significand << shift)
        } else {
            let shift = 1075 - e;
            proof {
                lemma_u64_shr_is_div(significand, shift);
            }
            Some(significand >> shift)
        }
    }
}

/// Cuts a float, given by its bits, down to a `u64`.
pub fn truncate_float(bits: u64) -> (r: u64)
    ensures
        r == float_to_u64(bits),
{
    let e = (bits >> 52) & 0x7ff;
    let f = bits & 0xf_ffff_ffff_ffff;
    let negative = (bits >> 63) == 1;
    proof {
        assert(e == (bits / 0x10_0000_0000_0000) % 0x800) by (bit_vector)
            requires
                e == (bits >> 52) & 0x7ff,
        ;
        assert(f == bits % 0x10_0000_0000_0000) by (bit_vector)
            requires
                f == bits & 0xf_ffff_ffff_ffff,
        ;
        assert(((bits >> 63) == 1) == (bits >= 0x8000_0000_0000_0000)) by (bit_vector);
        assert(e == exponent(bits));
        assert(f == fraction(bits));
    }
    if e == 0x7ff {
        if f == 0 && !negative {
            u64::MAX
        } else {
            0
        }
    } else {
        match whole_of(bits) {
            Some(w) => {
                if !negative {
                    w
                } else if 1 <= w && w <= 0x8000_0000_0000_0000 {
                    u64::MAX - (w - 1)
                } else {
                    0
                }
            },
            None => {
                if negative {
                    0
                } else {
                    u64::MAX
                }
            },
        }
    }
}

} // verus!
