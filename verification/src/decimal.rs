//! Exact integer model of the 32-bit IEEE-754 bit patterns that carry
//! decimal sensor readings.
//!
//! The bus keeps a 16-bit integral reading beside each decimal one, and the
//! two must stay consistent: filling from a decimal truncates toward zero
//! (saturating at the 16-bit bounds, with the not-a-number pattern mapping
//! to zero, as Rust's saturating float-to-int cast does); filling from an
//! integral mirrors it exactly. Both directions are defined here on the raw
//! bit pattern alone, so they verify as plain integer arithmetic.

use vstd::arithmetic::div_mod::{
    lemma_div_by_multiple, lemma_div_is_ordered, lemma_div_is_ordered_by_denominator,
    lemma_div_multiples_vanish, lemma_fundamental_div_mod, lemma_fundamental_div_mod_converse,
    lemma_mod_multiples_basic, lemma_small_mod,
};
use vstd::arithmetic::power2::{
    lemma2_to64, lemma_pow2_adds, lemma_pow2_pos, lemma_pow2_strictly_increases, pow2,
};
use vstd::prelude::*;

verus! {

/// Sign field of a bit pattern: 0 for positive, 1 for negative.
pub open spec fn bits_sign(bits: u32) -> int {
    (bits as int) / 0x8000_0000
}

/// Biased exponent field of a bit pattern, in `0 .. 256`.
pub open spec fn bits_exp(bits: u32) -> int {
    ((bits as int) / 0x0080_0000) % 256
}

/// Fraction field of a bit pattern, in `0 .. 0x80_0000`.
pub open spec fn bits_frac(bits: u32) -> int {
    (bits as int) % 0x0080_0000
}

/// Whether the pattern denotes not-a-number.
pub open spec fn bits_is_nan(bits: u32) -> bool {
    bits_exp(bits) == 255 && bits_frac(bits) != 0
}

/// Whether the pattern denotes an infinity.
pub open spec fn bits_is_infinite(bits: u32) -> bool {
    bits_exp(bits) == 255 && bits_frac(bits) == 0
}

/// Integer part of the magnitude a finite pattern denotes. A finite pattern
/// with biased exponent `e` and fraction `f` denotes the magnitude
/// `(2^23 + f) * 2^(e - 150)` when `e > 0` (and something below 1 when
/// `e == 0`), so the integer part is a shift of `2^23 + f` either way.
pub open spec fn bits_mag_trunc(bits: u32) -> int
    recommends
        bits_exp(bits) < 255,
{
    let e = bits_exp(bits);
    let f = bits_frac(bits);
    if e < 127 {
        0
    } else if e < 150 {
        (0x0080_0000 + f) / pow2((150 - e) as nat) as int
    } else {
        (0x0080_0000 + f) * pow2((e - 150) as nat)
    }
}

/// Integer part (truncation toward zero) of the value a finite pattern
/// denotes.
pub open spec fn bits_trunc(bits: u32) -> int
    recommends
        bits_exp(bits) < 255,
{
    if bits_sign(bits) == 1 {
        -bits_mag_trunc(bits)
    } else {
        bits_mag_trunc(bits)
    }
}

/// Whether the pattern denotes an exact integer (zero, or a finite value
/// whose fraction bits below the binary point are all zero).
pub open spec fn bits_is_exact_int(bits: u32) -> bool {
    let e = bits_exp(bits);
    let f = bits_frac(bits);
    ||| (e == 0 && f == 0)
    ||| (127 <= e < 150 && (0x0080_0000 + f) % pow2((150 - e) as nat) as int == 0)
    ||| (150 <= e < 255)
}

/// Clamp a mathematical integer into the 16-bit signed range.
pub open spec fn clamp_i16(x: int) -> i16 {
    if x < i16::MIN {
        i16::MIN
    } else if x > i16::MAX {
        i16::MAX
    } else {
        x as i16
    }
}

/// The 16-bit integral reading consistent with a decimal bit pattern:
/// truncation toward zero, saturated at the 16-bit bounds; not-a-number
/// maps to zero. This is exactly Rust's saturating float-to-int cast.
pub open spec fn spec_decimal_to_integral(bits: u32) -> i16 {
    if bits_is_nan(bits) {
        0i16
    } else if bits_is_infinite(bits) {
        if bits_sign(bits) == 1 {
            i16::MIN
        } else {
            i16::MAX
        }
    } else {
        clamp_i16(bits_trunc(bits))
    }
}

/// Position of the highest set bit of a positive number: the `p` with
/// `2^p <= m < 2^(p+1)`.
pub open spec fn floor_log2(m: nat) -> nat
    decreases m,
{
    if m < 2 {
        0
    } else {
        1 + floor_log2(m / 2)
    }
}

/// The decimal bit pattern that denotes a 16-bit integral reading exactly:
/// zero encodes as the all-zero pattern, and a nonzero `v` of magnitude `m`
/// with highest set bit `p` encodes with biased exponent `127 + p` and
/// fraction `m * 2^(23 - p) - 2^23`.
pub open spec fn spec_integral_to_decimal(v: i16) -> u32 {
    if v == 0 {
        0u32
    } else {
        let m = if v < 0 {
            -(v as int)
        } else {
            v as int
        };
        let p = floor_log2(m as nat);
        let s: int = if v < 0 {
            1
        } else {
            0
        };
        (s * 0x8000_0000 + (127 + p) * 0x0080_0000 + (m * pow2((23 - p) as nat) - 0x0080_0000))
            as u32
    }
}

/// `2^k` as a 32-bit word.
fn pow2_u32(k: u32) -> (r: u32)
    requires
        k <= 31,
    ensures
        r == pow2(k as nat),
{
    let mut i: u32 = 0;
    let mut r: u32 = 1;
    proof {
        lemma2_to64();
    }
    while i < k
        invariant
            i <= k <= 31,
            r == pow2(i as nat),
        decreases k - i,
    {
        proof {
            if i + 1 < 32 {
                lemma_pow2_strictly_increases((i + 1) as nat, 32nat);
            }
            lemma_pow2_adds(i as nat, 1nat);
            lemma2_to64();
        }
        r = r * 2;
        i = i + 1;
    }
    r
}

/// Truncate a decimal bit pattern to its consistent 16-bit integral
/// reading, as [`spec_decimal_to_integral`] defines it.
pub fn decimal_to_integral(bits: u32) -> (r: i16)
    ensures
        r == spec_decimal_to_integral(bits),
{
    let sign: u32 = bits / 0x8000_0000;
    let exp: u32 = (bits / 0x0080_0000) % 256;
    let frac: u32 = bits % 0x0080_0000;
    if exp == 255 {
        // Not-a-number truncates to zero; infinities saturate.
        if frac != 0 {
            0
        } else if sign == 1 {
            i16::MIN
        } else {
            i16::MAX
        }
    } else if exp < 127 {
        // Magnitude below one: the integer part is zero either way.
        0
    } else if exp >= 142 {
        // Magnitude at least 2^15: saturate at the 16-bit bounds.
        proof {
            lemma2_to64();
            let num = 0x0080_0000 + frac as int;
            if exp < 150 {
                let d = pow2((150 - exp) as nat) as int;
                lemma_pow2_pos((150 - exp) as nat);
                if exp > 142 {
                    lemma_pow2_strictly_increases((150 - exp) as nat, 8nat);
                }
                lemma_div_is_ordered_by_denominator(num, d, 256);
                lemma_div_is_ordered(0x0080_0000, num, 256);
                assert(num / 256 >= 32768);
                assert(bits_mag_trunc(bits) >= 32768);
            } else {
                let d = pow2((exp - 150) as nat) as int;
                lemma_pow2_pos((exp - 150) as nat);
                assert(num * d >= num * 1) by (nonlinear_arith)
                    requires
                        d >= 1 && num >= 0,
                ;
                assert(bits_mag_trunc(bits) >= 32768);
            }
        }
        if sign == 1 {
            i16::MIN
        } else {
            i16::MAX
        }
    } else {
        // Biased exponent in 127 .. 142: the integer part fits in 16 bits.
        let d: u32 = pow2_u32(150 - exp);
        proof {
            lemma_pow2_pos((150 - exp) as nat);
        }
        let mag: u32 = (0x0080_0000u32 + frac) / d;
        proof {
            lemma2_to64();
            let num = 0x0080_0000 + frac as int;
            lemma_pow2_pos((150 - exp) as nat);
            lemma_pow2_strictly_increases(8nat, (150 - exp) as nat);
            assert(num / (d as int) < 32768) by (nonlinear_arith)
                requires
                    num < 32768 * (d as int) && d as int > 0,
            ;
            assert(mag == bits_mag_trunc(bits));
            assert(mag <= 32767);
        }
        if sign == 1 {
            -(mag as i32) as i16
        } else {
            mag as i16
        }
    }
}

/// Encode a 16-bit integral reading as the decimal bit pattern that denotes
/// it exactly, as [`spec_integral_to_decimal`] defines it.
pub fn integral_to_decimal(v: i16) -> (r: u32)
    ensures
        r == spec_integral_to_decimal(v),
{
    if v == 0 {
        return 0;
    }
    let neg = v < 0;
    let m: u32 = if neg {
        (-(v as i32)) as u32
    } else {
        v as u32
    };
    // Find the highest set bit: t == 2^p <= m < 2^(p+1).
    let mut p: u32 = 0;
    let mut t: u32 = 1;
    proof {
        lemma2_to64();
    }
    while m >= t * 2
        invariant
            1 <= m <= 32768,
            t == pow2(p as nat),
            t <= m,
            p <= 15,
        decreases m - t,
    {
        proof {
            lemma_pow2_adds(p as nat, 1nat);
            if p + 1 < 16 {
                lemma_pow2_strictly_increases(p as nat + 1, 16nat);
            }
            lemma2_to64();
            assert(pow2(16nat) == 65536);
            // m >= 2 * t keeps t * 2 <= m, and 2^16 > 32768 >= m caps p at 15.
            assert(pow2((p + 1) as nat) <= m);
            assert(p + 1 <= 15) by {
                if p + 1 > 15 {
                    lemma_pow2_strictly_increases(15nat, (p + 1) as nat);
                }
            }
        }
        t = t * 2;
        p = p + 1;
    }
    proof {
        lemma_pow2_adds(p as nat, 1nat);
        assert(m < pow2((p + 1) as nat));
        lemma_floor_log2_unique(m as nat, p as nat);
        lemma_pow2_adds(p as nat, (23 - p) as nat);
        lemma2_to64();
        assert(m * pow2((23 - p) as nat) >= pow2(p as nat) * pow2((23 - p) as nat))
            by (nonlinear_arith)
            requires
                m >= pow2(p as nat) && pow2((23 - p) as nat) > 0,
        ;
        assert(m * pow2((23 - p) as nat) < 2 * pow2(p as nat) * pow2((23 - p) as nat))
            by (nonlinear_arith)
            requires
                m < 2 * pow2(p as nat) && pow2((23 - p) as nat) > 0,
        ;
        assert(2 * pow2(p as nat) * pow2((23 - p) as nat) == 2 * (pow2(p as nat) * pow2(
            (23 - p) as nat,
        ))) by (nonlinear_arith);
    }
    let scale: u32 = pow2_u32(23 - p);
    let mantissa: u32 = m * scale - 0x0080_0000;
    let exp_field: u32 = (127 + p) * 0x0080_0000;
    let sign_field: u32 = if neg {
        0x8000_0000
    } else {
        0
    };
    sign_field + exp_field + mantissa
}

/// A pattern assembled from fields below their bounds gives those fields
/// back.
proof fn lemma_bits_fields(s: int, e: int, man: int)
    requires
        0 <= s <= 1,
        0 <= e <= 255,
        0 <= man < 0x0080_0000,
    ensures
        0 <= s * 0x8000_0000 + e * 0x0080_0000 + man < 0x1_0000_0000,
        bits_sign((s * 0x8000_0000 + e * 0x0080_0000 + man) as u32) == s,
        bits_exp((s * 0x8000_0000 + e * 0x0080_0000 + man) as u32) == e,
        bits_frac((s * 0x8000_0000 + e * 0x0080_0000 + man) as u32) == man,
{
    let x = s * 0x8000_0000 + e * 0x0080_0000 + man;
    let rest = e * 0x0080_0000 + man;
    assert(0 <= rest < 0x8000_0000);
    let bits = x as u32;
    assert(bits as int == x);
    lemma_fundamental_div_mod_converse(x, 0x8000_0000, s, rest);
    assert(bits_sign(bits) == s);
    assert(x == (s * 256 + e) * 0x0080_0000 + man) by (nonlinear_arith)
        requires
            x == s * 0x8000_0000 + e * 0x0080_0000 + man,
    ;
    lemma_fundamental_div_mod_converse(x, 0x0080_0000, s * 256 + e, man);
    assert(bits_frac(bits) == man);
    assert((s * 256 + e) % 256 == e) by {
        vstd::arithmetic::div_mod::lemma_mod_multiples_vanish(s, e, 256);
        lemma_small_mod(e as nat, 256nat);
    }
    assert(bits_exp(bits) == e);
}

/// [`floor_log2`] finds the highest set bit: `2^p <= m < 2^(p+1)` holds of
/// `p == floor_log2(m)` for every positive `m`.
proof fn lemma_floor_log2_bounds(m: nat)
    requires
        m >= 1,
    ensures
        pow2(floor_log2(m)) <= m < pow2(floor_log2(m) + 1),
    decreases m,
{
    lemma2_to64();
    if m < 2 {
    } else {
        let q = floor_log2(m / 2);
        lemma_floor_log2_bounds(m / 2);
        lemma_fundamental_div_mod(m as int, 2);
        lemma_pow2_adds(q, 1nat);
        lemma_pow2_adds(q + 1, 1nat);
        assert(floor_log2(m) == q + 1);
        assert(pow2(q + 1) == 2 * pow2(q));
        assert(pow2(q + 2) == 2 * pow2(q + 1));
    }
}

/// The mirror law: a 16-bit integral reading encoded as a decimal bit
/// pattern denotes that integer exactly, and truncating it back gives the
/// reading unchanged.
pub proof fn lemma_integral_mirror(v: i16)
    ensures
        spec_decimal_to_integral(spec_integral_to_decimal(v)) == v,
        bits_is_exact_int(spec_integral_to_decimal(v)),
{
    lemma2_to64();
    if v == 0 {
        let bits = spec_integral_to_decimal(v);
        assert(bits == 0);
        assert(bits_exp(bits) == 0 && bits_frac(bits) == 0 && bits_sign(bits) == 0);
        assert(bits_mag_trunc(bits) == 0);
    } else {
        let m = if v < 0 {
            -(v as int)
        } else {
            v as int
        };
        assert(1 <= m <= 32768);
        let p = floor_log2(m as nat);
        lemma_floor_log2_bounds(m as nat);
        assert(p <= 15) by {
            if p > 15 {
                lemma_pow2_strictly_increases(15nat, p);
            }
        }
        let s: int = if v < 0 {
            1
        } else {
            0
        };
        let scale = pow2((23 - p) as nat) as int;
        lemma_pow2_pos((23 - p) as nat);
        lemma_pow2_adds(p, (23 - p) as nat);
        assert(m * scale >= pow2(p) * scale) by (nonlinear_arith)
            requires
                m >= pow2(p) && scale > 0,
        ;
        assert(m * scale < 2 * pow2(p) * scale) by (nonlinear_arith)
            requires
                m < 2 * pow2(p) && scale > 0,
        ;
        assert(2 * pow2(p) * scale == 2 * (pow2(p) * scale)) by (nonlinear_arith);
        let man = m * scale - 0x0080_0000;
        assert(0 <= man < 0x0080_0000);
        let e = 127 + p;
        lemma_bits_fields(s, e as int, man);
        let bits = spec_integral_to_decimal(v);
        assert(bits as int == s * 0x8000_0000 + e * 0x0080_0000 + man);
        assert(bits_sign(bits) == s && bits_exp(bits) == e && bits_frac(bits) == man);
        assert(127 <= e <= 142);
        assert((150 - e) as nat == (23 - p) as nat);
        assert(0x0080_0000 + man == m * scale);
        lemma_div_by_multiple(m, scale);
        assert(bits_mag_trunc(bits) == m);
        assert(bits_trunc(bits) == v);
        assert(clamp_i16(v as int) == v);
        lemma_mod_multiples_basic(m, scale);
        assert(bits_is_exact_int(bits));
    }
}

/// A positive number determines its highest set bit: `2^p <= m < 2^(p+1)`
/// pins `p` as [`floor_log2`].
proof fn lemma_floor_log2_unique(m: nat, p: nat)
    requires
        pow2(p) <= m < pow2(p + 1),
    ensures
        floor_log2(m) == p,
    decreases p,
{
    lemma2_to64();
    if p == 0 {
        assert(m == 1);
    } else {
        lemma_pow2_adds((p - 1) as nat, 1nat);
        lemma_pow2_adds(p, 1nat);
        lemma_pow2_pos((p - 1) as nat);
        assert(pow2(p) == 2 * pow2((p - 1) as nat));
        assert(pow2(p + 1) == 2 * pow2(p));
        assert(m >= 2);
        lemma_fundamental_div_mod(m as int, 2);
        lemma_div_is_ordered(pow2(p) as int, m as int, 2);
        lemma_div_multiples_vanish(pow2((p - 1) as nat) as int, 2);
        assert(pow2((p - 1) as nat) <= m / 2 < pow2(p));
        lemma_floor_log2_unique(m / 2, (p - 1) as nat);
    }
}

} // verus!
