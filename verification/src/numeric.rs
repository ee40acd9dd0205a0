//! Tagged numbers for timestamps and quantities.
//!
//! A [`BigNumber`] is either an integral 64-bit value or a fractional value
//! carried as the bit pattern of an IEEE 754 double (sign, 11 exponent bits,
//! 52 fraction bits).  The specification functions below read such a bit
//! pattern directly, so both conversions are verified integer arithmetic:
//! no floating-point operation is performed anywhere in this crate.

use vstd::arithmetic::div_mod::{
    lemma_basic_div, lemma_div_denominator, lemma_div_is_ordered, lemma_div_multiples_vanish,
    lemma_fundamental_div_mod, lemma_mod_multiples_basic,
};
use vstd::arithmetic::mul::{
    lemma_mul_inequality, lemma_mul_is_commutative, lemma_mul_strict_inequality,
};
use vstd::arithmetic::power2::{
    lemma2_to64, lemma2_to64_rest, lemma_pow2_adds, lemma_pow2_pos,
    lemma_pow2_strictly_increases, pow2,
};
use vstd::bits::{
    lemma_u64_low_bits_mask_is_mod, lemma_u64_shl_is_mul, lemma_u64_shr_is_div, low_bits_mask,
};
use vstd::prelude::*;

verus! {

/// Fraction field: the low 52 bits of a double's bit pattern.
pub open spec fn bits_frac(b: u64) -> u64 {
    b & 0x000f_ffff_ffff_ffff
}

/// Biased exponent field: the 11 bits above the fraction.
pub open spec fn bits_exp(b: u64) -> u64 {
    (b >> 52) & 0x7ff
}

/// Sign bit: true for a negative value.
pub open spec fn bits_sign_neg(b: u64) -> bool {
    (b >> 63) == 1
}

/// A bit pattern encodes a finite value unless its exponent field is all ones.
pub open spec fn bits_is_finite(b: u64) -> bool {
    bits_exp(b) != 0x7ff
}

/// All-ones exponent with a non-zero fraction encodes a NaN.
pub open spec fn bits_is_nan(b: u64) -> bool {
    bits_exp(b) == 0x7ff && bits_frac(b) != 0
}

/// Significand of a finite value.  The encoded magnitude is
/// `bits_sig(b) * 2^(bits_exp(b) - 1075)` for a normal value (implicit
/// leading one) and `bits_frac(b) * 2^(-1074)` for a subnormal one.
pub open spec fn bits_sig(b: u64) -> nat {
    if bits_exp(b) == 0 {
        bits_frac(b) as nat
    } else {
        (bits_frac(b) + 0x0010_0000_0000_0000) as nat
    }
}

/// Magnitude of a finite value truncated toward zero: the significand is
/// scaled by its power of two, and integer division discards any fraction.
pub open spec fn trunc_abs(b: u64) -> nat {
    if bits_exp(b) == 0 {
        bits_frac(b) as nat / pow2(1074)
    } else if bits_exp(b) >= 1075 {
        bits_sig(b) * pow2((bits_exp(b) - 1075) as nat)
    } else {
        bits_sig(b) / pow2((1075 - bits_exp(b)) as nat)
    }
}

/// Signed truncation toward zero of a finite value.
pub open spec fn float_trunc(b: u64) -> int {
    if bits_sign_neg(b) {
        -(trunc_abs(b) as int)
    } else {
        trunc_abs(b) as int
    }
}

/// A finite bit pattern whose value is exactly an integer: no significand
/// bit falls below the binary point.
pub open spec fn bits_is_exact_int(b: u64) -> bool {
    bits_is_finite(b) && if bits_exp(b) == 0 {
        bits_frac(b) as nat % pow2(1074) == 0
    } else if bits_exp(b) >= 1075 {
        true
    } else {
        bits_sig(b) % pow2((1075 - bits_exp(b)) as nat) == 0
    }
}

/// What a saturating cast of the encoded double to `i64` yields: NaN goes to
/// zero, anything beyond the representable range stops at the nearest bound,
/// and every other value is truncated toward zero.
pub open spec fn float_to_i64(b: u64) -> i64 {
    if bits_is_nan(b) {
        0
    } else if !bits_is_finite(b) {
        if bits_sign_neg(b) {
            i64::MIN
        } else {
            i64::MAX
        }
    } else if float_trunc(b) < i64::MIN {
        i64::MIN
    } else if float_trunc(b) > i64::MAX {
        i64::MAX
    } else {
        float_trunc(b) as i64
    }
}

/// A timestamp, amount or length: either a whole number or the bit pattern
/// of an IEEE 754 double.
#[derive(Clone, Copy, Debug, PartialEq, Eq, Structural)]
pub enum BigNumber {
    /// An integral value.
    Int(i64),
    /// A fractional value, as the bits of an IEEE 754 double.
    Float(u64),
}

/// A typed default value that can be attached to an entity.
#[derive(Clone, Debug, PartialEq)]
pub enum Datatype {
    /// A text value.
    Text(String),
    /// An integral value.
    Int(i64),
    /// A fractional value, as the bits of an IEEE 754 double.
    Float(u64),
    /// A boolean value.
    Bool(bool),
    /// No value.
    Null,
}

impl BigNumber {
    /// Truncates the number toward zero into an `i64`; an integral value is
    /// returned as it is, a fractional one is truncated with saturation.
    pub fn covnvert_to_int(&self) -> (r: i64)
        ensures
            match *self {
                BigNumber::Int(i) => r == i,
                BigNumber::Float(b) => r == float_to_i64(b),
            },
    {
        match self {
            BigNumber::Int(i) => *i,
            BigNumber::Float(b) => float_bits_to_i64(*b),
        }
    }

    /// Widens the number to the bit pattern of an IEEE 754 double; a
    /// fractional value is returned as it is, an integral value is rounded
    /// to the nearest representable double (ties to even), which is exact
    /// for any magnitude up to `2^53`.
    pub fn covnvert_to_float(&self) -> (r: u64)
        ensures
            match *self {
                BigNumber::Float(b) => r == b,
                BigNumber::Int(i) => {
                    &&& bits_is_finite(r)
                    &&& bits_is_exact_int(r)
                    &&& (bits_sign_neg(r) <==> i < 0)
                    &&& (-0x20_0000_0000_0000 <= i <= 0x20_0000_0000_0000 ==> float_trunc(r)
                        == i)
                    &&& (i > 0x20_0000_0000_0000 || i < -0x20_0000_0000_0000 ==> {
                        &&& bits_exp(r) >= 1075
                        &&& 2 * abs_diff(float_trunc(r), i as int) <= pow2(
                            (bits_exp(r) - 1075) as nat,
                        )
                    })
                },
            },
    {
        match self {
            BigNumber::Float(b) => *b,
            BigNumber::Int(i) => i64_to_float_bits(*i),
        }
    }

    /// The boundary coercion ladder for a dynamically typed host number: an
    /// integral reading is preferred, a fractional reading is tried second,
    /// and a value that supports neither is rejected.
    pub fn from_host_number(integral: Option<i64>, fractional_bits: Option<u64>) -> (r: Option<
        BigNumber,
    >)
        ensures
            match integral {
                Some(i) => r == Some(BigNumber::Int(i)),
                None => match fractional_bits {
                    Some(b) => r == Some(BigNumber::Float(b)),
                    None => r is None,
                },
            },
    {
        match integral {
            Some(i) => Some(BigNumber::Int(i)),
            None => match fractional_bits {
                Some(b) => Some(BigNumber::Float(b)),
                None => None,
            },
        }
    }
}

/// Round-trip law: a finite bit pattern whose truncation toward zero is the
/// `i64` value `i` converts to exactly `i`, with no saturation.  Together
/// with the exactness clause of [`BigNumber::covnvert_to_float`], an
/// integral value of magnitude at most `2^53` that is widened to a
/// fractional bit pattern truncates back to itself.
pub proof fn lemma_float_int_roundtrip(b: u64, i: i64)
    requires
        bits_is_finite(b),
        float_trunc(b) == i as int,
    ensures
        float_to_i64(b) == i,
{
}

/// Absolute difference of two mathematical integers.
pub open spec fn abs_diff(a: int, b: int) -> int {
    if a >= b {
        a - b
    } else {
        b - a
    }
}

/// Truncating, saturating conversion of a double's bit pattern to `i64`,
/// carried out on the fields of the pattern.
fn float_bits_to_i64(b: u64) -> (r: i64)
    ensures
        r == float_to_i64(b),
{
    let exp: u64 = (b >> 52) & 0x7ff;
    let frac: u64 = b & 0x000f_ffff_ffff_ffff;
    let neg: bool = (b >> 63) == 1;
    proof {
        assert(frac <= 0x000f_ffff_ffff_ffff && exp <= 0x7ff) by (bit_vector)
            requires
                frac == b & 0x000f_ffff_ffff_ffff,
                exp == (b >> 52) & 0x7ff,
        ;
        lemma2_to64();
        lemma2_to64_rest();
    }
    if exp == 0x7ff {
        // Infinity saturates; NaN becomes zero.
        if frac != 0 {
            0
        } else if neg {
            i64::MIN
        } else {
            i64::MAX
        }
    } else if exp < 1023 {
        // The magnitude is below one, so truncation yields zero.
        proof {
            if exp == 0 {
                lemma_pow2_strictly_increases(52, 1074);
                lemma_basic_div(frac as int, pow2(1074) as int);
            } else {
                if exp < 1022 {
                    lemma_pow2_strictly_increases(53, (1075 - exp) as nat);
                }
                lemma_basic_div(bits_sig(b) as int, pow2((1075 - exp) as nat) as int);
            }
        }
        0
    } else {
        let e: u64 = exp - 1023;
        if e >= 63 {
            // The truncated magnitude is at least 2^63: saturate.
            proof {
                lemma_pow2_adds(52, (exp - 1075) as nat);
                lemma_mul_inequality(
                    pow2(52) as int,
                    bits_sig(b) as int,
                    pow2((exp - 1075) as nat) as int,
                );
                lemma_pow2_pos((exp - 1075) as nat);
                if e > 63 {
                    lemma_pow2_strictly_increases(63, e as nat);
                }
                assert(trunc_abs(b) >= pow2(63));
            }
            if neg {
                i64::MIN
            } else {
                i64::MAX
            }
        } else {
            let sig: u64 = frac + 0x0010_0000_0000_0000;
            let mag: u64 = if e >= 52 {
                proof {
                    lemma_pow2_adds(53, (e - 52) as nat);
                    lemma_mul_strict_inequality(
                        sig as int,
                        pow2(53) as int,
                        pow2((e - 52) as nat) as int,
                    );
                    lemma_pow2_pos((e - 52) as nat);
                    if e < 62 {
                        lemma_pow2_strictly_increases((e + 1) as nat, 63);
                    }
                    lemma_u64_shl_is_mul(sig, (e - 52) as u64);
                }
                sig << (e - 52)
            } else {
                proof {
                    lemma_u64_shr_is_div(sig, (52 - e) as u64);
                    lemma_pow2_pos((52 - e) as nat);
                    lemma_div_is_ordered_self(sig as int, pow2((52 - e) as nat) as int);
                }
                sig >> (52 - e)
            };
            proof {
                assert(mag as nat == trunc_abs(b));
                assert(mag < pow2(63));
            }
            if neg {
                -(mag as i64)
            } else {
                mag as i64
            }
        }
    }
}

/// Division by a positive divisor cannot grow a non-negative dividend.
proof fn lemma_div_is_ordered_self(x: int, d: int)
    requires
        0 <= x,
        0 < d,
    ensures
        x / d <= x,
{
    lemma_fundamental_div_mod(x, d);
    if x / d > x {
        lemma_mul_inequality(1, d, x / d);
    }
}

/// Rounds an `i64` to the nearest IEEE 754 double (ties to even) and returns
/// its bit pattern, built field by field with integer arithmetic.
fn i64_to_float_bits(i: i64) -> (r: u64)
    ensures
        bits_is_finite(r),
        bits_is_exact_int(r),
        bits_sign_neg(r) <==> i < 0,
        -0x20_0000_0000_0000 <= i <= 0x20_0000_0000_0000 ==> float_trunc(r) == i as int,
        i > 0x20_0000_0000_0000 || i < -0x20_0000_0000_0000 ==> {
            &&& bits_exp(r) >= 1075
            &&& 2 * abs_diff(float_trunc(r), i as int) <= pow2((bits_exp(r) - 1075) as nat)
        },
{
    if i == 0 {
        proof {
            assert(((0u64 >> 52) & 0x7ff) == 0 && (0u64 & 0x000f_ffff_ffff_ffff) == 0 && (0u64
                >> 63) == 0) by (bit_vector);
            lemma_pow2_pos(1074);
            lemma_basic_div(0, pow2(1074) as int);
        }
        return 0;
    }
    let neg: bool = i < 0;
    let mag: u64 = if i < 0 {
        (-(i as i128)) as u64
    } else {
        i as u64
    };
    // Position of the leading one bit: afterwards pow2(e) <= mag < pow2(e + 1).
    let mut e: u64 = 0;
    let mut t: u64 = mag;
    proof {
        lemma2_to64();
        lemma2_to64_rest();
    }
    while t >= 2
        invariant
            1 <= t,
            e < 64,
            t as nat == mag as nat / pow2(e as nat),
            pow2(e as nat) <= mag as nat,
        decreases t,
    {
        proof {
            lemma_pow2_pos(e as nat);
            lemma_pow2_pos((e + 1) as nat);
            lemma_pow2_adds(e as nat, 1);
            lemma2_to64();
            lemma_div_denominator(mag as int, pow2(e as nat) as int, 2);
            lemma_fundamental_div_mod(mag as int, pow2((e + 1) as nat) as int);
            assert(pow2((e + 1) as nat) <= mag as nat) by {
                lemma_mul_inequality(
                    1,
                    (mag as nat / pow2((e + 1) as nat)) as int,
                    pow2((e + 1) as nat) as int,
                );
            }
            assert(((e + 1) as nat) < 64) by {
                if e + 1 == 64 {
                    lemma2_to64_rest();
                }
            }
        }
        t = t / 2;
        e = e + 1;
    }
    proof {
        lemma_pow2_pos(e as nat);
        lemma_fundamental_div_mod(mag as int, pow2(e as nat) as int);
        lemma_pow2_adds(e as nat, 1);
        lemma2_to64();
        assert((mag as nat) < pow2((e + 1) as nat));
    }
    let sbit: u64 = if neg {
        0x8000_0000_0000_0000
    } else {
        0
    };
    if e <= 52 {
        // Exact: every bit of the magnitude fits in the 53-bit significand.
        proof {
            lemma_pow2_adds(e as nat, (52 - e) as nat);
            lemma_pow2_adds((e + 1) as nat, (52 - e) as nat);
            lemma2_to64_rest();
            lemma_pow2_pos((52 - e) as nat);
            lemma_mul_inequality(
                pow2(e as nat) as int,
                mag as int,
                pow2((52 - e) as nat) as int,
            );
            lemma_mul_strict_inequality(
                mag as int,
                pow2((e + 1) as nat) as int,
                pow2((52 - e) as nat) as int,
            );
            lemma_u64_shl_is_mul(mag, (52 - e) as u64);
        }
        let m: u64 = mag << (52 - e);
        let ee: u64 = e + 1023;
        let fr: u64 = m - 0x0010_0000_0000_0000;
        let r: u64 = sbit | (ee << 52) | fr;
        proof {
            lemma2_to64();
            assert(pow2(52) <= m < pow2(53));
            lemma_bits_compose(r, sbit, ee, fr, m);
            // The significand is the magnitude scaled up; dividing it back
            // down is exact.
            assert(trunc_abs(r) == mag as nat) by {
                lemma_pow2_pos((52 - e) as nat);
                if e == 52 {
                    vstd::arithmetic::mul::lemma_mul_basics(m as int);
                    assert(trunc_abs(r) == bits_sig(r) * pow2(0));
                } else {
                    assert(trunc_abs(r) == bits_sig(r) / pow2((52 - e) as nat));
                    lemma_mul_is_commutative(mag as int, pow2((52 - e) as nat) as int);
                    lemma_div_multiples_vanish(mag as int, pow2((52 - e) as nat) as int);
                }
            }
            assert(bits_is_exact_int(r)) by {
                lemma_mod_multiples_basic(mag as int, pow2((52 - e) as nat) as int);
            }
            assert((mag as nat) <= pow2(53)) by {
                if e < 52 {
                    lemma_pow2_strictly_increases((e + 1) as nat, 53);
                }
            }
        }
        r
    } else {
        // Round the magnitude to 53 significant bits, ties to even.
        let sh: u64 = e - 52;
        proof {
            lemma2_to64();
            lemma2_to64_rest();
            lemma_pow2_pos(sh as nat);
            lemma_pow2_pos((sh - 1) as nat);
            lemma_pow2_strictly_increases(sh as nat, 12);
            lemma_pow2_strictly_increases((sh - 1) as nat, 12);
            lemma_u64_shl_is_mul(1u64, sh);
            lemma_u64_shl_is_mul(1u64, (sh - 1) as u64);
        }
        let q: u64 = mag >> sh;
        let mask: u64 = (1u64 << sh) - 1;
        let rem: u64 = mag & mask;
        let half: u64 = 1u64 << (sh - 1);
        proof {
            lemma_u64_shr_is_div(mag, sh);
            lemma_pow2_adds((sh - 1) as nat, 1);
            assert(mask == low_bits_mask(sh as nat));
            lemma_u64_low_bits_mask_is_mod(mag, sh as nat);
            assert(rem == mag as nat % pow2(sh as nat));
            lemma_fundamental_div_mod(mag as int, pow2(sh as nat) as int);
            lemma_mul_is_commutative(q as int, pow2(sh as nat) as int);
            assert(mag as nat == q * pow2(sh as nat) + rem);
            lemma_div_bounds(mag as nat, e as nat, sh as nat);
            assert(pow2(52) <= q < pow2(53));
        }
        let round_up: bool = rem > half || (rem == half && (q & 1) == 1);
        let mut m: u64 = q;
        let mut ee: u64 = e + 1023;
        let mut shv: u64 = sh;
        if round_up {
            m = m + 1;
            if m == 0x0020_0000_0000_0000 {
                m = 0x0010_0000_0000_0000;
                ee = ee + 1;
                shv = shv + 1;
                proof {
                    lemma_pow2_adds(52, (sh + 1) as nat);
                    lemma_pow2_adds(53, sh as nat);
                    assert(m * pow2(shv as nat) == (q + 1) * pow2(sh as nat));
                }
            } else {
                proof {
                    assert(m * pow2(shv as nat) == (q + 1) * pow2(sh as nat));
                }
            }
        }
        let fr: u64 = m - 0x0010_0000_0000_0000;
        let r: u64 = sbit | (ee << 52) | fr;
        proof {
            assert(pow2(52) <= m < pow2(53));
            lemma_bits_compose(r, sbit, ee, fr, m);
            assert(bits_exp(r) == ee && ee >= 1075);
            assert(trunc_abs(r) == m * pow2(shv as nat));
            // Error analysis: the kept value differs from the magnitude by at
            // most half a unit in the last place.
            lemma_round_error(
                mag as nat,
                q as nat,
                rem as nat,
                half as nat,
                sh as nat,
                shv as nat,
                m as nat,
                round_up,
            );
            assert(2 * abs_diff(trunc_abs(r) as int, mag as int) <= pow2(shv as nat));
            // A magnitude of exactly 2^53 splits without remainder, so the
            // exactness promise extends to that bound.
            if mag == 0x0020_0000_0000_0000 {
                assert(sh == 1 && rem == mag as nat % pow2(1));
                assert(pow2(53) % pow2(1) == 0) by {
                    lemma_pow2_adds(52, 1);
                    lemma_mod_multiples_basic(pow2(52) as int, pow2(1) as int);
                }
                assert(trunc_abs(r) == mag as nat);
            }
        }
        r
    }
}

/// After splitting `mag = q * 2^sh + rem` below a leading-one position `e`,
/// the quotient lies in the 53-bit significand range.
proof fn lemma_div_bounds(mag: nat, e: nat, sh: nat)
    requires
        sh == e - 52,
        52 < e < 64,
        pow2(e) <= mag < pow2(e + 1),
    ensures
        pow2(52) <= mag / pow2(sh) < pow2(53),
{
    lemma_pow2_pos(sh);
    lemma_pow2_adds(52, sh);
    lemma_pow2_adds(53, sh);
    assert(pow2(e) == pow2(52) * pow2(sh));
    lemma_div_is_ordered(pow2(e) as int, mag as int, pow2(sh) as int);
    lemma_mul_is_commutative(pow2(52) as int, pow2(sh) as int);
    lemma_div_multiples_vanish(pow2(52) as int, pow2(sh) as int);
    assert(pow2(e) as int / pow2(sh) as int == pow2(52) as int);
    assert(pow2(52) <= mag / pow2(sh));
    if mag / pow2(sh) >= pow2(53) {
        lemma_fundamental_div_mod(mag as int, pow2(sh) as int);
        lemma_mul_inequality(pow2(53) as int, (mag as int / pow2(sh) as int), pow2(sh) as int);
        lemma_mul_is_commutative((mag as int / pow2(sh) as int), pow2(sh) as int);
        assert(pow2(53) * pow2(sh) <= mag);
        assert(false);
    }
}

/// Rounding to the nearest multiple of `2^sh` (ties to even) leaves an error
/// of at most half that unit, also when the rounded significand overflows
/// into the next binade.
proof fn lemma_round_error(
    mag: nat,
    q: nat,
    rem: nat,
    half: nat,
    sh: nat,
    shv: nat,
    m: nat,
    round_up: bool,
)
    requires
        0 < sh < 12,
        half == pow2((sh - 1) as nat),
        rem < pow2(sh),
        mag == q * pow2(sh) + rem,
        !round_up ==> rem <= half && m * pow2(shv) == q * pow2(sh),
        round_up ==> rem >= half && m * pow2(shv) == (q + 1) * pow2(sh),
        shv == sh || shv == sh + 1,
    ensures
        2 * abs_diff((m * pow2(shv)) as int, mag as int) <= pow2(shv),
{
    lemma_pow2_adds((sh - 1) as nat, 1);
    lemma2_to64();
    if shv == sh + 1 {
        lemma_pow2_adds(sh, 1);
    }
    if round_up {
        assert((q + 1) * pow2(sh) == q * pow2(sh) + pow2(sh)) by (nonlinear_arith);
        assert(m * pow2(shv) - mag == pow2(sh) - rem);
    } else {
        assert(mag - m * pow2(shv) == rem);
    }
}

/// The exponent, fraction and sign fields of a composed bit pattern read
/// back as the pieces it was composed from.
proof fn lemma_bits_compose(r: u64, sbit: u64, ee: u64, fr: u64, m: u64)
    requires
        r == sbit | (ee << 52) | fr,
        sbit == 0 || sbit == 0x8000_0000_0000_0000,
        0 < ee < 0x7ff,
        fr < 0x0010_0000_0000_0000,
        m == fr + 0x0010_0000_0000_0000,
    ensures
        bits_exp(r) == ee,
        bits_frac(r) == fr,
        bits_sign_neg(r) <==> sbit != 0,
        bits_is_finite(r),
        bits_sig(r) == m,
{
    assert(((sbit | (ee << 52) | fr) >> 52) & 0x7ff == ee && (sbit | (ee << 52) | fr)
        & 0x000f_ffff_ffff_ffff == fr && ((sbit | (ee << 52) | fr) >> 63 == 1 <==> sbit != 0))
        by (bit_vector)
        requires
            sbit == 0 || sbit == 0x8000_0000_0000_0000,
            0 < ee < 0x7ff,
            fr < 0x0010_0000_0000_0000,
    ;
}

} // verus!
