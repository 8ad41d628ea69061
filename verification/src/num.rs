//! The numeric payload of the language: IEEE-754 double-precision values,
//! carried as their 64-bit patterns.
//!
//! Comparison and negation are pure bit logic and are implemented and proved
//! here. Rounded arithmetic and decimal formatting are beyond a few lines of
//! specification; they are delegated to `rustc_apfloat`'s software floats,
//! whose results are named by uninterpreted functions.
use vstd::prelude::*;

use rustc_apfloat::Float;
use rustc_apfloat::ieee::Double;

verus! {

/// The sign bit of a double's bit pattern.
pub open spec fn sign_bit(b: u64) -> bool {
    b >= 0x8000_0000_0000_0000
}

/// The bit pattern with the sign bit cleared.
pub open spec fn abs_bits(b: u64) -> u64 {
    if b >= 0x8000_0000_0000_0000 {
        (b - 0x8000_0000_0000_0000) as u64
    } else {
        b
    }
}

/// The pattern encodes a NaN: exponent all ones, mantissa nonzero.
pub open spec fn is_nan_bits(b: u64) -> bool {
    abs_bits(b) > 0x7ff0_0000_0000_0000
}

/// The pattern encodes positive or negative zero.
pub open spec fn is_zero_bits(b: u64) -> bool {
    abs_bits(b) == 0
}

/// IEEE-754 equality of two doubles given by their bit patterns: NaN equals
/// nothing, the two zeros are equal, and every other value equals only its
/// own pattern.
pub open spec fn ieee_eq(a: u64, b: u64) -> bool {
    &&& !is_nan_bits(a)
    &&& !is_nan_bits(b)
    &&& (a == b || (is_zero_bits(a) && is_zero_bits(b)))
}

/// Every non-NaN double ordered on the integer line: magnitude, negated for
/// negative signs. Both zeros map to 0.
pub open spec fn num_key(b: u64) -> int {
    if sign_bit(b) {
        -(abs_bits(b) as int)
    } else {
        abs_bits(b) as int
    }
}

/// IEEE-754 `<` on bit patterns: false whenever a NaN is involved.
pub open spec fn ieee_lt(a: u64, b: u64) -> bool {
    &&& !is_nan_bits(a)
    &&& !is_nan_bits(b)
    &&& num_key(a) < num_key(b)
}

/// IEEE-754 `<=` on bit patterns: false whenever a NaN is involved.
pub open spec fn ieee_le(a: u64, b: u64) -> bool {
    &&& !is_nan_bits(a)
    &&& !is_nan_bits(b)
    &&& num_key(a) <= num_key(b)
}

/// IEEE-754 negation: the sign bit flipped, whatever the value.
pub open spec fn neg_bits(b: u64) -> u64 {
    if b >= 0x8000_0000_0000_0000 {
        (b - 0x8000_0000_0000_0000) as u64
    } else {
        (b + 0x8000_0000_0000_0000) as u64
    }
}

/// Whether the pattern encodes a NaN.
pub fn nan_bits(b: u64) -> (r: bool)
    ensures
        r == is_nan_bits(b),
{
    let m = if b >= 0x8000_0000_0000_0000 {
        b - 0x8000_0000_0000_0000
    } else {
        b
    };
    m > 0x7ff0_0000_0000_0000
}

/// IEEE-754 equality of two doubles given as bit patterns.
pub fn eq_bits(a: u64, b: u64) -> (r: bool)
    ensures
        r == ieee_eq(a, b),
{
    if nan_bits(a) || nan_bits(b) {
        false
    } else {
        let ma = if a >= 0x8000_0000_0000_0000 {
            a - 0x8000_0000_0000_0000
        } else {
            a
        };
        let mb = if b >= 0x8000_0000_0000_0000 {
            b - 0x8000_0000_0000_0000
        } else {
            b
        };
        a == b || (ma == 0 && mb == 0)
    }
}

/// IEEE-754 `<` of two doubles given as bit patterns.
pub fn lt_bits(a: u64, b: u64) -> (r: bool)
    ensures
        r == ieee_lt(a, b),
{
    if nan_bits(a) || nan_bits(b) {
        return false;
    }
    let sa = a >= 0x8000_0000_0000_0000;
    let sb = b >= 0x8000_0000_0000_0000;
    let ma = if sa {
        a - 0x8000_0000_0000_0000
    } else {
        a
    };
    let mb = if sb {
        b - 0x8000_0000_0000_0000
    } else {
        b
    };
    if sa {
        if sb {
            mb < ma
        } else {
            !(ma == 0 && mb == 0)
        }
    } else {
        if sb {
            false
        } else {
            ma < mb
        }
    }
}

/// IEEE-754 `<=` of two doubles given as bit patterns.
pub fn le_bits(a: u64, b: u64) -> (r: bool)
    ensures
        r == ieee_le(a, b),
{
    if nan_bits(a) || nan_bits(b) {
        false
    } else {
        !lt_bits(b, a)
    }
}

/// IEEE-754 negation of a double given as a bit pattern.
pub fn negate_bits(b: u64) -> (r: u64)
    ensures
        r == neg_bits(b),
{
    if b >= 0x8000_0000_0000_0000 {
        b - 0x8000_0000_0000_0000
    } else {
        b + 0x8000_0000_0000_0000
    }
}

/// The bit pattern of the rounded IEEE-754 sum of the doubles encoded by
/// the two argument patterns.
pub uninterp spec fn add_bits(a: u64, b: u64) -> u64;

/// The bit pattern of the rounded IEEE-754 difference.
pub uninterp spec fn sub_bits(a: u64, b: u64) -> u64;

/// The bit pattern of the rounded IEEE-754 product.
pub uninterp spec fn mul_bits(a: u64, b: u64) -> u64;

/// The bit pattern of the rounded IEEE-754 quotient.
pub uninterp spec fn div_bits(a: u64, b: u64) -> u64;

/// The decimal rendering of the double encoded by the pattern.
pub uninterp spec fn num_str(b: u64) -> Seq<char>;

/// Relies on rustc_apfloat's IEEE double addition, rounding to nearest even:
/// the result depends on the operand bit patterns alone.
#[verifier::external_body]
pub fn exec_add_bits(a: u64, b: u64) -> (r: u64)
    ensures
        r == add_bits(a, b),
{
    (Double::from_bits(a as u128) + Double::from_bits(b as u128)).value.to_bits() as u64
}

/// Relies on rustc_apfloat's IEEE double subtraction, rounding to nearest
/// even: the result depends on the operand bit patterns alone.
#[verifier::external_body]
pub fn exec_sub_bits(a: u64, b: u64) -> (r: u64)
    ensures
        r == sub_bits(a, b),
{
    (Double::from_bits(a as u128) - Double::from_bits(b as u128)).value.to_bits() as u64
}

/// Relies on rustc_apfloat's IEEE double multiplication, rounding to nearest
/// even: the result depends on the operand bit patterns alone.
#[verifier::external_body]
pub fn exec_mul_bits(a: u64, b: u64) -> (r: u64)
    ensures
        r == mul_bits(a, b),
{
    (Double::from_bits(a as u128) * Double::from_bits(b as u128)).value.to_bits() as u64
}

/// Relies on rustc_apfloat's IEEE double division, rounding to nearest even:
/// the result depends on the operand bit patterns alone.
#[verifier::external_body]
pub fn exec_div_bits(a: u64, b: u64) -> (r: u64)
    ensures
        r == div_bits(a, b),
{
    (Double::from_bits(a as u128) / Double::from_bits(b as u128)).value.to_bits() as u64
}

/// Relies on rustc_apfloat's Display for IEEE doubles: the decimal rendering
/// depends on the bit pattern alone.
#[verifier::external_body]
pub fn exec_num_str(b: u64) -> (r: String)
    ensures
        r@ == num_str(b),
{
    format!("{}", Double::from_bits(b as u128))
}

/// Relies on String::push_str: the result is the left string followed by the
/// right one.
#[verifier::external_body]
pub fn str_concat(a: &String, b: &String) -> (r: String)
    ensures
        r@ == a@ + b@,
{
    let mut r = a.clone();
    r.push_str(b.as_str());
    r
}

} // verus!
