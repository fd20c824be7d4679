//! IEEE-754 binary64 numbers, held by their bit patterns.
//!
//! Everything here is decided on the 64 bits alone: classification, sign,
//! ordering and the conversions to `i64`. Arithmetic and the conversions
//! between doubles and decimal text are not computed in this crate; see
//! `float_table`.

use vstd::prelude::*;

verus! {

/// The sign bit.
pub const SIGN_BIT: u64 = 0x8000_0000_0000_0000;

/// Everything but the sign bit.
pub const MAGNITUDE_MASK: u64 = 0x7fff_ffff_ffff_ffff;

/// The bit pattern of positive infinity; larger magnitudes are NaN.
pub const INFINITY_BITS: u64 = 0x7ff0_0000_0000_0000;

/// The bit pattern of negative infinity.
pub const NEG_INFINITY_BITS: u64 = 0xfff0_0000_0000_0000;

/// The quiet NaN that results from a failed conversion.
pub const NAN_BITS: u64 = 0x7ff8_0000_0000_0000;

/// The bit pattern of `1.0`.
pub const ONE_BITS: u64 = 0x3ff0_0000_0000_0000;

/// The bit pattern of `0.0`.
pub const ZERO_BITS: u64 = 0;

/// The fraction field.
pub const FRACTION_MASK: u64 = 0x000f_ffff_ffff_ffff;

/// The implicit leading bit of a normal number's significand.
pub const HIDDEN_BIT: u64 = 0x0010_0000_0000_0000;

/// The pattern without its sign.
pub open spec fn magnitude(bits: u64) -> u64 {
    bits & MAGNITUDE_MASK
}

/// Whether the sign bit is set.
pub open spec fn is_negative(bits: u64) -> bool {
    bits & SIGN_BIT != 0
}

/// Whether the pattern is a NaN: exponent all ones, fraction not zero.
pub open spec fn is_nan(bits: u64) -> bool {
    magnitude(bits) > INFINITY_BITS
}

/// Whether the pattern is `+0.0` or `-0.0`.
pub open spec fn is_zero(bits: u64) -> bool {
    magnitude(bits) == 0
}

/// Whether the pattern is neither infinite nor NaN.
pub open spec fn is_finite(bits: u64) -> bool {
    magnitude(bits) < INFINITY_BITS
}

/// The place of a non-NaN pattern on the number line, as an integer that
/// grows with the number: both zeros are 0.
pub open spec fn order_key(bits: u64) -> int {
    if is_negative(bits) {
        -(magnitude(bits) as int)
    } else {
        magnitude(bits) as int
    }
}

/// IEEE equality: NaN equals nothing, the two zeros are equal.
pub open spec fn float_eq(a: u64, b: u64) -> bool {
    !is_nan(a) && !is_nan(b) && order_key(a) == order_key(b)
}

/// IEEE less-than: false whenever a NaN is involved.
pub open spec fn float_lt(a: u64, b: u64) -> bool {
    !is_nan(a) && !is_nan(b) && order_key(a) < order_key(b)
}

/// IEEE less-or-equal: false whenever a NaN is involved.
pub open spec fn float_le(a: u64, b: u64) -> bool {
    !is_nan(a) && !is_nan(b) && order_key(a) <= order_key(b)
}

/// The biased exponent field.
pub open spec fn exponent_field(bits: u64) -> u64 {
    (bits >> 52) & 0x7ff
}

/// The significand of a normal number, hidden bit included.
pub open spec fn significand(bits: u64) -> u64 {
    (bits & FRACTION_MASK) | HIDDEN_BIT
}

/// The whole part of the number's absolute value, for the numbers whose
/// absolute value is below 2^63, and 0 for the others; fractions are cut off.
pub open spec fn whole_magnitude(bits: u64) -> u64 {
    let e = exponent_field(bits);
    if e < 1023 {
        0
    } else if e < 1075 {
        significand(bits) >> ((1075 - e) as u64)
    } else if e < 1086 {
        significand(bits) << ((e - 1075) as u64)
    } else {
        0
    }
}

/// The number's absolute value rounded to the nearest whole number, halves
/// away from zero, for the numbers whose absolute value is below 2^63, and 0
/// for the others.
pub open spec fn rounded_magnitude(bits: u64) -> u64 {
    let e = exponent_field(bits);
    if e < 1022 {
        0
    } else if e < 1075 {
        let s = significand(bits);
        let cut = (1075 - e) as u64;
        ((s >> cut) + ((s >> ((cut - 1) as u64)) & 1)) as u64
    } else if e < 1086 {
        significand(bits) << ((e - 1075) as u64)
    } else {
        0
    }
}

/// Gives a magnitude its sign, and saturates what does not fit: the `as i64`
/// conversion of a double whose whole magnitude is `whole`.
pub open spec fn signed_within_i64(bits: u64, whole: u64) -> int {
    if is_nan(bits) {
        0
    } else if exponent_field(bits) >= 1086 {
        if is_negative(bits) {
            i64::MIN as int
        } else {
            i64::MAX as int
        }
    } else if is_negative(bits) {
        -(whole as int)
    } else {
        whole as int
    }
}

/// The double converted to `i64` as Rust's `as` does: NaN is 0, the fraction
/// is dropped, and what lies outside `i64` becomes its nearest bound.
pub open spec fn truncated(bits: u64) -> int {
    signed_within_i64(bits, whole_magnitude(bits))
}

/// The double rounded to the nearest whole number, halves away from zero, and
/// then converted to `i64` as [`truncated`] does.
pub open spec fn rounded(bits: u64) -> int {
    signed_within_i64(bits, rounded_magnitude(bits))
}

/// A NaN is equal to nothing, itself included, and neither below nor
/// above anything.
pub proof fn nan_relates_to_nothing(nan: u64, other: u64)
    requires
        is_nan(nan),
    ensures
        !float_eq(nan, nan),
        !float_eq(nan, other) && !float_eq(other, nan),
        !float_lt(nan, other) && !float_lt(other, nan),
        !float_le(nan, other) && !float_le(other, nan),
{
}

pub fn bits_is_nan(bits: u64) -> (r: bool)
    ensures
        r == is_nan(bits),
{
    (bits & MAGNITUDE_MASK) > INFINITY_BITS
}

pub fn bits_is_zero(bits: u64) -> (r: bool)
    ensures
        r == is_zero(bits),
{
    (bits & MAGNITUDE_MASK) == 0
}

pub fn bits_is_finite(bits: u64) -> (r: bool)
    ensures
        r == is_finite(bits),
{
    (bits & MAGNITUDE_MASK) < INFINITY_BITS
}

pub fn bits_is_negative(bits: u64) -> (r: bool)
    ensures
        r == is_negative(bits),
{
    (bits & SIGN_BIT) != 0
}

/// The pattern of the number with the opposite sign.
pub fn bits_negate(bits: u64) -> (r: u64)
    ensures
        r == bits ^ SIGN_BIT,
        magnitude(r) == magnitude(bits),
        is_negative(r) == !is_negative(bits),
{
    let r: u64 = bits ^ SIGN_BIT;
    assert((bits ^ 0x8000_0000_0000_0000u64) & 0x7fff_ffff_ffff_ffffu64 == bits
        & 0x7fff_ffff_ffff_ffffu64) by (bit_vector);
    assert(((bits ^ 0x8000_0000_0000_0000u64) & 0x8000_0000_0000_0000u64 != 0) == !(bits
        & 0x8000_0000_0000_0000u64 != 0)) by (bit_vector);
    r
}

pub fn bits_eq(a: u64, b: u64) -> (r: bool)
    ensures
        r == float_eq(a, b),
{
    if bits_is_nan(a) || bits_is_nan(b) {
        return false;
    }
    let ma: u64 = a & MAGNITUDE_MASK;
    let mb: u64 = b & MAGNITUDE_MASK;
    if ma == 0 && mb == 0 {
        return true;
    }
    proof {
        sign_and_magnitude_determine(a, b);
    }
    a == b
}

pub fn bits_lt(a: u64, b: u64) -> (r: bool)
    ensures
        r == float_lt(a, b),
{
    if bits_is_nan(a) || bits_is_nan(b) {
        return false;
    }
    let ma: u64 = a & MAGNITUDE_MASK;
    let mb: u64 = b & MAGNITUDE_MASK;
    let na: bool = bits_is_negative(a);
    let nb: bool = bits_is_negative(b);
    if na {
        if nb {
            ma > mb
        } else {
            ma != 0 || mb != 0
        }
    } else {
        if nb {
            false
        } else {
            ma < mb
        }
    }
}

pub fn bits_le(a: u64, b: u64) -> (r: bool)
    ensures
        r == float_le(a, b),
{
    if bits_is_nan(a) || bits_is_nan(b) {
        return false;
    }
    let ma: u64 = a & MAGNITUDE_MASK;
    let mb: u64 = b & MAGNITUDE_MASK;
    let na: bool = bits_is_negative(a);
    let nb: bool = bits_is_negative(b);
    if na {
        if nb {
            ma >= mb
        } else {
            true
        }
    } else {
        if nb {
            ma == 0 && mb == 0
        } else {
            ma <= mb
        }
    }
}

/// A pattern is its sign bit together with its magnitude.
pub proof fn sign_and_magnitude_determine(a: u64, b: u64)
    ensures
        (magnitude(a) == magnitude(b) && is_negative(a) == is_negative(b)) ==> a == b,
{
    assert(((a & 0x7fff_ffff_ffff_ffffu64) == (b & 0x7fff_ffff_ffff_ffffu64) && ((a
        & 0x8000_0000_0000_0000u64) != 0) == ((b & 0x8000_0000_0000_0000u64) != 0)) ==> a == b)
        by (bit_vector);
}

fn bits_signed_within_i64(bits: u64, whole: u64) -> (r: i64)
    requires
        exponent_field(bits) < 1086 ==> whole <= 0x7fff_ffff_ffff_ffff,
    ensures
        r == signed_within_i64(bits, whole),
{
    if bits_is_nan(bits) {
        return 0;
    }
    let e: u64 = (bits >> 52) & 0x7ff;
    if e >= 1086 {
        if bits_is_negative(bits) {
            i64::MIN
        } else {
            i64::MAX
        }
    } else if bits_is_negative(bits) {
        0 - (whole as i64)
    } else {
        whole as i64
    }
}

/// Converts the double to `i64` as Rust's `as` does.
pub fn bits_truncate(bits: u64) -> (r: i64)
    ensures
        r == truncated(bits),
{
    let e: u64 = (bits >> 52) & 0x7ff;
    let s: u64 = (bits & FRACTION_MASK) | HIDDEN_BIT;
    assert(((bits >> 52) & 0x7ff) <= 0x7ff) by (bit_vector);
    assert(((bits & 0x000f_ffff_ffff_ffffu64) | 0x0010_0000_0000_0000u64)
        < 0x0020_0000_0000_0000u64) by (bit_vector);
    let whole: u64 = if e < 1023 {
        0
    } else if e < 1075 {
        let cut: u64 = 1075 - e;
        assert(s < 0x0020_0000_0000_0000u64 && cut <= 63 ==> (s >> cut)
            <= 0x7fff_ffff_ffff_ffffu64) by (bit_vector);
        s >> cut
    } else if e < 1086 {
        let lift: u64 = e - 1075;
        assert(s < 0x0020_0000_0000_0000u64 && lift <= 10 ==> (s << lift)
            <= 0x7fff_ffff_ffff_ffffu64) by (bit_vector);
        s << lift
    } else {
        0
    };
    bits_signed_within_i64(bits, whole)
}

/// Rounds the double to the nearest whole number, halves away from zero, and
/// converts it to `i64` as Rust's `as` does.
pub fn bits_round(bits: u64) -> (r: i64)
    ensures
        r == rounded(bits),
{
    let e: u64 = (bits >> 52) & 0x7ff;
    let s: u64 = (bits & FRACTION_MASK) | HIDDEN_BIT;
    assert(((bits >> 52) & 0x7ff) <= 0x7ff) by (bit_vector);
    assert(((bits & 0x000f_ffff_ffff_ffffu64) | 0x0010_0000_0000_0000u64)
        < 0x0020_0000_0000_0000u64) by (bit_vector);
    let whole: u64 = if e < 1022 {
        0
    } else if e < 1075 {
        let cut: u64 = 1075 - e;
        let below: u64 = cut - 1;
        assert(s < 0x0020_0000_0000_0000u64 && 1 <= cut <= 63 ==> (s >> cut)
            < 0x0010_0000_0000_0000u64) by (bit_vector);
        assert(((s >> below) & 1) <= 1) by (bit_vector);
        (s >> cut) + ((s >> below) & 1)
    } else if e < 1086 {
        let lift: u64 = e - 1075;
        assert(s < 0x0020_0000_0000_0000u64 && lift <= 10 ==> (s << lift)
            <= 0x7fff_ffff_ffff_ffffu64) by (bit_vector);
        s << lift
    } else {
        0
    };
    bits_signed_within_i64(bits, whole)
}

} // verus!
