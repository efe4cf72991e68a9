//! IEEE 754 binary64 numbers, held as their 64-bit encodings: sign, order,
//! equality, and the `max` / `min` / clamp rules that a float follows.
use vstd::prelude::*;

use core::cmp::Ordering;

verus! {

/// The sign bit of an encoding.
pub const SIGN_MASK: u64 = 0x8000_0000_0000_0000;

/// Every bit of an encoding but the sign.
pub const MAGNITUDE_MASK: u64 = 0x7fff_ffff_ffff_ffff;

/// The exponent bits of an encoding: above them, with a sign bit of 0, lie the NaNs.
pub const EXPONENT_MASK: u64 = 0x7ff0_0000_0000_0000;

/// The encoding of `0.0`.
pub const ZERO_BITS: u64 = 0;

/// The encoding of `1.0`.
pub const ONE_BITS: u64 = 0x3ff0_0000_0000_0000;

/// The encoding of `-1.0`.
pub const NEG_ONE_BITS: u64 = 0xbff0_0000_0000_0000;

pub open spec fn magnitude(b: u64) -> u64 {
    b & MAGNITUDE_MASK
}

pub open spec fn is_negative(b: u64) -> bool {
    b & SIGN_MASK != 0
}

/// The encoding holds no number: all exponent bits set and a nonzero fraction.
pub open spec fn spec_is_nan(b: u64) -> bool {
    magnitude(b) > EXPONENT_MASK
}

/// Rank of an encoding among the numbers. For two encodings that are not NaN,
/// the order of their ranks is the order of the numbers they encode, and equal
/// ranks encode equal numbers (`0.0` and `-0.0` both have rank 0).
pub open spec fn rank(b: u64) -> int {
    if is_negative(b) {
        -(magnitude(b) as int)
    } else {
        magnitude(b) as int
    }
}

/// Float equality: NaN equals nothing, not even itself; `0.0 == -0.0`.
pub open spec fn spec_eq(a: u64, b: u64) -> bool {
    !spec_is_nan(a) && !spec_is_nan(b) && rank(a) == rank(b)
}

/// Float `<`: false whenever either side is NaN.
pub open spec fn spec_lt(a: u64, b: u64) -> bool {
    !spec_is_nan(a) && !spec_is_nan(b) && rank(a) < rank(b)
}

/// Float ordering: none where either side is NaN.
pub open spec fn spec_partial_cmp(a: u64, b: u64) -> Option<Ordering> {
    if spec_is_nan(a) || spec_is_nan(b) {
        None
    } else if rank(a) < rank(b) {
        Some(Ordering::Less)
    } else if rank(a) == rank(b) {
        Some(Ordering::Equal)
    } else {
        Some(Ordering::Greater)
    }
}

/// The larger of two numbers, ignoring NaN: where one side is NaN the other is
/// the result; of two equal numbers the first is kept.
pub open spec fn spec_max(a: u64, b: u64) -> u64 {
    if spec_is_nan(a) {
        b
    } else if spec_is_nan(b) {
        a
    } else if rank(a) < rank(b) {
        b
    } else {
        a
    }
}

/// The smaller of two numbers, ignoring NaN: where one side is NaN the other is
/// the result; of two equal numbers the first is kept.
pub open spec fn spec_min(a: u64, b: u64) -> u64 {
    if spec_is_nan(a) {
        b
    } else if spec_is_nan(b) {
        a
    } else if rank(b) < rank(a) {
        b
    } else {
        a
    }
}

/// `v` saturated to the closed range from `lo` to `hi`: a NaN goes to `lo`.
pub open spec fn clamped(v: u64, lo: u64, hi: u64) -> u64 {
    if spec_is_nan(v) || rank(v) < rank(lo) {
        lo
    } else if rank(hi) < rank(v) {
        hi
    } else {
        v
    }
}

/// The number with the opposite sign, every other bit kept.
pub open spec fn negated(b: u64) -> u64 {
    b ^ SIGN_MASK
}

/// The number with the sign bit cleared.
pub open spec fn absolute(b: u64) -> u64 {
    b & MAGNITUDE_MASK
}

/// A range whose bounds are numbers, the lower one not above the upper.
pub open spec fn valid_range(lo: u64, hi: u64) -> bool {
    !spec_is_nan(lo) && !spec_is_nan(hi) && rank(lo) <= rank(hi)
}

pub proof fn lemma_constants()
    ensures
        magnitude(ZERO_BITS) == 0,
        !is_negative(ZERO_BITS),
        magnitude(ONE_BITS) == ONE_BITS,
        !is_negative(ONE_BITS),
        magnitude(NEG_ONE_BITS) == ONE_BITS,
        is_negative(NEG_ONE_BITS),
        rank(ZERO_BITS) == 0,
        rank(ONE_BITS) == ONE_BITS as int,
        rank(NEG_ONE_BITS) == -(ONE_BITS as int),
        !spec_is_nan(ZERO_BITS),
        !spec_is_nan(ONE_BITS),
        !spec_is_nan(NEG_ONE_BITS),
{
    assert(0u64 & 0x7fff_ffff_ffff_ffffu64 == 0) by (bit_vector);
    assert(0u64 & 0x8000_0000_0000_0000u64 == 0) by (bit_vector);
    assert(0x3ff0_0000_0000_0000u64 & 0x7fff_ffff_ffff_ffffu64 == 0x3ff0_0000_0000_0000u64)
        by (bit_vector);
    assert(0x3ff0_0000_0000_0000u64 & 0x8000_0000_0000_0000u64 == 0) by (bit_vector);
    assert(0xbff0_0000_0000_0000u64 & 0x7fff_ffff_ffff_ffffu64 == 0x3ff0_0000_0000_0000u64)
        by (bit_vector);
    assert(0xbff0_0000_0000_0000u64 & 0x8000_0000_0000_0000u64 != 0) by (bit_vector);
}

/// Flipping the sign keeps the magnitude and turns the sign over.
pub proof fn lemma_negated(b: u64)
    ensures
        magnitude(negated(b)) == magnitude(b),
        is_negative(negated(b)) == !is_negative(b),
        negated(negated(b)) == b,
{
    assert((b ^ 0x8000_0000_0000_0000u64) & 0x7fff_ffff_ffff_ffffu64 == b
        & 0x7fff_ffff_ffff_ffffu64) by (bit_vector);
    assert(((b ^ 0x8000_0000_0000_0000u64) & 0x8000_0000_0000_0000u64 != 0) == !(b
        & 0x8000_0000_0000_0000u64 != 0)) by (bit_vector);
    assert((b ^ 0x8000_0000_0000_0000u64) ^ 0x8000_0000_0000_0000u64 == b) by (bit_vector);
}

/// Clearing the sign keeps the magnitude and leaves a non-negative number.
pub proof fn lemma_absolute(b: u64)
    ensures
        magnitude(absolute(b)) == magnitude(b),
        !is_negative(absolute(b)),
        absolute(negated(b)) == absolute(b),
{
    assert((b & 0x7fff_ffff_ffff_ffffu64) & 0x7fff_ffff_ffff_ffffu64 == b
        & 0x7fff_ffff_ffff_ffffu64) by (bit_vector);
    assert((b & 0x7fff_ffff_ffff_ffffu64) & 0x8000_0000_0000_0000u64 == 0) by (bit_vector);
    assert((b ^ 0x8000_0000_0000_0000u64) & 0x7fff_ffff_ffff_ffffu64 == b
        & 0x7fff_ffff_ffff_ffffu64) by (bit_vector);
}

/// Whether the encoding holds a NaN.
pub fn is_nan(b: u64) -> (r: bool)
    ensures
        r == spec_is_nan(b),
{
    b & MAGNITUDE_MASK > EXPONENT_MASK
}

/// Float `<` on two encodings.
pub fn lt(a: u64, b: u64) -> (r: bool)
    ensures
        r == spec_lt(a, b),
{
    if is_nan(a) || is_nan(b) {
        return false;
    }
    let ma = a & MAGNITUDE_MASK;
    let mb = b & MAGNITUDE_MASK;
    let na = a & SIGN_MASK != 0;
    let nb = b & SIGN_MASK != 0;
    if na && nb {
        mb < ma
    } else if na {
        ma != 0 || mb != 0
    } else if nb {
        false
    } else {
        ma < mb
    }
}

/// Float `==` on two encodings.
pub fn eq(a: u64, b: u64) -> (r: bool)
    ensures
        r == spec_eq(a, b),
{
    !is_nan(a) && !is_nan(b) && !lt(a, b) && !lt(b, a)
}

/// Float ordering on two encodings.
pub fn partial_cmp(a: u64, b: u64) -> (r: Option<Ordering>)
    ensures
        r == spec_partial_cmp(a, b),
{
    if is_nan(a) || is_nan(b) {
        None
    } else if lt(a, b) {
        Some(Ordering::Less)
    } else if lt(b, a) {
        Some(Ordering::Greater)
    } else {
        Some(Ordering::Equal)
    }
}

/// The larger of two numbers, ignoring NaN.
pub fn max(a: u64, b: u64) -> (r: u64)
    ensures
        r == spec_max(a, b),
{
    if is_nan(a) {
        b
    } else if is_nan(b) {
        a
    } else if lt(a, b) {
        b
    } else {
        a
    }
}

/// The smaller of two numbers, ignoring NaN.
pub fn min(a: u64, b: u64) -> (r: u64)
    ensures
        r == spec_min(a, b),
{
    if is_nan(a) {
        b
    } else if is_nan(b) {
        a
    } else if lt(b, a) {
        b
    } else {
        a
    }
}

/// Saturates `v` to the range from `lo` to `hi`, as the smaller of `hi` and the
/// larger of `v` and `lo`; a NaN gives `lo`.
pub fn clamp(v: u64, lo: u64, hi: u64) -> (r: u64)
    requires
        valid_range(lo, hi),
    ensures
        r == clamped(v, lo, hi),
        !spec_is_nan(r),
        rank(lo) <= rank(r) <= rank(hi),
{
    min(max(v, lo), hi)
}

/// The number with the opposite sign.
pub fn neg(b: u64) -> (r: u64)
    ensures
        r == negated(b),
        magnitude(r) == magnitude(b),
        is_negative(r) == !is_negative(b),
{
    proof {
        lemma_negated(b);
    }
    b ^ SIGN_MASK
}

/// The absolute value.
pub fn abs(b: u64) -> (r: u64)
    ensures
        r == absolute(b),
        magnitude(r) == magnitude(b),
        !is_negative(r),
{
    proof {
        lemma_absolute(b);
    }
    b & MAGNITUDE_MASK
}

} // verus!
