//! The two clamped types: a value of the unit range and a value of the signed
//! unit range, each held as the binary64 encoding of its number.
use vstd::prelude::*;

use core::cmp::Ordering;

use crate::binary64::{
    abs, absolute, clamp, clamped, eq, lemma_absolute, lemma_constants, lemma_negated, neg,
    negated, partial_cmp, rank, spec_eq, spec_is_nan, spec_partial_cmp, NEG_ONE_BITS, ONE_BITS,
    ZERO_BITS,
};

verus! {

/// A number in the range from 0.0 to 1.0, held as its binary64 encoding.
/// Construction clamps into the range.
#[derive(Debug, Clone, Copy)]
pub struct UnipolarFloat {
    bits: u64,
}

/// A number in the range from -1.0 to 1.0, held as its binary64 encoding.
/// Construction clamps into the range.
#[derive(Debug, Clone, Copy)]
pub struct BipolarFloat {
    bits: u64,
}

/// An encoding that holds a number of the unit range.
pub open spec fn in_unipolar_range(b: u64) -> bool {
    !spec_is_nan(b) && rank(ZERO_BITS) <= rank(b) <= rank(ONE_BITS)
}

/// An encoding that holds a number of the signed unit range.
pub open spec fn in_bipolar_range(b: u64) -> bool {
    !spec_is_nan(b) && rank(NEG_ONE_BITS) <= rank(b) <= rank(ONE_BITS)
}

impl View for UnipolarFloat {
    type V = u64;

    closed spec fn view(&self) -> u64 {
        self.bits
    }
}

impl View for BipolarFloat {
    type V = u64;

    closed spec fn view(&self) -> u64 {
        self.bits
    }
}

impl UnipolarFloat {
    /// The value 0.0.
    pub fn zero() -> (r: Self)
        ensures
            r@ == ZERO_BITS,
    {
        proof {
            lemma_constants();
        }
        Self { bits: ZERO_BITS }
    }

    /// The value 1.0.
    pub fn one() -> (r: Self)
        ensures
            r@ == ONE_BITS,
    {
        proof {
            lemma_constants();
        }
        Self { bits: ONE_BITS }
    }

    #[verifier::type_invariant]
    closed spec fn inv(&self) -> bool {
        in_unipolar_range(self.bits)
    }

    /// Clamps the number that `v` encodes to the unit range.
    pub fn new(v: u64) -> (r: Self)
        ensures
            r@ == clamped(v, ZERO_BITS, ONE_BITS),
            in_unipolar_range(r@),
    {
        proof {
            lemma_constants();
        }
        Self { bits: clamp(v, ZERO_BITS, ONE_BITS) }
    }

    /// The encoding of the inner number.
    pub fn val(&self) -> (r: u64)
        ensures
            r == self@,
            in_unipolar_range(r),
    {
        proof {
            use_type_invariant(self);
        }
        self.bits
    }
}

impl BipolarFloat {
    /// The value 0.0.
    pub fn zero() -> (r: Self)
        ensures
            r@ == ZERO_BITS,
    {
        proof {
            lemma_constants();
        }
        Self { bits: ZERO_BITS }
    }

    /// The value 1.0.
    pub fn one() -> (r: Self)
        ensures
            r@ == ONE_BITS,
    {
        proof {
            lemma_constants();
        }
        Self { bits: ONE_BITS }
    }

    #[verifier::type_invariant]
    closed spec fn inv(&self) -> bool {
        in_bipolar_range(self.bits)
    }

    /// Clamps the number that `v` encodes to the signed unit range.
    pub fn new(v: u64) -> (r: Self)
        ensures
            r@ == clamped(v, NEG_ONE_BITS, ONE_BITS),
            in_bipolar_range(r@),
    {
        proof {
            lemma_constants();
        }
        Self { bits: clamp(v, NEG_ONE_BITS, ONE_BITS) }
    }

    /// The encoding of the inner number.
    pub fn val(&self) -> (r: u64)
        ensures
            r == self@,
            in_bipolar_range(r),
    {
        proof {
            use_type_invariant(self);
        }
        self.bits
    }

    /// The absolute value, which lies in the unit range.
    pub fn abs(&self) -> (r: UnipolarFloat)
        ensures
            r@ == absolute(self@),
            in_unipolar_range(r@),
    {
        proof {
            use_type_invariant(self);
            lemma_constants();
            lemma_absolute(self.bits);
        }
        UnipolarFloat { bits: abs(self.bits) }
    }

    /// The negation, which lies in the range as well.
    pub fn invert(&self) -> (r: Self)
        ensures
            r@ == negated(self@),
            in_bipolar_range(r@),
    {
        proof {
            use_type_invariant(self);
            lemma_constants();
            lemma_negated(self.bits);
        }
        Self { bits: neg(self.bits) }
    }

    /// The negation where `invert` holds, else the value itself.
    pub fn invert_if(&self, invert: bool) -> (r: Self)
        ensures
            invert ==> r@ == negated(self@),
            !invert ==> r@ == self@,
    {
        if invert {
            self.invert()
        } else {
            *self
        }
    }
}

impl PartialEq for UnipolarFloat {
    /// Float equality of the inner numbers.
    fn eq(&self, other: &Self) -> (r: bool) {
        eq(self.bits, other.bits)
    }
}

impl vstd::std_specs::cmp::PartialEqSpecImpl for UnipolarFloat {
    open spec fn obeys_eq_spec() -> bool {
        true
    }

    open spec fn eq_spec(&self, other: &Self) -> bool {
        spec_eq(self@, other@)
    }
}

impl PartialOrd for UnipolarFloat {
    /// Float ordering of the inner numbers.
    fn partial_cmp(&self, other: &Self) -> (r: Option<Ordering>) {
        partial_cmp(self.bits, other.bits)
    }
}

impl vstd::std_specs::cmp::PartialOrdSpecImpl for UnipolarFloat {
    open spec fn obeys_partial_cmp_spec() -> bool {
        true
    }

    open spec fn partial_cmp_spec(&self, other: &Self) -> Option<Ordering> {
        spec_partial_cmp(self@, other@)
    }
}

impl PartialEq for BipolarFloat {
    /// Float equality of the inner numbers.
    fn eq(&self, other: &Self) -> (r: bool) {
        eq(self.bits, other.bits)
    }
}

impl vstd::std_specs::cmp::PartialEqSpecImpl for BipolarFloat {
    open spec fn obeys_eq_spec() -> bool {
        true
    }

    open spec fn eq_spec(&self, other: &Self) -> bool {
        spec_eq(self@, other@)
    }
}

impl PartialOrd for BipolarFloat {
    /// Float ordering of the inner numbers.
    fn partial_cmp(&self, other: &Self) -> (r: Option<Ordering>) {
        partial_cmp(self.bits, other.bits)
    }
}

impl vstd::std_specs::cmp::PartialOrdSpecImpl for BipolarFloat {
    open spec fn obeys_partial_cmp_spec() -> bool {
        true
    }

    open spec fn partial_cmp_spec(&self, other: &Self) -> Option<Ordering> {
        spec_partial_cmp(self@, other@)
    }
}

impl Default for UnipolarFloat {
    /// The value 0.0.
    fn default() -> (r: Self)
        ensures
            r@ == ZERO_BITS,
    {
        Self::zero()
    }
}

impl Default for BipolarFloat {
    /// The value 0.0.
    fn default() -> (r: Self)
        ensures
            r@ == ZERO_BITS,
    {
        Self::zero()
    }
}

/// `UnipolarFloat::new` on a number gives a value of the unit range: the number
/// itself where it lies in the range, 0.0 where it lies below, 1.0 where above.
pub proof fn lemma_unipolar_new_clamps(v: u64)
    requires
        !spec_is_nan(v),
    ensures
        in_unipolar_range(clamped(v, ZERO_BITS, ONE_BITS)),
        in_unipolar_range(v) ==> clamped(v, ZERO_BITS, ONE_BITS) == v,
        rank(v) < rank(ZERO_BITS) ==> clamped(v, ZERO_BITS, ONE_BITS) == ZERO_BITS,
        rank(ONE_BITS) < rank(v) ==> clamped(v, ZERO_BITS, ONE_BITS) == ONE_BITS,
{
    lemma_constants();
}

/// `BipolarFloat::new` on a number gives a value of the signed unit range: the
/// number itself where it lies in the range, -1.0 where it lies below, 1.0
/// where above.
pub proof fn lemma_bipolar_new_clamps(v: u64)
    requires
        !spec_is_nan(v),
    ensures
        in_bipolar_range(clamped(v, NEG_ONE_BITS, ONE_BITS)),
        in_bipolar_range(v) ==> clamped(v, NEG_ONE_BITS, ONE_BITS) == v,
        rank(v) < rank(NEG_ONE_BITS) ==> clamped(v, NEG_ONE_BITS, ONE_BITS) == NEG_ONE_BITS,
        rank(ONE_BITS) < rank(v) ==> clamped(v, NEG_ONE_BITS, ONE_BITS) == ONE_BITS,
{
    lemma_constants();
}

/// Building a value again from the number of a built value gives the same
/// value, for both clamped types and every input.
pub proof fn lemma_new_idempotent(v: u64)
    ensures
        clamped(clamped(v, ZERO_BITS, ONE_BITS), ZERO_BITS, ONE_BITS) == clamped(
            v,
            ZERO_BITS,
            ONE_BITS,
        ),
        clamped(clamped(v, NEG_ONE_BITS, ONE_BITS), NEG_ONE_BITS, ONE_BITS) == clamped(
            v,
            NEG_ONE_BITS,
            ONE_BITS,
        ),
{
    lemma_constants();
}

/// Inverting a signed value twice gives it back, and its absolute value is that
/// of its inversion.
pub proof fn lemma_invert_twice(b: BipolarFloat)
    ensures
        negated(negated(b@)) == b@,
        absolute(negated(b@)) == absolute(b@),
{
    lemma_negated(b@);
    lemma_absolute(b@);
}

} // verus!
