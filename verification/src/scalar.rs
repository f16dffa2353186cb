use vstd::arithmetic::div_mod::lemma_mod_add_multiples_vanish;
use vstd::arithmetic::div_mod::lemma_small_mod;
use vstd::prelude::*;
use vstd::wrapping::i64_specs;

verus! {

/// The arithmetic a composing unit needs from its output type: the
/// multiplicative and additive identities, and the affine map
/// `self * factor + addend` computed as one operation.
///
/// Each operation is pinned to a spec function, so a unit built over any
/// scalar type can state its own output exactly in terms of the outputs of
/// its inner units. A scalar type is free to compute the affine map fused
/// (one rounding step) or as a separate multiply and add; `spec_mul_add`
/// names whichever result that type produces.
pub trait ScalarOps: Sized + Copy {
    /// The multiplicative identity of this scalar type.
    spec fn spec_one() -> Self;

    /// The additive identity of this scalar type.
    spec fn spec_zero() -> Self;

    /// The affine map `self * factor + addend`, as this scalar type
    /// computes it.
    spec fn spec_mul_add(self, factor: Self, addend: Self) -> Self;

    /// Produce the multiplicative identity.
    fn one() -> (value: Self)
        ensures
            value == Self::spec_one(),
    ;

    /// Produce the additive identity.
    fn zero() -> (value: Self)
        ensures
            value == Self::spec_zero(),
    ;

    /// Compute `self * factor + addend`.
    fn mul_add(self, factor: Self, addend: Self) -> (value: Self)
        ensures
            value == self.spec_mul_add(factor, addend),
    ;

    /// The identities really are identities for the affine map: scaling by
    /// one and offsetting by zero leaves every value unchanged.
    proof fn lemma_mul_add_identity(self)
        ensures
            self.spec_mul_add(Self::spec_one(), Self::spec_zero()) == self,
    ;
}

/// Reducing an integer that already lies in the `i64` range changes nothing.
proof fn lemma_signed_crop_in_range(x: int)
    requires
        i64::MIN <= x <= i64::MAX,
    ensures
        i64_specs::signed_crop(x) == x,
{
    let range: int = 0x1_0000_0000_0000_0000;
    if x >= 0 {
        lemma_small_mod(x as nat, range as nat);
    } else {
        lemma_mod_add_multiples_vanish(x, range);
        lemma_small_mod((x + range) as nat, range as nat);
    }
}

/// The integer model scalar. Its affine map is the exact product and sum,
/// wrapped to the `i64` range; within that range (see `lemma_mul_add_exact`)
/// it is the mathematical map itself, with no rounding at all, so the fused
/// and the two-step form of the map coincide on it.
impl ScalarOps for i64 {
    open spec fn spec_one() -> i64 {
        1i64
    }

    open spec fn spec_zero() -> i64 {
        0i64
    }

    open spec fn spec_mul_add(self, factor: i64, addend: i64) -> i64 {
        i64_specs::wrapping_add(i64_specs::wrapping_mul(self, factor), addend)
    }

    fn one() -> (value: i64) {
        1
    }

    fn zero() -> (value: i64) {
        0
    }

    fn mul_add(self, factor: i64, addend: i64) -> (value: i64) {
        self.wrapping_mul(factor).wrapping_add(addend)
    }

    proof fn lemma_mul_add_identity(self) {
        assert(self * 1 == self);
        lemma_signed_crop_in_range(self as int);
    }
}

/// Scaling by zero ignores the scaled value entirely: the affine map then
/// yields exactly the addend, whatever the value was.
pub proof fn lemma_mul_add_zero_scale(value: i64, addend: i64)
    ensures
        value.spec_mul_add(0i64, addend) == addend,
{
    assert(value * 0 == 0);
    lemma_signed_crop_in_range(0);
}

/// Wherever the product and the sum stay in range, the affine map of the
/// integer model scalar is exact: it equals the mathematical
/// `value * factor + addend`.
pub proof fn lemma_mul_add_exact(value: i64, factor: i64, addend: i64)
    requires
        i64::MIN <= value * factor <= i64::MAX,
        i64::MIN <= value * factor + addend <= i64::MAX,
    ensures
        value.spec_mul_add(factor, addend) == value * factor + addend,
{
    lemma_signed_crop_in_range(value * factor);
}

} // verus!
