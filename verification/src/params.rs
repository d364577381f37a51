//! Immutable per-family configuration data.
//!
//! A `CurveParameters` value fixes one curve family for the delegating
//! engine: the curve model, the byte-level widths, the cofactor and its
//! inverse, the curve coefficients, and the generator.  The engine never
//! computes with the coefficients beyond the local shortcuts; everything
//! expensive crosses the delegation boundary in encoded form.

use crate::field::{limbs_value, FieldElement, Scalar};
use crate::point::AffinePoint;
use vstd::prelude::*;

verus! {

/// The algebraic equation family of a curve.
#[derive(Clone, Copy, PartialEq, Eq, Debug)]
pub enum CurveModel {
    ShortWeierstrass,
    TwistedEdwards,
    Montgomery,
}

/// The known structure of the curve coefficient `A`, exploited by the
/// local field-level shortcut `mul_by_curve_coefficient_a`.
#[derive(Clone, Copy, PartialEq, Eq, Debug)]
pub enum CoeffAKind {
    /// `A = 0`: multiplying by `A` yields the additive identity.
    Zero,
    /// `A = -1`: multiplying by `A` is negation.
    MinusOne,
    /// No exploitable structure: multiplying by `A` is a full field
    /// multiplication.
    General,
}

/// Immutable constant data of one curve family.
#[derive(Clone, PartialEq, Eq, Debug)]
pub struct CurveParameters {
    /// The curve's equation family.
    pub model: CurveModel,
    /// Width of a base-field element, in 64-bit limbs.
    pub fe_limbs: usize,
    /// Width of a target-extension-field (pairing output) element, in
    /// 64-bit limbs; zero for families without a pairing.
    pub target_limbs: usize,
    /// The cofactor `h`, as little-endian limbs.
    pub cofactor: Vec<u64>,
    /// `h^{-1} mod r`, an element of the scalar field.
    pub cofactor_inv: Scalar,
    /// The prime order `r` of the correct subgroup, as little-endian limbs.
    pub group_order: Vec<u64>,
    /// The curve coefficient `A`.
    pub coeff_a: FieldElement,
    /// The known structure of `A`.
    pub coeff_a_kind: CoeffAKind,
    /// The second curve coefficient: `B` for short-Weierstrass and
    /// Montgomery curves, `D` for twisted Edwards curves.
    pub coeff_b: FieldElement,
    /// A fixed generator of the prime-order subgroup.
    pub generator: AffinePoint,
}

impl CurveParameters {
    /// The cofactor's integer value.
    pub open spec fn cofactor_value(&self) -> nat {
        limbs_value(self.cofactor@)
    }

    /// The subgroup order's integer value.
    pub open spec fn group_order_value(&self) -> nat {
        limbs_value(self.group_order@)
    }

    /// Structural well-formedness: widths are consistent and small enough
    /// that byte lengths fit a `usize`, and the generator is a well-formed
    /// point of the family.
    pub open spec fn wf(&self) -> bool {
        &&& 1 <= self.fe_limbs <= 0x100000
        &&& self.target_limbs <= 0x100000
        &&& self.cofactor@.len() >= 1
        &&& self.generator.wf(self.model, self.fe_limbs as nat)
    }

    /// The arithmetic invariant of the configuration data: the cofactor
    /// and its recorded inverse really are inverses modulo the subgroup
    /// order.
    pub open spec fn cofactor_inverse_ok(&self) -> bool {
        &&& self.group_order_value() > 1
        &&& (self.cofactor_value() * self.cofactor_inv.value()) % self.group_order_value() == 1
    }
}

} // verus!
