//! Plain-value models of curve points.
//!
//! A point is carried either in affine form (a coordinate pair, plus an
//! explicit "is identity" flag used by short-Weierstrass curves) or in
//! projective form (an extra coordinate that avoids field inversions).

use crate::field::FieldElement;
use crate::params::CurveModel;
use vstd::prelude::*;

verus! {

/// A curve point in affine form.  For short-Weierstrass curves the point
/// at infinity is marked by `infinity`, with both coordinates zero; the
/// twisted Edwards and Montgomery encodings carry no flag.
#[derive(Clone, PartialEq, Eq, Debug)]
pub struct AffinePoint {
    pub x: FieldElement,
    pub y: FieldElement,
    pub infinity: bool,
}

/// A curve point in projective form: three coordinates, no flag.
#[derive(Clone, PartialEq, Eq, Debug)]
pub struct ProjectivePoint {
    pub x: FieldElement,
    pub y: FieldElement,
    pub z: FieldElement,
}

/// The mathematical value of an affine point: its coordinate limb
/// sequences and identity flag.
pub struct AffineView {
    pub x: Seq<u64>,
    pub y: Seq<u64>,
    pub infinity: bool,
}

/// The mathematical value of a projective point: three coordinate limb
/// sequences.
pub struct ProjectiveView {
    pub x: Seq<u64>,
    pub y: Seq<u64>,
    pub z: Seq<u64>,
}

impl View for AffinePoint {
    type V = AffineView;

    open spec fn view(&self) -> AffineView {
        AffineView { x: self.x@, y: self.y@, infinity: self.infinity }
    }
}

impl View for ProjectivePoint {
    type V = ProjectiveView;

    open spec fn view(&self) -> ProjectiveView {
        ProjectiveView { x: self.x@, y: self.y@, z: self.z@ }
    }
}

/// All limbs of a field element are zero.
pub open spec fn fe_is_zero_limbs(fe: FieldElement) -> bool {
    forall|i: int| 0 <= i < fe.limbs@.len() ==> fe.limbs@[i] == 0
}

impl AffinePoint {
    /// Well-formedness for a family with base-field width `width` under
    /// the given curve model: coordinate widths match, and the identity
    /// flag is canonical (set only on short-Weierstrass curves, and then
    /// with both coordinates zero).
    pub open spec fn wf(&self, model: CurveModel, width: nat) -> bool {
        &&& self.x.wf(width)
        &&& self.y.wf(width)
        &&& match model {
            CurveModel::ShortWeierstrass => self.infinity ==> (fe_is_zero_limbs(self.x)
                && fe_is_zero_limbs(self.y)),
            CurveModel::TwistedEdwards => !self.infinity,
            CurveModel::Montgomery => !self.infinity,
        }
    }
}

impl ProjectivePoint {
    /// Well-formedness: the three coordinate widths match the family's
    /// base-field width.
    pub open spec fn wf(&self, width: nat) -> bool {
        &&& self.x.wf(width)
        &&& self.y.wf(width)
        &&& self.z.wf(width)
    }
}

} // verus!
