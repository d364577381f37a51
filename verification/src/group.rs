//! The local-arithmetic capability and abstract group reasoning.
//!
//! Cofactor clearing and the field-level coefficient shortcuts are the
//! only operations the engine computes locally; they need a small amount
//! of point and field arithmetic, supplied by the underlying field
//! library through this capability.  The group-law predicate below is
//! what the cofactor-clearing proof relies on; an arithmetic supplier
//! that satisfies it makes the double-and-add loop provably compute the
//! cofactor multiple.

use crate::field::FieldElement;
use crate::point::{AffinePoint, AffineView, ProjectivePoint, ProjectiveView};
use vstd::prelude::*;

verus! {

/// The local arithmetic of one curve family, supplied by the underlying
/// field library: point addition and the identity in projective form,
/// projective-to-affine conversion, point validation (curve equation and,
/// where required, subgroup membership), and the field operations used by
/// the coefficient shortcuts.
pub trait CurveArithmetic: Sized {
    /// The projective identity element.
    spec fn spec_identity(&self) -> ProjectiveView;

    /// The group sum of two projective points.
    spec fn spec_add(&self, p: ProjectiveView, q: ProjectiveView) -> ProjectiveView;

    /// The points this arithmetic's operations produce and consume
    /// canonically.
    spec fn spec_point_ok(&self, p: ProjectiveView) -> bool;

    /// The affine form of a projective point.
    spec fn spec_to_affine(&self, p: ProjectiveView) -> AffineView;

    /// Full validity of an affine point: on the curve and, where the
    /// family requires it, in the prime-order subgroup.
    spec fn spec_affine_valid(&self, p: AffineView) -> bool;

    /// Field negation.
    spec fn spec_field_neg(&self, x: Seq<u64>) -> Seq<u64>;

    /// Field multiplication.
    spec fn spec_field_mul(&self, a: Seq<u64>, x: Seq<u64>) -> Seq<u64>;

    /// The field's zero element.
    spec fn spec_field_zero(&self) -> Seq<u64>;

    fn identity(&self) -> (r: ProjectivePoint)
        ensures
            r@ == self.spec_identity(),
    ;

    fn add(&self, p: &ProjectivePoint, q: &ProjectivePoint) -> (r: ProjectivePoint)
        ensures
            r@ == self.spec_add(p@, q@),
    ;

    fn to_affine(&self, p: &ProjectivePoint) -> (r: AffinePoint)
        ensures
            r@ == self.spec_to_affine(p@),
    ;

    fn validate_affine(&self, p: &AffinePoint) -> (r: bool)
        ensures
            r == self.spec_affine_valid(p@),
    ;

    fn field_neg(&self, x: &FieldElement) -> (r: FieldElement)
        ensures
            r@ == self.spec_field_neg(x@),
    ;

    fn field_mul(&self, a: &FieldElement, x: &FieldElement) -> (r: FieldElement)
        ensures
            r@ == self.spec_field_mul(a@, x@),
    ;

    fn field_zero(&self) -> (r: FieldElement)
        ensures
            r@ == self.spec_field_zero(),
    ;
}

/// The group laws the cofactor-clearing proof relies on: the identity and
/// every sum are canonical points, the identity is neutral on canonical
/// points, and addition is associative.
pub open spec fn group_laws<A: CurveArithmetic>(a: A) -> bool {
    &&& a.spec_point_ok(a.spec_identity())
    &&& forall|p: ProjectiveView, q: ProjectiveView|
        a.spec_point_ok(#[trigger] a.spec_add(p, q))
    &&& forall|p: ProjectiveView|
        a.spec_point_ok(p) ==> #[trigger] a.spec_add(p, a.spec_identity()) == p
    &&& forall|p: ProjectiveView, q: ProjectiveView, r: ProjectiveView| #[trigger] a.spec_add(
        a.spec_add(p, q),
        r,
    ) == a.spec_add(p, a.spec_add(q, r))
}

/// The `k`-fold group multiple of a point: `0·p` is the identity and
/// `(k+1)·p == k·p + p`.
pub open spec fn group_mul<A: CurveArithmetic>(a: A, k: nat, p: ProjectiveView) -> ProjectiveView
    decreases k,
{
    if k == 0 {
        a.spec_identity()
    } else {
        a.spec_add(group_mul(a, (k - 1) as nat, p), p)
    }
}

/// Every group multiple is a canonical point.
pub proof fn lemma_group_mul_ok<A: CurveArithmetic>(a: A, k: nat, p: ProjectiveView)
    requires
        group_laws(a),
    ensures
        a.spec_point_ok(group_mul(a, k, p)),
    decreases k,
{
    if k > 0 {
        lemma_group_mul_ok(a, (k - 1) as nat, p);
    }
}

/// Group multiples add: `(m+n)·p == m·p + n·p`.
pub proof fn lemma_group_mul_add<A: CurveArithmetic>(a: A, m: nat, n: nat, p: ProjectiveView)
    requires
        group_laws(a),
    ensures
        group_mul(a, m + n, p) == a.spec_add(group_mul(a, m, p), group_mul(a, n, p)),
    decreases n,
{
    if n == 0 {
        lemma_group_mul_ok(a, m, p);
        assert(a.spec_add(group_mul(a, m, p), a.spec_identity()) == group_mul(a, m, p));
    } else {
        lemma_group_mul_add(a, m, (n - 1) as nat, p);
        assert(a.spec_add(a.spec_add(group_mul(a, m, p), group_mul(a, (n - 1) as nat, p)), p)
            == a.spec_add(group_mul(a, m, p), a.spec_add(group_mul(a, (n - 1) as nat, p), p)));
    }
}

} // verus!
