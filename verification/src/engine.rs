//! The generic delegating engine for one curve model.
//!
//! A `DelegatingGroupConfig` composes one family's constant data, its
//! local arithmetic, and an injected backend instance.  Scalar
//! multiplication and multi-scalar multiplication encode their operands,
//! cross the boundary once, and structurally decode the response; a
//! response that fails to decode is a fatal boundary-contract violation,
//! surfaced as an error and never replaced by a default value.  Cofactor
//! clearing and the coefficient shortcut are computed locally and never
//! delegated.

use crate::backend::{byte_views, HostBackend};
use crate::codec::{
    decode_projective_point, decode_affine_point, encode_affine_point, encode_projective_point,
    encode_scalar, lemma_affine_round_trip, spec_decode_affine, spec_decode_projective,
    spec_encode_affine, spec_encode_projective, spec_encode_scalar,
};
use crate::errors::DelegationError;
use crate::field::{limbs_value, lemma_limbs_value_push, pow2_64n, FieldElement, Scalar};
use crate::group::{group_laws, group_mul, lemma_group_mul_add, CurveArithmetic};
use crate::params::{CoeffAKind, CurveParameters};
use crate::point::{AffinePoint, AffineView, ProjectivePoint, ProjectiveView};
use vstd::arithmetic::power2::{lemma2_to64, pow2};
use vstd::prelude::*;

verus! {

/// The views of a vector of affine points.
pub open spec fn affine_views(s: Seq<AffinePoint>) -> Seq<AffineView> {
    s.map_values(|p: AffinePoint| p@)
}

/// The views of a vector of scalars.
pub open spec fn scalar_views(s: Seq<Scalar>) -> Seq<Seq<u64>> {
    s.map_values(|x: Scalar| x@)
}

/// What delegated projective scalar multiplication returns, for a given
/// backend type: the structurally decoded backend response, or the fatal
/// decode error.
pub open spec fn scalar_mul_model<B: HostBackend>(
    params: CurveParameters,
    base: ProjectiveView,
    scalar: Seq<u64>,
) -> Result<ProjectiveView, DelegationError> {
    match spec_decode_projective(
        params.fe_limbs as nat,
        B::mul_projective_response(spec_encode_projective(base), spec_encode_scalar(scalar)),
    ) {
        Some(p) => Ok(p),
        None => Err(DelegationError::StructuralDecode),
    }
}

/// What delegated affine-base scalar multiplication returns.
pub open spec fn scalar_mul_affine_model<B: HostBackend>(
    params: CurveParameters,
    base: AffineView,
    scalar: Seq<u64>,
) -> Result<ProjectiveView, DelegationError> {
    match spec_decode_projective(
        params.fe_limbs as nat,
        B::mul_affine_response(
            spec_encode_affine(params.model, base),
            spec_encode_scalar(scalar),
        ),
    ) {
        Some(p) => Ok(p),
        None => Err(DelegationError::StructuralDecode),
    }
}

/// What delegated multi-scalar multiplication returns: a length mismatch
/// is rejected before any delegation; an index-identified backend failure
/// is propagated verbatim; otherwise the one batched response is decoded.
pub open spec fn msm_model<B: HostBackend>(
    params: CurveParameters,
    bases: Seq<AffineView>,
    scalars: Seq<Seq<u64>>,
) -> Result<ProjectiveView, DelegationError> {
    if bases.len() != scalars.len() {
        Err(DelegationError::MsmLengthMismatch)
    } else {
        match B::msm_response(
            bases.map_values(|p: AffineView| spec_encode_affine(params.model, p)),
            scalars.map_values(|s: Seq<u64>| spec_encode_scalar(s)),
        ) {
            Err(i) => Err(DelegationError::IndexedFailure(i)),
            Ok(bytes) => match spec_decode_projective(params.fe_limbs as nat, bytes) {
                Some(p) => Ok(p),
                None => Err(DelegationError::StructuralDecode),
            },
        }
    }
}

/// What the local coefficient shortcut returns: the additive identity
/// when `A = 0`, the negation when `A = -1`, and a full field
/// multiplication otherwise.
pub open spec fn mul_by_a_model<A: CurveArithmetic>(
    params: CurveParameters,
    a: A,
    x: Seq<u64>,
) -> Seq<u64> {
    match params.coeff_a_kind {
        CoeffAKind::Zero => a.spec_field_zero(),
        CoeffAKind::MinusOne => a.spec_field_neg(x),
        CoeffAKind::General => a.spec_field_mul(params.coeff_a@, x),
    }
}

/// What decoding an affine point returns: a structural failure for a
/// malformed shape whatever the validation choice; with validation
/// requested, additionally a failure for any point the family's
/// arithmetic rejects.
pub open spec fn decode_affine_model<A: CurveArithmetic>(
    params: CurveParameters,
    a: A,
    b: Seq<u8>,
    validate: bool,
) -> Result<AffineView, DelegationError> {
    match spec_decode_affine(params.model, params.fe_limbs as nat, b) {
        None => Err(DelegationError::StructuralDecode),
        Some(v) => if validate && !a.spec_affine_valid(v) {
            Err(DelegationError::StructuralDecode)
        } else {
            Ok(v)
        },
    }
}

/// The generic engine: one curve family's constant data, its local
/// arithmetic, and an injected backend instance.
pub struct DelegatingGroupConfig<A: CurveArithmetic, B: HostBackend> {
    pub params: CurveParameters,
    pub arith: A,
    pub backend: B,
}

impl<A: CurveArithmetic, B: HostBackend> DelegatingGroupConfig<A, B> {
    /// Delegated scalar multiplication with a projective base: encodes
    /// both operands, crosses the boundary once, and structurally decodes
    /// the response without validation (the backend is trusted for the
    /// correctness of its own output; a malformed response is a fatal
    /// boundary-contract violation).
    pub fn scalar_mul(&mut self, base: &ProjectivePoint, scalar: &Scalar) -> (r: Result<
        ProjectivePoint,
        DelegationError,
    >)
        requires
            old(self).params.wf(),
        ensures
            final(self).params == old(self).params,
            final(self).arith == old(self).arith,
            final(self).backend.spec_calls() == old(self).backend.spec_calls() + 1,
            match r {
                Ok(p) => scalar_mul_model::<B>(old(self).params, base@, scalar@) == Ok::<
                    ProjectiveView,
                    DelegationError,
                >(p@),
                Err(e) => scalar_mul_model::<B>(old(self).params, base@, scalar@) == Err::<
                    ProjectiveView,
                    DelegationError,
                >(e),
            },
    {
        let base_bytes = encode_projective_point(base);
        let scalar_bytes = encode_scalar(scalar);
        let resp = self.backend.mul_projective(&base_bytes, &scalar_bytes);
        match decode_projective_point(self.params.fe_limbs, &resp) {
            Some(p) => Ok(p),
            None => Err(DelegationError::StructuralDecode),
        }
    }

    /// Delegated scalar multiplication with an affine base.
    pub fn scalar_mul_affine(&mut self, base: &AffinePoint, scalar: &Scalar) -> (r: Result<
        ProjectivePoint,
        DelegationError,
    >)
        requires
            old(self).params.wf(),
        ensures
            final(self).params == old(self).params,
            final(self).arith == old(self).arith,
            final(self).backend.spec_calls() == old(self).backend.spec_calls() + 1,
            match r {
                Ok(p) => scalar_mul_affine_model::<B>(old(self).params, base@, scalar@) == Ok::<
                    ProjectiveView,
                    DelegationError,
                >(p@),
                Err(e) => scalar_mul_affine_model::<B>(old(self).params, base@, scalar@) == Err::<
                    ProjectiveView,
                    DelegationError,
                >(e),
            },
    {
        let base_bytes = encode_affine_point(self.params.model, base);
        let scalar_bytes = encode_scalar(scalar);
        let resp = self.backend.mul_affine(&base_bytes, &scalar_bytes);
        match decode_projective_point(self.params.fe_limbs, &resp) {
            Some(p) => Ok(p),
            None => Err(DelegationError::StructuralDecode),
        }
    }

    /// Delegated multi-scalar multiplication.  Mismatched operand lengths
    /// are rejected before any delegation — the backend is not invoked
    /// and the engine is left untouched.  Otherwise the whole batch
    /// crosses the boundary as a single call, and an index-identified
    /// backend failure is propagated verbatim so the caller can correlate
    /// it to its input slice.
    pub fn msm(&mut self, bases: &Vec<AffinePoint>, scalars: &Vec<Scalar>) -> (r: Result<
        ProjectivePoint,
        DelegationError,
    >)
        requires
            old(self).params.wf(),
        ensures
            final(self).params == old(self).params,
            final(self).arith == old(self).arith,
            bases@.len() != scalars@.len() ==> *final(self) == *old(self),
            bases@.len() == scalars@.len() ==> final(self).backend.spec_calls() == old(
                self,
            ).backend.spec_calls() + 1,
            match r {
                Ok(p) => msm_model::<B>(
                    old(self).params,
                    affine_views(bases@),
                    scalar_views(scalars@),
                ) == Ok::<ProjectiveView, DelegationError>(p@),
                Err(e) => msm_model::<B>(
                    old(self).params,
                    affine_views(bases@),
                    scalar_views(scalars@),
                ) == Err::<ProjectiveView, DelegationError>(e),
            },
    {
        if bases.len() != scalars.len() {
            return Err(DelegationError::MsmLengthMismatch);
        }
        let model = self.params.model;
        let mut enc_bases: Vec<Vec<u8>> = Vec::new();
        let mut i: usize = 0;
        while i < bases.len()
            invariant
                i <= bases@.len(),
                enc_bases@.len() == i,
                forall|j: int|
                    0 <= j < i ==> #[trigger] enc_bases@[j]@ == spec_encode_affine(
                        model,
                        bases@[j]@,
                    ),
            decreases bases@.len() - i,
        {
            let e = encode_affine_point(model, &bases[i]);
            enc_bases.push(e);
            i = i + 1;
        }
        let mut enc_scalars: Vec<Vec<u8>> = Vec::new();
        let mut k: usize = 0;
        while k < scalars.len()
            invariant
                k <= scalars@.len(),
                enc_scalars@.len() == k,
                forall|j: int|
                    0 <= j < k ==> #[trigger] enc_scalars@[j]@ == spec_encode_scalar(scalars@[j]@),
            decreases scalars@.len() - k,
        {
            let e = encode_scalar(&scalars[k]);
            enc_scalars.push(e);
            k = k + 1;
        }
        proof {
            assert(byte_views(enc_bases@) =~= affine_views(bases@).map_values(
                |p: AffineView| spec_encode_affine(self.params.model, p),
            ));
            assert(byte_views(enc_scalars@) =~= scalar_views(scalars@).map_values(
                |s: Seq<u64>| spec_encode_scalar(s),
            ));
        }
        let resp = self.backend.msm(&enc_bases, &enc_scalars);
        match resp {
            Err(i) => Err(DelegationError::IndexedFailure(i)),
            Ok(bytes) => match decode_projective_point(self.params.fe_limbs, &bytes) {
                Some(p) => Ok(p),
                None => Err(DelegationError::StructuralDecode),
            },
        }
    }

    /// Cofactor clearing: the cofactor multiple of the point, computed
    /// locally by binary double-and-add over the cofactor's limbs.  It is
    /// cheap relative to a full delegated scalar multiplication and never
    /// crosses the trust boundary.
    pub fn clear_cofactor(&self, point: &ProjectivePoint) -> (r: ProjectivePoint)
        requires
            group_laws(self.arith),
        ensures
            r@ == group_mul(self.arith, self.params.cofactor_value(), point@),
    {
        let ghost a = self.arith;
        let ghost p = point@;
        let mut acc = self.arith.identity();
        let mut runner = self.arith.add(&acc, point);
        let ghost mut dv: nat = 0nat;
        let ghost mut sv: nat = 1nat;
        proof {
            assert(group_mul(a, 0nat, p) == a.spec_identity());
            assert(group_mul(a, 1nat, p) == a.spec_add(group_mul(a, 0nat, p), p));
        }
        let mut li: usize = 0;
        while li < self.params.cofactor.len()
            invariant
                group_laws(a),
                a == self.arith,
                p == point@,
                li <= self.params.cofactor@.len(),
                acc@ == group_mul(a, dv, p),
                runner@ == group_mul(a, sv, p),
                dv == limbs_value(self.params.cofactor@.take(li as int)),
                sv == pow2_64n(li as nat),
            decreases self.params.cofactor@.len() - li,
        {
            let limb = self.params.cofactor[li];
            let mut t: u64 = limb;
            let mut bit: usize = 0;
            let ghost target: nat = (dv + limb * sv) as nat;
            let ghost sv0: nat = sv;
            proof {
                lemma2_to64();
                assert((t as nat) < pow2(64nat));
                assert(pow2(0nat) == 1);
            }
            while bit < 64
                invariant
                    group_laws(a),
                    a == self.arith,
                    p == point@,
                    bit <= 64,
                    acc@ == group_mul(a, dv, p),
                    runner@ == group_mul(a, sv, p),
                    dv + (t as nat) * sv == target,
                    (t as nat) < pow2((64 - bit) as nat),
                    sv == pow2(bit as nat) * sv0,
                decreases 64 - bit,
            {
                let ghost old_t = t as nat;
                let ghost old_dv = dv;
                let ghost old_sv = sv;
                if t % 2 == 1 {
                    proof {
                        lemma_group_mul_add(a, dv, sv, p);
                    }
                    let sum = self.arith.add(&acc, &runner);
                    acc = sum;
                    proof {
                        dv = (dv + sv) as nat;
                    }
                }
                proof {
                    lemma_group_mul_add(a, sv, sv, p);
                }
                let doubled = self.arith.add(&runner, &runner);
                runner = doubled;
                proof {
                    sv = (sv + sv) as nat;
                }
                let half: u64 = t / 2;
                proof {
                    assert(old_dv + (if old_t % 2 == 1 {
                        old_sv
                    } else {
                        0nat
                    }) + (old_t / 2) * (old_sv + old_sv) == old_dv + old_t * old_sv)
                        by (nonlinear_arith)
                        requires
                            old_t == 2 * (old_t / 2) + old_t % 2,
                    ;
                    vstd::arithmetic::power2::lemma_pow2_unfold((64 - bit) as nat);
                    assert((half as nat) < pow2((64 - (bit + 1)) as nat));
                    vstd::arithmetic::power2::lemma_pow2_unfold((bit + 1) as nat);
                    assert((old_sv + old_sv) == (2 * pow2(bit as nat)) * sv0) by (nonlinear_arith)
                        requires
                            old_sv == pow2(bit as nat) * sv0,
                    ;
                }
                t = half;
                bit = bit + 1;
            }
            proof {
                assert(t as nat == 0);
                assert(dv == target);
                assert(pow2(64nat) == 0x1_0000_0000_0000_0000);
                assert(sv == 0x1_0000_0000_0000_0000 * sv0);
                assert(pow2_64n((li + 1) as nat) == 0x1_0000_0000_0000_0000 * pow2_64n(li as nat));
                lemma_limbs_value_push(
                    self.params.cofactor@.take(li as int),
                    self.params.cofactor@[li as int],
                );
                assert(self.params.cofactor@.take(li as int).push(
                    self.params.cofactor@[li as int],
                ) =~= self.params.cofactor@.take(li + 1));
            }
            li = li + 1;
        }
        proof {
            assert(self.params.cofactor@.take(self.params.cofactor@.len() as int)
                =~= self.params.cofactor@);
        }
        acc
    }

    /// The local field-level shortcut for multiplying by the curve
    /// coefficient `A`: the additive identity when `A = 0`, negation when
    /// `A = -1`, a full field multiplication otherwise.  Pure local
    /// arithmetic; never delegated.
    pub fn mul_by_curve_coefficient_a(&self, x: &FieldElement) -> (r: FieldElement)
        ensures
            r@ == mul_by_a_model(self.params, self.arith, x@),
    {
        match self.params.coeff_a_kind {
            CoeffAKind::Zero => self.arith.field_zero(),
            CoeffAKind::MinusOne => self.arith.field_neg(x),
            CoeffAKind::General => self.arith.field_mul(&self.params.coeff_a, x),
        }
    }

    /// Decodes an affine point from boundary bytes.  The structural shape
    /// is always checked; with `validate` set, the point is additionally
    /// checked against the family's arithmetic (curve equation and, where
    /// required, subgroup membership).  With `validate` unset those
    /// expensive checks are skipped — used for results freshly produced
    /// by the trusted backend.
    pub fn decode_affine(&self, bytes: &Vec<u8>, validate: bool) -> (r: Result<
        AffinePoint,
        DelegationError,
    >)
        requires
            self.params.wf(),
        ensures
            match r {
                Ok(p) => decode_affine_model(self.params, self.arith, bytes@, validate) == Ok::<
                    AffineView,
                    DelegationError,
                >(p@),
                Err(e) => decode_affine_model(self.params, self.arith, bytes@, validate) == Err::<
                    AffineView,
                    DelegationError,
                >(e),
            },
    {
        match decode_affine_point(self.params.model, self.params.fe_limbs, bytes) {
            None => Err(DelegationError::StructuralDecode),
            Some(p) => {
                if validate {
                    if self.arith.validate_affine(&p) {
                        Ok(p)
                    } else {
                        Err(DelegationError::StructuralDecode)
                    }
                } else {
                    Ok(p)
                }
            },
        }
    }

    /// Encodes an affine point canonically for the boundary.
    pub fn encode_affine(&self, p: &AffinePoint) -> (r: Vec<u8>)
        ensures
            r@ == spec_encode_affine(self.params.model, p@),
    {
        encode_affine_point(self.params.model, p)
    }
}

/// Round trip through the boundary codec with validation: a well-formed,
/// valid affine point decodes, validated, to exactly itself.
pub proof fn lemma_validated_round_trip<A: CurveArithmetic>(
    params: CurveParameters,
    a: A,
    v: AffineView,
)
    requires
        v.x.len() == params.fe_limbs,
        v.y.len() == params.fe_limbs,
        match params.model {
            crate::params::CurveModel::ShortWeierstrass => v.infinity ==> ((forall|i: int|
                0 <= i < v.x.len() ==> v.x[i] == 0) && (forall|i: int|
                0 <= i < v.y.len() ==> v.y[i] == 0)),
            _ => !v.infinity,
        },
        a.spec_affine_valid(v),
    ensures
        decode_affine_model(params, a, spec_encode_affine(params.model, v), true) == Ok::<
            AffineView,
            DelegationError,
        >(v),
{
    lemma_affine_round_trip(params.model, v);
}

} // verus!
