//! Pairing evaluation for pairing-friendly families.
//!
//! A `PairingConfig` composes two delegating engines (for the two pairing
//! groups) with the pairing-specific backend operations.  Its Miller loop
//! pairs its two input sequences positionally — no reordering, no
//! deduplication — and normalizes every second-group input to one
//! canonical affine encoding before crossing the boundary.  Inputs carry
//! an explicit representation tag; an unrecognized tag is a fatal caller
//! contract violation, never silently encoded.  Final exponentiation may
//! legitimately have no defined output: that is a valid empty result,
//! distinct from every error.

use crate::backend::{byte_views, HostBackend};
use crate::codec::{
    decode_affine_point, decode_field_element, decode_projective_point, encode_affine_point,
    encode_field_element, encode_projective_point, spec_decode_affine, spec_decode_field_element,
    spec_decode_projective, spec_encode_affine, spec_encode_field_element, spec_encode_projective,
};
use crate::engine::{affine_views, DelegatingGroupConfig};
use crate::errors::DelegationError;
use crate::field::FieldElement;
use crate::group::CurveArithmetic;
use crate::params::CurveParameters;
use crate::point::{AffinePoint, AffineView, ProjectivePoint};
use vstd::prelude::*;

verus! {

/// Tag of a second-group input carried as a raw affine point.
pub const G2_TAG_AFFINE: u8 = 0;

/// Tag of a second-group input carried as a raw projective point.
pub const G2_TAG_PROJECTIVE: u8 = 1;

/// Tag of a second-group input carried in the precomputed line-function
/// ("prepared") form; its payload is the canonical affine encoding of the
/// point it was prepared from, and the prepared line data itself is
/// reconstructed host-side.
pub const G2_TAG_PREPARED: u8 = 2;

/// A second-group pairing input: an explicit, statically known
/// representation tag, and the payload encoded in that representation.
#[derive(Clone, PartialEq, Eq, Debug)]
pub struct G2Source {
    pub tag: u8,
    pub payload: Vec<u8>,
}

/// The value of a second-group pairing input.
pub struct G2SourceView {
    pub tag: u8,
    pub payload: Seq<u8>,
}

impl View for G2Source {
    type V = G2SourceView;

    open spec fn view(&self) -> G2SourceView {
        G2SourceView { tag: self.tag, payload: self.payload@ }
    }
}

/// An unreduced Miller-loop accumulator: an element of the target
/// extension field, awaiting final exponentiation.
#[derive(Clone, PartialEq, Eq, Debug)]
pub struct MillerAccumulator {
    pub value: FieldElement,
}

/// An element of the pairing output subgroup of the target field.
#[derive(Clone, PartialEq, Eq, Debug)]
pub struct PairingOutput {
    pub value: FieldElement,
}

impl View for MillerAccumulator {
    type V = Seq<u64>;

    open spec fn view(&self) -> Seq<u64> {
        self.value@
    }
}

impl View for PairingOutput {
    type V = Seq<u64>;

    open spec fn view(&self) -> Seq<u64> {
        self.value@
    }
}

/// Whether a representation tag belongs to the supported closed set.
pub open spec fn recognized_g2_tag(tag: u8) -> bool {
    tag == G2_TAG_AFFINE || tag == G2_TAG_PROJECTIVE || tag == G2_TAG_PREPARED
}

/// What normalizing one second-group input returns: the canonical affine
/// encoding of the carried point; a structural failure for a malformed
/// payload; the fatal unrecognized-representation error for a tag outside
/// the closed set.
pub open spec fn normalize_g2_model<A: CurveArithmetic>(
    params: CurveParameters,
    a: A,
    src: G2SourceView,
) -> Result<Seq<u8>, DelegationError> {
    if src.tag == G2_TAG_AFFINE || src.tag == G2_TAG_PREPARED {
        match spec_decode_affine(params.model, params.fe_limbs as nat, src.payload) {
            Some(v) => Ok(spec_encode_affine(params.model, v)),
            None => Err(DelegationError::StructuralDecode),
        }
    } else if src.tag == G2_TAG_PROJECTIVE {
        match spec_decode_projective(params.fe_limbs as nat, src.payload) {
            Some(v) => Ok(spec_encode_affine(params.model, a.spec_to_affine(v))),
            None => Err(DelegationError::StructuralDecode),
        }
    } else {
        Err(DelegationError::UnrecognizedPairingInput)
    }
}

/// Normalizing a sequence of second-group inputs, in order, stopping at
/// the first failure.
pub open spec fn normalize_g2_all<A: CurveArithmetic>(
    params: CurveParameters,
    a: A,
    srcs: Seq<G2SourceView>,
) -> Result<Seq<Seq<u8>>, DelegationError>
    decreases srcs.len(),
{
    if srcs.len() == 0 {
        Ok(Seq::empty())
    } else {
        match normalize_g2_model(params, a, srcs[0]) {
            Err(e) => Err(e),
            Ok(enc) => match normalize_g2_all(params, a, srcs.skip(1)) {
                Err(e) => Err(e),
                Ok(rest) => Ok(seq![enc] + rest),
            },
        }
    }
}

/// Appending one input to a normalization batch: a prior failure is
/// unchanged; otherwise the new input's own outcome decides.
pub proof fn lemma_normalize_g2_append<A: CurveArithmetic>(
    params: CurveParameters,
    a: A,
    srcs: Seq<G2SourceView>,
    x: G2SourceView,
)
    ensures
        match normalize_g2_all(params, a, srcs) {
            Ok(pre) => normalize_g2_all(params, a, srcs.push(x)) == (match normalize_g2_model(
                params,
                a,
                x,
            ) {
                Ok(e) => Ok::<Seq<Seq<u8>>, DelegationError>(pre.push(e)),
                Err(err) => Err::<Seq<Seq<u8>>, DelegationError>(err),
            }),
            Err(e) => normalize_g2_all(params, a, srcs.push(x)) == Err::<
                Seq<Seq<u8>>,
                DelegationError,
            >(e),
        },
    decreases srcs.len(),
{
    if srcs.len() == 0 {
        assert(srcs.push(x)[0] == x);
        assert(srcs.push(x).skip(1) =~= Seq::<G2SourceView>::empty());
        assert(normalize_g2_all(params, a, Seq::<G2SourceView>::empty()) == Ok::<
            Seq<Seq<u8>>,
            DelegationError,
        >(Seq::empty()));
        match normalize_g2_model(params, a, x) {
            Ok(e) => {
                assert(normalize_g2_all(params, a, srcs.push(x)) == Ok::<
                    Seq<Seq<u8>>,
                    DelegationError,
                >(seq![e] + Seq::empty()));
                assert(seq![e] + Seq::<Seq<u8>>::empty() =~= Seq::<Seq<u8>>::empty().push(e));
            },
            Err(_) => {
            },
        }
    } else {
        assert(srcs.push(x)[0] == srcs[0]);
        assert(srcs.push(x).skip(1) =~= srcs.skip(1).push(x));
        lemma_normalize_g2_append(params, a, srcs.skip(1), x);
        match normalize_g2_all(params, a, srcs) {
            Ok(pre) => {
                match normalize_g2_model(params, a, x) {
                    Ok(e) => {
                        let rest = normalize_g2_all(params, a, srcs.skip(1));
                        let head = normalize_g2_model(params, a, srcs[0]);
                        assert(pre == seq![head.unwrap()] + rest.unwrap());
                        assert(seq![head.unwrap()] + rest.unwrap().push(e) =~= pre.push(e));
                    },
                    Err(_) => {
                    },
                }
            },
            Err(_) => {
            },
        }
    }
}

/// A batch holding any unrecognized representation tag never normalizes
/// to a value: the outcome is an error, whichever input fails first.
pub proof fn lemma_unrecognized_tag_never_a_value<A: CurveArithmetic>(
    params: CurveParameters,
    a: A,
    srcs: Seq<G2SourceView>,
)
    requires
        exists|i: int| 0 <= i < srcs.len() && !recognized_g2_tag(#[trigger] srcs[i].tag),
    ensures
        normalize_g2_all(params, a, srcs) is Err,
    decreases srcs.len(),
{
    let i = choose|i: int| 0 <= i < srcs.len() && !recognized_g2_tag(#[trigger] srcs[i].tag);
    if i == 0 {
        assert(normalize_g2_model(params, a, srcs[0]) == Err::<Seq<u8>, DelegationError>(
            DelegationError::UnrecognizedPairingInput,
        ));
    } else {
        match normalize_g2_model(params, a, srcs[0]) {
            Err(_) => {
            },
            Ok(_) => {
                assert(srcs.skip(1)[i - 1] == srcs[i]);
                lemma_unrecognized_tag_never_a_value(params, a, srcs.skip(1));
            },
        }
    }
}

/// A Miller loop handed any input with an unrecognized representation
/// tag never yields an accumulator — the outcome is an error, never a
/// silently wrong pairing value.
pub proof fn lemma_miller_rejects_unrecognized_tag<A: CurveArithmetic, B: HostBackend>(
    g1_params: CurveParameters,
    g2_params: CurveParameters,
    a: A,
    g1s: Seq<AffineView>,
    g2s: Seq<G2SourceView>,
)
    requires
        exists|i: int| 0 <= i < g2s.len() && !recognized_g2_tag(#[trigger] g2s[i].tag),
    ensures
        miller_model::<A, B>(g1_params, g2_params, a, g1s, g2s) is Err,
{
    lemma_unrecognized_tag_never_a_value(g2_params, a, g2s);
}

/// What the delegated Miller loop returns: the normalized second-group
/// encodings and the first-group encodings cross the boundary as one
/// batched call, and the response is structurally decoded as a
/// target-field element.
pub open spec fn miller_model<A: CurveArithmetic, B: HostBackend>(
    g1_params: CurveParameters,
    g2_params: CurveParameters,
    a: A,
    g1s: Seq<AffineView>,
    g2s: Seq<G2SourceView>,
) -> Result<Seq<u64>, DelegationError> {
    match normalize_g2_all(g2_params, a, g2s) {
        Err(e) => Err(e),
        Ok(g2enc) => {
            match spec_decode_field_element(
                B::miller_loop_response(
                    g1s.map_values(|p: AffineView| spec_encode_affine(g1_params.model, p)),
                    g2enc,
                ),
                g1_params.target_limbs as nat,
            ) {
                Some(f) => Ok(f),
                None => Err(DelegationError::StructuralDecode),
            }
        },
    }
}

/// What delegated final exponentiation returns: an undefined outcome is a
/// valid empty result, and a defined response is structurally decoded as
/// a target-field element.
pub open spec fn final_exp_model<B: HostBackend>(
    g1_params: CurveParameters,
    acc: Seq<u64>,
) -> Result<Option<Seq<u64>>, DelegationError> {
    match B::final_exp_response(spec_encode_field_element(acc)) {
        None => Ok(None),
        Some(bytes) => match spec_decode_field_element(bytes, g1_params.target_limbs as nat) {
            Some(f) => Ok(Some(f)),
            None => Err(DelegationError::StructuralDecode),
        },
    }
}

/// The pairing orchestrator: the two group engines and the instance
/// answering the pairing-specific delegated operations.
pub struct PairingConfig<A: CurveArithmetic, B: HostBackend> {
    pub g1: DelegatingGroupConfig<A, B>,
    pub g2: DelegatingGroupConfig<A, B>,
    pub backend: B,
}

impl<A: CurveArithmetic, B: HostBackend> PairingConfig<A, B> {
    /// Structural well-formedness of the composed configuration.
    pub open spec fn wf(&self) -> bool {
        &&& self.g1.params.wf()
        &&& self.g2.params.wf()
        &&& 1 <= self.g1.params.target_limbs <= 0x100000
    }

    /// Wraps a raw affine second-group point as a tagged pairing input.
    pub fn g2_from_affine(&self, p: &AffinePoint) -> (s: G2Source)
        ensures
            s@.tag == G2_TAG_AFFINE,
            s@.payload == spec_encode_affine(self.g2.params.model, p@),
    {
        G2Source { tag: G2_TAG_AFFINE, payload: encode_affine_point(self.g2.params.model, p) }
    }

    /// Wraps a raw projective second-group point as a tagged pairing
    /// input.
    pub fn g2_from_projective(&self, p: &ProjectivePoint) -> (s: G2Source)
        ensures
            s@.tag == G2_TAG_PROJECTIVE,
            s@.payload == spec_encode_projective(p@),
    {
        G2Source { tag: G2_TAG_PROJECTIVE, payload: encode_projective_point(p) }
    }

    /// Wraps a prepared (line-function) second-group input, identified by
    /// the affine point it was prepared from.
    pub fn g2_from_prepared(&self, p: &AffinePoint) -> (s: G2Source)
        ensures
            s@.tag == G2_TAG_PREPARED,
            s@.payload == spec_encode_affine(self.g2.params.model, p@),
    {
        G2Source { tag: G2_TAG_PREPARED, payload: encode_affine_point(self.g2.params.model, p) }
    }

    /// Normalizes one tagged second-group input to its canonical affine
    /// encoding.  Disambiguation is by the explicit tag alone; a tag
    /// outside the closed set is a fatal contract violation.
    pub fn normalize_g2_input(&self, src: &G2Source) -> (r: Result<Vec<u8>, DelegationError>)
        requires
            self.g2.params.wf(),
        ensures
            match r {
                Ok(b) => normalize_g2_model(self.g2.params, self.g2.arith, src@) == Ok::<
                    Seq<u8>,
                    DelegationError,
                >(b@),
                Err(e) => normalize_g2_model(self.g2.params, self.g2.arith, src@) == Err::<
                    Seq<u8>,
                    DelegationError,
                >(e),
            },
    {
        if src.tag == G2_TAG_AFFINE || src.tag == G2_TAG_PREPARED {
            match decode_affine_point(self.g2.params.model, self.g2.params.fe_limbs, &src.payload) {
                Some(p) => Ok(encode_affine_point(self.g2.params.model, &p)),
                None => Err(DelegationError::StructuralDecode),
            }
        } else if src.tag == G2_TAG_PROJECTIVE {
            match decode_projective_point(self.g2.params.fe_limbs, &src.payload) {
                Some(p) => {
                    let affine = self.g2.arith.to_affine(&p);
                    Ok(encode_affine_point(self.g2.params.model, &affine))
                },
                None => Err(DelegationError::StructuralDecode),
            }
        } else {
            Err(DelegationError::UnrecognizedPairingInput)
        }
    }

    /// Evaluates the batched Miller loop: pairs element `i` of the two
    /// input sequences, normalizes every second-group input to the
    /// canonical affine encoding, and crosses the boundary as a single
    /// call.  Normalization failures abort before any delegation.
    pub fn multi_miller_loop(&mut self, g1_inputs: &Vec<AffinePoint>, g2_inputs: &Vec<G2Source>)
        -> (r: Result<MillerAccumulator, DelegationError>)
        requires
            old(self).wf(),
            g1_inputs@.len() == g2_inputs@.len(),
        ensures
            final(self).g1 == old(self).g1,
            final(self).g2 == old(self).g2,
            match r {
                Ok(m) => miller_model::<A, B>(
                    old(self).g1.params,
                    old(self).g2.params,
                    old(self).g2.arith,
                    affine_views(g1_inputs@),
                    g2_inputs@.map_values(|s: G2Source| s@),
                ) == Ok::<Seq<u64>, DelegationError>(m@),
                Err(e) => miller_model::<A, B>(
                    old(self).g1.params,
                    old(self).g2.params,
                    old(self).g2.arith,
                    affine_views(g1_inputs@),
                    g2_inputs@.map_values(|s: G2Source| s@),
                ) == Err::<Seq<u64>, DelegationError>(e),
            },
            normalize_g2_all(
                old(self).g2.params,
                old(self).g2.arith,
                g2_inputs@.map_values(|s: G2Source| s@),
            ) is Err ==> *final(self) == *old(self),
            normalize_g2_all(
                old(self).g2.params,
                old(self).g2.arith,
                g2_inputs@.map_values(|s: G2Source| s@),
            ) is Ok ==> final(self).backend.spec_calls() == old(self).backend.spec_calls() + 1,
    {
        let ghost srcs = g2_inputs@.map_values(|s: G2Source| s@);
        let mut normalized: Vec<Vec<u8>> = Vec::new();
        let mut i: usize = 0;
        proof {
            assert(srcs.take(0) =~= Seq::<G2SourceView>::empty());
            assert(byte_views(normalized@) =~= Seq::<Seq<u8>>::empty());
        }
        while i < g2_inputs.len()
            invariant
                i <= g2_inputs@.len(),
                self == old(self),
                old(self).wf(),
                srcs == g2_inputs@.map_values(|s: G2Source| s@),
                normalize_g2_all(self.g2.params, self.g2.arith, srcs.take(i as int)) == Ok::<
                    Seq<Seq<u8>>,
                    DelegationError,
                >(byte_views(normalized@)),
            decreases g2_inputs@.len() - i,
        {
            let outcome = self.normalize_g2_input(&g2_inputs[i]);
            proof {
                lemma_normalize_g2_append(self.g2.params, self.g2.arith, srcs.take(i as int), srcs[i as int]);
                assert(srcs.take(i as int).push(srcs[i as int]) =~= srcs.take(i + 1));
            }
            match outcome {
                Err(e) => {
                    proof {
                        lemma_normalize_g2_prefix_err(
                            self.g2.params,
                            self.g2.arith,
                            srcs,
                            (i + 1) as int,
                        );
                    }
                    return Err(e);
                },
                Ok(enc) => {
                    normalized.push(enc);
                    proof {
                        assert(byte_views(normalized@) =~= normalize_g2_all(
                            self.g2.params,
                            self.g2.arith,
                            srcs.take(i + 1),
                        ).unwrap());
                    }
                },
            }
            i = i + 1;
        }
        proof {
            assert(srcs.take(srcs.len() as int) =~= srcs);
        }
        let model = self.g1.params.model;
        let mut enc_g1: Vec<Vec<u8>> = Vec::new();
        let mut k: usize = 0;
        while k < g1_inputs.len()
            invariant
                k <= g1_inputs@.len(),
                self == old(self),
                old(self).wf(),
                model == self.g1.params.model,
                enc_g1@.len() == k,
                forall|j: int|
                    0 <= j < k ==> #[trigger] enc_g1@[j]@ == spec_encode_affine(
                        model,
                        g1_inputs@[j]@,
                    ),
            decreases g1_inputs@.len() - k,
        {
            let e = encode_affine_point(model, &g1_inputs[k]);
            enc_g1.push(e);
            k = k + 1;
        }
        proof {
            assert(byte_views(enc_g1@) =~= affine_views(g1_inputs@).map_values(
                |p: AffineView| spec_encode_affine(self.g1.params.model, p),
            ));
        }
        let resp = self.backend.multi_miller_loop(&enc_g1, &normalized);
        match decode_field_element(&resp, self.g1.params.target_limbs) {
            Some(f) => Ok(MillerAccumulator { value: f }),
            None => Err(DelegationError::StructuralDecode),
        }
    }

    /// Delegated final exponentiation of a Miller accumulator.  `None` is
    /// the backend's legitimate "no defined output", returned as a valid
    /// empty result; a defined response that fails structural decode is a
    /// fatal boundary-contract violation.
    pub fn final_exponentiation(&mut self, acc: &MillerAccumulator) -> (r: Result<
        Option<PairingOutput>,
        DelegationError,
    >)
        requires
            old(self).wf(),
        ensures
            final(self).g1 == old(self).g1,
            final(self).g2 == old(self).g2,
            final(self).backend.spec_calls() == old(self).backend.spec_calls() + 1,
            match r {
                Ok(out) => final_exp_model::<B>(old(self).g1.params, acc@) == Ok::<
                    Option<Seq<u64>>,
                    DelegationError,
                >(match out {
                    Some(p) => Some(p@),
                    None => None,
                }),
                Err(e) => final_exp_model::<B>(old(self).g1.params, acc@) == Err::<
                    Option<Seq<u64>>,
                    DelegationError,
                >(e),
            },
    {
        let enc = encode_field_element(&acc.value);
        let resp = self.backend.final_exponentiation(&enc);
        match resp {
            None => Ok(None),
            Some(bytes) => match decode_field_element(&bytes, self.g1.params.target_limbs) {
                Some(f) => Ok(Some(PairingOutput { value: f })),
                None => Err(DelegationError::StructuralDecode),
            },
        }
    }
}

/// A failed prefix decides the whole batch.
pub proof fn lemma_normalize_g2_prefix_err<A: CurveArithmetic>(
    params: CurveParameters,
    a: A,
    srcs: Seq<G2SourceView>,
    n: int,
)
    requires
        0 <= n <= srcs.len(),
        normalize_g2_all(params, a, srcs.take(n)) is Err,
    ensures
        normalize_g2_all(params, a, srcs) == normalize_g2_all(params, a, srcs.take(n)),
    decreases srcs.len(),
{
    if n > 0 {
        assert(srcs.take(n)[0] == srcs[0]);
        match normalize_g2_model(params, a, srcs[0]) {
            Err(_) => {
            },
            Ok(_) => {
                assert(srcs.take(n).skip(1) =~= srcs.skip(1).take(n - 1));
                lemma_normalize_g2_prefix_err(params, a, srcs.skip(1), n - 1);
            },
        }
    }
}

} // verus!
