//! Laws of the composed delegation system.
//!
//! The engine's own contracts pin every delegated result down to a model
//! that is a function of the backend type, the configuration data and the
//! inputs alone — which is why two identical sequential calls through one
//! backend agree: there is nothing else a result could depend on.  What
//! the models *compute* depends on the backend; this module proves what
//! the deterministic mock instantiation computes, where group theory is
//! fact rather than trust: multiplying by zero gives the
//! identity, multiplying by one gives the point back, scalar
//! multiplication splits over scalar addition, a single-pair multi-scalar
//! multiplication agrees with scalar multiplication, and the cofactor
//! multiple of any point lies in the prime-order subgroup.

use crate::codec::{
    encode_limbs, lemma_affine_round_trip, lemma_encode_limbs_len, lemma_field_element_round_trip,
    lemma_limbs_round_trip, lemma_projective_round_trip, spec_encode_affine,
    spec_encode_field_element, spec_encode_projective, spec_encode_scalar,
};
use crate::engine::{msm_model, scalar_mul_affine_model, scalar_mul_model};
use crate::pairing::{final_exp_model, miller_model, G2SourceView, G2_TAG_AFFINE};
use crate::errors::DelegationError;
use crate::group::{group_mul, CurveArithmetic};
use crate::mock::{
    mock_affine_value, mock_canonical, mock_limbs_mod, mock_proj_value, mock_scalar_value,
    mock_view_value, MockArithmetic, MockBackend, MOCK_COFACTOR, MOCK_MODULUS,
};
use crate::params::{CurveModel, CurveParameters};
use crate::point::ProjectiveView;
use vstd::arithmetic::div_mod::{
    lemma_add_mod_noop, lemma_mul_mod_noop_left, lemma_truncate_middle,
};
use vstd::bytes::{lemma_auto_spec_u64_to_from_le_bytes, spec_u64_to_le_bytes};
use vstd::prelude::*;

verus! {

/// The encoding of one limb is that limb's eight bytes.
proof fn lemma_encode_one_limb(x: u64)
    ensures
        encode_limbs(seq![x]) == spec_u64_to_le_bytes(x),
{
    lemma_auto_spec_u64_to_from_le_bytes();
    assert(seq![x].skip(1) =~= Seq::<u64>::empty());
    assert(encode_limbs(Seq::<u64>::empty()) =~= Seq::<u8>::empty());
    assert(encode_limbs(seq![x]) =~= spec_u64_to_le_bytes(x));
}

/// A scalar's mock value survives encoding.
pub proof fn lemma_mock_scalar_encode_value(s: Seq<u64>)
    ensures
        mock_scalar_value(spec_encode_scalar(s)) == mock_limbs_mod(s),
{
    lemma_encode_limbs_len(s);
    lemma_limbs_round_trip(s);
}

/// A canonical mock point's value survives projective encoding.
pub proof fn lemma_mock_proj_encode_value(v: u64)
    requires
        v < MOCK_MODULUS,
    ensures
        mock_proj_value(spec_encode_projective(mock_canonical(v))) == v,
{
    lemma_auto_spec_u64_to_from_le_bytes();
    let c = mock_canonical(v);
    let z: u64 = if v == 0 {
        0
    } else {
        1
    };
    lemma_encode_one_limb(v);
    lemma_encode_one_limb(0);
    lemma_encode_one_limb(z);
    let e = spec_encode_projective(c);
    assert(e.len() == 24);
    assert(e.subrange(0, 8) =~= spec_u64_to_le_bytes(v));
    assert(e.subrange(16, 24) =~= spec_u64_to_le_bytes(z));
}

/// A canonical mock point's value survives affine encoding.
pub proof fn lemma_mock_affine_encode_value(a: MockArithmetic, v: u64)
    requires
        v < MOCK_MODULUS,
    ensures
        mock_affine_value(
            spec_encode_affine(
                CurveModel::ShortWeierstrass,
                a.spec_to_affine(mock_canonical(v)),
            ),
        ) == v,
{
    lemma_auto_spec_u64_to_from_le_bytes();
    assert(mock_view_value(mock_canonical(v)) == v);
    let av = a.spec_to_affine(mock_canonical(v));
    lemma_encode_one_limb(v);
    lemma_encode_one_limb(0);
    let e = spec_encode_affine(CurveModel::ShortWeierstrass, av);
    assert(e.len() == 17);
    if v == 0 {
        assert(e[0] == 1);
    } else {
        assert(e[0] == 0);
        assert(e.subrange(1, 9) =~= spec_u64_to_le_bytes(v));
    }
}

/// What delegated scalar multiplication computes through the mock
/// backend: the reduced product of the scalar's value and the point's
/// value, as a canonical point.
pub proof fn lemma_mock_scalar_mul(params: CurveParameters, v: u64, s: Seq<u64>)
    requires
        params.fe_limbs == 1,
        v < MOCK_MODULUS,
    ensures
        scalar_mul_model::<MockBackend>(params, mock_canonical(v), s) == Ok::<
            ProjectiveView,
            DelegationError,
        >(mock_canonical(((mock_limbs_mod(s) * v) % (MOCK_MODULUS as int)) as u64)),
{
    lemma_mock_scalar_encode_value(s);
    lemma_mock_proj_encode_value(v);
    let w = ((mock_limbs_mod(s) * v) % (MOCK_MODULUS as int)) as u64;
    assert(mock_canonical(w).x.len() == 1);
    assert(mock_canonical(w).y.len() == mock_canonical(w).x.len());
    assert(mock_canonical(w).z.len() == mock_canonical(w).x.len());
    lemma_projective_round_trip(mock_canonical(w));
}

/// Multiplying by a zero-valued scalar yields the group identity.
pub proof fn lemma_mock_scalar_mul_zero(
    a: MockArithmetic,
    params: CurveParameters,
    v: u64,
    s: Seq<u64>,
)
    requires
        params.fe_limbs == 1,
        v < MOCK_MODULUS,
        mock_limbs_mod(s) == 0,
    ensures
        scalar_mul_model::<MockBackend>(params, mock_canonical(v), s) == Ok::<
            ProjectiveView,
            DelegationError,
        >(a.spec_identity()),
{
    lemma_mock_scalar_mul(params, v, s);
}

/// Multiplying by a one-valued scalar yields the point back.
pub proof fn lemma_mock_scalar_mul_one(params: CurveParameters, v: u64, s: Seq<u64>)
    requires
        params.fe_limbs == 1,
        v < MOCK_MODULUS,
        mock_limbs_mod(s) == 1,
    ensures
        scalar_mul_model::<MockBackend>(params, mock_canonical(v), s) == Ok::<
            ProjectiveView,
            DelegationError,
        >(mock_canonical(v)),
{
    lemma_mock_scalar_mul(params, v, s);
}

/// Scalar multiplication splits over scalar addition: multiplying by the
/// reduced sum of two scalars gives the group sum of the two separate
/// multiples.
pub proof fn lemma_mock_scalar_mul_additive(
    a: MockArithmetic,
    params: CurveParameters,
    v: u64,
    s1: Seq<u64>,
    s2: Seq<u64>,
    s12: Seq<u64>,
)
    requires
        params.fe_limbs == 1,
        v < MOCK_MODULUS,
        mock_limbs_mod(s12) == ((mock_limbs_mod(s1) + mock_limbs_mod(s2)) % (
        MOCK_MODULUS as int)) as u64,
    ensures
        ({
            let r1 = scalar_mul_model::<MockBackend>(params, mock_canonical(v), s1);
            let r2 = scalar_mul_model::<MockBackend>(params, mock_canonical(v), s2);
            let r12 = scalar_mul_model::<MockBackend>(params, mock_canonical(v), s12);
            &&& r1 is Ok
            &&& r2 is Ok
            &&& r12 is Ok
            &&& r12 == Ok::<ProjectiveView, DelegationError>(
                a.spec_add(r1.unwrap(), r2.unwrap()),
            )
        }),
{
    let n = MOCK_MODULUS as int;
    let k1 = mock_limbs_mod(s1) as int;
    let k2 = mock_limbs_mod(s2) as int;
    lemma_mock_scalar_mul(params, v, s1);
    lemma_mock_scalar_mul(params, v, s2);
    lemma_mock_scalar_mul(params, v, s12);
    let w1 = (k1 * v) % n;
    let w2 = (k2 * v) % n;
    assert(mock_view_value(mock_canonical(w1 as u64)) == w1);
    assert(mock_view_value(mock_canonical(w2 as u64)) == w2);
    lemma_mul_mod_noop_left(k1 + k2, v as int, n);
    assert((k1 + k2) * v == k1 * v + k2 * v) by (nonlinear_arith);
    lemma_add_mod_noop(k1 * v, k2 * v, n);
}

/// A single-pair multi-scalar multiplication agrees with scalar
/// multiplication of that base by that scalar.
pub proof fn lemma_mock_msm_single(
    a: MockArithmetic,
    params: CurveParameters,
    v: u64,
    s: Seq<u64>,
)
    requires
        params.fe_limbs == 1,
        params.model == CurveModel::ShortWeierstrass,
        v < MOCK_MODULUS,
    ensures
        msm_model::<MockBackend>(params, seq![a.spec_to_affine(mock_canonical(v))], seq![s])
            == scalar_mul_affine_model::<MockBackend>(params, a.spec_to_affine(mock_canonical(v)), s),
{
    let av = a.spec_to_affine(mock_canonical(v));
    let eb = spec_encode_affine(params.model, av);
    let es = spec_encode_scalar(s);
    lemma_mock_affine_encode_value(a, v);
    lemma_mock_scalar_encode_value(s);
    lemma_encode_limbs_len(av.x);
    lemma_encode_limbs_len(av.y);
    assert(eb.len() == 17);
    let bases = seq![av].map_values(|p: crate::point::AffineView| spec_encode_affine(params.model, p));
    let scalars = seq![s].map_values(|x: Seq<u64>| spec_encode_scalar(x));
    assert(bases =~= seq![eb]);
    assert(scalars =~= seq![es]);
    assert(seq![eb].skip(1) =~= Seq::<Seq<u8>>::empty());
    assert(crate::mock::mock_first_empty(Seq::<Seq<u8>>::empty()) is None);
    assert(crate::mock::mock_first_empty(seq![eb]) is None);
    assert(seq![es].skip(1) =~= Seq::<Seq<u8>>::empty());
    assert(crate::mock::mock_msm_value(seq![eb].skip(1), seq![es].skip(1)) == 0);
    assert(crate::mock::mock_msm_value(seq![eb], seq![es]) == ((0 + mock_scalar_value(es)
        * mock_affine_value(eb)) % (MOCK_MODULUS as int)) as u64);
}

/// The value of a repeated group sum in the mock group: `k·p` carries
/// `k` times the point's value, reduced.
pub proof fn lemma_mock_group_mul_value(a: MockArithmetic, k: nat, p: ProjectiveView)
    ensures
        group_mul(a, k, p) == mock_canonical(
            (((k as int) * mock_view_value(p)) % (MOCK_MODULUS as int)) as u64,
        ),
    decreases k,
{
    let n = MOCK_MODULUS as int;
    let vp = mock_view_value(p) as int;
    if k == 0 {
        assert((0int * vp) % n == 0);
    } else {
        lemma_mock_group_mul_value(a, (k - 1) as nat, p);
        let prev = ((((k - 1) as int) * vp) % n) as u64;
        assert(mock_view_value(mock_canonical(prev)) == prev);
        lemma_add_mod_noop(((k - 1) as int) * vp, vp, n);
        assert(vp % n == vp);
        assert(((k - 1) as int) * vp + vp == (k as int) * vp) by (nonlinear_arith);
    }
}

/// Cofactor clearing lands in the prime-order subgroup: the cofactor
/// multiple of any point, taken to affine form, is a valid (on-curve,
/// in-subgroup) point of the mock family.
pub proof fn lemma_mock_cleared_point_in_subgroup(a: MockArithmetic, p: ProjectiveView)
    ensures
        a.spec_affine_valid(a.spec_to_affine(group_mul(a, MOCK_COFACTOR as nat, p))),
{
    let n = MOCK_MODULUS as int;
    let vp = mock_view_value(p) as int;
    lemma_mock_group_mul_value(a, MOCK_COFACTOR as nat, p);
    let w = ((8 * vp) % n) as u64;
    lemma_truncate_middle(vp, 8, 1000003);
    assert(8 * 1000003 == n);
    assert(w == 8 * (vp % 1000003));
    assert(w % 8 == 0);
    assert(mock_view_value(mock_canonical(w)) == w);
}

/// What delegated affine-base scalar multiplication computes through the
/// mock backend: the reduced product, as a canonical point.
pub proof fn lemma_mock_scalar_mul_affine(
    a: MockArithmetic,
    params: CurveParameters,
    v: u64,
    s: Seq<u64>,
)
    requires
        params.fe_limbs == 1,
        params.model == CurveModel::ShortWeierstrass,
        v < MOCK_MODULUS,
    ensures
        scalar_mul_affine_model::<MockBackend>(params, a.spec_to_affine(mock_canonical(v)), s)
            == Ok::<ProjectiveView, DelegationError>(
            mock_canonical(((mock_limbs_mod(s) * v) % (MOCK_MODULUS as int)) as u64),
        ),
{
    lemma_mock_scalar_encode_value(s);
    lemma_mock_affine_encode_value(a, v);
    let w = ((mock_limbs_mod(s) * v) % (MOCK_MODULUS as int)) as u64;
    assert(mock_canonical(w).y.len() == mock_canonical(w).x.len());
    assert(mock_canonical(w).z.len() == mock_canonical(w).x.len());
    lemma_projective_round_trip(mock_canonical(w));
}

/// The group sum of the individual delegated multiples of a batch: term
/// `i` is what `lemma_mock_scalar_mul_affine` shows the engine returns
/// for the pair at `i`, and the terms are summed through the group
/// addition, later pairs first.
pub open spec fn mock_muls_sum(a: MockArithmetic, vs: Seq<u64>, ss: Seq<Seq<u64>>)
    -> ProjectiveView
    decreases vs.len(),
{
    if vs.len() == 0 || ss.len() == 0 {
        a.spec_identity()
    } else {
        a.spec_add(
            mock_muls_sum(a, vs.skip(1), ss.skip(1)),
            mock_canonical(((mock_limbs_mod(ss[0]) * vs[0]) % (MOCK_MODULUS as int)) as u64),
        )
    }
}

/// The mock backend's batched sum carries exactly the value of the group
/// sum of the individual multiples, and that sum is a canonical point.
proof fn lemma_mock_msm_value_fold(a: MockArithmetic, model: CurveModel, vs: Seq<u64>, ss: Seq<
    Seq<u64>,
>)
    requires
        model == CurveModel::ShortWeierstrass,
        vs.len() == ss.len(),
        forall|i: int| 0 <= i < vs.len() ==> #[trigger] vs[i] < MOCK_MODULUS,
    ensures
        mock_muls_sum(a, vs, ss) == mock_canonical(
            crate::mock::mock_msm_value(
                vs.map_values(
                    |v: u64| spec_encode_affine(model, a.spec_to_affine(mock_canonical(v))),
                ),
                ss.map_values(|s: Seq<u64>| spec_encode_scalar(s)),
            ),
        ),
    decreases vs.len(),
{
    let n = MOCK_MODULUS as int;
    let eb = vs.map_values(
        |v: u64| spec_encode_affine(model, a.spec_to_affine(mock_canonical(v))),
    );
    let es = ss.map_values(|s: Seq<u64>| spec_encode_scalar(s));
    if vs.len() == 0 {
        assert(crate::mock::mock_msm_value(eb, es) == 0);
        assert(mock_muls_sum(a, vs, ss) == mock_canonical(0));
    } else {
        assert(eb.skip(1) =~= vs.skip(1).map_values(
            |v: u64| spec_encode_affine(model, a.spec_to_affine(mock_canonical(v))),
        ));
        assert(es.skip(1) =~= ss.skip(1).map_values(|s: Seq<u64>| spec_encode_scalar(s)));
        assert(forall|i: int|
            0 <= i < vs.skip(1).len() ==> #[trigger] vs.skip(1)[i] < MOCK_MODULUS);
        lemma_mock_msm_value_fold(a, model, vs.skip(1), ss.skip(1));
        let rest = crate::mock::mock_msm_value(eb.skip(1), es.skip(1));
        assert(rest < MOCK_MODULUS);
        lemma_mock_affine_encode_value(a, vs[0]);
        lemma_mock_scalar_encode_value(ss[0]);
        assert(eb[0] == spec_encode_affine(model, a.spec_to_affine(mock_canonical(vs[0]))));
        assert(es[0] == spec_encode_scalar(ss[0]));
        let k0 = mock_limbs_mod(ss[0]) as int;
        let v0 = vs[0] as int;
        assert(crate::mock::mock_msm_value(eb, es) == ((rest + k0 * v0) % n) as u64);
        assert(mock_view_value(mock_canonical(rest)) == rest);
        let term = ((k0 * v0) % n) as u64;
        assert(mock_view_value(mock_canonical(term)) == term);
        vstd::arithmetic::div_mod::lemma_add_mod_noop_right(rest as int, k0 * v0, n);
        assert((rest + term) % n == (rest + k0 * v0) % n);
    }
}

/// A multi-scalar multiplication over any batch agrees with the group
/// sum of the individual delegated scalar multiplications.
pub proof fn lemma_mock_msm_batch(
    a: MockArithmetic,
    params: CurveParameters,
    vs: Seq<u64>,
    ss: Seq<Seq<u64>>,
)
    requires
        params.fe_limbs == 1,
        params.model == CurveModel::ShortWeierstrass,
        vs.len() == ss.len(),
        forall|i: int| 0 <= i < vs.len() ==> #[trigger] vs[i] < MOCK_MODULUS,
    ensures
        msm_model::<MockBackend>(
            params,
            vs.map_values(|v: u64| a.spec_to_affine(mock_canonical(v))),
            ss,
        ) == Ok::<ProjectiveView, DelegationError>(mock_muls_sum(a, vs, ss)),
{
    let bases = vs.map_values(|v: u64| a.spec_to_affine(mock_canonical(v)));
    let eb = bases.map_values(|p: crate::point::AffineView| spec_encode_affine(params.model, p));
    let es = ss.map_values(|s: Seq<u64>| spec_encode_scalar(s));
    assert(eb =~= vs.map_values(
        |v: u64| spec_encode_affine(params.model, a.spec_to_affine(mock_canonical(v))),
    ));
    assert forall|i: int| 0 <= i < eb.len() implies #[trigger] eb[i].len() != 0 by {
        let av = a.spec_to_affine(mock_canonical(vs[i]));
        lemma_encode_limbs_len(av.x);
        lemma_encode_limbs_len(av.y);
    }
    crate::mock::lemma_mock_first_empty(eb, eb.len() as int);
    lemma_mock_msm_value_fold(a, params.model, vs, ss);
    let w = crate::mock::mock_msm_value(eb, es);
    assert(w < MOCK_MODULUS || w == 0);
    assert(mock_canonical(w).y.len() == mock_canonical(w).x.len());
    assert(mock_canonical(w).z.len() == mock_canonical(w).x.len());
    lemma_projective_round_trip(mock_canonical(w));
}

/// What one pairing's Miller loop computes through the mock backend: the
/// reduced product of the two points' values, as a one-limb target-field
/// element.
pub proof fn lemma_mock_miller_single(
    a: MockArithmetic,
    g1_params: CurveParameters,
    g2_params: CurveParameters,
    x1: u64,
    x2: u64,
)
    requires
        g1_params.model == CurveModel::ShortWeierstrass,
        g2_params.model == CurveModel::ShortWeierstrass,
        g1_params.target_limbs == 1,
        g2_params.fe_limbs == 1,
        x1 < MOCK_MODULUS,
        x2 < MOCK_MODULUS,
    ensures
        miller_model::<MockArithmetic, MockBackend>(
            g1_params,
            g2_params,
            a,
            seq![a.spec_to_affine(mock_canonical(x1))],
            seq![
                G2SourceView {
                    tag: G2_TAG_AFFINE,
                    payload: spec_encode_affine(
                        g2_params.model,
                        a.spec_to_affine(mock_canonical(x2)),
                    ),
                },
            ],
        ) == Ok::<Seq<u64>, DelegationError>(
            seq![((x1 * x2) % (MOCK_MODULUS as int)) as u64],
        ),
{
    let n = MOCK_MODULUS as int;
    let av1 = a.spec_to_affine(mock_canonical(x1));
    let av2 = a.spec_to_affine(mock_canonical(x2));
    let src = G2SourceView { tag: G2_TAG_AFFINE, payload: spec_encode_affine(
        g2_params.model,
        av2,
    ) };
    assert(mock_view_value(mock_canonical(x2)) == x2);
    lemma_affine_round_trip(g2_params.model, av2);
    let e2 = spec_encode_affine(g2_params.model, av2);
    assert(crate::pairing::normalize_g2_model(g2_params, a, src) == Ok::<
        Seq<u8>,
        DelegationError,
    >(e2));
    let srcs = seq![src];
    assert(srcs.skip(1) =~= Seq::<G2SourceView>::empty());
    assert(crate::pairing::normalize_g2_all(g2_params, a, Seq::<G2SourceView>::empty()) == Ok::<
        Seq<Seq<u8>>,
        DelegationError,
    >(Seq::empty()));
    assert(crate::pairing::normalize_g2_all(g2_params, a, srcs) == Ok::<
        Seq<Seq<u8>>,
        DelegationError,
    >(seq![e2] + Seq::empty()));
    assert(seq![e2] + Seq::<Seq<u8>>::empty() =~= seq![e2]);
    let e1 = spec_encode_affine(g1_params.model, av1);
    let g1enc = seq![av1].map_values(
        |p: crate::point::AffineView| spec_encode_affine(g1_params.model, p),
    );
    assert(g1enc =~= seq![e1]);
    lemma_mock_affine_encode_value(a, x1);
    lemma_mock_affine_encode_value(a, x2);
    assert(seq![e1].skip(1) =~= Seq::<Seq<u8>>::empty());
    assert(seq![e2].skip(1) =~= Seq::<Seq<u8>>::empty());
    assert(crate::mock::mock_miller_value(seq![e1].skip(1), seq![e2].skip(1)) == 0);
    let w = ((x1 * x2) % n) as u64;
    assert(crate::mock::mock_miller_value(seq![e1], seq![e2]) == ((0 + mock_affine_value(e1)
        * mock_affine_value(e2)) % n) as u64);
    lemma_field_element_round_trip(seq![w]);
}

/// What delegated final exponentiation computes through the mock
/// backend: the identity-equivalent accumulator has no defined output;
/// every other accumulator is already in the output subgroup.
pub proof fn lemma_mock_final_exp(g1_params: CurveParameters, w: u64)
    requires
        g1_params.target_limbs == 1,
        w < MOCK_MODULUS,
    ensures
        final_exp_model::<MockBackend>(g1_params, seq![w]) == (if w == 0 {
            Ok::<Option<Seq<u64>>, DelegationError>(None)
        } else {
            Ok::<Option<Seq<u64>>, DelegationError>(Some(seq![w]))
        }),
{
    lemma_auto_spec_u64_to_from_le_bytes();
    lemma_encode_one_limb(w);
    let e = spec_encode_field_element(seq![w]);
    assert(crate::mock::mock_fe_value(e) == w);
    if w != 0 {
        lemma_field_element_round_trip(seq![w]);
    }
}

/// Bilinearity of the composed pairing through the mock backend: pairing
/// the two scalar multiples gives the `k1·k2`-fold target-group multiple
/// of the pairing of the base points (written multiplicatively, raising
/// it to the `k1·k2`).
pub proof fn lemma_mock_pairing_bilinear(
    a: MockArithmetic,
    g1_params: CurveParameters,
    g2_params: CurveParameters,
    v1: u64,
    v2: u64,
    k1: u64,
    k2: u64,
)
    requires
        g1_params.model == CurveModel::ShortWeierstrass,
        g2_params.model == CurveModel::ShortWeierstrass,
        g1_params.target_limbs == 1,
        g2_params.fe_limbs == 1,
        v1 < MOCK_MODULUS,
        v2 < MOCK_MODULUS,
        k1 < MOCK_MODULUS,
        k2 < MOCK_MODULUS,
    ensures
        ({
            let n = MOCK_MODULUS as int;
            // the values of k1·G1 and k2·G2
            let a1 = ((k1 * v1) % n) as u64;
            let b2 = ((k2 * v2) % n) as u64;
            let lhs = miller_model::<MockArithmetic, MockBackend>(
                g1_params,
                g2_params,
                a,
                seq![a.spec_to_affine(mock_canonical(a1))],
                seq![
                    G2SourceView {
                        tag: G2_TAG_AFFINE,
                        payload: spec_encode_affine(
                            g2_params.model,
                            a.spec_to_affine(mock_canonical(b2)),
                        ),
                    },
                ],
            );
            // e(G1,G2) carries (v1·v2) reduced; its (k1·k2)-th power in the
            // mock target group carries that value scaled by (k1·k2)
            let powered = ((((k1 * k2) % n) * ((v1 * v2) % n)) % n) as u64;
            &&& lhs == Ok::<Seq<u64>, DelegationError>(seq![powered])
            &&& final_exp_model::<MockBackend>(g1_params, seq![powered]) == (if powered == 0 {
                Ok::<Option<Seq<u64>>, DelegationError>(None)
            } else {
                Ok::<Option<Seq<u64>>, DelegationError>(Some(seq![powered]))
            })
        }),
{
    let n = MOCK_MODULUS as int;
    let a1 = ((k1 * v1) % n) as u64;
    let b2 = ((k2 * v2) % n) as u64;
    lemma_mock_miller_single(a, g1_params, g2_params, a1, b2);
    vstd::arithmetic::div_mod::lemma_mul_mod_noop(k1 * v1, k2 * v2, n);
    vstd::arithmetic::div_mod::lemma_mul_mod_noop(k1 * k2, v1 * v2, n);
    assert((k1 * v1) * (k2 * v2) == (k1 * k2) * (v1 * v2)) by (nonlinear_arith);
    let powered = ((((k1 * k2) % n) * ((v1 * v2) % n)) % n) as u64;
    lemma_mock_final_exp(g1_params, powered);
}

} // verus!
