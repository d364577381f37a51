//! A deterministic mock backend and arithmetic.
//!
//! The delegation engine is generic over the backend capability; this
//! module supplies the capability pair meant for exercising the protocol
//! without an accelerator: group values live in the additive group of
//! integers modulo a small fixed modulus, carried inside the canonical
//! point encodings (the value in the first coordinate), with the group
//! identity at zero.  The modulus is a cofactor times a prime, so the
//! prime-order subgroup — the multiples of the cofactor — is a proper
//! subgroup and cofactor clearing is observable.  Every response is a
//! function of the encoded arguments alone, and an exec call counter
//! makes each delegation observable.

use crate::backend::HostBackend;
use crate::codec::{decode_limbs, spec_encode_field_element, spec_encode_projective};
use crate::field::FieldElement;
use crate::group::{group_laws, CurveArithmetic};
use crate::params::{CoeffAKind, CurveModel, CurveParameters};
use crate::point::{AffinePoint, AffineView, ProjectivePoint, ProjectiveView};
use crate::field::Scalar;
use vstd::bytes::{spec_u64_from_le_bytes, u64_from_le_bytes};
use vstd::prelude::*;
use vstd::slice::slice_subrange;

verus! {

/// The mock group order: the mock cofactor times the prime 1000003.
pub const MOCK_MODULUS: u64 = 8000024;

/// The mock cofactor; the prime-order subgroup is its multiples.
pub const MOCK_COFACTOR: u64 = 8;

/// The value carried by a mock field-element encoding (one limb).
pub open spec fn mock_fe_value(b: Seq<u8>) -> u64 {
    if b.len() == 8 {
        (spec_u64_from_le_bytes(b) % MOCK_MODULUS) as u64
    } else {
        0
    }
}

/// The value carried by a mock affine-point encoding: flag, x, y.
pub open spec fn mock_affine_value(b: Seq<u8>) -> u64 {
    if b.len() == 17 && b[0] == 0 {
        (spec_u64_from_le_bytes(b.subrange(1, 9)) % MOCK_MODULUS) as u64
    } else {
        0
    }
}

/// The value carried by a mock projective-point encoding: x, y, z, with
/// a zero third coordinate marking the identity.
pub open spec fn mock_proj_value(b: Seq<u8>) -> u64 {
    if b.len() == 24 {
        if spec_u64_from_le_bytes(b.subrange(16, 24)) == 0 {
            0
        } else {
            (spec_u64_from_le_bytes(b.subrange(0, 8)) % MOCK_MODULUS) as u64
        }
    } else {
        0
    }
}

/// A limb sequence reduced modulo the mock modulus.
pub open spec fn mock_limbs_mod(s: Seq<u64>) -> u64
    decreases s.len(),
{
    if s.len() == 0 {
        0
    } else {
        ((s[0] + 0x1_0000_0000_0000_0000 * mock_limbs_mod(s.skip(1))) % (
        MOCK_MODULUS as int)) as u64
    }
}

/// The multiplier carried by a mock scalar encoding, reduced.
pub open spec fn mock_scalar_value(b: Seq<u8>) -> u64 {
    if b.len() % 8 == 0 {
        mock_limbs_mod(decode_limbs(b))
    } else {
        0
    }
}

/// The canonical mock projective point of a value: the value in the
/// first coordinate, the identity as all zeros.
pub open spec fn mock_canonical(v: u64) -> ProjectiveView {
    ProjectiveView {
        x: seq![v],
        y: seq![0u64],
        z: seq![
            if v == 0 {
                0u64
            } else {
                1u64
            },
        ],
    }
}

/// The value of a mock projective view.
pub open spec fn mock_view_value(p: ProjectiveView) -> u64 {
    if p.x.len() == 1 && p.y.len() == 1 && p.z.len() == 1 && p.z[0] != 0 {
        (p.x[0] % MOCK_MODULUS) as u64
    } else {
        0
    }
}

/// The canonical mock point encoding of a value.
pub open spec fn mock_point_bytes(v: u64) -> Seq<u8> {
    spec_encode_projective(mock_canonical(v))
}

/// The mock field-element encoding of a value.
pub open spec fn mock_fe_bytes(v: u64) -> Seq<u8> {
    spec_encode_field_element(seq![v])
}

/// The first empty base encoding, if any: the mock flags it as the
/// offending input instead of answering.
pub open spec fn mock_first_empty(bases: Seq<Seq<u8>>) -> Option<int>
    decreases bases.len(),
{
    if bases.len() == 0 {
        None
    } else if bases[0].len() == 0 {
        Some(0int)
    } else {
        match mock_first_empty(bases.skip(1)) {
            None => None,
            Some(i) => Some(i + 1),
        }
    }
}

/// Locates the first empty base encoding by scanning from a prefix known
/// to be free of them.
pub proof fn lemma_mock_first_empty(bases: Seq<Seq<u8>>, j: int)
    requires
        0 <= j <= bases.len(),
        forall|k: int| 0 <= k < j ==> #[trigger] bases[k].len() != 0,
    ensures
        j == bases.len() ==> mock_first_empty(bases) is None,
        j < bases.len() && bases[j].len() == 0 ==> mock_first_empty(bases) == Some(j),
    decreases bases.len(),
{
    if bases.len() > 0 {
        if j == 0 {
        } else {
            assert(bases[0].len() != 0);
            assert forall|k: int| 0 <= k < j - 1 implies #[trigger] bases.skip(1)[k].len()
                != 0 by {
                assert(bases.skip(1)[k] == bases[k + 1]);
            }
            lemma_mock_first_empty(bases.skip(1), j - 1);
            if j < bases.len() && bases[j].len() == 0 {
                assert(bases.skip(1)[j - 1] == bases[j]);
            }
        }
    }
}

/// The mock multi-scalar multiplication: the sum of the pairwise
/// products, reduced, over as many pairs as both sequences supply.
pub open spec fn mock_msm_value(bases: Seq<Seq<u8>>, scalars: Seq<Seq<u8>>) -> u64
    decreases bases.len(),
{
    if bases.len() == 0 || scalars.len() == 0 {
        0
    } else {
        ((mock_msm_value(bases.skip(1), scalars.skip(1)) + mock_scalar_value(scalars[0])
            * mock_affine_value(bases[0])) % (MOCK_MODULUS as int)) as u64
    }
}

/// The mock Miller loop: the sum of the pairwise products of the two
/// point sequences, reduced.  Bilinear by construction.
pub open spec fn mock_miller_value(g1: Seq<Seq<u8>>, g2: Seq<Seq<u8>>) -> u64
    decreases g1.len(),
{
    if g1.len() == 0 || g2.len() == 0 {
        0
    } else {
        ((mock_miller_value(g1.skip(1), g2.skip(1)) + mock_affine_value(g1[0]) * mock_affine_value(
            g2[0],
        )) % (MOCK_MODULUS as int)) as u64
    }
}

/// Reads a mock field-element encoding.
fn mock_read_fe(b: &Vec<u8>) -> (v: u64)
    ensures
        v == mock_fe_value(b@),
        v < MOCK_MODULUS,
{
    if b.len() == 8 {
        let raw = u64_from_le_bytes(b.as_slice());
        raw % MOCK_MODULUS
    } else {
        0
    }
}

/// Reads a mock affine-point encoding.
fn mock_read_affine(b: &Vec<u8>) -> (v: u64)
    ensures
        v == mock_affine_value(b@),
        v < MOCK_MODULUS,
{
    if b.len() == 17 {
        let tag = b[0];
        if tag == 0 {
            let raw = u64_from_le_bytes(slice_subrange(b.as_slice(), 1, 9));
            raw % MOCK_MODULUS
        } else {
            0
        }
    } else {
        0
    }
}

/// Reads a mock projective-point encoding.
fn mock_read_proj(b: &Vec<u8>) -> (v: u64)
    ensures
        v == mock_proj_value(b@),
        v < MOCK_MODULUS,
{
    if b.len() == 24 {
        let z = u64_from_le_bytes(slice_subrange(b.as_slice(), 16, 24));
        if z == 0 {
            0
        } else {
            let raw = u64_from_le_bytes(slice_subrange(b.as_slice(), 0, 8));
            raw % MOCK_MODULUS
        }
    } else {
        0
    }
}

/// Reads a mock scalar encoding, reducing the multi-limb value by Horner
/// evaluation from the most significant limb down.
fn mock_read_scalar(b: &Vec<u8>) -> (v: u64)
    ensures
        v == mock_scalar_value(b@),
        v < MOCK_MODULUS,
{
    if b.len() % 8 != 0 {
        return 0;
    }
    let count = b.len() / 8;
    let mut i: usize = count;
    let mut v: u64 = 0;
    proof {
        lemma_decode_limbs_len(b@);
        assert(decode_limbs(b@).skip(count as int) =~= Seq::<u64>::empty());
    }
    while i > 0
        invariant
            i <= count,
            count == b@.len() / 8,
            b@.len() % 8 == 0,
            v == mock_limbs_mod(decode_limbs(b@).skip(i as int)),
            v < MOCK_MODULUS,
        decreases i,
    {
        i = i - 1;
        let blen: usize = b.len();
        assert(8 * i + 8 <= blen);
        let limb = u64_from_le_bytes(slice_subrange(b.as_slice(), 8 * i, 8 * i + 8));
        proof {
            lemma_decode_limbs_index(b@, i as int);
        }
        let wide: u128 = (v as u128) * 0x1_0000_0000_0000_0000u128 + (limb as u128);
        let red: u128 = wide % (MOCK_MODULUS as u128);
        proof {
            let s = decode_limbs(b@).skip(i as int);
            assert(s[0] == decode_limbs(b@)[i as int]);
            assert(s.skip(1) =~= decode_limbs(b@).skip(i + 1));
            assert(s.len() > 0);
        }
        v = red as u64;
    }
    proof {
        assert(decode_limbs(b@).skip(0) =~= decode_limbs(b@));
    }
    v
}

/// The limb at index `i` of a decoded byte sequence is its own eight
/// bytes.
pub proof fn lemma_decode_limbs_index(b: Seq<u8>, i: int)
    requires
        b.len() % 8 == 0,
        0 <= i,
        8 * i + 8 <= b.len(),
    ensures
        decode_limbs(b).len() == b.len() / 8,
        decode_limbs(b)[i] == spec_u64_from_le_bytes(b.subrange(8 * i, 8 * i + 8)),
    decreases b.len(),
{
    if i == 0 {
        assert(b.take(8) =~= b.subrange(0, 8));
        lemma_decode_limbs_len(b.skip(8));
    } else {
        lemma_decode_limbs_index(b.skip(8), i - 1);
        assert(b.skip(8).subrange(8 * (i - 1), 8 * (i - 1) + 8) =~= b.subrange(8 * i, 8 * i + 8));
        lemma_decode_limbs_len(b.skip(8));
    }
}

/// The number of limbs decoded from a whole number of eight-byte chunks.
pub proof fn lemma_decode_limbs_len(b: Seq<u8>)
    requires
        b.len() % 8 == 0,
    ensures
        decode_limbs(b).len() == b.len() / 8,
    decreases b.len(),
{
    if b.len() >= 8 {
        lemma_decode_limbs_len(b.skip(8));
    }
}

/// Builds the canonical mock point encoding of a value.
fn mock_point_encode(v: u64) -> (r: Vec<u8>)
    ensures
        r@ == mock_point_bytes(v),
{
    let p = mock_point_struct(v);
    crate::codec::encode_projective_point(&p)
}

/// Builds the mock field-element encoding of a value.
fn mock_fe_encode(v: u64) -> (r: Vec<u8>)
    ensures
        r@ == mock_fe_bytes(v),
{
    let mut limbs: Vec<u64> = Vec::new();
    limbs.push(v);
    let fe = FieldElement { limbs };
    proof {
        assert(fe@ =~= seq![v]);
    }
    crate::codec::encode_field_element(&fe)
}

/// The deterministic mock backend: group arithmetic modulo
/// `MOCK_MODULUS` over the canonical encodings, with an observable call
/// counter.
pub struct MockBackend {
    /// Calls answered, saturating; for observation from unverified test
    /// code.
    pub calls: u64,
    /// Calls answered, exactly.
    pub tally: Ghost<nat>,
}

impl MockBackend {
    /// A fresh backend that has answered nothing.
    pub fn new() -> (r: MockBackend)
        ensures
            r.spec_calls() == 0,
            r.calls == 0,
    {
        MockBackend { calls: 0, tally: Ghost(0nat) }
    }

    /// Records one answered call.
    fn bump(&mut self)
        ensures
            final(self).spec_calls() == old(self).spec_calls() + 1,
    {
        if self.calls < 0xffff_ffff_ffff_ffff {
            self.calls = self.calls + 1;
        }
        proof {
            self.tally@ = self.tally@ + 1;
        }
    }
}

impl HostBackend for MockBackend {
    open spec fn spec_calls(&self) -> nat {
        self.tally@
    }

    open spec fn mul_projective_response(base: Seq<u8>, scalar: Seq<u8>) -> Seq<u8> {
        mock_point_bytes(
            ((mock_scalar_value(scalar) * mock_proj_value(base)) % (MOCK_MODULUS as int)) as u64,
        )
    }

    open spec fn mul_affine_response(base: Seq<u8>, scalar: Seq<u8>) -> Seq<u8> {
        mock_point_bytes(
            ((mock_scalar_value(scalar) * mock_affine_value(base)) % (MOCK_MODULUS as int)) as u64,
        )
    }

    open spec fn msm_response(bases: Seq<Seq<u8>>, scalars: Seq<Seq<u8>>) -> Result<
        Seq<u8>,
        usize,
    > {
        match mock_first_empty(bases) {
            Some(i) => Err(i as usize),
            None => Ok(mock_point_bytes(mock_msm_value(bases, scalars))),
        }
    }

    open spec fn miller_loop_response(g1: Seq<Seq<u8>>, g2: Seq<Seq<u8>>) -> Seq<u8> {
        mock_fe_bytes(mock_miller_value(g1, g2))
    }

    open spec fn final_exp_response(f: Seq<u8>) -> Option<Seq<u8>> {
        if mock_fe_value(f) == 0 {
            None
        } else {
            Some(mock_fe_bytes(mock_fe_value(f)))
        }
    }

    fn mul_projective(&mut self, base: &Vec<u8>, scalar: &Vec<u8>) -> (r: Vec<u8>) {
        let v = mock_read_proj(base);
        let k = mock_read_scalar(scalar);
        proof {
            assert(k * v < 0x1_0000_0000_0000_0000) by (nonlinear_arith)
                requires
                    k < 8000024,
                    v < 8000024,
            ;
        }
        let out = (k * v) % MOCK_MODULUS;
        self.bump();
        mock_point_encode(out)
    }

    fn mul_affine(&mut self, base: &Vec<u8>, scalar: &Vec<u8>) -> (r: Vec<u8>) {
        let v = mock_read_affine(base);
        let k = mock_read_scalar(scalar);
        proof {
            assert(k * v < 0x1_0000_0000_0000_0000) by (nonlinear_arith)
                requires
                    k < 8000024,
                    v < 8000024,
            ;
        }
        let out = (k * v) % MOCK_MODULUS;
        self.bump();
        mock_point_encode(out)
    }

    fn msm(&mut self, bases: &Vec<Vec<u8>>, scalars: &Vec<Vec<u8>>) -> (r: Result<Vec<u8>, usize>) {
        let ghost bvv = crate::backend::byte_views(bases@);
        let mut j: usize = 0;
        while j < bases.len()
            invariant
                j <= bases@.len(),
                self == old(self),
                bvv == crate::backend::byte_views(bases@),
                forall|k: int| 0 <= k < j ==> #[trigger] bvv[k].len() != 0,
            decreases bases@.len() - j,
        {
            if bases[j].len() == 0 {
                proof {
                    lemma_mock_first_empty(bvv, j as int);
                }
                self.bump();
                return Err(j);
            }
            j = j + 1;
        }
        proof {
            lemma_mock_first_empty(bvv, bases@.len() as int);
        }
        let m = if bases.len() < scalars.len() {
            bases.len()
        } else {
            scalars.len()
        };
        let ghost bv = crate::backend::byte_views(bases@);
        let ghost sv = crate::backend::byte_views(scalars@);
        let mut i: usize = m;
        let mut acc: u64 = 0;
        proof {
            lemma_mock_msm_trunc(bv, sv, m as int);
        }
        while i > 0
            invariant
                i <= m,
                m <= bases@.len(),
                m <= scalars@.len(),
                bv == crate::backend::byte_views(bases@),
                sv == crate::backend::byte_views(scalars@),
                acc == mock_msm_value(bv.skip(i as int), sv.skip(i as int)),
                acc < MOCK_MODULUS,
            decreases i,
        {
            i = i - 1;
            let k = mock_read_scalar(&scalars[i]);
            let b = mock_read_affine(&bases[i]);
            proof {
                assert(k * b < 0x1_0000_0000_0000_0000) by (nonlinear_arith)
                    requires
                        k < 8000024,
                        b < 8000024,
                ;
            }
            let term = k * b;
            let acc2 = (acc + term % MOCK_MODULUS) % MOCK_MODULUS;
            proof {
                let bs = bv.skip(i as int);
                let ss = sv.skip(i as int);
                assert(bs[0] == bv[i as int] && ss[0] == sv[i as int]);
                assert(bs.skip(1) =~= bv.skip(i + 1));
                assert(ss.skip(1) =~= sv.skip(i + 1));
                assert((acc + (k * b) % (MOCK_MODULUS as int)) % (MOCK_MODULUS as int) == (acc + k
                    * b) % (MOCK_MODULUS as int)) by (nonlinear_arith)
                    requires
                        acc < MOCK_MODULUS,
                ;
            }
            acc = acc2;
        }
        proof {
            assert(bv.skip(0) =~= bv);
            assert(sv.skip(0) =~= sv);
        }
        self.bump();
        Ok(mock_point_encode(acc))
    }

    fn multi_miller_loop(&mut self, g1: &Vec<Vec<u8>>, g2: &Vec<Vec<u8>>) -> (r: Vec<u8>) {
        let m = if g1.len() < g2.len() {
            g1.len()
        } else {
            g2.len()
        };
        let ghost v1 = crate::backend::byte_views(g1@);
        let ghost v2 = crate::backend::byte_views(g2@);
        let mut i: usize = m;
        let mut acc: u64 = 0;
        proof {
            lemma_mock_miller_trunc(v1, v2, m as int);
        }
        while i > 0
            invariant
                i <= m,
                m <= g1@.len(),
                m <= g2@.len(),
                v1 == crate::backend::byte_views(g1@),
                v2 == crate::backend::byte_views(g2@),
                acc == mock_miller_value(v1.skip(i as int), v2.skip(i as int)),
                acc < MOCK_MODULUS,
            decreases i,
        {
            i = i - 1;
            let a = mock_read_affine(&g1[i]);
            let b = mock_read_affine(&g2[i]);
            proof {
                assert(a * b < 0x1_0000_0000_0000_0000) by (nonlinear_arith)
                    requires
                        a < 8000024,
                        b < 8000024,
                ;
            }
            let term = a * b;
            let acc2 = (acc + term % MOCK_MODULUS) % MOCK_MODULUS;
            proof {
                let s1 = v1.skip(i as int);
                let s2 = v2.skip(i as int);
                assert(s1[0] == v1[i as int] && s2[0] == v2[i as int]);
                assert(s1.skip(1) =~= v1.skip(i + 1));
                assert(s2.skip(1) =~= v2.skip(i + 1));
                assert((acc + (a * b) % (MOCK_MODULUS as int)) % (MOCK_MODULUS as int) == (acc + a
                    * b) % (MOCK_MODULUS as int)) by (nonlinear_arith)
                    requires
                        acc < MOCK_MODULUS,
                ;
            }
            acc = acc2;
        }
        proof {
            assert(v1.skip(0) =~= v1);
            assert(v2.skip(0) =~= v2);
        }
        self.bump();
        mock_fe_encode(acc)
    }

    fn final_exponentiation(&mut self, f: &Vec<u8>) -> (r: Option<Vec<u8>>) {
        let v = mock_read_fe(f);
        self.bump();
        if v == 0 {
            None
        } else {
            Some(mock_fe_encode(v))
        }
    }
}

/// Pairs beyond the shorter sequence contribute nothing.
pub proof fn lemma_mock_msm_trunc(bases: Seq<Seq<u8>>, scalars: Seq<Seq<u8>>, m: int)
    requires
        0 <= m,
        m == bases.len() || m == scalars.len(),
        m <= bases.len(),
        m <= scalars.len(),
    ensures
        mock_msm_value(bases.skip(m), scalars.skip(m)) == 0,
{
    assert(bases.skip(m).len() == 0 || scalars.skip(m).len() == 0);
}

/// Pairs beyond the shorter sequence contribute nothing.
pub proof fn lemma_mock_miller_trunc(g1: Seq<Seq<u8>>, g2: Seq<Seq<u8>>, m: int)
    requires
        0 <= m,
        m == g1.len() || m == g2.len(),
        m <= g1.len(),
        m <= g2.len(),
    ensures
        mock_miller_value(g1.skip(m), g2.skip(m)) == 0,
{
    assert(g1.skip(m).len() == 0 || g2.skip(m).len() == 0);
}

/// The value carried by a one-limb mock field element.
pub open spec fn mock_limb1_value(x: Seq<u64>) -> u64 {
    if x.len() == 1 {
        (x[0] % MOCK_MODULUS) as u64
    } else {
        0
    }
}

/// Builds the canonical mock projective point of a value.
fn mock_point_struct(v: u64) -> (r: ProjectivePoint)
    ensures
        r@ == mock_canonical(v),
{
    let mut x: Vec<u64> = Vec::new();
    x.push(v);
    let mut y: Vec<u64> = Vec::new();
    y.push(0);
    let mut z: Vec<u64> = Vec::new();
    if v == 0 {
        z.push(0);
    } else {
        z.push(1);
    }
    let p = ProjectivePoint {
        x: FieldElement { limbs: x },
        y: FieldElement { limbs: y },
        z: FieldElement { limbs: z },
    };
    proof {
        assert(p@.x =~= mock_canonical(v).x);
        assert(p@.y =~= mock_canonical(v).y);
        assert(p@.z =~= mock_canonical(v).z);
    }
    p
}

/// Reads the value of a mock projective point.
fn mock_view_read(p: &ProjectivePoint) -> (v: u64)
    ensures
        v == mock_view_value(p@),
        v < MOCK_MODULUS,
{
    if p.x.limbs.len() == 1 && p.y.limbs.len() == 1 && p.z.limbs.len() == 1 && p.z.limbs[0] != 0 {
        p.x.limbs[0] % MOCK_MODULUS
    } else {
        0
    }
}

/// Builds a one-limb mock field element.
fn mock_fe_struct(v: u64) -> (r: FieldElement)
    ensures
        r@ == seq![v],
{
    let mut limbs: Vec<u64> = Vec::new();
    limbs.push(v);
    proof {
        assert(limbs@ =~= seq![v]);
    }
    FieldElement { limbs }
}

/// The deterministic mock local arithmetic: the same additive group
/// modulo `MOCK_MODULUS`, in projective and affine clothing, with the
/// mock field sharing the modulus.  It carries no state.
#[derive(Clone, Copy, PartialEq, Eq, Debug)]
pub struct MockArithmetic {}

impl CurveArithmetic for MockArithmetic {
    open spec fn spec_identity(&self) -> ProjectiveView {
        mock_canonical(0)
    }

    open spec fn spec_add(&self, p: ProjectiveView, q: ProjectiveView) -> ProjectiveView {
        mock_canonical(
            (((mock_view_value(p) + mock_view_value(q)) as int) % (MOCK_MODULUS as int)) as u64,
        )
    }

    open spec fn spec_point_ok(&self, p: ProjectiveView) -> bool {
        p == mock_canonical(mock_view_value(p))
    }

    open spec fn spec_to_affine(&self, p: ProjectiveView) -> AffineView {
        if mock_view_value(p) == 0 {
            AffineView { x: seq![0u64], y: seq![0u64], infinity: true }
        } else {
            AffineView { x: seq![mock_view_value(p)], y: seq![0u64], infinity: false }
        }
    }

    open spec fn spec_affine_valid(&self, p: AffineView) -> bool {
        (p.infinity && p.x == seq![0u64] && p.y == seq![0u64]) || (!p.infinity && p.x.len() == 1
            && p.y == seq![0u64] && 0 < p.x[0] < MOCK_MODULUS && p.x[0] % MOCK_COFACTOR == 0)
    }

    open spec fn spec_field_neg(&self, x: Seq<u64>) -> Seq<u64> {
        seq![
            if mock_limb1_value(x) == 0 {
                0u64
            } else {
                (MOCK_MODULUS - mock_limb1_value(x)) as u64
            },
        ]
    }

    open spec fn spec_field_mul(&self, a: Seq<u64>, x: Seq<u64>) -> Seq<u64> {
        seq![(((mock_limb1_value(a) * mock_limb1_value(x)) as int) % (MOCK_MODULUS as int)) as u64]
    }

    open spec fn spec_field_zero(&self) -> Seq<u64> {
        seq![0u64]
    }

    fn identity(&self) -> (r: ProjectivePoint) {
        mock_point_struct(0)
    }

    fn add(&self, p: &ProjectivePoint, q: &ProjectivePoint) -> (r: ProjectivePoint) {
        let vp = mock_view_read(p);
        let vq = mock_view_read(q);
        mock_point_struct((vp + vq) % MOCK_MODULUS)
    }

    fn to_affine(&self, p: &ProjectivePoint) -> (r: AffinePoint) {
        let v = mock_view_read(p);
        if v == 0 {
            let r = AffinePoint { x: mock_fe_struct(0), y: mock_fe_struct(0), infinity: true };
            proof {
                assert(r@ == self.spec_to_affine(p@));
            }
            r
        } else {
            let r = AffinePoint { x: mock_fe_struct(v), y: mock_fe_struct(0), infinity: false };
            proof {
                assert(r@ == self.spec_to_affine(p@));
            }
            r
        }
    }

    fn validate_affine(&self, p: &AffinePoint) -> (r: bool) {
        if p.x.limbs.len() != 1 || p.y.limbs.len() != 1 {
            proof {
                assert(p@.x == seq![0u64] ==> p@.x.len() == 1);
                assert(p@.y == seq![0u64] ==> p@.y.len() == 1);
            }
            return false;
        }
        let x0 = p.x.limbs[0];
        let y0 = p.y.limbs[0];
        proof {
            assert(p@.x =~= seq![x0] && p@.y =~= seq![y0]);
            assert(y0 == 0 ==> p@.y == seq![0u64]);
            assert(p@.y == seq![0u64] ==> y0 == 0);
            assert(x0 == 0 ==> p@.x == seq![0u64]);
            assert(p@.x == seq![0u64] ==> x0 == 0);
        }
        if p.infinity {
            x0 == 0 && y0 == 0
        } else {
            y0 == 0 && 0 < x0 && x0 < MOCK_MODULUS && x0 % MOCK_COFACTOR == 0
        }
    }

    fn field_neg(&self, x: &FieldElement) -> (r: FieldElement) {
        let v = if x.limbs.len() == 1 {
            x.limbs[0] % MOCK_MODULUS
        } else {
            0
        };
        if v == 0 {
            mock_fe_struct(0)
        } else {
            mock_fe_struct(MOCK_MODULUS - v)
        }
    }

    fn field_mul(&self, a: &FieldElement, x: &FieldElement) -> (r: FieldElement) {
        let va = if a.limbs.len() == 1 {
            a.limbs[0] % MOCK_MODULUS
        } else {
            0
        };
        let vx = if x.limbs.len() == 1 {
            x.limbs[0] % MOCK_MODULUS
        } else {
            0
        };
        proof {
            assert(va * vx < 0x1_0000_0000_0000_0000) by (nonlinear_arith)
                requires
                    va < 8000024,
                    vx < 8000024,
            ;
        }
        mock_fe_struct((va * vx) % MOCK_MODULUS)
    }

    fn field_zero(&self) -> (r: FieldElement) {
        mock_fe_struct(0)
    }
}

/// The mock arithmetic satisfies the group laws the engine's local
/// cofactor clearing relies on.
pub proof fn mock_arithmetic_obeys_group_laws(a: MockArithmetic)
    ensures
        group_laws(a),
{
    assert(mock_view_value(mock_canonical(0)) == 0);
    assert(a.spec_point_ok(a.spec_identity()));
    assert forall|p: ProjectiveView, q: ProjectiveView|
        a.spec_point_ok(#[trigger] a.spec_add(p, q)) by {
        let w = (((mock_view_value(p) + mock_view_value(q)) as int) % (MOCK_MODULUS as int)) as u64;
        assert(0 <= w < MOCK_MODULUS);
        assert(mock_view_value(mock_canonical(w)) == w);
    }
    assert forall|p: ProjectiveView| a.spec_point_ok(p) implies #[trigger] a.spec_add(
        p,
        a.spec_identity(),
    ) == p by {
        let v = mock_view_value(p);
        assert(v < MOCK_MODULUS);
        assert(mock_view_value(mock_canonical(0)) == 0);
        assert((v + 0) as int % (MOCK_MODULUS as int) == v);
    }
    assert forall|p: ProjectiveView, q: ProjectiveView, r: ProjectiveView| #[trigger] a.spec_add(
        a.spec_add(p, q),
        r,
    ) == a.spec_add(p, a.spec_add(q, r)) by {
        let n = MOCK_MODULUS as int;
        let vp = mock_view_value(p) as int;
        let vq = mock_view_value(q) as int;
        let vr = mock_view_value(r) as int;
        let pq = (vp + vq) % n;
        let qr = (vq + vr) % n;
        assert(0 <= pq < n && 0 <= qr < n);
        assert(mock_view_value(mock_canonical(pq as u64)) == pq);
        assert(mock_view_value(mock_canonical(qr as u64)) == qr);
        vstd::arithmetic::div_mod::lemma_small_mod(vr as nat, n as nat);
        vstd::arithmetic::div_mod::lemma_small_mod(vp as nat, n as nat);
        vstd::arithmetic::div_mod::lemma_add_mod_noop(vp + vq, vr, n);
        vstd::arithmetic::div_mod::lemma_add_mod_noop(vp, vq + vr, n);
        assert((pq + vr) % n == (vp + vq + vr) % n);
        assert((vp + qr) % n == (vp + (vq + vr)) % n);
    }
}

/// The configuration data of the mock family: a short-Weierstrass-shaped
/// family of one-limb field elements over the mock group.
pub fn mock_parameters() -> (p: CurveParameters)
    ensures
        p.wf(),
        p.cofactor_inverse_ok(),
        p.model == CurveModel::ShortWeierstrass,
        p.fe_limbs == 1,
        p.target_limbs == 1,
        p.coeff_a_kind == CoeffAKind::Zero,
        p.cofactor_value() == MOCK_COFACTOR,
        p.generator@.x == seq![MOCK_COFACTOR],
        p.generator@.y == seq![0u64],
        !p.generator@.infinity,
{
    let mut cofactor: Vec<u64> = Vec::new();
    cofactor.push(8);
    let mut order: Vec<u64> = Vec::new();
    order.push(1000003);
    let mut inv: Vec<u64> = Vec::new();
    inv.push(625002);
    let p = CurveParameters {
        model: CurveModel::ShortWeierstrass,
        fe_limbs: 1,
        target_limbs: 1,
        cofactor,
        cofactor_inv: Scalar { limbs: inv },
        group_order: order,
        coeff_a: mock_fe_struct(0),
        coeff_a_kind: CoeffAKind::Zero,
        coeff_b: mock_fe_struct(0),
        generator: AffinePoint { x: mock_fe_struct(8), y: mock_fe_struct(0), infinity: false },
    };
    proof {
        assert(p.cofactor@ =~= seq![8u64]);
        assert(p.group_order@ =~= seq![1000003u64]);
        assert(p.cofactor_inv@ =~= seq![625002u64]);
        lemma_limb1_value(8);
        lemma_limb1_value(1000003);
        lemma_limb1_value(625002);
        assert((8nat * 625002nat) % 1000003nat == 1nat);
    }
    p
}

/// The value of a one-limb sequence.
pub proof fn lemma_limb1_value(v: u64)
    ensures
        crate::field::limbs_value(seq![v]) == v,
{
    assert(seq![v].skip(1) =~= Seq::<u64>::empty());
    assert(crate::field::limbs_value(seq![v]) == v + 0x1_0000_0000_0000_0000 * crate::field::limbs_value(
        Seq::<u64>::empty(),
    ));
}

} // verus!
