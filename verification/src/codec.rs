//! Canonical byte encoding of delegated-call arguments and results.
//!
//! Field elements and scalars are little-endian 64-bit limb sequences,
//! eight bytes per limb.  An affine short-Weierstrass point is a one-byte
//! identity flag followed by the two coordinates; twisted Edwards and
//! Montgomery affine points are the bare coordinate pair.  A projective
//! point is the three coordinates.  Encoding is total and deterministic;
//! decoding always rejects structurally malformed input, whatever the
//! caller's validation choice.

use crate::field::{FieldElement, Scalar};
use crate::params::CurveModel;
use crate::point::{AffinePoint, AffineView, ProjectivePoint, ProjectiveView};
use vstd::bytes::{
    lemma_auto_spec_u64_to_from_le_bytes, spec_u64_from_le_bytes, spec_u64_to_le_bytes,
    u64_from_le_bytes, u64_to_le_bytes,
};
use vstd::prelude::*;

verus! {

/// The byte encoding of a little-endian limb sequence.
pub open spec fn encode_limbs(s: Seq<u64>) -> Seq<u8>
    decreases s.len(),
{
    if s.len() == 0 {
        Seq::empty()
    } else {
        spec_u64_to_le_bytes(s[0]) + encode_limbs(s.skip(1))
    }
}

/// The limb sequence read back from a byte sequence, eight bytes at a
/// time.  Meaningful when the length is a multiple of eight.
pub open spec fn decode_limbs(b: Seq<u8>) -> Seq<u64>
    decreases b.len(),
{
    if b.len() < 8 {
        Seq::empty()
    } else {
        seq![spec_u64_from_le_bytes(b.take(8))] + decode_limbs(b.skip(8))
    }
}

pub proof fn lemma_encode_limbs_len(s: Seq<u64>)
    ensures
        encode_limbs(s).len() == 8 * s.len(),
    decreases s.len(),
{
    lemma_auto_spec_u64_to_from_le_bytes();
    if s.len() > 0 {
        lemma_encode_limbs_len(s.skip(1));
    }
}

/// Appending a limb appends its eight bytes.
pub proof fn lemma_encode_limbs_push(s: Seq<u64>, x: u64)
    ensures
        encode_limbs(s.push(x)) == encode_limbs(s) + spec_u64_to_le_bytes(x),
    decreases s.len(),
{
    if s.len() == 0 {
        assert(s.push(x)[0] == x);
        assert(s.push(x).skip(1) =~= Seq::<u64>::empty());
        assert(encode_limbs(s.push(x)) == spec_u64_to_le_bytes(x) + encode_limbs(
            Seq::<u64>::empty(),
        ));
        assert(encode_limbs(s.push(x)) =~= encode_limbs(s) + spec_u64_to_le_bytes(x));
    } else {
        assert(s.push(x).skip(1) =~= s.skip(1).push(x));
        lemma_encode_limbs_push(s.skip(1), x);
        assert(encode_limbs(s.push(x)) =~= encode_limbs(s) + spec_u64_to_le_bytes(x));
    }
}

/// Appending eight bytes appends one parsed limb.
pub proof fn lemma_decode_limbs_append(b: Seq<u8>, c: Seq<u8>)
    requires
        b.len() % 8 == 0,
        c.len() == 8,
    ensures
        decode_limbs(b + c) == decode_limbs(b).push(spec_u64_from_le_bytes(c)),
    decreases b.len(),
{
    if b.len() == 0 {
        assert((b + c).len() == 8);
        assert((b + c).take(8) =~= c);
        assert((b + c).skip(8) =~= Seq::<u8>::empty());
        assert(decode_limbs(b + c) == seq![spec_u64_from_le_bytes(c)] + decode_limbs(
            Seq::<u8>::empty(),
        ));
        assert(decode_limbs(b + c) =~= decode_limbs(b).push(spec_u64_from_le_bytes(c)));
    } else {
        assert((b + c).take(8) =~= b.take(8));
        assert((b + c).skip(8) =~= b.skip(8) + c);
        lemma_decode_limbs_append(b.skip(8), c);
        assert(decode_limbs(b + c) =~= decode_limbs(b).push(spec_u64_from_le_bytes(c)));
    }
}

/// Limb sequences survive the byte round trip unchanged.
pub proof fn lemma_limbs_round_trip(s: Seq<u64>)
    ensures
        decode_limbs(encode_limbs(s)) == s,
    decreases s.len(),
{
    lemma_auto_spec_u64_to_from_le_bytes();
    if s.len() == 0 {
        assert(decode_limbs(encode_limbs(s)) =~= s);
    } else {
        lemma_encode_limbs_len(s.skip(1));
        let e = encode_limbs(s);
        assert(e.take(8) =~= spec_u64_to_le_bytes(s[0]));
        assert(e.skip(8) =~= encode_limbs(s.skip(1)));
        lemma_limbs_round_trip(s.skip(1));
        assert(decode_limbs(e) =~= s);
    }
}

/// The byte encoding of a field element.
pub open spec fn spec_encode_field_element(v: Seq<u64>) -> Seq<u8> {
    encode_limbs(v)
}

/// Structural decoding of a field element of the given limb width.
pub open spec fn spec_decode_field_element(b: Seq<u8>, width: nat) -> Option<Seq<u64>> {
    if b.len() == 8 * width {
        Some(decode_limbs(b))
    } else {
        None
    }
}

/// The byte encoding of a scalar (identical in shape to a field element,
/// but of any length).
pub open spec fn spec_encode_scalar(v: Seq<u64>) -> Seq<u8> {
    encode_limbs(v)
}

/// Structural decoding of a scalar: any whole number of limbs, up to the
/// widest width any supported field could use.
pub open spec fn spec_decode_scalar(b: Seq<u8>) -> Option<Seq<u64>> {
    if b.len() % 8 == 0 && b.len() <= 8 * 0x100000 {
        Some(decode_limbs(b))
    } else {
        None
    }
}

/// The byte encoding of an affine point under the given curve model.
pub open spec fn spec_encode_affine(model: CurveModel, v: AffineView) -> Seq<u8> {
    match model {
        CurveModel::ShortWeierstrass => seq![
            if v.infinity {
                1u8
            } else {
                0u8
            },
        ] + encode_limbs(v.x) + encode_limbs(v.y),
        _ => encode_limbs(v.x) + encode_limbs(v.y),
    }
}

/// The canonical affine identity of a short-Weierstrass family: flag set,
/// both coordinates zero.
pub open spec fn spec_affine_identity(width: nat) -> AffineView {
    AffineView { x: Seq::new(width, |i: int| 0u64), y: Seq::new(width, |i: int| 0u64), infinity: true }
}

/// Structural decoding of an affine point of the given limb width.  A
/// short-Weierstrass identity is accepted only in canonical form: flag
/// one, every coordinate byte zero.
pub open spec fn spec_decode_affine(model: CurveModel, width: nat, b: Seq<u8>) -> Option<
    AffineView,
> {
    match model {
        CurveModel::ShortWeierstrass => {
            if b.len() != 1 + 16 * width {
                None
            } else if b[0] == 0 {
                Some(
                    AffineView {
                        x: decode_limbs(b.subrange(1, 1 + 8 * width as int)),
                        y: decode_limbs(b.subrange(1 + 8 * width as int, 1 + 16 * width as int)),
                        infinity: false,
                    },
                )
            } else if b[0] == 1 && (forall|i: int| 1 <= i < b.len() ==> b[i] == 0) {
                Some(spec_affine_identity(width))
            } else {
                None
            }
        },
        _ => {
            if b.len() == 16 * width {
                Some(
                    AffineView {
                        x: decode_limbs(b.subrange(0, 8 * width as int)),
                        y: decode_limbs(b.subrange(8 * width as int, 16 * width as int)),
                        infinity: false,
                    },
                )
            } else {
                None
            }
        },
    }
}

/// The byte encoding of a projective point: the three coordinates.
pub open spec fn spec_encode_projective(v: ProjectiveView) -> Seq<u8> {
    encode_limbs(v.x) + encode_limbs(v.y) + encode_limbs(v.z)
}

/// Structural decoding of a projective point of the given limb width.
pub open spec fn spec_decode_projective(width: nat, b: Seq<u8>) -> Option<ProjectiveView> {
    if b.len() == 24 * width {
        Some(
            ProjectiveView {
                x: decode_limbs(b.subrange(0, 8 * width as int)),
                y: decode_limbs(b.subrange(8 * width as int, 16 * width as int)),
                z: decode_limbs(b.subrange(16 * width as int, 24 * width as int)),
            },
        )
    } else {
        None
    }
}

/// Appends the eight little-endian bytes of each limb of `s` to `out`.
fn write_limbs(out: &mut Vec<u8>, s: &Vec<u64>)
    ensures
        final(out)@ == old(out)@ + encode_limbs(s@),
{
    let mut i: usize = 0;
    while i < s.len()
        invariant
            i <= s@.len(),
            out@ == old(out)@ + encode_limbs(s@.take(i as int)),
        decreases s@.len() - i,
    {
        let bytes = u64_to_le_bytes(s[i]);
        let mut k: usize = 0;
        while k < 8
            invariant
                k <= 8,
                bytes@ == spec_u64_to_le_bytes(s@[i as int]),
                bytes@.len() == 8,
                i < s@.len(),
                out@ == old(out)@ + encode_limbs(s@.take(i as int)) + bytes@.take(k as int),
            decreases 8 - k,
        {
            let b = bytes[k];
            out.push(b);
            assert(bytes@.take(k as int).push(b) =~= bytes@.take(k + 1));
            k = k + 1;
        }
        proof {
            lemma_encode_limbs_push(s@.take(i as int), s@[i as int]);
            assert(s@.take(i as int).push(s@[i as int]) =~= s@.take(i + 1));
            assert(bytes@.take(8) =~= bytes@);
            assert(old(out)@ + encode_limbs(s@.take(i as int)) + bytes@ == old(out)@ + (
            encode_limbs(s@.take(i as int)) + bytes@));
        }
        i = i + 1;
    }
    proof {
        assert(s@.take(s@.len() as int) =~= s@);
    }
}

/// Reads `count` limbs of eight little-endian bytes each, starting at
/// `start`.
fn read_limbs(bytes: &Vec<u8>, start: usize, count: usize) -> (r: Vec<u64>)
    requires
        count <= 0x100000,
        start + 8 * count <= bytes@.len(),
    ensures
        r@ == decode_limbs(bytes@.subrange(start as int, start as int + 8 * count)),
{
    let mut out: Vec<u64> = Vec::new();
    let mut i: usize = 0;
    while i < count
        invariant
            i <= count,
            count <= 0x100000,
            start + 8 * count <= bytes@.len(),
            out@ == decode_limbs(bytes@.subrange(start as int, start as int + 8 * i)),
        decreases count - i,
    {
        let mut buf: Vec<u8> = Vec::new();
        let mut k: usize = 0;
        while k < 8
            invariant
                k <= 8,
                i < count,
                count <= 0x100000,
                start + 8 * count <= bytes@.len(),
                start + 8 * i + 8 <= bytes@.len(),
                buf@ == bytes@.subrange(start + 8 * i, start + 8 * i + k),
            decreases 8 - k,
        {
            let blen: usize = bytes.len();
            assert(start + 8 * i + k < blen);
            let idx: usize = start + 8 * i + k;
            let b = bytes[idx];
            buf.push(b);
            assert(bytes@.subrange(start + 8 * i, start + 8 * i + k).push(b) =~= bytes@.subrange(
                start + 8 * i,
                start + 8 * i + (k + 1),
            ));
            k = k + 1;
        }
        let limb = u64_from_le_bytes(buf.as_slice());
        out.push(limb);
        proof {
            let lo = start as int;
            let prev = bytes@.subrange(lo, lo + 8 * i);
            let chunk = bytes@.subrange(lo + 8 * i, lo + 8 * i + 8);
            assert(buf@ =~= chunk);
            lemma_decode_limbs_append(prev, chunk);
            assert(prev + chunk =~= bytes@.subrange(lo, lo + 8 * (i + 1)));
        }
        i = i + 1;
    }
    out
}

/// Encodes a field element.  Total and deterministic.
pub fn encode_field_element(fe: &FieldElement) -> (r: Vec<u8>)
    ensures
        r@ == spec_encode_field_element(fe@),
{
    let mut out: Vec<u8> = Vec::new();
    write_limbs(&mut out, &fe.limbs);
    assert(out@ =~= encode_limbs(fe@));
    out
}

/// Decodes a field element of the given limb width; `None` on any
/// structural mismatch.
pub fn decode_field_element(bytes: &Vec<u8>, width: usize) -> (r: Option<FieldElement>)
    requires
        width <= 0x100000,
    ensures
        match r {
            Some(fe) => spec_decode_field_element(bytes@, width as nat) == Some(fe@),
            None => spec_decode_field_element(bytes@, width as nat) is None,
        },
{
    if bytes.len() != 8 * width {
        return None;
    }
    let limbs = read_limbs(bytes, 0, width);
    assert(bytes@.subrange(0, 8 * width as int) =~= bytes@);
    Some(FieldElement { limbs })
}

/// Encodes a scalar.  Total and deterministic.
pub fn encode_scalar(s: &Scalar) -> (r: Vec<u8>)
    ensures
        r@ == spec_encode_scalar(s@),
{
    let mut out: Vec<u8> = Vec::new();
    write_limbs(&mut out, &s.limbs);
    assert(out@ =~= encode_limbs(s@));
    out
}

/// Decodes a scalar: any whole number of limbs; `None` on a ragged
/// length.
pub fn decode_scalar(bytes: &Vec<u8>) -> (r: Option<Scalar>)
    ensures
        match r {
            Some(s) => spec_decode_scalar(bytes@) == Some(s@),
            None => spec_decode_scalar(bytes@) is None,
        },
{
    if bytes.len() % 8 != 0 {
        return None;
    }
    let count = bytes.len() / 8;
    if count > 0x100000 {
        return None;
    }
    let limbs = read_limbs(bytes, 0, count);
    assert(bytes@.subrange(0, 8 * (bytes@.len() / 8) as int) =~= bytes@);
    Some(Scalar { limbs })
}

/// The eight bytes of the zero limb are all zero.
pub proof fn lemma_u64_zero_bytes()
    ensures
        spec_u64_to_le_bytes(0u64) =~= Seq::new(8, |i: int| 0u8),
{
    vstd::bytes::spec_u64_to_le_bytes_to_open(0u64);
    assert((0u64 & 0xff) == 0 && ((0u64 >> 8) & 0xff) == 0 && ((0u64 >> 16) & 0xff) == 0 && ((0u64
        >> 24) & 0xff) == 0 && ((0u64 >> 32) & 0xff) == 0 && ((0u64 >> 40) & 0xff) == 0 && ((0u64
        >> 48) & 0xff) == 0 && ((0u64 >> 56) & 0xff) == 0) by (bit_vector);
}

/// The encoding of an all-zero limb sequence is all zero bytes.
pub proof fn lemma_encode_zero_limbs(s: Seq<u64>)
    requires
        forall|i: int| 0 <= i < s.len() ==> s[i] == 0,
    ensures
        forall|i: int| 0 <= i < encode_limbs(s).len() ==> encode_limbs(s)[i] == 0,
    decreases s.len(),
{
    if s.len() > 0 {
        lemma_u64_zero_bytes();
        lemma_encode_zero_limbs(s.skip(1));
        assert forall|i: int| 0 <= i < encode_limbs(s).len() implies encode_limbs(s)[i] == 0 by {
            if i < 8 {
                assert(encode_limbs(s)[i] == spec_u64_to_le_bytes(s[0])[i]);
            } else {
                assert(encode_limbs(s)[i] == encode_limbs(s.skip(1))[i - 8]);
            }
        }
    }
}

/// Round trip for field elements: decoding an encoding at the element's
/// own width gives the element back.
pub proof fn lemma_field_element_round_trip(v: Seq<u64>)
    ensures
        spec_decode_field_element(spec_encode_field_element(v), v.len()) == Some(v),
{
    lemma_encode_limbs_len(v);
    lemma_limbs_round_trip(v);
}

/// Round trip for scalars.
pub proof fn lemma_scalar_round_trip(v: Seq<u64>)
    requires
        v.len() <= 0x100000,
    ensures
        spec_decode_scalar(spec_encode_scalar(v)) == Some(v),
{
    lemma_encode_limbs_len(v);
    lemma_limbs_round_trip(v);
}

/// Round trip for projective points.
pub proof fn lemma_projective_round_trip(v: ProjectiveView)
    requires
        v.y.len() == v.x.len(),
        v.z.len() == v.x.len(),
    ensures
        spec_decode_projective(v.x.len(), spec_encode_projective(v)) == Some(v),
{
    let w = v.x.len() as int;
    let e = spec_encode_projective(v);
    lemma_encode_limbs_len(v.x);
    lemma_encode_limbs_len(v.y);
    lemma_encode_limbs_len(v.z);
    assert(e.subrange(0, 8 * w) =~= encode_limbs(v.x));
    assert(e.subrange(8 * w, 16 * w) =~= encode_limbs(v.y));
    assert(e.subrange(16 * w, 24 * w) =~= encode_limbs(v.z));
    lemma_limbs_round_trip(v.x);
    lemma_limbs_round_trip(v.y);
    lemma_limbs_round_trip(v.z);
}

/// Round trip for affine points, for canonically represented values: the
/// coordinate widths agree, and the identity flag is used only on
/// short-Weierstrass curves with both coordinates zero.
pub proof fn lemma_affine_round_trip(model: CurveModel, v: AffineView)
    requires
        v.y.len() == v.x.len(),
        match model {
            CurveModel::ShortWeierstrass => v.infinity ==> ((forall|i: int|
                0 <= i < v.x.len() ==> v.x[i] == 0) && (forall|i: int|
                0 <= i < v.y.len() ==> v.y[i] == 0)),
            _ => !v.infinity,
        },
    ensures
        spec_decode_affine(model, v.x.len(), spec_encode_affine(model, v)) == Some(v),
{
    let w = v.x.len() as int;
    let e = spec_encode_affine(model, v);
    lemma_encode_limbs_len(v.x);
    lemma_encode_limbs_len(v.y);
    lemma_limbs_round_trip(v.x);
    lemma_limbs_round_trip(v.y);
    match model {
        CurveModel::ShortWeierstrass => {
            assert(e.len() == 1 + 16 * w);
            if !v.infinity {
                assert(e[0] == 0);
                assert(e.subrange(1, 1 + 8 * w) =~= encode_limbs(v.x));
                assert(e.subrange(1 + 8 * w, 1 + 16 * w) =~= encode_limbs(v.y));
                assert(spec_decode_affine(model, v.x.len(), e) == Some(
                    AffineView { x: v.x, y: v.y, infinity: false },
                ));
                assert(AffineView { x: v.x, y: v.y, infinity: false } == v);
            } else {
                assert(e[0] == 1);
                lemma_encode_zero_limbs(v.x);
                lemma_encode_zero_limbs(v.y);
                assert forall|i: int| 1 <= i < e.len() implies e[i] == 0 by {
                    if i < 1 + 8 * w {
                        assert(e[i] == encode_limbs(v.x)[i - 1]);
                    } else {
                        assert(e[i] == encode_limbs(v.y)[i - 1 - 8 * w]);
                    }
                }
                assert(spec_decode_affine(model, v.x.len(), e) == Some(
                    spec_affine_identity(v.x.len()),
                ));
                assert(spec_affine_identity(v.x.len()).x =~= v.x);
                assert(spec_affine_identity(v.x.len()).y =~= v.y);
                assert(spec_affine_identity(v.x.len()) == v);
            }
        },
        _ => {
            assert(e.len() == 16 * w);
            assert(e.subrange(0, 8 * w) =~= encode_limbs(v.x));
            assert(e.subrange(8 * w, 16 * w) =~= encode_limbs(v.y));
            assert(AffineView { x: v.x, y: v.y, infinity: false } == v);
        },
    }
}

/// Encodes an affine point under the given curve model.  Total and
/// deterministic.
pub fn encode_affine_point(model: CurveModel, p: &AffinePoint) -> (r: Vec<u8>)
    ensures
        r@ == spec_encode_affine(model, p@),
{
    let mut out: Vec<u8> = Vec::new();
    match model {
        CurveModel::ShortWeierstrass => {
            if p.infinity {
                out.push(1u8);
            } else {
                out.push(0u8);
            }
            assert(out@ =~= seq![
                if p@.infinity {
                    1u8
                } else {
                    0u8
                },
            ]);
        },
        _ => {
        },
    }
    write_limbs(&mut out, &p.x.limbs);
    write_limbs(&mut out, &p.y.limbs);
    assert(out@ =~= spec_encode_affine(model, p@));
    out
}

/// Encodes a projective point.  Total and deterministic.
pub fn encode_projective_point(p: &ProjectivePoint) -> (r: Vec<u8>)
    ensures
        r@ == spec_encode_projective(p@),
{
    let mut out: Vec<u8> = Vec::new();
    write_limbs(&mut out, &p.x.limbs);
    write_limbs(&mut out, &p.y.limbs);
    write_limbs(&mut out, &p.z.limbs);
    assert(out@ =~= spec_encode_projective(p@));
    out
}

/// Decodes an affine point of the given limb width; `None` on any
/// structural mismatch, including a non-canonical identity encoding.
pub fn decode_affine_point(model: CurveModel, width: usize, bytes: &Vec<u8>) -> (r: Option<
    AffinePoint,
>)
    requires
        1 <= width <= 0x100000,
    ensures
        match r {
            Some(p) => spec_decode_affine(model, width as nat, bytes@) == Some(p@),
            None => spec_decode_affine(model, width as nat, bytes@) is None,
        },
{
    match model {
        CurveModel::ShortWeierstrass => {
            if bytes.len() != 1 + 16 * width {
                return None;
            }
            let tag = bytes[0];
            if tag == 0 {
                let x = read_limbs(bytes, 1, width);
                let y = read_limbs(bytes, 1 + 8 * width, width);
                return Some(
                    AffinePoint {
                        x: FieldElement { limbs: x },
                        y: FieldElement { limbs: y },
                        infinity: false,
                    },
                );
            }
            if tag != 1 {
                return None;
            }
            let mut i: usize = 1;
            while i < bytes.len()
                invariant
                    1 <= i <= bytes@.len(),
                    width <= 0x100000,
                    bytes@.len() == 1 + 16 * width,
                    bytes@[0] == 1,
                    forall|j: int| 1 <= j < i ==> bytes@[j] == 0,
                decreases bytes@.len() - i,
            {
                if bytes[i] != 0 {
                    proof {
                        assert(!(forall|j: int| 1 <= j < bytes@.len() ==> bytes@[j] == 0)) by {
                            assert(1 <= i < bytes@.len() && bytes@[i as int] != 0);
                        }
                    }
                    return None;
                }
                i = i + 1;
            }
            let zx = FieldElement::zero(width);
            let zy = FieldElement::zero(width);
            let p = AffinePoint { x: zx, y: zy, infinity: true };
            proof {
                assert(p@.x =~= spec_affine_identity(width as nat).x);
                assert(p@.y =~= spec_affine_identity(width as nat).y);
                assert(p@ == spec_affine_identity(width as nat));
            }
            Some(p)
        },
        _ => {
            if bytes.len() != 16 * width {
                return None;
            }
            let x = read_limbs(bytes, 0, width);
            let y = read_limbs(bytes, 8 * width, width);
            Some(
                AffinePoint {
                    x: FieldElement { limbs: x },
                    y: FieldElement { limbs: y },
                    infinity: false,
                },
            )
        },
    }
}

/// Decodes a projective point of the given limb width; `None` on any
/// structural mismatch.
pub fn decode_projective_point(width: usize, bytes: &Vec<u8>) -> (r: Option<ProjectivePoint>)
    requires
        1 <= width <= 0x100000,
    ensures
        match r {
            Some(p) => spec_decode_projective(width as nat, bytes@) == Some(p@),
            None => spec_decode_projective(width as nat, bytes@) is None,
        },
{
    if bytes.len() != 24 * width {
        return None;
    }
    let x = read_limbs(bytes, 0, width);
    let y = read_limbs(bytes, 8 * width, width);
    let z = read_limbs(bytes, 16 * width, width);
    Some(
        ProjectivePoint {
            x: FieldElement { limbs: x },
            y: FieldElement { limbs: y },
            z: FieldElement { limbs: z },
        },
    )
}

} // verus!
