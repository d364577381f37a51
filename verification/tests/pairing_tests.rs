use delegated_ec::codec::encode_field_element;
use delegated_ec::engine::DelegatingGroupConfig;
use delegated_ec::errors::DelegationError;
use delegated_ec::field::{FieldElement, Scalar};
use delegated_ec::group::CurveArithmetic;
use delegated_ec::mock::{mock_parameters, MockArithmetic, MockBackend, MOCK_MODULUS};
use delegated_ec::pairing::{
    G2Source, MillerAccumulator, PairingConfig, G2_TAG_AFFINE, G2_TAG_PREPARED, G2_TAG_PROJECTIVE,
};
use delegated_ec::point::{AffinePoint, ProjectivePoint};

const N: u64 = MOCK_MODULUS;

fn fe(v: u64) -> FieldElement {
    FieldElement { limbs: vec![v] }
}

fn pt(v: u64) -> ProjectivePoint {
    ProjectivePoint { x: fe(v), y: fe(0), z: fe(if v == 0 { 0 } else { 1 }) }
}

fn apt(v: u64) -> AffinePoint {
    if v == 0 {
        AffinePoint { x: fe(0), y: fe(0), infinity: true }
    } else {
        AffinePoint { x: fe(v), y: fe(0), infinity: false }
    }
}

fn scl(v: u64) -> Scalar {
    Scalar { limbs: vec![v] }
}

fn engine() -> DelegatingGroupConfig<MockArithmetic, MockBackend> {
    DelegatingGroupConfig {
        params: mock_parameters(),
        arith: MockArithmetic {},
        backend: MockBackend::new(),
    }
}

fn pairing() -> PairingConfig<MockArithmetic, MockBackend> {
    PairingConfig { g1: engine(), g2: engine(), backend: MockBackend::new() }
}

fn pair(
    cfg: &mut PairingConfig<MockArithmetic, MockBackend>,
    p: &AffinePoint,
    q: &AffinePoint,
) -> u64 {
    let src = cfg.g2_from_affine(q);
    let acc = cfg.multi_miller_loop(&vec![p.clone()], &vec![src]).unwrap();
    match cfg.final_exponentiation(&acc).unwrap() {
        Some(out) => out.value.limbs[0],
        None => 0,
    }
}

#[test]
fn pairing_is_bilinear() {
    let mut cfg = pairing();
    let g1 = apt(8);
    let g2 = apt(16);
    for (a, b) in [(3u64, 5u64), (2, 77), (1000, 999)] {
        // e(a·G1, b·G2)
        let ag1 = {
            let r = cfg.g1.scalar_mul_affine(&g1, &scl(a)).unwrap();
            cfg.g1.arith.to_affine(&r)
        };
        let bg2 = {
            let r = cfg.g2.scalar_mul_affine(&g2, &scl(b)).unwrap();
            cfg.g2.arith.to_affine(&r)
        };
        let lhs = pair(&mut cfg, &ag1, &bg2);
        // e(G1, G2)^(a·b): in the mock target group, exponentiation is
        // multiplication of the base value by the exponent.
        let base = pair(&mut cfg, &g1, &g2);
        let rhs = (((a as u128) * (b as u128) % (N as u128)) * (base as u128) % (N as u128)) as u64;
        assert_eq!(lhs, rhs);
        assert_ne!(lhs, 0);
    }
}

#[test]
fn miller_loop_pairs_inputs_positionally() {
    let mut cfg = pairing();
    let g1s = vec![apt(3), apt(5)];
    let g2s = vec![cfg.g2_from_affine(&apt(7)), cfg.g2_from_affine(&apt(11))];
    let acc = cfg.multi_miller_loop(&g1s, &g2s).unwrap();
    // 3·7 + 5·11 = 76
    assert_eq!(acc.value, fe(76));
}

#[test]
fn projective_and_prepared_inputs_normalize_to_affine() {
    let mut cfg = pairing();
    let g1s = vec![apt(3), apt(5), apt(2)];
    let mixed = vec![
        cfg.g2_from_affine(&apt(7)),
        cfg.g2_from_projective(&pt(11)),
        cfg.g2_from_prepared(&apt(13)),
    ];
    let all_affine = vec![
        cfg.g2_from_affine(&apt(7)),
        cfg.g2_from_affine(&apt(11)),
        cfg.g2_from_affine(&apt(13)),
    ];
    let a1 = cfg.multi_miller_loop(&g1s, &mixed).unwrap();
    let a2 = cfg.multi_miller_loop(&g1s, &all_affine).unwrap();
    assert_eq!(a1, a2);
    // 3·7 + 5·11 + 2·13 = 102
    assert_eq!(a1.value, fe(102));
}

#[test]
fn unrecognized_tag_is_fatal_and_never_delegated() {
    let mut cfg = pairing();
    let bad = G2Source { tag: 9, payload: Vec::new() };
    let r = cfg.multi_miller_loop(&vec![apt(3)], &vec![bad]);
    assert_eq!(r, Err(DelegationError::UnrecognizedPairingInput));
    assert_eq!(cfg.backend.calls, 0);
}

#[test]
fn malformed_payload_is_structural_error() {
    let mut cfg = pairing();
    let bad = G2Source { tag: G2_TAG_AFFINE, payload: vec![1, 2, 3] };
    let r = cfg.multi_miller_loop(&vec![apt(3)], &vec![bad]);
    assert_eq!(r, Err(DelegationError::StructuralDecode));
    assert_eq!(cfg.backend.calls, 0);
}

#[test]
fn normalization_stops_at_first_failure() {
    let mut cfg = pairing();
    let srcs = vec![
        cfg.g2_from_affine(&apt(7)),
        G2Source { tag: 77, payload: Vec::new() },
        G2Source { tag: G2_TAG_PREPARED, payload: vec![0u8; 3] },
    ];
    let r = cfg.multi_miller_loop(&vec![apt(1), apt(2), apt(3)], &srcs);
    assert_eq!(r, Err(DelegationError::UnrecognizedPairingInput));
}

#[test]
fn source_constructors_use_their_tags() {
    let cfg = pairing();
    assert_eq!(cfg.g2_from_affine(&apt(7)).tag, G2_TAG_AFFINE);
    assert_eq!(cfg.g2_from_projective(&pt(7)).tag, G2_TAG_PROJECTIVE);
    assert_eq!(cfg.g2_from_prepared(&apt(7)).tag, G2_TAG_PREPARED);
}

#[test]
fn final_exponentiation_may_be_undefined() {
    let mut cfg = pairing();
    // the mock declines an identity-equivalent accumulator
    let zero_acc = MillerAccumulator { value: fe(0) };
    assert_eq!(cfg.final_exponentiation(&zero_acc), Ok(None));
    let acc = MillerAccumulator { value: fe(1920) };
    let out = cfg.final_exponentiation(&acc).unwrap().unwrap();
    assert_eq!(out.value, fe(1920));
}

#[test]
fn pairing_calls_are_deterministic() {
    let mut cfg = pairing();
    let g1s = vec![apt(3), apt(5)];
    let g2s1 = vec![cfg.g2_from_affine(&apt(7)), cfg.g2_from_projective(&pt(11))];
    let g2s2 = vec![cfg.g2_from_affine(&apt(7)), cfg.g2_from_projective(&pt(11))];
    let a1 = cfg.multi_miller_loop(&g1s, &g2s1).unwrap();
    let a2 = cfg.multi_miller_loop(&g1s, &g2s2).unwrap();
    assert_eq!(encode_field_element(&a1.value), encode_field_element(&a2.value));
    let f1 = cfg.final_exponentiation(&a1).unwrap().unwrap();
    let f2 = cfg.final_exponentiation(&a2).unwrap().unwrap();
    assert_eq!(encode_field_element(&f1.value), encode_field_element(&f2.value));
}
