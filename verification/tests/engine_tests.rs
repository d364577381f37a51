use delegated_ec::backend::HostBackend;
use delegated_ec::codec::encode_projective_point;
use delegated_ec::engine::DelegatingGroupConfig;
use delegated_ec::errors::DelegationError;
use delegated_ec::field::{FieldElement, Scalar};
use delegated_ec::group::CurveArithmetic;
use delegated_ec::mock::{mock_parameters, MockArithmetic, MockBackend, MOCK_MODULUS};
use delegated_ec::params::CoeffAKind;
use delegated_ec::point::{AffinePoint, ProjectivePoint};

const N: u64 = MOCK_MODULUS;

fn fe(v: u64) -> FieldElement {
    FieldElement { limbs: vec![v] }
}

fn pt(v: u64) -> ProjectivePoint {
    ProjectivePoint { x: fe(v), y: fe(0), z: fe(if v == 0 { 0 } else { 1 }) }
}

fn apt(v: u64) -> AffinePoint {
    if v == 0 {
        AffinePoint { x: fe(0), y: fe(0), infinity: true }
    } else {
        AffinePoint { x: fe(v), y: fe(0), infinity: false }
    }
}

fn scl(v: u64) -> Scalar {
    Scalar { limbs: vec![v] }
}

fn engine() -> DelegatingGroupConfig<MockArithmetic, MockBackend> {
    DelegatingGroupConfig {
        params: mock_parameters(),
        arith: MockArithmetic {},
        backend: MockBackend::new(),
    }
}

#[test]
fn scalar_mul_by_zero_is_identity() {
    let mut e = engine();
    let g = pt(8);
    let r = e.scalar_mul(&g, &scl(0)).unwrap();
    assert_eq!(r, e.arith.identity());
    assert_eq!(r, pt(0));
}

#[test]
fn scalar_mul_by_one_is_the_point() {
    let mut e = engine();
    let g = pt(8);
    let r = e.scalar_mul(&g, &scl(1)).unwrap();
    assert_eq!(r, g);
}

#[test]
fn scalar_mul_splits_over_scalar_addition() {
    let mut e = engine();
    let g = pt(8);
    for (k1, k2) in [(2u64, 3u64), (123, 456), (999_999, 1), (4_000_000, 4_000_011)] {
        let r1 = e.scalar_mul(&g, &scl(k1)).unwrap();
        let r2 = e.scalar_mul(&g, &scl(k2)).unwrap();
        let sum = e.arith.add(&r1, &r2);
        let direct = e.scalar_mul(&g, &scl((k1 + k2) % N)).unwrap();
        assert_eq!(sum, direct);
    }
}

#[test]
fn scalar_mul_exact_value() {
    let mut e = engine();
    // 7 · 8 = 56 in the mock group
    let r = e.scalar_mul(&pt(8), &scl(7)).unwrap();
    assert_eq!(r, pt(56));
}

#[test]
fn scalar_mul_affine_agrees_with_projective() {
    let mut e = engine();
    for k in [0u64, 1, 5, 1_000_003] {
        let ra = e.scalar_mul_affine(&apt(16), &scl(k)).unwrap();
        let rp = e.scalar_mul(&pt(16), &scl(k)).unwrap();
        assert_eq!(ra, rp);
    }
}

#[test]
fn multi_limb_scalar_reduces() {
    let mut e = engine();
    // value = 3 + 5·2^64; 2^64 mod 8000024 = 10172416 mod 8000024 ... computed
    // below from first principles instead of a constant.
    let two_to_64_mod = {
        let mut v: u128 = 1;
        for _ in 0..64 {
            v = (v * 2) % (N as u128);
        }
        v
    };
    let expected_k = ((5u128 * two_to_64_mod + 3) % (N as u128)) as u64;
    let r = e.scalar_mul(&pt(1), &Scalar { limbs: vec![3, 5] }).unwrap();
    assert_eq!(r, pt(expected_k));
}

#[test]
fn msm_single_pair_matches_scalar_mul() {
    let mut e = engine();
    let r_msm = e.msm(&vec![apt(8)], &vec![scl(7)]).unwrap();
    let r_mul = e.scalar_mul(&pt(8), &scl(7)).unwrap();
    assert_eq!(r_msm, r_mul);
}

#[test]
fn msm_matches_sum_of_scalar_muls() {
    for size in 1..=64usize {
        let mut e = engine();
        let mut bases = Vec::new();
        let mut scalars = Vec::new();
        let mut expected: u128 = 0;
        for i in 0..size {
            let b = ((i as u64) * 37 + 5) % N;
            let k = ((i as u64) * 101 + 3) % N;
            bases.push(apt(b));
            scalars.push(scl(k));
            expected = (expected + (b as u128) * (k as u128)) % (N as u128);
        }
        let r = e.msm(&bases, &scalars).unwrap();
        assert_eq!(r, pt(expected as u64));
        // and it agrees with folding scalar_mul results through the arithmetic
        let mut acc = e.arith.identity();
        for i in 0..size {
            let part = e.scalar_mul_affine(&bases[i], &scalars[i]).unwrap();
            acc = e.arith.add(&acc, &part);
        }
        assert_eq!(r, acc);
    }
}

#[test]
fn msm_length_mismatch_makes_no_backend_call() {
    let mut e = engine();
    let r = e.msm(&vec![apt(8), apt(16)], &vec![scl(1)]);
    assert_eq!(r, Err(DelegationError::MsmLengthMismatch));
    assert_eq!(e.backend.calls, 0);
    // a well-formed call afterwards is answered, and counted once
    let _ = e.msm(&vec![apt(8)], &vec![scl(1)]).unwrap();
    assert_eq!(e.backend.calls, 1);
}

#[test]
fn msm_indexed_failure_is_propagated_verbatim() {
    let mut e = engine();
    // hand the backend a malformed (empty) base encoding directly
    let bases = vec![Vec::new()];
    let scalars = vec![vec![0u8; 8]];
    let r = e.backend.msm(&bases, &scalars);
    assert_eq!(r, Err(0));
}

#[test]
fn cofactor_clearing_lands_in_subgroup() {
    let e = engine();
    // 1000 points, including points outside the prime-order subgroup
    for v in 0u64..1000 {
        let cleared = e.clear_cofactor(&pt(v));
        let affine = e.arith.to_affine(&cleared);
        assert!(e.arith.validate_affine(&affine));
    }
}

#[test]
fn cofactor_clearing_is_the_cofactor_multiple() {
    let e = engine();
    for v in [1u64, 9, 1_000_003, 7_999_999] {
        let cleared = e.clear_cofactor(&pt(v));
        assert_eq!(cleared, pt((8 * v) % N));
    }
}

#[test]
fn mul_by_coefficient_a_zero_kind() {
    let e = engine();
    assert_eq!(e.mul_by_curve_coefficient_a(&fe(12345)), fe(0));
}

#[test]
fn mul_by_coefficient_a_minus_one_kind() {
    let mut e = engine();
    e.params.coeff_a_kind = CoeffAKind::MinusOne;
    assert_eq!(e.mul_by_curve_coefficient_a(&fe(5)), fe(N - 5));
    assert_eq!(e.mul_by_curve_coefficient_a(&fe(0)), fe(0));
}

#[test]
fn mul_by_coefficient_a_general_kind() {
    let mut e = engine();
    e.params.coeff_a_kind = CoeffAKind::General;
    e.params.coeff_a = fe(3);
    assert_eq!(e.mul_by_curve_coefficient_a(&fe(7)), fe(21));
}

#[test]
fn sequential_identical_calls_are_byte_identical() {
    let mut e = engine();
    let g = pt(8);
    let r1 = e.scalar_mul(&g, &scl(12345)).unwrap();
    let r2 = e.scalar_mul(&g, &scl(12345)).unwrap();
    assert_eq!(encode_projective_point(&r1), encode_projective_point(&r2));
    let bases = vec![apt(8), apt(24)];
    let scalars = vec![scl(2), scl(9)];
    let m1 = e.msm(&bases, &scalars).unwrap();
    let m2 = e.msm(&bases, &scalars).unwrap();
    assert_eq!(encode_projective_point(&m1), encode_projective_point(&m2));
    assert_eq!(e.backend.calls, 4);
}
