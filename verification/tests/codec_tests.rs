use delegated_ec::codec::{
    decode_affine_point, decode_field_element, decode_projective_point, decode_scalar,
    encode_affine_point, encode_field_element, encode_projective_point, encode_scalar,
};
use delegated_ec::engine::DelegatingGroupConfig;
use delegated_ec::families::{
    bls12_377_g2_parameters, jubjub_edwards_parameters, jubjub_montgomery_parameters,
    jubjub_weierstrass_parameters,
};
use delegated_ec::field::{FieldElement, Scalar};
use delegated_ec::mock::{mock_parameters, MockArithmetic, MockBackend};
use delegated_ec::params::CurveParameters;
use delegated_ec::point::{AffinePoint, ProjectivePoint};

fn fe_of(width: usize, seed: u64) -> FieldElement {
    let mut limbs = Vec::new();
    let mut i: u64 = 0;
    while (i as usize) < width {
        limbs.push(seed.wrapping_mul(i + 1).wrapping_add(0x9e3779b97f4a7c15));
        i += 1;
    }
    FieldElement { limbs }
}

fn all_families() -> Vec<CurveParameters> {
    vec![
        jubjub_edwards_parameters(),
        jubjub_weierstrass_parameters(),
        jubjub_montgomery_parameters(),
        bls12_377_g2_parameters(),
        mock_parameters(),
    ]
}

#[test]
fn field_element_round_trip_every_family() {
    for params in all_families() {
        for seed in [0u64, 1, 7, u64::MAX, 0x1234_5678_9abc_def0] {
            let fe = fe_of(params.fe_limbs, seed);
            let bytes = encode_field_element(&fe);
            assert_eq!(bytes.len(), 8 * params.fe_limbs);
            let back = decode_field_element(&bytes, params.fe_limbs);
            assert_eq!(back, Some(fe));
        }
    }
}

#[test]
fn scalar_round_trip() {
    for limbs in [vec![0u64], vec![42], vec![7, 0xdead_beef], vec![u64::MAX; 6]] {
        let s = Scalar { limbs: limbs.clone() };
        let bytes = encode_scalar(&s);
        assert_eq!(bytes.len(), 8 * limbs.len());
        assert_eq!(decode_scalar(&bytes), Some(s));
    }
}

#[test]
fn scalar_ragged_length_is_structural_error() {
    let bytes = vec![0u8; 15];
    assert_eq!(decode_scalar(&bytes), None);
}

#[test]
fn affine_round_trip_every_family() {
    for params in all_families() {
        let p = AffinePoint {
            x: fe_of(params.fe_limbs, 3),
            y: fe_of(params.fe_limbs, 11),
            infinity: false,
        };
        let bytes = encode_affine_point(params.model, &p);
        let back = decode_affine_point(params.model, params.fe_limbs, &bytes);
        assert_eq!(back, Some(p));
        // the published generator round-trips too
        let gen_bytes = encode_affine_point(params.model, &params.generator);
        assert_eq!(
            decode_affine_point(params.model, params.fe_limbs, &gen_bytes),
            Some(params.generator.clone())
        );
    }
}

#[test]
fn weierstrass_identity_round_trip() {
    for params in [jubjub_weierstrass_parameters(), bls12_377_g2_parameters(), mock_parameters()] {
        let id = AffinePoint {
            x: FieldElement { limbs: vec![0; params.fe_limbs] },
            y: FieldElement { limbs: vec![0; params.fe_limbs] },
            infinity: true,
        };
        let bytes = encode_affine_point(params.model, &id);
        assert_eq!(bytes[0], 1);
        assert!(bytes[1..].iter().all(|&b| b == 0));
        assert_eq!(decode_affine_point(params.model, params.fe_limbs, &bytes), Some(id));
    }
}

#[test]
fn non_canonical_identity_is_structural_error() {
    let params = jubjub_weierstrass_parameters();
    let id = AffinePoint {
        x: FieldElement { limbs: vec![0; params.fe_limbs] },
        y: FieldElement { limbs: vec![0; params.fe_limbs] },
        infinity: true,
    };
    let mut bytes = encode_affine_point(params.model, &id);
    bytes[5] = 9;
    assert_eq!(decode_affine_point(params.model, params.fe_limbs, &bytes), None);
}

#[test]
fn bad_flag_byte_is_structural_error() {
    let params = jubjub_weierstrass_parameters();
    let p = AffinePoint {
        x: fe_of(params.fe_limbs, 5),
        y: fe_of(params.fe_limbs, 6),
        infinity: false,
    };
    let mut bytes = encode_affine_point(params.model, &p);
    bytes[0] = 2;
    assert_eq!(decode_affine_point(params.model, params.fe_limbs, &bytes), None);
}

#[test]
fn wrong_length_is_structural_error() {
    let params = jubjub_edwards_parameters();
    let p = AffinePoint {
        x: fe_of(params.fe_limbs, 5),
        y: fe_of(params.fe_limbs, 6),
        infinity: false,
    };
    let mut bytes = encode_affine_point(params.model, &p);
    bytes.pop();
    assert_eq!(decode_affine_point(params.model, params.fe_limbs, &bytes), None);
    let short = vec![1u8, 2, 3];
    assert_eq!(decode_field_element(&short, params.fe_limbs), None);
    assert_eq!(decode_projective_point(params.fe_limbs, &short), None);
}

#[test]
fn projective_round_trip_every_family() {
    for params in all_families() {
        let p = ProjectivePoint {
            x: fe_of(params.fe_limbs, 21),
            y: fe_of(params.fe_limbs, 22),
            z: fe_of(params.fe_limbs, 23),
        };
        let bytes = encode_projective_point(&p);
        assert_eq!(bytes.len(), 24 * params.fe_limbs);
        assert_eq!(decode_projective_point(params.fe_limbs, &bytes), Some(p));
    }
}

#[test]
fn encoding_is_deterministic() {
    let params = bls12_377_g2_parameters();
    let p = AffinePoint {
        x: fe_of(params.fe_limbs, 77),
        y: fe_of(params.fe_limbs, 78),
        infinity: false,
    };
    assert_eq!(encode_affine_point(params.model, &p), encode_affine_point(params.model, &p));
    let fe = fe_of(params.fe_limbs, 79);
    assert_eq!(encode_field_element(&fe), encode_field_element(&fe));
}

#[test]
fn validated_decode_accepts_subgroup_point() {
    let engine = DelegatingGroupConfig {
        params: mock_parameters(),
        arith: MockArithmetic {},
        backend: MockBackend::new(),
    };
    let p = AffinePoint {
        x: FieldElement { limbs: vec![16] },
        y: FieldElement { limbs: vec![0] },
        infinity: false,
    };
    let bytes = engine.encode_affine(&p);
    assert_eq!(engine.decode_affine(&bytes, true), Ok(p));
}

#[test]
fn validated_decode_rejects_off_subgroup_point() {
    let engine = DelegatingGroupConfig {
        params: mock_parameters(),
        arith: MockArithmetic {},
        backend: MockBackend::new(),
    };
    let p = AffinePoint {
        x: FieldElement { limbs: vec![9] },
        y: FieldElement { limbs: vec![0] },
        infinity: false,
    };
    let bytes = engine.encode_affine(&p);
    assert_eq!(
        engine.decode_affine(&bytes, true),
        Err(delegated_ec::errors::DelegationError::StructuralDecode)
    );
    // without validation the same bytes decode
    assert_eq!(engine.decode_affine(&bytes, false), Ok(p));
}
