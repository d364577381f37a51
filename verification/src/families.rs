//! Published constant sets for concrete curve families.
//!
//! Each function builds the immutable configuration data of one family; a
//! concrete engine is produced by pairing one such table with a local
//! arithmetic and a backend instance.  All values are little-endian
//! 64-bit limbs of the canonical residue encoding.  An element of a
//! quadratic extension field is its two components in order.

use crate::field::{FieldElement, Scalar};
use crate::params::{CoeffAKind, CurveModel, CurveParameters};
use crate::point::AffinePoint;
use vstd::prelude::*;

verus! {

/// Builds a field element from a limb slice.
fn fe_from_limbs(limbs: &[u64]) -> (r: FieldElement)
    ensures
        r@ == limbs@,
{
    let mut out: Vec<u64> = Vec::new();
    let mut i: usize = 0;
    while i < limbs.len()
        invariant
            i <= limbs@.len(),
            out@ == limbs@.take(i as int),
        decreases limbs@.len() - i,
    {
        let v = limbs[i];
        out.push(v);
        assert(limbs@.take(i as int).push(limbs@[i as int]) =~= limbs@.take(i + 1));
        i = i + 1;
    }
    assert(limbs@.take(limbs@.len() as int) =~= limbs@);
    FieldElement { limbs: out }
}

/// Builds a limb vector from a limb slice.
fn limbs_vec(limbs: &[u64]) -> (r: Vec<u64>)
    ensures
        r@ == limbs@,
{
    fe_from_limbs(limbs).limbs
}

/// The twisted Edwards form of the Jubjub curve: `-x² + y² = 1 + d·x²y²`
/// over the 255-bit base field, cofactor 8.
pub fn jubjub_edwards_parameters() -> (p: CurveParameters)
    ensures
        p.wf(),
        p.model == CurveModel::TwistedEdwards,
        p.fe_limbs == 4,
        p.coeff_a_kind == CoeffAKind::MinusOne,
{
    let cofactor = limbs_vec(&[8u64]);
    let group_order = limbs_vec(
        &[0xd0970e5ed6f72cb7u64, 0xa6682093ccc81082u64, 0x6673b0101343b00u64, 0xe7db4ea6533afa9u64],
    );
    let cofactor_inv = Scalar {
        limbs: limbs_vec(
            &[
                0x5a12e1cbdadee597u64,
                0x14cd041279990210u64,
                0x20cce76020268760u64,
                0x1cfb69d4ca675f5u64,
            ],
        ),
    };
    // a = -1 in the base field
    let coeff_a = fe_from_limbs(
        &[
            0xffffffff00000000u64,
            0x53bda402fffe5bfeu64,
            0x3339d80809a1d805u64,
            0x73eda753299d7d48u64,
        ],
    );
    // d = -(10240/10241)
    let coeff_b = fe_from_limbs(
        &[
            0x1065fd6d6343eb1u64,
            0x292d7f6d37579d26u64,
            0xf5fd9207e6bd7fd4u64,
            0x2a9318e74bfa2b48u64,
        ],
    );
    let gx = fe_from_limbs(
        &[
            0x3e6b071492d1122bu64,
            0xe72f6afd7d1f7262u64,
            0x86a365b99fbf3d3bu64,
            0x11dafe5d23e12180u64,
        ],
    );
    let gy = fe_from_limbs(
        &[
            0xcc3f870e59d292aau64,
            0x3e26ba5cc220fed7u64,
            0x93132e78c866c0c3u64,
            0x1d523cf1ddab1a17u64,
        ],
    );
    CurveParameters {
        model: CurveModel::TwistedEdwards,
        fe_limbs: 4,
        target_limbs: 0,
        cofactor,
        cofactor_inv,
        group_order,
        coeff_a,
        coeff_a_kind: CoeffAKind::MinusOne,
        coeff_b,
        generator: AffinePoint { x: gx, y: gy, infinity: false },
    }
}

/// The short-Weierstrass form of the Jubjub curve: `y² = x³ + A·x + B`,
/// same field, cofactor and subgroup order as the Edwards form.
pub fn jubjub_weierstrass_parameters() -> (p: CurveParameters)
    ensures
        p.wf(),
        p.model == CurveModel::ShortWeierstrass,
        p.fe_limbs == 4,
        p.coeff_a_kind == CoeffAKind::General,
{
    let cofactor = limbs_vec(&[8u64]);
    let group_order = limbs_vec(
        &[0xd0970e5ed6f72cb7u64, 0xa6682093ccc81082u64, 0x6673b0101343b00u64, 0xe7db4ea6533afa9u64],
    );
    let cofactor_inv = Scalar {
        limbs: limbs_vec(
            &[
                0x5a12e1cbdadee597u64,
                0x14cd041279990210u64,
                0x20cce76020268760u64,
                0x1cfb69d4ca675f5u64,
            ],
        ),
    };
    let coeff_a = fe_from_limbs(
        &[
            0xc50d34dcd4c20942u64,
            0x20535e745e639334u64,
            0x976220a0378a2328u64,
            0x739e8acf6e7266e8u64,
        ],
    );
    let coeff_b = fe_from_limbs(
        &[
            0x7120c33b4c6628e1u64,
            0xbbf51483ff8366acu64,
            0xf4c60001b55614b0u64,
            0x6ae5ca3c3f667667u64,
        ],
    );
    let gx = fe_from_limbs(
        &[
            0x9c7d2809edadbbcbu64,
            0x5c3c3cefd50627ccu64,
            0x4c147b613b38a4e6u64,
            0x4ace6c5be1410abdu64,
        ],
    );
    let gy = fe_from_limbs(
        &[
            0x5ce5305e368eff18u64,
            0xfee090b135741274u64,
            0xda65d96da6670461u64,
            0x60c90ea806b4993eu64,
        ],
    );
    CurveParameters {
        model: CurveModel::ShortWeierstrass,
        fe_limbs: 4,
        target_limbs: 0,
        cofactor,
        cofactor_inv,
        group_order,
        coeff_a,
        coeff_a_kind: CoeffAKind::General,
        coeff_b,
        generator: AffinePoint { x: gx, y: gy, infinity: false },
    }
}

/// The Montgomery form of the Jubjub curve: `B·v² = u³ + A·u² + u` with
/// `A = 40962`, `B = -40964`; the generator is the image of the Edwards
/// generator under the birational map `u = (1+y)/(1-y)`,
/// `v = (1+y)/((1-y)·x)`.
pub fn jubjub_montgomery_parameters() -> (p: CurveParameters)
    ensures
        p.wf(),
        p.model == CurveModel::Montgomery,
        p.fe_limbs == 4,
        p.coeff_a_kind == CoeffAKind::General,
{
    let cofactor = limbs_vec(&[8u64]);
    let group_order = limbs_vec(
        &[0xd0970e5ed6f72cb7u64, 0xa6682093ccc81082u64, 0x6673b0101343b00u64, 0xe7db4ea6533afa9u64],
    );
    let cofactor_inv = Scalar {
        limbs: limbs_vec(
            &[
                0x5a12e1cbdadee597u64,
                0x14cd041279990210u64,
                0x20cce76020268760u64,
                0x1cfb69d4ca675f5u64,
            ],
        ),
    };
    // A = 40962
    let coeff_a = fe_from_limbs(&[0xa002u64, 0u64, 0u64, 0u64]);
    // B = -40964
    let coeff_b = fe_from_limbs(
        &[
            0xfffffffeffff5ffdu64,
            0x53bda402fffe5bfeu64,
            0x3339d80809a1d805u64,
            0x73eda753299d7d48u64,
        ],
    );
    let gx = fe_from_limbs(
        &[
            0x5504c409b3ea62c0u64,
            0xccdaa4e2299ecfbdu64,
            0x7d663b6a45b148d1u64,
            0x52a47af6ec47deb7u64,
        ],
    );
    let gy = fe_from_limbs(
        &[
            0x4e2fd6d5c6558938u64,
            0xe8ddec99c3791687u64,
            0x6618840fd0f9b6d6u64,
            0x20bc4f2e8cff3800u64,
        ],
    );
    CurveParameters {
        model: CurveModel::Montgomery,
        fe_limbs: 4,
        target_limbs: 0,
        cofactor,
        cofactor_inv,
        group_order,
        coeff_a,
        coeff_a_kind: CoeffAKind::General,
        coeff_b,
        generator: AffinePoint { x: gx, y: gy, infinity: false },
    }
}

/// The second pairing group of the BLS12-377 family: a short-Weierstrass
/// curve over the quadratic extension of the 377-bit base field (an
/// element is twelve limbs: two six-limb components), with `A = 0` and
/// the pairing target in the twelfth-degree extension.
pub fn bls12_377_g2_parameters() -> (p: CurveParameters)
    ensures
        p.wf(),
        p.model == CurveModel::ShortWeierstrass,
        p.fe_limbs == 12,
        p.coeff_a_kind == CoeffAKind::Zero,
{
    let cofactor = limbs_vec(
        &[
            0x0000000000000001u64,
            0x452217cc90000000u64,
            0xa0f3622fba094800u64,
            0xd693e8c36676bd09u64,
            0x8c505634fae2e189u64,
            0xfbb36b00e1dcc40cu64,
            0xddd88d99a6f6a829u64,
            0x26ba558ae9562au64,
        ],
    );
    let group_order = limbs_vec(
        &[
            0xa11800000000001u64,
            0x59aa76fed0000001u64,
            0x60b44d1e5c37b001u64,
            0x12ab655e9a2ca556u64,
        ],
    );
    let cofactor_inv = Scalar {
        limbs: limbs_vec(
            &[
                0x8bb073fa57b0cbadu64,
                0x7e2625834dca4110u64,
                0x6619857527114ffu64,
                0xef4cc41e2c22cc3u64,
            ],
        ),
    };
    // A = 0 in the extension field
    let coeff_a = fe_from_limbs(
        &[0u64, 0u64, 0u64, 0u64, 0u64, 0u64, 0u64, 0u64, 0u64, 0u64, 0u64, 0u64],
    );
    // B = (0, b1) with b1 the twist of the first group's coefficient
    let coeff_b = fe_from_limbs(
        &[
            0u64,
            0u64,
            0u64,
            0u64,
            0u64,
            0u64,
            0x1c9ed9999999999au64,
            0xdd39e5c1ccccccdu64,
            0x129207b63c6bf800u64,
            0xdc7b4f91cd5fd889u64,
            0x43bd03737460c589u64,
            0x10222f6db0fd6f3u64,
        ],
    );
    let gx = fe_from_limbs(
        &[
            0x74e3e48f7c005196u64,
            0x71889f52bb535402u64,
            0x7ea501f557db6b9bu64,
            0xc565f071203e5031u64,
            0xc89630a2a3841d01u64,
            0x18480be71c785feu64,
            0xb26bfefa6ea16afeu64,
            0x5cf89984bff76fe6u64,
            0xe7223ece0799c9deu64,
            0x532777ee6651cecbu64,
            0x70dc5a51b1b140d5u64,
            0xea6040e7004031u64,
        ],
    );
    let gy = fe_from_limbs(
        &[
            0xf094094409fd4ddfu64,
            0xf2cf88886d8c7c2eu64,
            0xe458c282f832d204u64,
            0xde03ed7274b49a58u64,
            0xd960736bcbb2efb4u64,
            0x690d665d446f7bu64,
            0xd9a1cdd185eb8f93u64,
            0x4279b83f5e52270bu64,
            0x2463b01acee304c2u64,
            0x61ef11ac3d591bf1u64,
            0x9e549da3151a70aau64,
            0xf8169fd2835518u64,
        ],
    );
    CurveParameters {
        model: CurveModel::ShortWeierstrass,
        fe_limbs: 12,
        target_limbs: 72,
        cofactor,
        cofactor_inv,
        group_order,
        coeff_a,
        coeff_a_kind: CoeffAKind::Zero,
        coeff_b,
        generator: AffinePoint { x: gx, y: gy, infinity: false },
    }
}

} // verus!
