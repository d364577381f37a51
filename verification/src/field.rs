//! Plain-value models of field elements and scalars.
//!
//! A field element is a fixed-width little-endian sequence of 64-bit limbs;
//! the width (in limbs) is fixed per curve family by its parameters.  A
//! scalar is an unreduced multiplier, also a little-endian limb sequence,
//! of any length.

use vstd::prelude::*;

verus! {

/// An element of the base field (or of the target extension field) of one
/// curve family, as carried across the delegation boundary: little-endian
/// 64-bit limbs in the field's canonical residue encoding.
#[derive(Clone, PartialEq, Eq, Debug)]
pub struct FieldElement {
    pub limbs: Vec<u64>,
}

/// An unsigned multiplier for group operations: little-endian 64-bit limbs.
/// It need not be reduced modulo the group order.
#[derive(Clone, PartialEq, Eq, Debug)]
pub struct Scalar {
    pub limbs: Vec<u64>,
}

impl View for FieldElement {
    type V = Seq<u64>;

    open spec fn view(&self) -> Seq<u64> {
        self.limbs@
    }
}

impl View for Scalar {
    type V = Seq<u64>;

    open spec fn view(&self) -> Seq<u64> {
        self.limbs@
    }
}

/// The unsigned integer value of a little-endian limb sequence.
pub open spec fn limbs_value(s: Seq<u64>) -> nat
    decreases s.len(),
{
    if s.len() == 0 {
        0
    } else {
        (s[0] + 0x1_0000_0000_0000_0000 * limbs_value(s.skip(1))) as nat
    }
}

impl FieldElement {
    /// The element's integer value (its canonical residue).
    pub open spec fn value(&self) -> nat {
        limbs_value(self.limbs@)
    }

    /// A field element is well formed for a family whose base-field width
    /// is `width` limbs when it has exactly that many limbs.
    pub open spec fn wf(&self, width: nat) -> bool {
        self.limbs@.len() == width
    }

    /// The all-zero element of the given width.
    pub fn zero(width: usize) -> (r: FieldElement)
        ensures
            r.wf(width as nat),
            r.value() == 0,
            forall|i: int| 0 <= i < width ==> r.limbs@[i] == 0,
    {
        let mut limbs: Vec<u64> = Vec::new();
        let mut i: usize = 0;
        while i < width
            invariant
                i <= width,
                limbs@.len() == i,
                forall|j: int| 0 <= j < i ==> limbs@[j] == 0,
            decreases width - i,
        {
            limbs.push(0);
            i = i + 1;
        }
        proof {
            lemma_zero_limbs_value(limbs@);
        }
        FieldElement { limbs }
    }
}

impl Scalar {
    /// The multiplier's integer value.
    pub open spec fn value(&self) -> nat {
        limbs_value(self.limbs@)
    }
}

/// A limb sequence of zeros has value zero.
pub proof fn lemma_zero_limbs_value(s: Seq<u64>)
    requires
        forall|j: int| 0 <= j < s.len() ==> s[j] == 0,
    ensures
        limbs_value(s) == 0,
    decreases s.len(),
{
    if s.len() > 0 {
        lemma_zero_limbs_value(s.skip(1));
    }
}

/// Appending a limb on the most-significant end adds its value scaled by
/// the weight of its position.
pub proof fn lemma_limbs_value_push(s: Seq<u64>, x: u64)
    ensures
        limbs_value(s.push(x)) == limbs_value(s) + x * pow2_64n(s.len()),
    decreases s.len(),
{
    if s.len() == 0 {
        assert(s.push(x).skip(1) =~= Seq::<u64>::empty());
        assert(limbs_value(s.push(x)) == x + 0x1_0000_0000_0000_0000 * limbs_value(
            s.push(x).skip(1),
        ));
        assert(pow2_64n(0) == 1);
        assert(limbs_value(s.push(x)) == limbs_value(s) + x * pow2_64n(s.len()));
    } else {
        assert(s.push(x).skip(1) =~= s.skip(1).push(x));
        lemma_limbs_value_push(s.skip(1), x);
        let b: nat = 0x1_0000_0000_0000_0000;
        let rest = limbs_value(s.skip(1));
        let p = pow2_64n((s.len() - 1) as nat);
        assert(s.push(x)[0] == s[0]);
        assert(pow2_64n(s.len()) == b * p);
        assert(limbs_value(s.push(x)) == s[0] + b * limbs_value(s.skip(1).push(x)));
        assert(limbs_value(s.skip(1).push(x)) == rest + x * p);
        assert(b * (rest + x * p) == b * rest + x * (b * p)) by (nonlinear_arith);
        assert(limbs_value(s) == s[0] + b * rest);
        assert(limbs_value(s.push(x)) == limbs_value(s) + x * pow2_64n(s.len()));
    }
}

/// `2^(64 k)`: the weight of limb `k` in a little-endian limb sequence.
pub open spec fn pow2_64n(k: nat) -> nat
    decreases k,
{
    if k == 0 {
        1
    } else {
        0x1_0000_0000_0000_0000 * pow2_64n((k - 1) as nat)
    }
}

} // verus!
