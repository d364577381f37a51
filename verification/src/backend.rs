//! The backend capability contract.
//!
//! A `HostBackend` is the injected capability that performs the expensive
//! group operations on encoded arguments.  The core never implements the
//! accelerated operations; it only states what any backend must look
//! like to its callers: every operation's response is a function of the
//! backend type and the encoded arguments alone — a backend is stateless
//! and deterministic — and each call returns exactly one response and is
//! observable in the instance's call count.  Nothing here promises that a
//! backend's responses are *correct* curve arithmetic: the engine treats
//! responses as opaque bytes and checks them structurally.

use vstd::prelude::*;

verus! {

/// The byte-sequence views of a vector of byte vectors.
pub open spec fn byte_views(s: Seq<Vec<u8>>) -> Seq<Seq<u8>> {
    s.map_values(|v: Vec<u8>| v@)
}

/// The capability interface of a host backend for one curve family.
///
/// All arguments and results cross the boundary as canonical encodings.
/// The caller, never the backend, is responsible for handing over equally
/// many bases and scalars to `msm`.  A backend is synchronous: each call
/// blocks until its one response is available.
pub trait HostBackend: Sized {
    /// How many delegated calls this backend instance has answered.
    spec fn spec_calls(&self) -> nat;

    /// The response to a projective-base scalar multiplication.
    spec fn mul_projective_response(base: Seq<u8>, scalar: Seq<u8>) -> Seq<u8>;

    /// The response to an affine-base scalar multiplication.
    spec fn mul_affine_response(base: Seq<u8>, scalar: Seq<u8>) -> Seq<u8>;

    /// The response to a multi-scalar multiplication: one encoded point,
    /// or the index of an offending input.
    spec fn msm_response(bases: Seq<Seq<u8>>, scalars: Seq<Seq<u8>>) -> Result<Seq<u8>, usize>;

    /// The response to a multi-Miller-loop evaluation.
    spec fn miller_loop_response(g1: Seq<Seq<u8>>, g2: Seq<Seq<u8>>) -> Seq<u8>;

    /// The response to a final exponentiation: an encoded target-field
    /// element, or no defined output.
    spec fn final_exp_response(f: Seq<u8>) -> Option<Seq<u8>>;

    /// Multiplies an encoded projective point by an encoded scalar.
    fn mul_projective(&mut self, base: &Vec<u8>, scalar: &Vec<u8>) -> (r: Vec<u8>)
        ensures
            r@ == Self::mul_projective_response(base@, scalar@),
            final(self).spec_calls() == old(self).spec_calls() + 1,
    ;

    /// Multiplies an encoded affine point by an encoded scalar.
    fn mul_affine(&mut self, base: &Vec<u8>, scalar: &Vec<u8>) -> (r: Vec<u8>)
        ensures
            r@ == Self::mul_affine_response(base@, scalar@),
            final(self).spec_calls() == old(self).spec_calls() + 1,
    ;

    /// Evaluates one batched multi-scalar multiplication.
    fn msm(&mut self, bases: &Vec<Vec<u8>>, scalars: &Vec<Vec<u8>>) -> (r: Result<Vec<u8>, usize>)
        ensures
            match r {
                Ok(bytes) => Self::msm_response(byte_views(bases@), byte_views(scalars@))
                    == Ok::<Seq<u8>, usize>(bytes@),
                Err(i) => Self::msm_response(byte_views(bases@), byte_views(scalars@)) == Err::<
                    Seq<u8>,
                    usize,
                >(i),
            },
            final(self).spec_calls() == old(self).spec_calls() + 1,
    ;

    /// Evaluates one batched Miller loop over paired encoded inputs.
    fn multi_miller_loop(&mut self, g1: &Vec<Vec<u8>>, g2: &Vec<Vec<u8>>) -> (r: Vec<u8>)
        ensures
            r@ == Self::miller_loop_response(byte_views(g1@), byte_views(g2@)),
            final(self).spec_calls() == old(self).spec_calls() + 1,
    ;

    /// Projects a Miller accumulator into the pairing output subgroup, or
    /// reports that no output is defined for it.
    fn final_exponentiation(&mut self, f: &Vec<u8>) -> (r: Option<Vec<u8>>)
        ensures
            match r {
                Some(bytes) => Self::final_exp_response(f@) == Some(bytes@),
                None => Self::final_exp_response(f@) is None,
            },
            final(self).spec_calls() == old(self).spec_calls() + 1,
    ;
}

} // verus!
