//! The failure taxonomy of the delegation protocol.

use vstd::prelude::*;

verus! {

/// A failure of a delegated operation.
///
/// A structural decode failure of a backend response is fatal and always
/// surfaced: it is never replaced by a default value, since that would
/// silently yield a wrong cryptographic result.  A length mismatch is
/// rejected before any delegation.  An indexed failure is the backend
/// naming one offending input, propagated verbatim.  An unrecognized
/// pairing-input representation is a caller contract violation, also
/// fatal.
#[derive(Clone, Copy, PartialEq, Eq, Debug)]
pub enum DelegationError {
    /// A byte sequence failed to parse as the expected shape or length.
    StructuralDecode,
    /// A multi-scalar multiplication was requested with differing numbers
    /// of bases and scalars.
    MsmLengthMismatch,
    /// The backend identified the input at this index as the cause of a
    /// failure.
    IndexedFailure(usize),
    /// A pairing input carried a representation tag outside the supported
    /// set.
    UnrecognizedPairingInput,
}

} // verus!
