//! Host-delegated elliptic-curve group arithmetic.
//!
//! Expensive group operations (scalar multiplication, multi-scalar
//! multiplication, bilinear pairings) are offloaded to an injectable
//! computation backend; this crate keeps the delegation protocol itself:
//! the canonical byte codec for arguments and results, the backend
//! capability contract, the generic delegating engine for one curve model,
//! and the pairing orchestrator, together with the cheap local operations
//! (cofactor clearing, field-level shortcuts) that never cross the
//! delegation boundary.

pub mod backend;
pub mod codec;
pub mod engine;
pub mod errors;
pub mod families;
pub mod field;
pub mod group;
pub mod laws;
pub mod mock;
pub mod pairing;
pub mod params;
pub mod point;
