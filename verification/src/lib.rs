//! Note/key/commitment algebra for a shielded-transaction scheme.
//!
//! The library defines the objects that represent a spendable unit of value
//! (a note), the key hierarchy that controls and observes it, and the two
//! hash-derived quantities that bind a note to the system: its commitment and
//! its nullifier.  All arithmetic takes place in a prime-order group exposed
//! by an immutable parameter object; the direct cryptographic hash used as a
//! pseudorandom function is an outside collaborator consumed through a narrow
//! trusted interface.

pub mod codec;
pub mod constants;
pub mod group;
pub mod group_hash;
pub mod pedersen_hash;
pub mod prf;
pub mod primitives;
