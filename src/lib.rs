//! Groth16 proof verification over BN254 (alt-bn128), with the curve
//! arithmetic delegated to a host provider.
//!
//! The library states and proves the byte-level rules around that provider:
//! which buffers may be handed to it, how its status codes become errors,
//! how scalars and points are encoded, and how the Groth16 pairing check is
//! assembled from a verifying key, a proof and its public inputs.

pub mod bn254;
pub mod endianness;
pub mod errors;
pub mod field;
pub mod groth16;

pub use bn254::{CompressionOp, GroupOp};
pub use endianness::convert_endianness;
pub use errors::Groth16Error;
