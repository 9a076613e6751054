//! Primitives for a Sapling-style shielded-asset protocol: the ephemeral
//! Diffie-Hellman key pair used by note encryption, the mint-asset witness
//! with its byte-level codec, and the normative synthesis schedule of the
//! mint-asset circuit.

pub mod circuit;
pub mod curve;
pub mod keys;
pub mod witness;
