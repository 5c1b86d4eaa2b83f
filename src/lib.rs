//! Scalar arithmetic modulo the order of the Ristretto group, group-element
//! arithmetic on compressed encodings, and a Schnorr signature scheme built on
//! them, all over fixed-size byte buffers.
pub mod curve;
pub mod hash;
pub mod point;
pub mod scalar;
pub mod signature;
