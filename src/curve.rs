use vstd::prelude::*;

use curve25519_dalek::constants::RISTRETTO_BASEPOINT_TABLE;
use curve25519_dalek::ristretto::{CompressedRistretto, RistrettoPoint};
use curve25519_dalek::scalar::Scalar;

use crate::scalar::{is_canonical, le_value, scalar_of, scalar_product, scalar_sum};

verus! {

/// Whether `b` is the canonical encoding of an element of the Ristretto group.
pub uninterp spec fn is_ristretto_encoding(b: Seq<u8>) -> bool;

/// The encoding of the sum of the group elements encoded by `p` and `q`.
pub uninterp spec fn point_sum(p: Seq<u8>, q: Seq<u8>) -> Seq<u8>;

/// The encoding of the group element encoded by `p`, multiplied by the scalar `s`.
pub uninterp spec fn point_multiple(s: Seq<u8>, p: Seq<u8>) -> Seq<u8>;

/// The encoding of the base point multiplied by the scalar `s`.
pub uninterp spec fn basepoint_multiple(s: Seq<u8>) -> Seq<u8>;

/// The encoding of `s`·B − `c`·A, where B is the base point and A the group
/// element encoded by `a`.
pub uninterp spec fn basepoint_combination(c: Seq<u8>, a: Seq<u8>, s: Seq<u8>) -> Seq<u8>;

/// Relies on `Scalar::from_bytes_mod_order` and `Scalar::to_bytes`: the
/// canonical encoding of a 256-bit little-endian integer reduced modulo the
/// group order.
#[verifier::external_body]
pub(crate) fn scalar_reduce(b: &[u8; 32]) -> (r: [u8; 32])
    ensures
        r@ == scalar_of(le_value(b@)),
{
    Scalar::from_bytes_mod_order(*b).to_bytes()
}

/// Relies on `Scalar::from_bytes_mod_order_wide` and `Scalar::to_bytes`: the
/// canonical encoding of a 512-bit little-endian integer reduced modulo the
/// group order.
#[verifier::external_body]
pub(crate) fn scalar_reduce_wide(b: &[u8; 64]) -> (r: [u8; 32])
    ensures
        r@ == scalar_of(le_value(b@)),
{
    Scalar::from_bytes_mod_order_wide(b).to_bytes()
}

/// Relies on `Scalar::from_canonical_bytes`: `Some` exactly when the bytes
/// spell an integer below the group order.
#[verifier::external_body]
pub(crate) fn scalar_is_canonical(b: &[u8; 32]) -> (r: bool)
    ensures
        r == is_canonical(b@),
{
    Scalar::from_canonical_bytes(*b).is_some()
}

/// Relies on `Scalar`'s `+`: the sum modulo the group order, encoded by
/// `Scalar::to_bytes`.
#[verifier::external_body]
pub(crate) fn scalar_add(x: &[u8; 32], y: &[u8; 32]) -> (r: [u8; 32])
    requires
        is_canonical(x@),
        is_canonical(y@),
    ensures
        r@ == scalar_sum(x@, y@),
{
    let a = Scalar::from_canonical_bytes(*x).unwrap();
    let b = Scalar::from_canonical_bytes(*y).unwrap();
    (a + b).to_bytes()
}

/// Relies on `Scalar`'s `*`: the product modulo the group order, encoded by
/// `Scalar::to_bytes`.
#[verifier::external_body]
pub(crate) fn scalar_mul(x: &[u8; 32], y: &[u8; 32]) -> (r: [u8; 32])
    requires
        is_canonical(x@),
        is_canonical(y@),
    ensures
        r@ == scalar_product(x@, y@),
{
    let a = Scalar::from_canonical_bytes(*x).unwrap();
    let b = Scalar::from_canonical_bytes(*y).unwrap();
    (a * b).to_bytes()
}

/// Relies on `CompressedRistretto::decompress`: `Some` exactly when the bytes
/// are the canonical encoding of a group element.
#[verifier::external_body]
pub(crate) fn point_decodes(p: &[u8; 32]) -> (r: bool)
    ensures
        r == is_ristretto_encoding(p@),
{
    CompressedRistretto::from_slice(p).decompress().is_some()
}

/// Relies on `RistrettoPoint`'s `+`; `RistrettoPoint::compress` gives a
/// canonical encoding, which decodes again.
#[verifier::external_body]
pub(crate) fn point_add(p: &[u8; 32], q: &[u8; 32]) -> (r: [u8; 32])
    requires
        is_ristretto_encoding(p@),
        is_ristretto_encoding(q@),
    ensures
        r@ == point_sum(p@, q@),
        is_ristretto_encoding(r@),
{
    let a = CompressedRistretto::from_slice(p).decompress().unwrap();
    let b = CompressedRistretto::from_slice(q).decompress().unwrap();
    (a + b).compress().to_bytes()
}

/// Relies on `Scalar * RistrettoPoint`; `RistrettoPoint::compress` gives a
/// canonical encoding, which decodes again.
#[verifier::external_body]
pub(crate) fn point_mul(s: &[u8; 32], p: &[u8; 32]) -> (r: [u8; 32])
    requires
        is_canonical(s@),
        is_ristretto_encoding(p@),
    ensures
        r@ == point_multiple(s@, p@),
        is_ristretto_encoding(r@),
{
    let k = Scalar::from_canonical_bytes(*s).unwrap();
    let a = CompressedRistretto::from_slice(p).decompress().unwrap();
    (&k * &a).compress().to_bytes()
}

/// Relies on `Scalar * RISTRETTO_BASEPOINT_TABLE`, the constant-time
/// multiplication of the base point; `RistrettoPoint::compress` gives a
/// canonical encoding, which decodes again.
#[verifier::external_body]
pub(crate) fn basepoint_mul(s: &[u8; 32]) -> (r: [u8; 32])
    requires
        is_canonical(s@),
    ensures
        r@ == basepoint_multiple(s@),
        is_ristretto_encoding(r@),
{
    let k = Scalar::from_canonical_bytes(*s).unwrap();
    (&k * &RISTRETTO_BASEPOINT_TABLE).compress().to_bytes()
}

/// Relies on `RistrettoPoint::vartime_double_scalar_mul_basepoint`, given
/// `c`, the negation of A and `s`: the variable-time `s`·B − `c`·A, as
/// `RistrettoPoint::compress` encodes it.
#[verifier::external_body]
pub(crate) fn basepoint_double_mul(c: &[u8; 32], a: &[u8; 32], s: &[u8; 32]) -> (r: [u8; 32])
    requires
        is_canonical(c@),
        is_ristretto_encoding(a@),
        is_canonical(s@),
    ensures
        r@ == basepoint_combination(c@, a@, s@),
{
    let c = Scalar::from_canonical_bytes(*c).unwrap();
    let a = CompressedRistretto::from_slice(a).decompress().unwrap();
    let s = Scalar::from_canonical_bytes(*s).unwrap();
    RistrettoPoint::vartime_double_scalar_mul_basepoint(&c, &-a, &s).compress().to_bytes()
}

} // verus!
