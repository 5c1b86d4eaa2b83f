use vstd::prelude::*;

use crate::curve::{
    basepoint_mul, basepoint_multiple, is_ristretto_encoding, point_add, point_decodes,
    point_multiple, point_mul, point_sum,
};
use crate::curve::scalar_is_canonical;
use crate::scalar::is_canonical;

verus! {

/// Whether `point` is the canonical encoding of a group element. Any other
/// bytes give `false`.
pub fn verify_point(point: &[u8; 32]) -> (r: bool)
    ensures
        r == is_ristretto_encoding(point@),
{
    point_decodes(point)
}

/// Adds two group elements given by their encodings; the sum's encoding
/// decodes again.
pub fn add_point(x: &[u8; 32], y: &[u8; 32], res: &mut [u8; 32])
    requires
        is_ristretto_encoding(x@),
        is_ristretto_encoding(y@),
    ensures
        final(res)@ == point_sum(x@, y@),
        is_ristretto_encoding(final(res)@),
{
    *res = point_add(x, y);
}

/// Multiplies the group element encoded by `y` by the canonical scalar `x`;
/// the product's encoding decodes again.
pub fn mul_point_by_scalar(x: &[u8; 32], y: &[u8; 32], res: &mut [u8; 32])
    requires
        is_canonical(x@),
        is_ristretto_encoding(y@),
    ensures
        final(res)@ == point_multiple(x@, y@),
        is_ristretto_encoding(final(res)@),
{
    *res = point_mul(x, y);
}

/// Adds two encodings that may not decode: `None` exactly when one of them
/// is no group element.
pub fn checked_add_point(x: &[u8; 32], y: &[u8; 32]) -> (r: Option<[u8; 32]>)
    ensures
        r.is_some() == (is_ristretto_encoding(x@) && is_ristretto_encoding(y@)),
        r.is_some() ==> r.unwrap()@ == point_sum(x@, y@),
{
    if point_decodes(x) && point_decodes(y) {
        let mut res = [0u8; 32];
        add_point(x, y, &mut res);
        Some(res)
    } else {
        None
    }
}

/// Multiplies an encoding that may not decode by a scalar that may not be
/// canonical: `None` exactly when either check fails.
pub fn checked_mul_point_by_scalar(x: &[u8; 32], y: &[u8; 32]) -> (r: Option<[u8; 32]>)
    ensures
        r.is_some() == (is_canonical(x@) && is_ristretto_encoding(y@)),
        r.is_some() ==> r.unwrap()@ == point_multiple(x@, y@),
{
    if scalar_is_canonical(x) && point_decodes(y) {
        let mut res = [0u8; 32];
        mul_point_by_scalar(x, y, &mut res);
        Some(res)
    } else {
        None
    }
}

/// Multiplies the base point by the canonical scalar `scalar`, in constant
/// time; the product's encoding decodes again.
pub fn to_point(scalar: &[u8; 32], res: &mut [u8; 32])
    requires
        is_canonical(scalar@),
    ensures
        final(res)@ == basepoint_multiple(scalar@),
        is_ristretto_encoding(final(res)@),
{
    *res = basepoint_mul(scalar);
}

} // verus!
