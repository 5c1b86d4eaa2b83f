use vstd::prelude::*;

use crate::curve::{
    basepoint_combination, basepoint_double_mul, basepoint_mul, basepoint_multiple,
    is_ristretto_encoding, point_decodes, scalar_add, scalar_is_canonical, scalar_mul,
    scalar_reduce_wide,
};
use crate::hash::{blake2b, blake2b_512};
use crate::scalar::{group_order, is_canonical, le_value, lemma_scalar_of, scalar_of, scalar_product, scalar_sum};

verus! {

/// The scalar that a 64-byte digest of `data` reduces to.
pub open spec fn hash_to_scalar(data: Seq<u8>) -> Seq<u8> {
    scalar_of(le_value(blake2b_512(data)))
}

/// The signing nonce: derived from the secret scalar and the message alone.
pub open spec fn nonce_of(secret: Seq<u8>, msg: Seq<u8>) -> Seq<u8> {
    hash_to_scalar(secret + msg)
}

/// The challenge, bound to the commitment, the public point and the message.
pub open spec fn challenge_of(commitment: Seq<u8>, public: Seq<u8>, msg: Seq<u8>) -> Seq<u8> {
    hash_to_scalar(commitment + public + msg)
}

/// The 64-byte signature of `msg` under the secret scalar `secret`: the
/// commitment R = r·B followed by the response r + c·secret.
pub open spec fn signature_of(secret: Seq<u8>, msg: Seq<u8>) -> Seq<u8> {
    let r = nonce_of(secret, msg);
    let commitment = basepoint_multiple(r);
    let c = challenge_of(commitment, basepoint_multiple(secret), msg);
    commitment + scalar_sum(r, scalar_product(c, secret))
}

/// Whether `sig` (R followed by s) is a valid signature of `msg` under the
/// public point encoded by `public`: both points decode, s is canonical, and
/// R equals s·B − c·A for the challenge c.
pub open spec fn is_valid_signature(public: Seq<u8>, msg: Seq<u8>, sig: Seq<u8>) -> bool {
    let commitment = sig.subrange(0, 32);
    let s = sig.subrange(32, 64);
    is_ristretto_encoding(public) && is_ristretto_encoding(commitment) && is_canonical(s)
        && basepoint_combination(challenge_of(commitment, public, msg), public, s) == commitment
}

/// A signature whose response is not below the group order never verifies.
pub proof fn lemma_noncanonical_response_rejected(public: Seq<u8>, msg: Seq<u8>, sig: Seq<u8>)
    requires
        sig.len() == 64,
        le_value(sig.subrange(32, 64)) >= group_order(),
    ensures
        !is_valid_signature(public, msg, sig),
{
}

/// A signature never verifies when the public point or the commitment does
/// not decode.
pub proof fn lemma_undecodable_point_rejected(public: Seq<u8>, msg: Seq<u8>, sig: Seq<u8>)
    requires
        sig.len() == 64,
        !is_ristretto_encoding(public) || !is_ristretto_encoding(sig.subrange(0, 32)),
    ensures
        !is_valid_signature(public, msg, sig),
{
}

/// Appends the bytes of `part` to `out`.
fn append(out: &mut Vec<u8>, part: &[u8])
    ensures
        final(out)@ == old(out)@ + part@,
{
    let mut i: usize = 0;
    while i < part.len()
        invariant
            i <= part@.len(),
            out@ == old(out)@ + part@.subrange(0, i as int),
        decreases part@.len() - i,
    {
        out.push(part[i]);
        i = i + 1;
        assert(part@.subrange(0, i as int) =~= part@.subrange(0, i - 1 as int).push(part@[i - 1]));
    }
    assert(part@.subrange(0, i as int) =~= part@);
}

/// Whether two 32-byte strings are equal.
fn same_bytes(a: &[u8; 32], b: &[u8; 32]) -> (r: bool)
    ensures
        r == (a@ == b@),
{
    let mut i: usize = 0;
    while i < 32
        invariant
            forall|k: int| 0 <= k < i ==> a@[k] == b@[k],
        decreases 32 - i,
    {
        if a[i] != b[i] {
            return false;
        }
        i = i + 1;
    }
    assert(a@ =~= b@);
    true
}

/// Reduces the BLAKE2b digest of `data` to a scalar.
fn hash_scalar(data: &Vec<u8>) -> (r: [u8; 32])
    ensures
        r@ == hash_to_scalar(data@),
        is_canonical(r@),
{
    let digest = blake2b(data.as_slice());
    let r = scalar_reduce_wide(&digest);
    proof {
        lemma_scalar_of(le_value(blake2b_512(data@)));
    }
    r
}

/// The challenge scalar for a commitment, a public point and a message.
fn challenge(commitment: &[u8; 32], public: &[u8; 32], msg: &[u8]) -> (r: [u8; 32])
    ensures
        r@ == challenge_of(commitment@, public@, msg@),
        is_canonical(r@),
{
    let mut data: Vec<u8> = Vec::new();
    append(&mut data, commitment.as_slice());
    append(&mut data, public.as_slice());
    append(&mut data, msg);
    assert(data@ =~= commitment@ + public@ + msg@);
    hash_scalar(&data)
}

/// Signs `msg` with the canonical secret scalar `scalar`, writing the
/// commitment and the response to `res`.
pub fn sign(scalar: &[u8; 32], msg: &[u8], res: &mut [u8; 64])
    requires
        is_canonical(scalar@),
    ensures
        final(res)@ == signature_of(scalar@, msg@),
{
    let mut data: Vec<u8> = Vec::new();
    append(&mut data, scalar.as_slice());
    append(&mut data, msg);
    assert(data@ =~= scalar@ + msg@);
    let r = hash_scalar(&data);
    let commitment = basepoint_mul(&r);
    let public = basepoint_mul(scalar);
    let c = challenge(&commitment, &public, msg);
    let cs = scalar_mul(&c, scalar);
    proof {
        lemma_scalar_of(le_value(c@) * le_value(scalar@));
    }
    let s = scalar_add(&r, &cs);
    let mut i: usize = 0;
    while i < 64
        invariant
            forall|j: int| 0 <= j < i ==> res@[j] == if j < 32 { commitment@[j] } else { s@[j - 32] },
        decreases 64 - i,
    {
        if i < 32 {
            res[i] = commitment[i];
        } else {
            res[i] = s[i - 32];
        }
        i = i + 1;
    }
    assert(res@ =~= commitment@ + s@);
}

/// Checks the signature `sig` of `msg` under the public point `point`. Any
/// malformed point or scalar gives `false`.
pub fn verify(point: &[u8; 32], msg: &[u8], sig: &[u8; 64]) -> (r: bool)
    ensures
        r == is_valid_signature(point@, msg@, sig@),
{
    let mut commitment = [0u8; 32];
    let mut s = [0u8; 32];
    let mut i: usize = 0;
    while i < 32
        invariant
            forall|j: int| 0 <= j < i ==> commitment@[j] == sig@[j] && s@[j] == sig@[j + 32],
        decreases 32 - i,
    {
        commitment[i] = sig[i];
        s[i] = sig[i + 32];
        i = i + 1;
    }
    assert(commitment@ =~= sig@.subrange(0, 32));
    assert(s@ =~= sig@.subrange(32, 64));
    if !point_decodes(point) || !point_decodes(&commitment) || !scalar_is_canonical(&s) {
        return false;
    }
    let c = challenge(&commitment, point, msg);
    let expected = basepoint_double_mul(&c, point, &s);
    // Encodings are canonical, so two decoded elements are equal exactly
    // when their encodings are.
    same_bytes(&commitment, &expected)
}

} // verus!
