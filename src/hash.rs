use vstd::prelude::*;

use blake2::{Blake2b, Digest};

verus! {

/// The BLAKE2b digest, with a 64-byte output and no key, of `data`.
pub uninterp spec fn blake2b_512(data: Seq<u8>) -> Seq<u8>;

/// Relies on `Blake2b::digest`: an unkeyed BLAKE2b digest of 64 bytes, which
/// depends on the input bytes alone.
#[verifier::external_body]
pub(crate) fn blake2b(data: &[u8]) -> (r: [u8; 64])
    ensures
        r@ == blake2b_512(data@),
{
    let digest = Blake2b::digest(data);
    let mut out = [0u8; 64];
    out.copy_from_slice(&digest[..]);
    out
}

} // verus!
