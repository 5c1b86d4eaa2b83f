use vstd::prelude::*;

use crate::curve::{scalar_add, scalar_is_canonical, scalar_mul, scalar_reduce, scalar_reduce_wide};

verus! {

/// The order of the prime-order group: 2^252 + 27742317777372353535851937790883648493.
pub open spec fn group_order() -> nat {
    16 * pow256(31) + 27742317777372353535851937790883648493
}

/// 256 raised to the power `n`.
pub open spec fn pow256(n: nat) -> nat
    decreases n,
{
    if n == 0 {
        1
    } else {
        256 * pow256((n - 1) as nat)
    }
}

/// The integer that the bytes `b` spell in little-endian order.
pub open spec fn le_value(b: Seq<u8>) -> nat
    decreases b.len(),
{
    if b.len() == 0 {
        0
    } else {
        b[0] as nat + 256 * le_value(b.subrange(1, b.len() as int))
    }
}

/// The `len` low-order bytes of `n`, least significant first.
pub open spec fn le_bytes(n: nat, len: nat) -> Seq<u8>
    decreases len,
{
    if len == 0 {
        Seq::empty()
    } else {
        seq![(n % 256) as u8] + le_bytes(n / 256, (len - 1) as nat)
    }
}

/// The 32-byte encoding of the residue of `n` modulo the group order.
pub open spec fn scalar_of(n: nat) -> Seq<u8> {
    le_bytes(n % group_order(), 32)
}

/// The sum of two scalars modulo the group order.
pub open spec fn scalar_sum(x: Seq<u8>, y: Seq<u8>) -> Seq<u8> {
    scalar_of(le_value(x) + le_value(y))
}

/// The product of two scalars modulo the group order.
pub open spec fn scalar_product(x: Seq<u8>, y: Seq<u8>) -> Seq<u8> {
    scalar_of(le_value(x) * le_value(y))
}

/// A canonical scalar: 32 bytes whose value is below the group order.
pub open spec fn is_canonical(b: Seq<u8>) -> bool {
    b.len() == 32 && le_value(b) < group_order()
}

/// The low `len` bytes of a number below 256^`len` spell that number.
pub proof fn lemma_le_value_of_bytes(n: nat, len: nat)
    requires
        n < pow256(len),
    ensures
        le_bytes(n, len).len() == len,
        le_value(le_bytes(n, len)) == n,
    decreases len,
{
    if len > 0 {
        let q = n / 256;
        let p = pow256((len - 1) as nat);
        assert(q < p) by (nonlinear_arith)
            requires
                n < 256 * p,
                q == n / 256,
        ;
        lemma_le_value_of_bytes(q, (len - 1) as nat);
        let s = le_bytes(n, len);
        assert(s.subrange(1, s.len() as int) =~= le_bytes(q, (len - 1) as nat));
        assert(n == n % 256 + 256 * q) by (nonlinear_arith)
            requires
                q == n / 256,
        ;
    }
}

/// The group order fits in 32 bytes.
pub proof fn lemma_group_order_fits()
    ensures
        group_order() < pow256(32),
{
    reveal_with_fuel(pow256, 33);
}

/// The encoding of a residue is canonical and spells that residue.
pub proof fn lemma_scalar_of(n: nat)
    ensures
        is_canonical(scalar_of(n)),
        le_value(scalar_of(n)) == n % group_order(),
{
    lemma_group_order_fits();
    lemma_le_value_of_bytes(n % group_order(), 32);
}

/// Reducing is idempotent: the reduction of any 32 bytes is canonical, and
/// reducing it again gives the same bytes.
pub proof fn lemma_reduce_idempotent(b: Seq<u8>)
    requires
        b.len() == 32,
    ensures
        le_value(scalar_of(le_value(b))) < group_order(),
        scalar_of(le_value(scalar_of(le_value(b)))) == scalar_of(le_value(b)),
{
    lemma_scalar_of(le_value(b));
    vstd::arithmetic::div_mod::lemma_mod_twice(le_value(b) as int, group_order() as int);
}

/// Addition of canonical scalars is associative.
pub proof fn lemma_add_associative(a: Seq<u8>, b: Seq<u8>, c: Seq<u8>)
    requires
        is_canonical(a),
        is_canonical(b),
        is_canonical(c),
    ensures
        scalar_sum(scalar_sum(a, b), c) == scalar_sum(a, scalar_sum(b, c)),
{
    let (va, vb, vc) = (le_value(a) as int, le_value(b) as int, le_value(c) as int);
    let l = group_order() as int;
    lemma_scalar_of(le_value(a) + le_value(b));
    lemma_scalar_of(le_value(b) + le_value(c));
    vstd::arithmetic::div_mod::lemma_add_mod_noop_right(vc, va + vb, l);
    vstd::arithmetic::div_mod::lemma_add_mod_noop_right(va, vb + vc, l);
    assert(vc + (va + vb) == va + (vb + vc));
}

/// Addition of canonical scalars is commutative.
pub proof fn lemma_add_commutative(a: Seq<u8>, b: Seq<u8>)
    requires
        is_canonical(a),
        is_canonical(b),
    ensures
        scalar_sum(a, b) == scalar_sum(b, a),
{
}

/// Multiplication of canonical scalars is commutative.
pub proof fn lemma_mul_commutative(a: Seq<u8>, b: Seq<u8>)
    requires
        is_canonical(a),
        is_canonical(b),
    ensures
        scalar_product(a, b) == scalar_product(b, a),
{
    vstd::arithmetic::mul::lemma_mul_is_commutative(le_value(a) as int, le_value(b) as int);
}

/// Multiplication of canonical scalars distributes over addition.
pub proof fn lemma_mul_distributes(a: Seq<u8>, b: Seq<u8>, c: Seq<u8>)
    requires
        is_canonical(a),
        is_canonical(b),
        is_canonical(c),
    ensures
        scalar_product(a, scalar_sum(b, c)) == scalar_sum(scalar_product(a, b), scalar_product(a, c)),
{
    let (va, vb, vc) = (le_value(a) as int, le_value(b) as int, le_value(c) as int);
    let l = group_order() as int;
    lemma_scalar_of(le_value(b) + le_value(c));
    lemma_scalar_of(le_value(a) * le_value(b));
    lemma_scalar_of(le_value(a) * le_value(c));
    vstd::arithmetic::div_mod::lemma_mul_mod_noop_right(va, vb + vc, l);
    vstd::arithmetic::div_mod::lemma_add_mod_noop(va * vb, va * vc, l);
    vstd::arithmetic::mul::lemma_mul_is_distributive_add(va, vb, vc);
}

/// Reduces a 32-byte little-endian integer modulo the group order.
pub fn reduce_to_scalar(scalar: &[u8; 32], res: &mut [u8; 32])
    ensures
        final(res)@ == scalar_of(le_value(scalar@)),
{
    *res = scalar_reduce(scalar);
}

/// Reduces a 64-byte little-endian integer, such as a 512-bit digest, modulo
/// the group order.
pub fn reduce_to_scalar_wide(scalar: &[u8; 64], res: &mut [u8; 32])
    ensures
        final(res)@ == scalar_of(le_value(scalar@)),
{
    *res = scalar_reduce_wide(scalar);
}

/// Whether `scalar` is canonical, that is, spells an integer below the
/// group order.
pub fn is_canonical_scalar(scalar: &[u8; 32]) -> (r: bool)
    ensures
        r == is_canonical(scalar@),
{
    scalar_is_canonical(scalar)
}

/// Adds two canonical scalars modulo the group order.
pub fn add_scalar(x: &[u8; 32], y: &[u8; 32], res: &mut [u8; 32])
    requires
        is_canonical(x@),
        is_canonical(y@),
    ensures
        final(res)@ == scalar_sum(x@, y@),
{
    *res = scalar_add(x, y);
}

/// Multiplies two canonical scalars modulo the group order.
pub fn mul_scalar(x: &[u8; 32], y: &[u8; 32], res: &mut [u8; 32])
    requires
        is_canonical(x@),
        is_canonical(y@),
    ensures
        final(res)@ == scalar_product(x@, y@),
{
    *res = scalar_mul(x, y);
}

} // verus!
