//! Scalars modulo the order of the prime-order subgroup of Curve25519.
//!
//! A scalar is held as 32 little-endian bytes. The arithmetic itself is done
//! by `curve25519-dalek` and `num-bigint`; the contracts of the trusted
//! functions here state their results as numbers.

use crate::encoding::{
    le_encode, le_value, le_value_from, lemma_le_encode_of_value, lemma_le_value_from,
    lemma_le_value_lower_bound, lemma_le_value_zero_padded, lemma_pow256_32, lemma_pow256_monotonic,
};
use vstd::prelude::*;

verus! {

/// The group order L = 2^252 + 27742317777372353535851937790883648493.
pub open spec fn group_order() -> nat {
    0x1000000000000000000000000000000014def9dea2f79cd65812631a5cf5d3ednat
}

/// Whether 32 bytes are the canonical encoding of a scalar: a number below
/// the group order.
pub open spec fn is_canonical_scalar(bytes: Seq<u8>) -> bool {
    bytes.len() == 32 && le_value(bytes) < group_order()
}

/// The group order as 32 little-endian bytes.
pub fn ed25519_l() -> (l: [u8; 32])
    ensures
        le_value(l@) == group_order(),
{
    let l: [u8; 32] = [
        0xed, 0xd3, 0xf5, 0x5c, 0x1a, 0x63, 0x12, 0x58, 0xd6, 0x9c, 0xf7, 0xa2, 0xde, 0xf9, 0xde, 0x14,
        0x00, 0x00, 0x00, 0x00, 0x00, 0x00, 0x00, 0x00, 0x00, 0x00, 0x00, 0x00, 0x00, 0x00, 0x00, 0x10,
    ];
    proof {
        lemma_le_value_from(l@, 0);
        assert(l@.subrange(0, 32) =~= l@);
        reveal_with_fuel(le_value_from, 33);
    }
    l
}

/// The remainder of one little-endian number by another, as the shortest
/// little-endian byte string.
///
/// Trusted: the body reads both numbers with `BigUint::from_bytes_le`, takes
/// the remainder with `%` on `BigUint`, which panics on a zero divisor, and
/// writes it with `BigUint::to_bytes_le`, which gives one zero byte for zero
/// and otherwise no zero byte at the end.
#[verifier::external_body]
fn biguint_rem(value: &[u8], modulus: &[u8]) -> (r: Vec<u8>)
    requires
        le_value(modulus@) > 0,
    ensures
        le_value(r@) == le_value(value@) % le_value(modulus@),
        r@.len() >= 1,
        r@.len() > 1 ==> r@.last() != 0,
{
    (num_bigint::BigUint::from_bytes_le(value) % num_bigint::BigUint::from_bytes_le(
        modulus,
    )).to_bytes_le()
}

/// Reduces a little-endian number of any length modulo the group order. The
/// result is the shortest encoding of the remainder and fits in 32 bytes.
pub fn reduce_hash_mod_l(hash: &[u8]) -> (reduced: Vec<u8>)
    ensures
        le_value(reduced@) == le_value(hash@) % group_order(),
        1 <= reduced@.len() <= 32,
        reduced@.len() > 1 ==> reduced@.last() != 0,
{
    let l = ed25519_l();
    let reduced = biguint_rem(hash, l.as_slice());
    proof {
        if reduced@.len() > 32 {
            lemma_le_value_lower_bound(reduced@);
            lemma_pow256_monotonic(32, (reduced@.len() - 1) as nat);
            lemma_pow256_32();
        }
    }
    reduced
}

/// Pads the little-endian encoding of a number below 2^256 with zero bytes
/// to 32 bytes.
pub fn biguint_to_scalar_bytes(value: &[u8]) -> (fixed: [u8; 32])
    requires
        value@.len() <= 32,
    ensures
        le_value(fixed@) == le_value(value@),
        fixed@ == le_encode(le_value(value@), 32),
{
    let mut fixed = [0u8; 32];
    let mut i: usize = 0;
    while i < value.len()
        invariant
            i <= value@.len() <= 32,
            forall|j: int| 0 <= j < i ==> fixed@[j] == value@[j],
            forall|j: int| i <= j < 32 ==> fixed@[j] == 0,
        decreases value@.len() - i,
    {
        fixed[i] = value[i];
        i += 1;
    }
    proof {
        assert(fixed@.subrange(0, value@.len() as int) =~= value@);
        lemma_le_value_zero_padded(fixed@, value@.len() as int);
        lemma_le_encode_of_value(fixed@);
    }
    fixed
}

/// The product of two scalars modulo the group order.
///
/// Trusted: the body reads each operand with `Scalar::from_bytes_mod_order`,
/// which reduces it, multiplies with `*` on `Scalar`, and returns
/// `Scalar::to_bytes`, the canonical encoding of the product.
#[verifier::external_body]
pub(crate) fn scalar_mul(a: &[u8; 32], b: &[u8; 32]) -> (r: [u8; 32])
    ensures
        le_value(r@) == (le_value(a@) * le_value(b@)) % group_order(),
{
    let x = curve25519_dalek::scalar::Scalar::from_bytes_mod_order(*a);
    let y = curve25519_dalek::scalar::Scalar::from_bytes_mod_order(*b);
    (x * y).to_bytes()
}

/// The sum of two scalars modulo the group order.
///
/// Trusted: the body reads each operand with `Scalar::from_bytes_mod_order`,
/// which reduces it, adds with `+` on `Scalar`, and returns
/// `Scalar::to_bytes`, the canonical encoding of the sum.
#[verifier::external_body]
pub(crate) fn scalar_add(a: &[u8; 32], b: &[u8; 32]) -> (r: [u8; 32])
    ensures
        le_value(r@) == (le_value(a@) + le_value(b@)) % group_order(),
{
    let x = curve25519_dalek::scalar::Scalar::from_bytes_mod_order(*a);
    let y = curve25519_dalek::scalar::Scalar::from_bytes_mod_order(*b);
    (x + y).to_bytes()
}

/// Reads a scalar from its canonical encoding and refuses any other.
///
/// Trusted: the body calls `Scalar::from_canonical_bytes`, which accepts
/// exactly the encodings of numbers below the group order, and returns
/// `Scalar::to_bytes` of the scalar, which are the bytes that were read.
#[verifier::external_body]
pub(crate) fn scalar_from_canonical_bytes(bytes: &[u8; 32]) -> (r: Option<[u8; 32]>)
    ensures
        match r {
            Some(s) => le_value(bytes@) < group_order() && s@ == bytes@,
            None => le_value(bytes@) >= group_order(),
        },
{
    let s: Option<curve25519_dalek::scalar::Scalar> =
        curve25519_dalek::scalar::Scalar::from_canonical_bytes(*bytes).into();
    match s {
        Some(scalar) => Some(scalar.to_bytes()),
        None => None,
    }
}

} // verus!
