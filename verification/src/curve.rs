//! Points of Curve25519, in Montgomery and in twisted Edwards form.
//!
//! The point arithmetic is done by `curve25519-dalek`. A Montgomery point is
//! held as the 32 bytes of its u-coordinate. An Edwards point is held as its
//! canonical compressed encoding: the y-coordinate below the field prime and
//! the sign of x. The results of the outside arithmetic are named by the
//! spec functions below; nothing is proved of the group law itself.

use crate::buffers::equal_32;
use crate::clamp::is_clamped;
use vstd::prelude::*;

verus! {

/// The u-coordinate of `n * P`, where `P` has u-coordinate `point` and `n`
/// is the integer that the clamped 32 little-endian bytes `scalar` encode.
/// The integer is taken as it is: it is not reduced by any modulus.
pub uninterp spec fn spec_montgomery_mul(scalar: Seq<u8>, point: Seq<u8>) -> Seq<u8>;

/// The canonical encoding of the Edwards point that 32 bytes decode to, or
/// `None` where they decode to no point of the curve.
pub uninterp spec fn spec_edwards_decompress(bytes: Seq<u8>) -> Option<Seq<u8>>;

/// The canonical encoding of `scalar * P`, where `P` has canonical encoding
/// `point` and `scalar` is 32 little-endian bytes, reduced modulo the group
/// order before the multiplication.
pub uninterp spec fn spec_edwards_mul(scalar: Seq<u8>, point: Seq<u8>) -> Seq<u8>;

/// The canonical encoding of `P + Q`, from the canonical encodings of `P`
/// and `Q`.
pub uninterp spec fn spec_edwards_add(p: Seq<u8>, q: Seq<u8>) -> Seq<u8>;

/// Whether 32 bytes are the canonical encoding of an Edwards point: they
/// decode, and to themselves.
pub open spec fn is_edwards_point(encoding: Seq<u8>) -> bool {
    encoding.len() == 32 && spec_edwards_decompress(encoding) == Some(encoding)
}

/// The u-coordinate of the X25519 base point: the number 9.
pub open spec fn x25519_basepoint_bytes() -> Seq<u8> {
    seq![9u8].add(Seq::new(31, |i: int| 0u8))
}

/// The canonical encoding of the Ed25519 base point: y = 4/5, x positive.
pub open spec fn ed25519_basepoint_bytes() -> Seq<u8> {
    seq![0x58u8].add(Seq::new(31, |i: int| 0x66u8))
}

/// The X25519 base point.
///
/// Trusted: the body returns the bytes of the constant
/// `curve25519_dalek::constants::X25519_BASEPOINT`, which are 9 and 31 zeros.
#[verifier::external_body]
pub(crate) fn x25519_basepoint() -> (u: [u8; 32])
    ensures
        u@ == x25519_basepoint_bytes(),
{
    curve25519_dalek::constants::X25519_BASEPOINT.to_bytes()
}

/// The Ed25519 base point.
///
/// Trusted: the body compresses the constant
/// `curve25519_dalek::constants::ED25519_BASEPOINT_POINT`. The contract gives
/// the bytes, which the crate also holds as `ED25519_BASEPOINT_COMPRESSED`,
/// and says that they are a canonical encoding.
#[verifier::external_body]
pub(crate) fn ed25519_basepoint() -> (encoding: [u8; 32])
    ensures
        encoding@ == ed25519_basepoint_bytes(),
        is_edwards_point(encoding@),
{
    curve25519_dalek::constants::ED25519_BASEPOINT_POINT.compress().to_bytes()
}

/// Multiplies a Montgomery point by a clamped scalar.
///
/// Trusted: the body wraps the 32 bytes as a `MontgomeryPoint` (any 32
/// bytes are taken) and calls `MontgomeryPoint::mul_clamped`, which clamps
/// the scalar bytes, leaving clamped bytes as they are, and multiplies by
/// that integer without reducing it. The contract only names the product.
#[verifier::external_body]
pub(crate) fn montgomery_mul(scalar: &[u8; 32], point: &[u8; 32]) -> (product: [u8; 32])
    requires
        is_clamped(scalar@),
    ensures
        product@ == spec_montgomery_mul(scalar@, point@),
{
    curve25519_dalek::montgomery::MontgomeryPoint(*point).mul_clamped(*scalar).to_bytes()
}

/// Decodes a compressed Edwards point and gives its canonical encoding.
///
/// Trusted: the body calls `CompressedEdwardsY::decompress`, which is `None`
/// where the bytes hold no y-coordinate of a curve point, and compresses the
/// point again. The contract names the outcome and says that what comes out
/// is a canonical encoding: `compress` writes the reduced y-coordinate and
/// the sign of x, from which `decompress` recovers the same point.
#[verifier::external_body]
pub(crate) fn edwards_decompress(bytes: &[u8; 32]) -> (point: Option<[u8; 32]>)
    ensures
        match point {
            Some(p) => spec_edwards_decompress(bytes@) == Some(p@) && is_edwards_point(p@),
            None => spec_edwards_decompress(bytes@) is None,
        },
{
    match curve25519_dalek::edwards::CompressedEdwardsY(*bytes).decompress() {
        Some(p) => Some(p.compress().to_bytes()),
        None => None,
    }
}

/// Whether the bytes that were received are what they decoded to.
pub open spec fn received_is_canonical(received: Seq<u8>, decoded: Option<[u8; 32]>) -> bool {
    match decoded {
        Some(d) => d@ == received,
        None => false,
    }
}

/// Keeps a decoded point only where the bytes that were received are its
/// canonical encoding: `decoded` is what the bytes decode to, or `None`.
pub fn canonical_point(received: &[u8; 32], decoded: Option<[u8; 32]>) -> (point: Option<[u8; 32]>)
    ensures
        match point {
            Some(p) => p@ == received@ && received_is_canonical(received@, decoded),
            None => !received_is_canonical(received@, decoded),
        },
{
    match decoded {
        Some(d) => {
            if equal_32(&d, received) {
                Some(d)
            } else {
                None
            }
        },
        None => None,
    }
}

/// Reads an Edwards point from its canonical encoding and refuses any other
/// bytes: those that decode to no point, and those that decode to a point
/// whose encoding is another.
pub fn decode_canonical_point(bytes: &[u8; 32]) -> (point: Option<[u8; 32]>)
    ensures
        match point {
            Some(p) => p@ == bytes@ && is_edwards_point(bytes@),
            None => !is_edwards_point(bytes@),
        },
{
    let decoded = edwards_decompress(bytes);
    canonical_point(bytes, decoded)
}

/// Multiplies an Edwards point by a scalar.
///
/// Trusted: the body reads the scalar with `Scalar::from_bytes_mod_order`,
/// decodes the point with `CompressedEdwardsY::decompress` (which succeeds
/// on a canonical encoding; `requires` leaves the rest out), multiplies with
/// `*` and compresses the product. The contract names the product and says
/// that it is a canonical encoding.
#[verifier::external_body]
pub(crate) fn edwards_mul(scalar: &[u8; 32], point: &[u8; 32]) -> (product: [u8; 32])
    requires
        is_edwards_point(point@),
    ensures
        product@ == spec_edwards_mul(scalar@, point@),
        is_edwards_point(product@),
{
    let s = curve25519_dalek::scalar::Scalar::from_bytes_mod_order(*scalar);
    let p = curve25519_dalek::edwards::CompressedEdwardsY(*point).decompress().unwrap();
    (s * p).compress().to_bytes()
}

/// Adds two Edwards points.
///
/// Trusted: the body decodes both points with
/// `CompressedEdwardsY::decompress` (which succeeds on canonical encodings;
/// `requires` leaves the rest out), adds them with `+` and compresses the
/// sum. The contract names the sum and says that it is a canonical encoding.
#[verifier::external_body]
pub(crate) fn edwards_add(p: &[u8; 32], q: &[u8; 32]) -> (sum: [u8; 32])
    requires
        is_edwards_point(p@),
        is_edwards_point(q@),
    ensures
        sum@ == spec_edwards_add(p@, q@),
        is_edwards_point(sum@),
{
    let x = curve25519_dalek::edwards::CompressedEdwardsY(*p).decompress().unwrap();
    let y = curve25519_dalek::edwards::CompressedEdwardsY(*q).decompress().unwrap();
    (x + y).compress().to_bytes()
}

} // verus!
