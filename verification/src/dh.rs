//! X25519 key pairs, Diffie-Hellman and the symmetric keys derived from it.

use crate::buffers::{take_32, to_vec};
use crate::clamp::{clamp, clamp_spec, is_clamped, lemma_clamp_idempotent};
use crate::curve::{
    ed25519_basepoint, ed25519_basepoint_bytes, edwards_mul, montgomery_mul, spec_edwards_mul,
    spec_montgomery_mul, x25519_basepoint, x25519_basepoint_bytes,
};
use crate::error::{result_view, CryptoError};
use crate::hash::{hkdf_sha256, sha512_bytes, spec_hkdf_sha256, spec_sha512, HKDF_SHA256_MAX_OUTPUT};
use vstd::prelude::*;

verus! {

/// An X25519 key pair derived from an Ed25519 seed.
#[derive(Debug, Clone, Copy)]
pub struct X25519KeyPair {
    /// The clamped private scalar.
    pub x25519_private_key: [u8; 32],
    /// The u-coordinate of the public point.
    pub x25519_public_key: [u8; 32],
}

/// The label under which a message-encryption key is derived from a shared
/// secret: the ASCII text `message-encryption`.
pub open spec fn message_encryption_label() -> Seq<u8> {
    seq![
        109u8, 101u8, 115u8, 115u8, 97u8, 103u8, 101u8, 45u8, 101u8, 110u8, 99u8, 114u8, 121u8,
        112u8, 116u8, 105u8, 111u8, 110u8,
    ]
}

/// What `derive_symmetric_key` returns.
pub open spec fn derive_symmetric_key_spec(shared_secret: Seq<u8>) -> Result<Seq<u8>, CryptoError> {
    if shared_secret.len() != 32 {
        Err(CryptoError::InvalidLength)
    } else {
        Ok(spec_hkdf_sha256(None, shared_secret, message_encryption_label(), 32))
    }
}

/// What `hkdf_derive` returns.
pub open spec fn hkdf_derive_spec(
    input_key_material: Seq<u8>,
    salt: Seq<u8>,
    info: Seq<u8>,
    output_len: nat,
) -> Result<Seq<u8>, CryptoError> {
    if output_len > HKDF_SHA256_MAX_OUTPUT {
        Err(CryptoError::DerivationLengthExceeded)
    } else {
        Ok(spec_hkdf_sha256(Some(salt), input_key_material, info, output_len))
    }
}

/// What the functions that make a private key from randomness return: the
/// first 32 bytes, clamped.
pub open spec fn generate_private_key_spec(random: Seq<u8>) -> Result<Seq<u8>, CryptoError> {
    if random.len() < 32 {
        Err(CryptoError::InsufficientRandomness)
    } else {
        Ok(clamp_spec(random.subrange(0, 32)))
    }
}

/// The X25519 public key of a private key: the base point times the clamped
/// scalar.
pub open spec fn x25519_public_key_spec(private_key: Seq<u8>) -> Seq<u8> {
    spec_montgomery_mul(clamp_spec(private_key), x25519_basepoint_bytes())
}

/// What the functions that make a public key from a private key return.
pub open spec fn generate_public_key_spec(private_key: Seq<u8>) -> Result<Seq<u8>, CryptoError> {
    if private_key.len() != 32 {
        Err(CryptoError::InvalidLength)
    } else {
        Ok(x25519_public_key_spec(private_key))
    }
}

/// What `diffie_hellman` returns: the clamped private scalar times the
/// peer's point.
pub open spec fn diffie_hellman_spec(private_key: Seq<u8>, public_key: Seq<u8>) -> Result<
    Seq<u8>,
    CryptoError,
> {
    if private_key.len() != 32 || public_key.len() != 32 {
        Err(CryptoError::InvalidLength)
    } else {
        Ok(spec_montgomery_mul(clamp_spec(private_key), public_key))
    }
}

/// The scalar that a 64-byte digest holds: its first half, clamped.
pub open spec fn digest_scalar_spec(digest: Seq<u8>) -> Seq<u8> {
    clamp_spec(digest.subrange(0, 32))
}

/// The scalar that an Ed25519 seed expands to: the first half of its
/// SHA-512 digest, clamped.
pub open spec fn expanded_scalar_spec(seed: Seq<u8>) -> Seq<u8> {
    digest_scalar_spec(spec_sha512(seed))
}

/// The Ed25519 public key of a seed: its expanded scalar times the base
/// point, compressed.
pub open spec fn ed25519_public_key_spec(seed: Seq<u8>) -> Seq<u8> {
    spec_edwards_mul(expanded_scalar_spec(seed), ed25519_basepoint_bytes())
}

/// Derives a 32-byte message-encryption key from a 32-byte shared secret,
/// with HKDF-SHA-256, no salt and the label `message-encryption`.
pub fn derive_symmetric_key(shared_secret: &[u8]) -> (r: Result<Vec<u8>, CryptoError>)
    ensures
        result_view(r) == derive_symmetric_key_spec(shared_secret@),
        r matches Ok(key) ==> key@.len() == 32,
{
    if shared_secret.len() != 32 {
        return Err(CryptoError::InvalidLength);
    }
    let label: [u8; 18] = [
        109, 101, 115, 115, 97, 103, 101, 45, 101, 110, 99, 114, 121, 112, 116, 105, 111, 110,
    ];
    assert(label@ =~= message_encryption_label());
    match hkdf_sha256(None, shared_secret, label.as_slice(), 32) {
        Some(key) => Ok(key),
        None => Err(CryptoError::DerivationLengthExceeded),
    }
}

/// Derives `output_len` bytes from input key material with HKDF-SHA-256.
/// More than 255 * 32 bytes are refused.
pub fn hkdf_derive(input_key_material: &[u8], salt: &[u8], info: &[u8], output_len: usize) -> (r:
    Result<Vec<u8>, CryptoError>)
    ensures
        result_view(r) == hkdf_derive_spec(input_key_material@, salt@, info@, output_len as nat),
        r matches Ok(key) ==> key@.len() == output_len,
{
    if output_len > HKDF_SHA256_MAX_OUTPUT {
        return Err(CryptoError::DerivationLengthExceeded);
    }
    match hkdf_sha256(Some(salt), input_key_material, info, output_len) {
        Some(key) => Ok(key),
        None => Err(CryptoError::DerivationLengthExceeded),
    }
}

/// Two derivations from the same arguments agree, and a length beyond
/// 255 * 32 is refused whatever the other arguments are.
pub proof fn lemma_hkdf_derive_deterministic(
    first: Result<Seq<u8>, CryptoError>,
    second: Result<Seq<u8>, CryptoError>,
    input_key_material: Seq<u8>,
    salt: Seq<u8>,
    info: Seq<u8>,
    output_len: nat,
)
    requires
        first == hkdf_derive_spec(input_key_material, salt, info, output_len),
        second == hkdf_derive_spec(input_key_material, salt, info, output_len),
    ensures
        first == second,
        output_len > 255 * 32 <==> first == Err::<Seq<u8>, CryptoError>(
            CryptoError::DerivationLengthExceeded,
        ),
{
}

/// Computes the X25519 shared secret of a private key and a peer's public
/// key: the product of the peer's point by the clamped private scalar
/// itself. The result is not inspected: the all-zero secret that a peer
/// point of low order yields is returned like any other.
pub fn diffie_hellman(my_private_key_bytes: &[u8], their_public_key_bytes: &[u8]) -> (r: Result<
    Vec<u8>,
    CryptoError,
>)
    ensures
        result_view(r) == diffie_hellman_spec(my_private_key_bytes@, their_public_key_bytes@),
        r matches Ok(secret) ==> secret@.len() == 32,
{
    if my_private_key_bytes.len() != 32 || their_public_key_bytes.len() != 32 {
        return Err(CryptoError::InvalidLength);
    }
    let mut private_key = take_32(my_private_key_bytes, 0);
    clamp(&mut private_key);
    let their_public_point = take_32(their_public_key_bytes, 0);
    let shared_point = montgomery_mul(&private_key, &their_public_point);
    proof {
        assert(my_private_key_bytes@.subrange(0, 32) =~= my_private_key_bytes@);
        assert(their_public_key_bytes@.subrange(0, 32) =~= their_public_key_bytes@);
    }
    Ok(to_vec(shared_point.as_slice()))
}

/// Computes the X25519 public key of a private key, which is clamped first.
pub fn generate_public_key(private_key_bytes: &[u8]) -> (r: Result<Vec<u8>, CryptoError>)
    ensures
        result_view(r) == generate_public_key_spec(private_key_bytes@),
        r matches Ok(key) ==> key@.len() == 32,
{
    if private_key_bytes.len() != 32 {
        return Err(CryptoError::InvalidLength);
    }
    let mut private_key = take_32(private_key_bytes, 0);
    clamp(&mut private_key);
    let basepoint = x25519_basepoint();
    let public_point = montgomery_mul(&private_key, &basepoint);
    proof {
        assert(private_key_bytes@.subrange(0, 32) =~= private_key_bytes@);
    }
    Ok(to_vec(public_point.as_slice()))
}

/// Computes the public prekey of a private prekey, as `generate_public_key`
/// does for an identity key.
pub fn generate_public_prekey(private_prekey_bytes: &[u8]) -> (r: Result<Vec<u8>, CryptoError>)
    ensures
        result_view(r) == generate_public_key_spec(private_prekey_bytes@),
        r matches Ok(key) ==> key@.len() == 32,
{
    generate_public_key(private_prekey_bytes)
}

/// Computes the public ephemeral key of a private ephemeral key, as
/// `generate_public_key` does for an identity key.
pub fn generate_public_ephemeral_key(private_prekey_bytes: &[u8]) -> (r: Result<
    Vec<u8>,
    CryptoError,
>)
    ensures
        result_view(r) == generate_public_key_spec(private_prekey_bytes@),
        r matches Ok(key) ==> key@.len() == 32,
{
    generate_public_key(private_prekey_bytes)
}

/// Makes an X25519 private key from at least 32 bytes of randomness: the
/// first 32 bytes, clamped.
pub fn generate_private_key(js_random_bytes: &[u8]) -> (r: Result<Vec<u8>, CryptoError>)
    ensures
        result_view(r) == generate_private_key_spec(js_random_bytes@),
        r matches Ok(key) ==> is_clamped(key@),
{
    if js_random_bytes.len() < 32 {
        return Err(CryptoError::InsufficientRandomness);
    }
    let mut private_key = take_32(js_random_bytes, 0);
    clamp(&mut private_key);
    Ok(to_vec(private_key.as_slice()))
}

/// Makes a private prekey from at least 32 bytes of randomness, as
/// `generate_private_key` does for an identity key.
pub fn generate_private_prekey(js_random_bytes: &[u8]) -> (r: Result<Vec<u8>, CryptoError>)
    ensures
        result_view(r) == generate_private_key_spec(js_random_bytes@),
        r matches Ok(key) ==> is_clamped(key@),
{
    generate_private_key(js_random_bytes)
}

/// Makes a private ephemeral key from at least 32 bytes of randomness, as
/// `generate_private_key` does for an identity key.
pub fn generate_private_ephemeral_key(js_random_bytes: &[u8]) -> (r: Result<Vec<u8>, CryptoError>)
    ensures
        result_view(r) == generate_private_key_spec(js_random_bytes@),
        r matches Ok(key) ==> is_clamped(key@),
{
    generate_private_key(js_random_bytes)
}

/// Takes the scalar out of a 64-byte digest: the first half, clamped.
pub fn scalar_from_digest(digest: &[u8; 64]) -> (scalar: [u8; 32])
    ensures
        scalar@ == digest_scalar_spec(digest@),
        is_clamped(scalar@),
{
    let mut scalar = take_32(digest.as_slice(), 0);
    clamp(&mut scalar);
    scalar
}

/// Makes an Ed25519 seed from at least 32 bytes of randomness: the first 32
/// bytes, as they are.
pub fn generate_ed25519_private_key(js_random_bytes: &[u8]) -> (r: Result<Vec<u8>, CryptoError>)
    ensures
        match r {
            Ok(seed) => js_random_bytes@.len() >= 32 && seed@ == js_random_bytes@.subrange(0, 32),
            Err(e) => js_random_bytes@.len() < 32 && e == CryptoError::InsufficientRandomness,
        },
{
    if js_random_bytes.len() < 32 {
        return Err(CryptoError::InsufficientRandomness);
    }
    let seed = take_32(js_random_bytes, 0);
    Ok(to_vec(seed.as_slice()))
}

/// Computes the Ed25519 public key of a 32-byte seed: the compressed point
/// of the seed's expanded scalar.
pub fn generate_ed25519_public_key(seed: &[u8]) -> (r: Result<Vec<u8>, CryptoError>)
    ensures
        match r {
            Ok(key) => seed@.len() == 32 && key@ == ed25519_public_key_spec(seed@) && key@.len()
                == 32,
            Err(e) => seed@.len() != 32 && e == CryptoError::InvalidLength,
        },
{
    if seed.len() != 32 {
        return Err(CryptoError::InvalidLength);
    }
    let hash = sha512_bytes(seed);
    let scalar_bytes = scalar_from_digest(&hash);
    let basepoint = ed25519_basepoint();
    let public_point = edwards_mul(&scalar_bytes, &basepoint);
    Ok(to_vec(public_point.as_slice()))
}

/// Derives an X25519 key pair from a 32-byte Ed25519 seed: the private key
/// is the seed's expanded scalar, the public key its product with the X25519
/// base point.
pub fn derive_x25519_from_ed25519_private(ed25519_seed: &[u8]) -> (r: Result<
    X25519KeyPair,
    CryptoError,
>)
    ensures
        match r {
            Ok(pair) => {
                &&& ed25519_seed@.len() == 32
                &&& pair.x25519_private_key@ == expanded_scalar_spec(ed25519_seed@)
                &&& pair.x25519_public_key@ == x25519_public_key_spec(pair.x25519_private_key@)
                &&& is_clamped(pair.x25519_private_key@)
            },
            Err(e) => ed25519_seed@.len() != 32 && e == CryptoError::InvalidLength,
        },
{
    if ed25519_seed.len() != 32 {
        return Err(CryptoError::InvalidLength);
    }
    let hash = sha512_bytes(ed25519_seed);
    let x25519_priv_bytes = scalar_from_digest(&hash);
    let basepoint = x25519_basepoint();
    let x25519_pub_bytes = montgomery_mul(&x25519_priv_bytes, &basepoint);
    proof {
        lemma_clamp_idempotent(x25519_priv_bytes@);
    }
    Ok(X25519KeyPair { x25519_private_key: x25519_priv_bytes, x25519_public_key: x25519_pub_bytes })
}

} // verus!
