//! The XEdDSA signature scheme: signing with an X25519 private key through
//! the Edwards form of the curve, and verifying such signatures.

use crate::buffers::{concat, equal_32, take_32, to_vec};
use crate::clamp::is_clamped;
use crate::curve::{
    decode_canonical_point, ed25519_basepoint, ed25519_basepoint_bytes, edwards_add, edwards_mul,
    is_edwards_point, spec_edwards_add, spec_edwards_mul,
};
use crate::dh::{
    digest_scalar_spec, ed25519_public_key_spec, expanded_scalar_spec, scalar_from_digest,
};
use crate::encoding::{
    le_encode, le_value, lemma_le_encode_len, lemma_le_encode_of_value, lemma_le_value_of_encode,
    lemma_pow256_32,
};
use crate::error::CryptoError;
use crate::hash::{sha512_bytes, spec_sha512};
use crate::scalar::{
    biguint_to_scalar_bytes, group_order, is_canonical_scalar, reduce_hash_mod_l, scalar_add,
    scalar_from_canonical_bytes, scalar_mul,
};
use vstd::arithmetic::div_mod::lemma_add_mod_noop_right;
use vstd::prelude::*;

verus! {

/// The parts of a signature after decoding.
#[derive(Debug, Clone, Copy)]
pub struct DecodedXedSignature {
    /// The nonce point R, as its canonical encoding. A signature is only
    /// decoded where this is what was received.
    pub r: [u8; 32],
    /// The signature scalar s, as its canonical encoding.
    pub s: [u8; 32],
    /// The first half of the signature as it was received.
    pub r_bytes: [u8; 32],
}

impl DecodedXedSignature {
    /// What holds of every decoded signature: the received bytes are the
    /// canonical encoding of the point R, and s is below the group order.
    pub open spec fn wf(&self) -> bool {
        &&& is_edwards_point(self.r@)
        &&& self.r_bytes@ == self.r@
        &&& is_canonical_scalar(self.s@)
    }
}

/// A hash read as a little-endian number and reduced modulo the group order,
/// as a 32-byte scalar.
pub open spec fn hash_scalar_spec(data: Seq<u8>) -> Seq<u8> {
    le_encode(le_value(spec_sha512(data)) % group_order(), 32)
}

/// The XEdDSA key that a 64-byte digest holds: the signing scalar (the first
/// half, clamped), then the nonce prefix (the second half).
pub open spec fn digest_key_spec(digest: Seq<u8>) -> Seq<u8> {
    digest_scalar_spec(digest) + digest.subrange(32, 64)
}

/// The converted key of an X25519 private key: what its SHA-512 digest
/// holds.
pub open spec fn xeddsa_key_spec(private_key: Seq<u8>) -> Seq<u8> {
    digest_key_spec(spec_sha512(private_key))
}

/// What decoding comes to once the point and the scalar have been read
/// from their canonical encodings: the point is looked at first.
pub open spec fn decoded_from_parts_spec(
    r_bytes: [u8; 32],
    r_point: Option<[u8; 32]>,
    s_scalar: Option<[u8; 32]>,
) -> Result<DecodedXedSignature, CryptoError> {
    match (r_point, s_scalar) {
        (None, _) => Err(CryptoError::DecompressionFailure),
        (Some(_), None) => Err(CryptoError::NonCanonicalScalar),
        (Some(r), Some(s)) => Ok((DecodedXedSignature { r, s, r_bytes })),
    }
}

/// The nonce r of a message under a prefix.
pub open spec fn nonce_spec(prefix: Seq<u8>, message: Seq<u8>) -> Seq<u8> {
    hash_scalar_spec(prefix + message)
}

/// The point of a scalar: the scalar times the Ed25519 base point.
pub open spec fn base_mul_spec(scalar: Seq<u8>) -> Seq<u8> {
    spec_edwards_mul(scalar, ed25519_basepoint_bytes())
}

/// The challenge k of a nonce point, a public key and a message.
pub open spec fn challenge_spec(nonce_point: Seq<u8>, public_key: Seq<u8>, message: Seq<u8>) -> Seq<
    u8,
> {
    hash_scalar_spec(nonce_point + public_key + message)
}

/// The signature scalar s = (r + k * a) mod L.
pub open spec fn signature_scalar_spec(nonce: Seq<u8>, challenge: Seq<u8>, scalar: Seq<u8>) -> Seq<
    u8,
> {
    le_encode((le_value(nonce) + le_value(challenge) * le_value(scalar)) % group_order(), 32)
}

/// The signature of a message under a signing scalar and a nonce prefix:
/// R = r * B, then s = r + k * a, where r is the nonce, A = a * B the public
/// key and k the challenge.
pub open spec fn sign_spec(scalar: Seq<u8>, prefix: Seq<u8>, message: Seq<u8>) -> Seq<u8> {
    let nonce = nonce_spec(prefix, message);
    let nonce_point = base_mul_spec(nonce);
    let challenge = challenge_spec(nonce_point, base_mul_spec(scalar), message);
    nonce_point + signature_scalar_spec(nonce, challenge, scalar)
}

/// The equation that a signature has to meet: s * B == R + k * A.
pub open spec fn verification_equation(
    r_point: Seq<u8>,
    s: Seq<u8>,
    challenge: Seq<u8>,
    a_point: Seq<u8>,
) -> bool {
    base_mul_spec(s) == spec_edwards_add(r_point, spec_edwards_mul(challenge, a_point))
}

/// The first reason for which a signature cannot be decoded, if there is
/// one. The point part has to be the canonical encoding of a curve point
/// and the scalar part the canonical encoding of a scalar.
pub open spec fn decode_error_spec(signature: Seq<u8>) -> Option<CryptoError> {
    if signature.len() != 64 {
        Some(CryptoError::InvalidLength)
    } else if !is_edwards_point(signature.subrange(0, 32)) {
        Some(CryptoError::DecompressionFailure)
    } else if le_value(signature.subrange(32, 64)) >= group_order() {
        Some(CryptoError::NonCanonicalScalar)
    } else {
        None
    }
}

/// Whether a signature is valid for a message under a public key: the
/// signature decodes, the public key is the canonical encoding of a curve
/// point, and the verification equation holds.
pub open spec fn verify_spec(signature: Seq<u8>, message: Seq<u8>, public_key: Seq<u8>) -> bool {
    &&& public_key.len() == 32
    &&& decode_error_spec(signature) is None
    &&& is_edwards_point(public_key)
    &&& verification_equation(
        signature.subrange(0, 32),
        signature.subrange(32, 64),
        challenge_spec(signature.subrange(0, 32), public_key, message),
        public_key,
    )
}

/// Puts a decoded signature together from the received bytes of R, the
/// point that was read from them and the scalar that was read, each `None`
/// where reading it failed.
pub fn decoded_from_parts(
    r_bytes: [u8; 32],
    r_point: Option<[u8; 32]>,
    s_scalar: Option<[u8; 32]>,
) -> (r: Result<DecodedXedSignature, CryptoError>)
    ensures
        r == decoded_from_parts_spec(r_bytes, r_point, s_scalar),
{
    let r = match r_point {
        Some(point) => point,
        None => {
            return Err(CryptoError::DecompressionFailure);
        },
    };
    let s = match s_scalar {
        Some(scalar) => scalar,
        None => {
            return Err(CryptoError::NonCanonicalScalar);
        },
    };
    Ok(DecodedXedSignature { r, s, r_bytes })
}

/// Splits a 64-byte signature into R and s, reads R from the canonical
/// encoding of a curve point and s from the canonical encoding of a scalar.
/// The errors come in this order: the length, then the point, then the
/// scalar.
pub fn decode_xeddsa_signature(signature: &[u8]) -> (r: Result<DecodedXedSignature, CryptoError>)
    ensures
        match r {
            Ok(decoded) => {
                &&& decode_error_spec(signature@) is None
                &&& decoded.r_bytes@ == signature@.subrange(0, 32)
                &&& decoded.s@ == signature@.subrange(32, 64)
                &&& decoded.wf()
            },
            Err(e) => decode_error_spec(signature@) == Some(e),
        },
{
    if signature.len() != 64 {
        return Err(CryptoError::InvalidLength);
    }
    let s_bytes = take_32(signature, 32);
    let r_bytes = take_32(signature, 0);
    let r_point = decode_canonical_point(&r_bytes);
    let s_scalar = scalar_from_canonical_bytes(&s_bytes);
    decoded_from_parts(r_bytes, r_point, s_scalar)
}

/// Hashes with SHA-512 and reduces the digest modulo the group order.
fn hash_to_scalar(data: &[u8]) -> (scalar: [u8; 32])
    ensures
        scalar@ == hash_scalar_spec(data@),
        le_value(scalar@) == le_value(spec_sha512(data@)) % group_order(),
{
    let hash = sha512_bytes(data);
    let reduced = reduce_hash_mod_l(hash.as_slice());
    biguint_to_scalar_bytes(reduced.as_slice())
}

/// Takes the XEdDSA key out of a 64-byte digest: the first half, clamped,
/// then the second half.
pub fn xeddsa_key_from_digest(digest: &[u8; 64]) -> (key: Vec<u8>)
    ensures
        key@ == digest_key_spec(digest@),
        key@.len() == 64,
        key@.subrange(0, 32) == digest_scalar_spec(digest@),
        key@.subrange(32, 64) == digest@.subrange(32, 64),
        is_clamped(key@.subrange(0, 32)),
{
    let a = scalar_from_digest(digest);
    let prefix = take_32(digest.as_slice(), 32);
    let key = concat(a.as_slice(), prefix.as_slice());
    assert(key@.subrange(0, 32) =~= a@);
    assert(key@.subrange(32, 64) =~= prefix@);
    key
}

/// Converts an X25519 private key of 32 bytes to an XEdDSA key of 64 bytes:
/// the signing scalar, then the nonce prefix.
pub fn convert_x25519_to_xeddsa(private_key_bytes: &[u8]) -> (r: Result<Vec<u8>, CryptoError>)
    ensures
        match r {
            Ok(key) => {
                &&& private_key_bytes@.len() == 32
                &&& key@ == xeddsa_key_spec(private_key_bytes@)
                &&& key@.len() == 64
                &&& key@.subrange(0, 32) == expanded_scalar_spec(private_key_bytes@)
                &&& key@.subrange(32, 64) == spec_sha512(private_key_bytes@).subrange(32, 64)
                &&& is_clamped(key@.subrange(0, 32))
            },
            Err(e) => private_key_bytes@.len() != 32 && e == CryptoError::InvalidLength,
        },
{
    if private_key_bytes.len() != 32 {
        return Err(CryptoError::InvalidLength);
    }
    let h = sha512_bytes(private_key_bytes);
    Ok(xeddsa_key_from_digest(&h))
}

/// Computes the nonce r = SHA-512(prefix || message) mod L, as 32 bytes.
pub fn compute_determenistic_nonce(prefix: &[u8], message: &[u8]) -> (nonce: Vec<u8>)
    ensures
        nonce@ == nonce_spec(prefix@, message@),
        is_canonical_scalar(nonce@),
{
    let input = concat(prefix, message);
    let nonce = hash_to_scalar(input.as_slice());
    to_vec(nonce.as_slice())
}

/// Computes the nonce point R = r * B, compressed.
pub fn compute_nonce_point(nonce_bytes: &[u8]) -> (r: Result<Vec<u8>, CryptoError>)
    ensures
        match r {
            Ok(point) => {
                &&& nonce_bytes@.len() == 32
                &&& point@ == base_mul_spec(nonce_bytes@)
                &&& is_edwards_point(point@)
            },
            Err(e) => nonce_bytes@.len() != 32 && e == CryptoError::InvalidLength,
        },
{
    if nonce_bytes.len() != 32 {
        return Err(CryptoError::InvalidLength);
    }
    let fixed_bytes = take_32(nonce_bytes, 0);
    assert(fixed_bytes@ =~= nonce_bytes@);
    let basepoint = ed25519_basepoint();
    let point = edwards_mul(&fixed_bytes, &basepoint);
    Ok(to_vec(point.as_slice()))
}

/// Computes the Edwards public key that belongs to an X25519 private key of
/// 32 bytes: the signing scalar times the base point, compressed.
pub fn derive_ed25519_keypair_from_x25519(private_key_bytes: &[u8]) -> (r: Result<
    Vec<u8>,
    CryptoError,
>)
    ensures
        match r {
            Ok(key) => {
                &&& private_key_bytes@.len() == 32
                &&& key@ == ed25519_public_key_spec(private_key_bytes@)
                &&& is_edwards_point(key@)
            },
            Err(e) => private_key_bytes@.len() != 32 && e == CryptoError::InvalidLength,
        },
{
    if private_key_bytes.len() != 32 {
        return Err(CryptoError::InvalidLength);
    }
    let h = sha512_bytes(private_key_bytes);
    let a = scalar_from_digest(&h);
    let basepoint = ed25519_basepoint();
    let point = edwards_mul(&a, &basepoint);
    Ok(to_vec(point.as_slice()))
}

/// Computes the challenge k = SHA-512(R || A || message) mod L, as 32 bytes.
pub fn compute_challenge_hash(nonce_point: &[u8], public_ed_key: &[u8], message: &[u8]) -> (r:
    Result<Vec<u8>, CryptoError>)
    ensures
        match r {
            Ok(challenge) => {
                &&& nonce_point@.len() == 32
                &&& public_ed_key@.len() == 32
                &&& challenge@ == challenge_spec(nonce_point@, public_ed_key@, message@)
                &&& is_canonical_scalar(challenge@)
            },
            Err(e) => (nonce_point@.len() != 32 || public_ed_key@.len() != 32) && e
                == CryptoError::InvalidLength,
        },
{
    if nonce_point.len() != 32 || public_ed_key.len() != 32 {
        return Err(CryptoError::InvalidLength);
    }
    let keyed = concat(nonce_point, public_ed_key);
    let input = concat(keyed.as_slice(), message);
    let challenge = hash_to_scalar(input.as_slice());
    Ok(to_vec(challenge.as_slice()))
}

/// Computes the signature scalar s = (r + k * a) mod L, as 32 bytes.
pub fn compute_signature_scaler(nonce: &[u8], challenge_hash: &[u8], ed_private_scalar: &[u8]) -> (r:
    Result<Vec<u8>, CryptoError>)
    ensures
        match r {
            Ok(s) => {
                &&& nonce@.len() == 32
                &&& challenge_hash@.len() == 32
                &&& ed_private_scalar@.len() == 32
                &&& s@ == signature_scalar_spec(nonce@, challenge_hash@, ed_private_scalar@)
                &&& is_canonical_scalar(s@)
            },
            Err(e) => (nonce@.len() != 32 || challenge_hash@.len() != 32 || ed_private_scalar@.len()
                != 32) && e == CryptoError::InvalidLength,
        },
{
    if nonce.len() != 32 || challenge_hash.len() != 32 || ed_private_scalar.len() != 32 {
        return Err(CryptoError::InvalidLength);
    }
    let r_scalar = take_32(nonce, 0);
    let k_scalar = take_32(challenge_hash, 0);
    let a_scalar = take_32(ed_private_scalar, 0);
    let product = scalar_mul(&k_scalar, &a_scalar);
    let s_scalar = scalar_add(&r_scalar, &product);
    proof {
        assert(r_scalar@ =~= nonce@);
        assert(k_scalar@ =~= challenge_hash@);
        assert(a_scalar@ =~= ed_private_scalar@);
        lemma_add_mod_noop_right(
            le_value(nonce@) as int,
            (le_value(challenge_hash@) * le_value(ed_private_scalar@)) as int,
            group_order() as int,
        );
        lemma_le_encode_of_value(s_scalar@);
    }
    Ok(to_vec(s_scalar.as_slice()))
}

/// Joins the nonce point and the signature scalar to the signature R || s.
pub fn compute_signature(nonce_point: &[u8], signature_scalar: &[u8]) -> (r: Result<
    Vec<u8>,
    CryptoError,
>)
    ensures
        match r {
            Ok(signature) => {
                &&& nonce_point@.len() == 32
                &&& signature_scalar@.len() == 32
                &&& signature@ == nonce_point@ + signature_scalar@
            },
            Err(e) => (nonce_point@.len() != 32 || signature_scalar@.len() != 32) && e
                == CryptoError::InvalidLength,
        },
{
    if nonce_point.len() != 32 || signature_scalar.len() != 32 {
        return Err(CryptoError::InvalidLength);
    }
    Ok(concat(nonce_point, signature_scalar))
}

/// Verifies a signature of 64 bytes on a message under an Edwards public key
/// of 32 bytes. Every malformed input gives `false`.
pub fn verify_signature(signature: &[u8], message: &[u8], public_ed_key: &[u8]) -> (valid: bool)
    ensures
        valid == verify_spec(signature@, message@, public_ed_key@),
{
    if signature.len() != 64 || public_ed_key.len() != 32 {
        return false;
    }
    let decoded_signature = match decode_xeddsa_signature(signature) {
        Ok(sig) => sig,
        Err(_) => {
            return false;
        },
    };
    let pubkey_bytes = take_32(public_ed_key, 0);
    assert(pubkey_bytes@ =~= public_ed_key@);
    let a_point = match decode_canonical_point(&pubkey_bytes) {
        Some(point) => point,
        None => {
            return false;
        },
    };
    let keyed = concat(decoded_signature.r_bytes.as_slice(), public_ed_key);
    let input = concat(keyed.as_slice(), message);
    let k = hash_to_scalar(input.as_slice());
    let basepoint = ed25519_basepoint();
    let sb = edwards_mul(&decoded_signature.s, &basepoint);
    let ka = edwards_mul(&k, &a_point);
    let expected = edwards_add(&decoded_signature.r, &ka);
    equal_32(&sb, &expected)
}

/// Signs a message with an XEdDSA key of 64 bytes (the signing scalar, then
/// the nonce prefix). The signature is a function of the key and the message
/// alone: no randomness enters.
pub fn xeddsa_sign(xeddsa_key: &[u8], message: &[u8]) -> (r: Result<Vec<u8>, CryptoError>)
    ensures
        match r {
            Ok(signature) => {
                &&& xeddsa_key@.len() == 64
                &&& signature@ == sign_spec(
                    xeddsa_key@.subrange(0, 32),
                    xeddsa_key@.subrange(32, 64),
                    message@,
                )
                &&& signature@.len() == 64
                &&& signature@.subrange(0, 32) == base_mul_spec(
                    nonce_spec(xeddsa_key@.subrange(32, 64), message@),
                )
                &&& is_edwards_point(signature@.subrange(0, 32))
                &&& is_canonical_scalar(signature@.subrange(32, 64))
                &&& is_edwards_point(base_mul_spec(xeddsa_key@.subrange(0, 32)))
            },
            Err(e) => xeddsa_key@.len() != 64 && e == CryptoError::InvalidLength,
        },
{
    if xeddsa_key.len() != 64 {
        return Err(CryptoError::InvalidLength);
    }
    let a = take_32(xeddsa_key, 0);
    let prefix = take_32(xeddsa_key, 32);
    let r = compute_determenistic_nonce(prefix.as_slice(), message);
    let nonce_point = match compute_nonce_point(r.as_slice()) {
        Ok(point) => point,
        Err(e) => {
            return Err(e);
        },
    };
    let public_key = match compute_nonce_point(a.as_slice()) {
        Ok(point) => point,
        Err(e) => {
            return Err(e);
        },
    };
    let k = match compute_challenge_hash(nonce_point.as_slice(), public_key.as_slice(), message) {
        Ok(challenge) => challenge,
        Err(e) => {
            return Err(e);
        },
    };
    let s = match compute_signature_scaler(r.as_slice(), k.as_slice(), a.as_slice()) {
        Ok(scalar) => scalar,
        Err(e) => {
            return Err(e);
        },
    };
    let signature = compute_signature(nonce_point.as_slice(), s.as_slice())?;
    proof {
        assert(signature@.subrange(0, 32) =~= nonce_point@);
        assert(signature@.subrange(32, 64) =~= s@);
    }
    Ok(signature)
}

/// The signature that `test_sign_and_verify` makes and checks: the message
/// signed with the converted key of the seed.
pub open spec fn seed_signature_spec(seed: Seq<u8>, message: Seq<u8>) -> Seq<u8> {
    sign_spec(
        xeddsa_key_spec(seed).subrange(0, 32),
        xeddsa_key_spec(seed).subrange(32, 64),
        message,
    )
}

/// The equation that signing and then verifying comes down to:
/// (r + k * a) * B == r * B + k * (a * B), with r, k and a as `sign_spec`
/// has them.
pub open spec fn round_trip_equation(scalar: Seq<u8>, prefix: Seq<u8>, message: Seq<u8>) -> bool {
    let nonce = nonce_spec(prefix, message);
    let nonce_point = base_mul_spec(nonce);
    let public_key = base_mul_spec(scalar);
    let challenge = challenge_spec(nonce_point, public_key, message);
    verification_equation(
        nonce_point,
        signature_scalar_spec(nonce, challenge, scalar),
        challenge,
        public_key,
    )
}

/// A signature made with a signing scalar passes every check of the
/// verification under that scalar's public key, up to the curve equation:
/// it is valid exactly if the round-trip equation holds. That the equation
/// holds is a fact of the curve arithmetic and is not proved here.
pub proof fn lemma_signed_verifies_iff_equation(scalar: Seq<u8>, prefix: Seq<u8>, message: Seq<u8>)
    requires
        is_edwards_point(base_mul_spec(nonce_spec(prefix, message))),
        is_edwards_point(base_mul_spec(scalar)),
    ensures
        verify_spec(sign_spec(scalar, prefix, message), message, base_mul_spec(scalar))
            == round_trip_equation(scalar, prefix, message),
{
    let nonce = nonce_spec(prefix, message);
    let nonce_point = base_mul_spec(nonce);
    let public_key = base_mul_spec(scalar);
    let challenge = challenge_spec(nonce_point, public_key, message);
    let s = signature_scalar_spec(nonce, challenge, scalar);
    let signature = sign_spec(scalar, prefix, message);
    let value = (le_value(nonce) + le_value(challenge) * le_value(scalar)) % group_order();
    lemma_le_encode_len(value, 32);
    lemma_pow256_32();
    lemma_le_value_of_encode(value, 32);
    assert(signature.subrange(0, 32) =~= nonce_point);
    assert(signature.subrange(32, 64) =~= s);
}

/// A signature whose scalar part is not below the group order is not valid,
/// whatever its point part, the message and the public key are.
pub proof fn lemma_non_canonical_scalar_rejected(
    signature: Seq<u8>,
    message: Seq<u8>,
    public_key: Seq<u8>,
)
    requires
        signature.len() == 64,
        le_value(signature.subrange(32, 64)) >= group_order(),
    ensures
        !verify_spec(signature, message, public_key),
        decode_error_spec(signature) is Some,
{
}

/// A signature or a public key of the wrong length is not valid.
pub proof fn lemma_malformed_length_rejected(
    signature: Seq<u8>,
    message: Seq<u8>,
    public_key: Seq<u8>,
)
    requires
        signature.len() != 64 || public_key.len() != 32,
    ensures
        !verify_spec(signature, message, public_key),
{
}

/// Signs a message with the key converted from a 32-byte seed and verifies
/// the signature under the seed's Edwards public key. The outcome is that
/// of the round-trip equation.
pub fn test_sign_and_verify(prekey: &[u8], identity_seed: &[u8]) -> (r: Result<bool, CryptoError>)
    ensures
        match r {
            Ok(valid) => {
                &&& identity_seed@.len() == 32
                &&& valid == verify_spec(
                    seed_signature_spec(identity_seed@, prekey@),
                    prekey@,
                    ed25519_public_key_spec(identity_seed@),
                )
                &&& valid == round_trip_equation(
                    xeddsa_key_spec(identity_seed@).subrange(0, 32),
                    xeddsa_key_spec(identity_seed@).subrange(32, 64),
                    prekey@,
                )
            },
            Err(e) => identity_seed@.len() != 32 && e == CryptoError::InvalidLength,
        },
{
    let xeddsa = convert_x25519_to_xeddsa(identity_seed)?;
    let signature = match xeddsa_sign(xeddsa.as_slice(), prekey) {
        Ok(signature) => signature,
        Err(e) => {
            return Err(e);
        },
    };
    let public_key = derive_ed25519_keypair_from_x25519(identity_seed)?;
    proof {
        let scalar = xeddsa@.subrange(0, 32);
        let prefix = xeddsa@.subrange(32, 64);
        assert(scalar =~= expanded_scalar_spec(identity_seed@));
        lemma_signed_verifies_iff_equation(scalar, prefix, prekey@);
    }
    Ok(verify_signature(signature.as_slice(), prekey, public_key.as_slice()))
}

} // verus!
