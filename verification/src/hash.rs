//! SHA-512 and HKDF-SHA-256, computed by the `sha2` and `hkdf` crates.

use vstd::prelude::*;

verus! {

/// The SHA-512 digest of a byte string: 64 bytes.
pub uninterp spec fn spec_sha512(data: Seq<u8>) -> Seq<u8>;

/// The output of HKDF with SHA-256 (extract with `salt`, or with the default
/// salt where it is `None`, then expand with `info`) at `len` bytes.
pub uninterp spec fn spec_hkdf_sha256(
    salt: Option<Seq<u8>>,
    ikm: Seq<u8>,
    info: Seq<u8>,
    len: nat,
) -> Seq<u8>;

/// An optional salt as HKDF reads it.
pub open spec fn salt_view(salt: Option<&[u8]>) -> Option<Seq<u8>> {
    match salt {
        Some(s) => Some(s@),
        None => None,
    }
}

/// The most bytes that HKDF with SHA-256 expands to: 255 blocks of 32 bytes.
pub const HKDF_SHA256_MAX_OUTPUT: usize = 8160;

/// Computes the SHA-512 digest of `data`.
///
/// Trusted: the body calls `Digest::digest` of `sha2::Sha512` and turns the
/// digest into an array. The contract only names the digest; that it is 64
/// bytes long is in the return type.
#[verifier::external_body]
pub fn sha512_bytes(data: &[u8]) -> (digest: [u8; 64])
    ensures
        digest@ == spec_sha512(data@),
{
    <sha2::Sha512 as sha2::Digest>::digest(data).into()
}

/// HKDF with SHA-256 from the `hkdf` crate.
///
/// Trusted: the body calls `hkdf::Hkdf::<Sha256>::new(salt, ikm)` and then
/// `expand(info, ..)` on a buffer of `len` bytes. `expand` fails exactly when
/// the buffer is longer than 255 * 32 bytes, which `requires` leaves out, so
/// the result is always `Some`; its value is only named.
#[verifier::external_body]
pub(crate) fn hkdf_sha256(salt: Option<&[u8]>, ikm: &[u8], info: &[u8], len: usize) -> (okm: Option<Vec<u8>>)
    requires
        len <= HKDF_SHA256_MAX_OUTPUT,
    ensures
        okm is Some,
        okm matches Some(out) ==> out@.len() == len,
        okm matches Some(out) ==> out@ == spec_hkdf_sha256(salt_view(salt), ikm@, info@, len as nat),
{
    let hk = hkdf::Hkdf::<sha2::Sha256>::new(salt, ikm);
    let mut out = vec![0u8; len];
    match hk.expand(info, &mut out) {
        Ok(()) => Some(out),
        Err(_) => None,
    }
}

} // verus!
