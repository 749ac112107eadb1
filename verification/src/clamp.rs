//! Clamping of X25519 private scalars.

use vstd::prelude::*;

verus! {

/// The clamped form of a 32-byte scalar: the three low bits of the first byte
/// are cleared, the top bit of the last byte is cleared and the bit below it
/// is set. All other bits are kept.
pub open spec fn clamp_spec(key: Seq<u8>) -> Seq<u8>
    recommends
        key.len() == 32,
{
    key.update(0, key[0] & 248).update(31, (key[31] & 127) | 64)
}

/// Whether a byte string is a clamped scalar: 32 bytes, a multiple of eight,
/// below 2^255 and with bit 254 set.
pub open spec fn is_clamped(key: Seq<u8>) -> bool {
    &&& key.len() == 32
    &&& key[0] & 7 == 0
    &&& key[31] & 128 == 0
    &&& key[31] & 64 == 64
}

/// Clamping always yields a clamped scalar.
pub proof fn lemma_clamp_is_clamped(key: Seq<u8>)
    requires
        key.len() == 32,
    ensures
        is_clamped(clamp_spec(key)),
        clamp_spec(key).len() == 32,
{
    let first: u8 = key[0];
    let last: u8 = key[31];
    assert((first & 248) & 7 == 0) by (bit_vector);
    assert(((last & 127) | 64) & 128 == 0) by (bit_vector);
    assert(((last & 127) | 64) & 64 == 64) by (bit_vector);
}

/// Clamping leaves a clamped scalar as it is.
pub proof fn lemma_clamp_idempotent(key: Seq<u8>)
    requires
        is_clamped(key),
    ensures
        clamp_spec(key) == key,
{
    let first: u8 = key[0];
    let last: u8 = key[31];
    assert(first & 7 == 0 ==> first & 248 == first) by (bit_vector);
    assert(last & 128 == 0 && last & 64 == 64 ==> (last & 127) | 64 == last) by (bit_vector);
    assert(clamp_spec(key) =~= key);
}

/// Clamps a private scalar in place.
pub fn clamp(private_key: &mut [u8; 32])
    ensures
        final(private_key)@ == clamp_spec(old(private_key)@),
        is_clamped(final(private_key)@),
{
    private_key[0] = private_key[0] & 248;
    private_key[31] = private_key[31] & 127;
    private_key[31] = private_key[31] | 64;
    proof {
        lemma_clamp_is_clamped(old(private_key)@);
        assert(private_key@ =~= clamp_spec(old(private_key)@));
    }
}

} // verus!
