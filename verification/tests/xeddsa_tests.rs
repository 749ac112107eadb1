use x3dh_crypto::error::CryptoError;
use x3dh_crypto::scalar::ed25519_l;
use x3dh_crypto::xeddsa::{
    compute_challenge_hash, compute_determenistic_nonce, compute_nonce_point, compute_signature,
    compute_signature_scaler, convert_x25519_to_xeddsa, decode_xeddsa_signature,
    derive_ed25519_keypair_from_x25519, test_sign_and_verify, verify_signature, xeddsa_sign,
};

fn unhex(s: &str) -> Vec<u8> {
    hex::decode(s).unwrap()
}

const SEED_1: &str = "9d61b19deffd5a60ba844af492ec2cc44449c5697b326919703bac031cae7f60";
const PUBLIC_1: &str = "d75a980182b10ab7d54bfed3c964073a0ee172f3daa62325af021a68f707511a";
const SIGNATURE_1: &str = "e5564300c360ac729086e2cc806e828a84877f1eb8e5d974d873e06522490155\
                           5fb8821590a33bacc61e39701cf9b46bd25bf5f0595bbe24655141438e7a100b";
const SEED_2: &str = "4ccd089b28ff96da9db6c346ec114e0f5b8a319f35aba624da8cf6ed4fb8a6fb";
const PUBLIC_2: &str = "3d4017c3e843895a92b70aa74d1b7ebc9c982ccf2ec4968cc0cd55f12af4660c";
const SIGNATURE_2: &str = "92a009a9f0d4cab8720e820b5f642540a2b27b5416503f8fb3762223ebdb69da\
                           085ac1e43e15996e458f3613d0f11d8c387b2eaeb4302aeeb00d291612bb0c00";
const SEED_3: &str = "c5aa8df43f9f837bedb7442f31dcb7b166d38535076f094b85ce3a2e0b4458f7";
const PUBLIC_3: &str = "fc51cd8e6218a1a38da47ed00230f0580816ed13ba3303ac5deb911548908025";
const SIGNATURE_3: &str = "6291d657deec24024827e69c3abe01a30ce548a284743a445e3680d7db5ac3ac\
                           18ff9b538d16f290ae67f760984dc6594a7c15e9716ed28dc027beceea1ec40a";

const ONES_SCALAR: &str = "58e86efb75fa4e2c410f46e16de9f6acae1a1703528651b69bc176c088bef36e";
const ONES_PREFIX: &str = "b17a2a2cf3d4a41a8e4e18cc45c8656d558eceddb0adb46bfa088a5f53bed252";
const ONES_PUBLIC: &str = "8a88e3dd7409f195fd52db2d3cba5d72ca6709bf1d94121bf3748801b40f6f5c";
const ONES_NONCE: &str = "fb9b44cde70216d384930cb4a181807a8e05ccc5e85326af0aafb02f14585e0f";
const ONES_NONCE_POINT: &str = "ef12237050764bc02516598f45bc4f8839bd0e85d23f36a202867bba58cc68d8";
const ONES_CHALLENGE: &str = "2c65db923bea135b4c8eee07ae24a6a9db257a766c74c49a6864f9dc1f036600";
const ONES_SCALAR_S: &str = "f3786a1fbc290c5247ed725923713dcb7210acf3b4959a098e18c22206512a07";

const BASEPOINT: &str = "5866666666666666666666666666666666666666666666666666666666666666";
const IDENTITY: &str = "0100000000000000000000000000000000000000000000000000000000000000";

fn scalar(n: u64) -> Vec<u8> {
    let mut bytes = vec![0u8; 32];
    bytes[..8].copy_from_slice(&n.to_le_bytes());
    bytes
}

fn sign_with_seed(seed: &[u8], message: &[u8]) -> Vec<u8> {
    let key = convert_x25519_to_xeddsa(seed).unwrap();
    xeddsa_sign(&key, message).unwrap()
}

#[test]
fn convert_seed_of_ones() {
    let key = convert_x25519_to_xeddsa(&[1u8; 32]).unwrap();
    assert_eq!(key.len(), 64);
    assert_eq!(key[..32].to_vec(), unhex(ONES_SCALAR));
    assert_eq!(key[32..].to_vec(), unhex(ONES_PREFIX));
    assert_eq!(key[0] & 7, 0);
    assert_eq!(key[31] & 0xc0, 0x40);
}

#[test]
fn convert_rejects_wrong_length() {
    assert_eq!(convert_x25519_to_xeddsa(&[1u8; 31]), Err(CryptoError::InvalidLength));
    assert_eq!(convert_x25519_to_xeddsa(&[1u8; 33]), Err(CryptoError::InvalidLength));
    assert_eq!(convert_x25519_to_xeddsa(&[]), Err(CryptoError::InvalidLength));
}

#[test]
fn nonce_known_answer() {
    let nonce = compute_determenistic_nonce(&unhex(ONES_PREFIX), b"test");
    assert_eq!(nonce, unhex(ONES_NONCE));
}

#[test]
fn nonce_is_deterministic_and_depends_on_the_message() {
    let prefix = unhex(ONES_PREFIX);
    let first = compute_determenistic_nonce(&prefix, b"message one");
    let second = compute_determenistic_nonce(&prefix, b"message one");
    let other = compute_determenistic_nonce(&prefix, b"message two");
    assert_eq!(first, second);
    assert_ne!(first, other);
    assert_eq!(first.len(), 32);
}

#[test]
fn nonce_is_below_the_group_order() {
    let l = num_bigint::BigUint::from_bytes_le(&ed25519_l());
    for i in 0..16u8 {
        let nonce = compute_determenistic_nonce(&[i; 32], &[i, i, i]);
        assert_eq!(nonce.len(), 32);
        assert!(num_bigint::BigUint::from_bytes_le(&nonce) < l);
    }
}

#[test]
fn nonce_point_of_small_scalars() {
    assert_eq!(compute_nonce_point(&scalar(1)).unwrap(), unhex(BASEPOINT));
    assert_eq!(
        compute_nonce_point(&scalar(2)).unwrap(),
        unhex("c9a3f86aae465f0e56513864510f3997561fa2c9e85ea21dc2292309f3cd6022")
    );
    assert_eq!(compute_nonce_point(&scalar(0)).unwrap(), unhex(IDENTITY));
}

#[test]
fn nonce_point_at_the_group_order() {
    assert_eq!(compute_nonce_point(&ed25519_l()).unwrap(), unhex(IDENTITY));
    let mut l_minus_one = ed25519_l();
    l_minus_one[0] -= 1;
    assert_eq!(
        compute_nonce_point(&l_minus_one).unwrap(),
        unhex("58666666666666666666666666666666666666666666666666666666666666e6")
    );
}

#[test]
fn nonce_point_known_answer() {
    assert_eq!(compute_nonce_point(&unhex(ONES_NONCE)).unwrap(), unhex(ONES_NONCE_POINT));
}

#[test]
fn nonce_point_rejects_wrong_length() {
    assert_eq!(compute_nonce_point(&[1u8; 31]), Err(CryptoError::InvalidLength));
    assert_eq!(compute_nonce_point(&[1u8; 33]), Err(CryptoError::InvalidLength));
    assert_eq!(compute_nonce_point(&[]), Err(CryptoError::InvalidLength));
}

#[test]
fn edwards_public_key_known_answers() {
    assert_eq!(derive_ed25519_keypair_from_x25519(&unhex(SEED_1)).unwrap(), unhex(PUBLIC_1));
    assert_eq!(derive_ed25519_keypair_from_x25519(&unhex(SEED_2)).unwrap(), unhex(PUBLIC_2));
    assert_eq!(derive_ed25519_keypair_from_x25519(&unhex(SEED_3)).unwrap(), unhex(PUBLIC_3));
    assert_eq!(derive_ed25519_keypair_from_x25519(&[1u8; 32]).unwrap(), unhex(ONES_PUBLIC));
}

#[test]
fn edwards_public_key_is_the_point_of_the_signing_scalar() {
    let key = convert_x25519_to_xeddsa(&unhex(SEED_1)).unwrap();
    assert_eq!(compute_nonce_point(&key[..32]).unwrap(), unhex(PUBLIC_1));
}

#[test]
fn edwards_public_key_rejects_wrong_length() {
    assert_eq!(derive_ed25519_keypair_from_x25519(&[1u8; 31]), Err(CryptoError::InvalidLength));
    assert_eq!(derive_ed25519_keypair_from_x25519(&[1u8; 64]), Err(CryptoError::InvalidLength));
}

#[test]
fn challenge_known_answer() {
    let k = compute_challenge_hash(&unhex(ONES_NONCE_POINT), &unhex(ONES_PUBLIC), b"test").unwrap();
    assert_eq!(k, unhex(ONES_CHALLENGE));
}

#[test]
fn challenge_rejects_wrong_lengths() {
    let good = [3u8; 32];
    assert_eq!(compute_challenge_hash(&good[..31], &good, b"m"), Err(CryptoError::InvalidLength));
    assert_eq!(compute_challenge_hash(&good, &[3u8; 33], b"m"), Err(CryptoError::InvalidLength));
    assert!(compute_challenge_hash(&good, &good, b"").is_ok());
}

#[test]
fn signature_scalar_known_answer() {
    let s = compute_signature_scaler(
        &unhex(ONES_NONCE),
        &unhex(ONES_CHALLENGE),
        &unhex(ONES_SCALAR),
    )
    .unwrap();
    assert_eq!(s, unhex(ONES_SCALAR_S));
}

#[test]
fn signature_is_point_then_scalar() {
    let r = [0x11u8; 32];
    let s = [0x22u8; 32];
    let signature = compute_signature(&r, &s).unwrap();
    assert_eq!(signature.len(), 64);
    assert_eq!(signature[..32], r);
    assert_eq!(signature[32..], s);
}

#[test]
fn signature_rejects_wrong_lengths() {
    let good = [0x11u8; 32];
    assert_eq!(compute_signature(&good[..31], &good), Err(CryptoError::InvalidLength));
    assert_eq!(compute_signature(&good, &[0u8; 33]), Err(CryptoError::InvalidLength));
    assert_eq!(compute_signature(&[], &[]), Err(CryptoError::InvalidLength));
}

#[test]
fn sign_known_answers() {
    assert_eq!(sign_with_seed(&unhex(SEED_1), b""), unhex(SIGNATURE_1));
    assert_eq!(sign_with_seed(&unhex(SEED_2), &[0x72]), unhex(SIGNATURE_2));
    assert_eq!(sign_with_seed(&unhex(SEED_3), &[0xaf, 0x82]), unhex(SIGNATURE_3));
}

#[test]
fn sign_rejects_wrong_key_length() {
    assert_eq!(xeddsa_sign(&[1u8; 63], b"m"), Err(CryptoError::InvalidLength));
    assert_eq!(xeddsa_sign(&[1u8; 32], b"m"), Err(CryptoError::InvalidLength));
    assert_eq!(xeddsa_sign(&[1u8; 65], b"m"), Err(CryptoError::InvalidLength));
}

#[test]
fn sign_step_by_step_agrees_with_sign() {
    let seed = [1u8; 32];
    let message = b"test";
    let key = convert_x25519_to_xeddsa(&seed).unwrap();
    let a = &key[..32];
    let prefix = &key[32..];
    let r = compute_determenistic_nonce(prefix, message);
    let big_r = compute_nonce_point(&r).unwrap();
    let big_a = derive_ed25519_keypair_from_x25519(&seed).unwrap();
    let k = compute_challenge_hash(&big_r, &big_a, message).unwrap();
    let s = compute_signature_scaler(&r, &k, a).unwrap();
    let signature = compute_signature(&big_r, &s).unwrap();
    assert_eq!(signature, xeddsa_sign(&key, message).unwrap());
    assert!(verify_signature(&signature, message, &big_a));
}

#[test]
fn seed_of_ones_signs_test_deterministically() {
    let seed = [1u8; 32];
    let key = convert_x25519_to_xeddsa(&seed).unwrap();
    let first = xeddsa_sign(&key, b"test").unwrap();
    let second = xeddsa_sign(&key, b"test").unwrap();
    assert_eq!(first.len(), 64);
    assert_eq!(first, second);
    assert_eq!(first[..32].to_vec(), unhex(ONES_NONCE_POINT));
    assert_eq!(first[32..].to_vec(), unhex(ONES_SCALAR_S));
    let public_key = derive_ed25519_keypair_from_x25519(&seed).unwrap();
    assert!(verify_signature(&first, b"test", &public_key));
    assert!(verify_signature(&second, b"test", &public_key));
}

#[test]
fn verify_known_answers() {
    assert!(verify_signature(&unhex(SIGNATURE_1), b"", &unhex(PUBLIC_1)));
    assert!(verify_signature(&unhex(SIGNATURE_2), &[0x72], &unhex(PUBLIC_2)));
    assert!(verify_signature(&unhex(SIGNATURE_3), &[0xaf, 0x82], &unhex(PUBLIC_3)));
}

#[test]
fn verify_round_trip_for_many_seeds_and_messages() {
    for i in 0..6u8 {
        let mut seed = [0u8; 32];
        for j in 0..32 {
            seed[j] = (j as u8).wrapping_mul(17).wrapping_add(i.wrapping_mul(101));
        }
        let message: Vec<u8> = (0..(i as usize * 9)).map(|b| b as u8 ^ i).collect();
        let signature = sign_with_seed(&seed, &message);
        let public_key = derive_ed25519_keypair_from_x25519(&seed).unwrap();
        assert!(verify_signature(&signature, &message, &public_key));
    }
}

#[test]
fn verify_rejects_wrong_key_and_wrong_message() {
    let signature = unhex(SIGNATURE_2);
    assert!(!verify_signature(&signature, &[0x72], &unhex(PUBLIC_1)));
    assert!(!verify_signature(&signature, &[0x73], &unhex(PUBLIC_2)));
    assert!(!verify_signature(&signature, &[], &unhex(PUBLIC_2)));
    assert!(!verify_signature(&signature, &[0x72, 0x00], &unhex(PUBLIC_2)));
}

#[test]
fn verify_rejects_every_bit_flip_in_the_message() {
    let seed = [1u8; 32];
    let message = b"test".to_vec();
    let signature = sign_with_seed(&seed, &message);
    let public_key = derive_ed25519_keypair_from_x25519(&seed).unwrap();
    assert!(verify_signature(&signature, &message, &public_key));
    for bit in 0..message.len() * 8 {
        let mut tampered = message.clone();
        tampered[bit / 8] ^= 1 << (bit % 8);
        assert!(!verify_signature(&signature, &tampered, &public_key));
    }
}

#[test]
fn verify_rejects_every_bit_flip_in_the_nonce_point() {
    let seed = [1u8; 32];
    let signature = sign_with_seed(&seed, b"test");
    let public_key = derive_ed25519_keypair_from_x25519(&seed).unwrap();
    for bit in 0..256 {
        let mut tampered = signature.clone();
        tampered[bit / 8] ^= 1 << (bit % 8);
        assert!(!verify_signature(&tampered, b"test", &public_key));
    }
}

#[test]
fn verify_rejects_every_bit_flip_in_the_scalar() {
    let seed = [1u8; 32];
    let signature = sign_with_seed(&seed, b"test");
    let public_key = derive_ed25519_keypair_from_x25519(&seed).unwrap();
    for bit in 256..512 {
        let mut tampered = signature.clone();
        tampered[bit / 8] ^= 1 << (bit % 8);
        assert!(!verify_signature(&tampered, b"test", &public_key));
    }
}

#[test]
fn verify_rejects_scalar_equal_to_the_group_order() {
    let seed = [1u8; 32];
    let mut signature = sign_with_seed(&seed, b"test");
    let public_key = derive_ed25519_keypair_from_x25519(&seed).unwrap();
    signature[32..].copy_from_slice(&ed25519_l());
    assert!(!verify_signature(&signature, b"test", &public_key));
    assert_eq!(
        decode_xeddsa_signature(&signature).err(),
        Some(CryptoError::NonCanonicalScalar)
    );
}

#[test]
fn verify_rejects_scalar_shifted_by_the_group_order() {
    let seed = [1u8; 32];
    let mut signature = sign_with_seed(&seed, b"test");
    let public_key = derive_ed25519_keypair_from_x25519(&seed).unwrap();
    assert!(verify_signature(&signature, b"test", &public_key));
    signature[32..].copy_from_slice(&unhex(
        "e04c607cd68c1eaa1d8a6afc016b1ce07210acf3b4959a098e18c22206512a17",
    ));
    assert!(!verify_signature(&signature, b"test", &public_key));
    signature[32..].copy_from_slice(&[0xffu8; 32]);
    assert!(!verify_signature(&signature, b"test", &public_key));
}

#[test]
fn verify_rejects_wrong_lengths() {
    let signature = unhex(SIGNATURE_1);
    let public_key = unhex(PUBLIC_1);
    assert!(!verify_signature(&signature[..63], b"", &public_key));
    assert!(!verify_signature(&[], b"", &public_key));
    let mut long = signature.clone();
    long.push(0);
    assert!(!verify_signature(&long, b"", &public_key));
    assert!(!verify_signature(&signature, b"", &public_key[..31]));
    assert!(!verify_signature(&signature, b"", &[]));
    let mut long_key = public_key.clone();
    long_key.push(0);
    assert!(!verify_signature(&signature, b"", &long_key));
}

#[test]
fn verify_rejects_public_key_off_the_curve() {
    let signature = unhex(SIGNATURE_1);
    let mut off_curve = [0u8; 32];
    off_curve[0] = 2;
    assert!(!verify_signature(&signature, b"", &off_curve));
}

#[test]
fn decode_splits_a_valid_signature() {
    let signature = unhex(SIGNATURE_1);
    let decoded = decode_xeddsa_signature(&signature).unwrap();
    assert_eq!(decoded.r_bytes.to_vec(), signature[..32].to_vec());
    assert_eq!(decoded.r.to_vec(), signature[..32].to_vec());
    assert_eq!(decoded.s.to_vec(), signature[32..].to_vec());
}

#[test]
fn decode_rejects_non_canonical_point() {
    let mut signature = vec![0u8; 64];
    signature[..32].copy_from_slice(&unhex(IDENTITY));
    let decoded = decode_xeddsa_signature(&signature).unwrap();
    assert_eq!(decoded.r.to_vec(), unhex(IDENTITY));
    assert_eq!(decoded.r_bytes, decoded.r);
    signature[..32].copy_from_slice(&unhex(
        "eeffffffffffffffffffffffffffffffffffffffffffffffffffffffffffff7f",
    ));
    assert_eq!(
        decode_xeddsa_signature(&signature).err(),
        Some(CryptoError::DecompressionFailure)
    );
    signature[..32].copy_from_slice(&unhex(
        "0100000000000000000000000000000000000000000000000000000000000080",
    ));
    assert_eq!(
        decode_xeddsa_signature(&signature).err(),
        Some(CryptoError::DecompressionFailure)
    );
}

#[test]
fn verify_rejects_non_canonical_nonce_point() {
    let identity = unhex(IDENTITY);
    let mut signature = vec![0u8; 64];
    signature[..32].copy_from_slice(&identity);
    assert!(verify_signature(&signature, b"any message", &identity));
    signature[..32].copy_from_slice(&unhex(
        "eeffffffffffffffffffffffffffffffffffffffffffffffffffffffffffff7f",
    ));
    assert!(!verify_signature(&signature, b"any message", &identity));
    signature[..32].copy_from_slice(&unhex(
        "0100000000000000000000000000000000000000000000000000000000000080",
    ));
    assert!(!verify_signature(&signature, b"any message", &identity));
}

#[test]
fn verify_rejects_non_canonical_public_key() {
    let mut signature = vec![0u8; 64];
    signature[..32].copy_from_slice(&unhex(BASEPOINT));
    signature[32] = 1;
    assert!(verify_signature(&signature, b"any message", &unhex(IDENTITY)));
    assert!(!verify_signature(
        &signature,
        b"any message",
        &unhex("eeffffffffffffffffffffffffffffffffffffffffffffffffffffffffffff7f"),
    ));
    assert!(!verify_signature(
        &signature,
        b"any message",
        &unhex("0100000000000000000000000000000000000000000000000000000000000080"),
    ));
}

#[test]
fn decode_rejects_wrong_length() {
    assert_eq!(decode_xeddsa_signature(&[0u8; 63]).err(), Some(CryptoError::InvalidLength));
    assert_eq!(decode_xeddsa_signature(&[0u8; 65]).err(), Some(CryptoError::InvalidLength));
    assert_eq!(decode_xeddsa_signature(&[]).err(), Some(CryptoError::InvalidLength));
}

#[test]
fn decode_rejects_point_off_the_curve() {
    let mut signature = vec![0u8; 64];
    signature[0] = 2;
    assert_eq!(
        decode_xeddsa_signature(&signature).err(),
        Some(CryptoError::DecompressionFailure)
    );
}

#[test]
fn decode_reports_the_point_before_the_scalar() {
    let mut signature = vec![0xffu8; 64];
    signature[..32].copy_from_slice(&[0u8; 32]);
    signature[0] = 2;
    assert_eq!(
        decode_xeddsa_signature(&signature).err(),
        Some(CryptoError::DecompressionFailure)
    );
}

#[test]
fn decode_rejects_non_canonical_scalar() {
    let mut signature = vec![0u8; 64];
    signature[..32].copy_from_slice(&unhex(BASEPOINT));
    signature[32..].copy_from_slice(&ed25519_l());
    assert_eq!(
        decode_xeddsa_signature(&signature).err(),
        Some(CryptoError::NonCanonicalScalar)
    );
    let mut l_minus_one = ed25519_l();
    l_minus_one[0] -= 1;
    signature[32..].copy_from_slice(&l_minus_one);
    let decoded = decode_xeddsa_signature(&signature).unwrap();
    assert_eq!(decoded.s, l_minus_one);
    signature[32..].copy_from_slice(&[0xffu8; 32]);
    assert_eq!(
        decode_xeddsa_signature(&signature).err(),
        Some(CryptoError::NonCanonicalScalar)
    );
}

#[test]
fn sign_and_verify_in_one_call() {
    assert_eq!(test_sign_and_verify(b"test", &[1u8; 32]), Ok(true));
    assert_eq!(test_sign_and_verify(b"", &unhex(SEED_1)), Ok(true));
    assert_eq!(test_sign_and_verify(&[0u8; 300], &unhex(SEED_3)), Ok(true));
}

#[test]
fn sign_and_verify_rejects_wrong_seed_length() {
    assert_eq!(test_sign_and_verify(b"test", &[1u8; 31]), Err(CryptoError::InvalidLength));
    assert_eq!(test_sign_and_verify(b"test", &[1u8; 64]), Err(CryptoError::InvalidLength));
}
