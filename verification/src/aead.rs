//! Encryption of text messages with AES-256-GCM, with the ciphertext carried
//! as lower-case hexadecimal text.
//!
//! The cipher is that of the `aes-gcm` crate and the hexadecimal coding that
//! of the `hex` crate. This module checks the sizes of key and nonce, strings
//! the steps together and says which failure comes from which step.

use vstd::prelude::*;
use vstd::utf8::{decode_utf8, encode_utf8, valid_utf8};

verus! {

/// Why a message could not be encrypted or decrypted.
#[derive(Debug, Clone, Copy, PartialEq, Eq, Structural)]
pub enum AeadError {
    /// The key is not 32 bytes long.
    InvalidKeyLength,
    /// The nonce is not 12 bytes long.
    InvalidNonceLength,
    /// The cipher refused the plaintext.
    EncryptionFailed,
    /// The ciphertext is not hexadecimal text.
    InvalidCiphertext,
    /// The ciphertext does not authenticate under the key and the nonce.
    DecryptionFailed,
    /// The decrypted bytes are not UTF-8 text.
    InvalidUtf8,
}

impl AeadError {
    /// The message that goes with the failure.
    pub open spec fn message_spec(self) -> Seq<char> {
        match self {
            AeadError::InvalidKeyLength => "Invalid key length"@,
            AeadError::InvalidNonceLength => "Invalid nonce length"@,
            AeadError::EncryptionFailed => "Encryption failed"@,
            AeadError::InvalidCiphertext => "Invalid ciphertext"@,
            AeadError::DecryptionFailed => "Decryption failed"@,
            AeadError::InvalidUtf8 => "Invalid UTF-8"@,
        }
    }

    /// The message that goes with the failure.
    pub fn message(&self) -> (text: &'static str)
        ensures
            text@ == self.message_spec(),
    {
        match self {
            AeadError::InvalidKeyLength => "Invalid key length",
            AeadError::InvalidNonceLength => "Invalid nonce length",
            AeadError::EncryptionFailed => "Encryption failed",
            AeadError::InvalidCiphertext => "Invalid ciphertext",
            AeadError::DecryptionFailed => "Decryption failed",
            AeadError::InvalidUtf8 => "Invalid UTF-8",
        }
    }
}

/// The ciphertext, tag included, of a plaintext under AES-256-GCM with a
/// 32-byte key, a 12-byte nonce and no associated data.
pub uninterp spec fn spec_aes256_gcm_encrypt(key: Seq<u8>, nonce: Seq<u8>, plaintext: Seq<u8>) -> Seq<
    u8,
>;

/// The plaintext of a ciphertext under AES-256-GCM with a 32-byte key, a
/// 12-byte nonce and no associated data, or `None` where the ciphertext does
/// not authenticate.
pub uninterp spec fn spec_aes256_gcm_decrypt(
    key: Seq<u8>,
    nonce: Seq<u8>,
    ciphertext: Seq<u8>,
) -> Option<Seq<u8>>;

/// The longest plaintext that AES-GCM takes: 2^36 bytes.
pub open spec fn aes_gcm_max_plaintext() -> nat {
    0x10_0000_0000
}

/// The lower-case hexadecimal digit of a number below 16.
pub open spec fn hex_digit(n: u8) -> char {
    if n < 10 {
        ((48 + n) as u8) as char
    } else {
        ((87 + n) as u8) as char
    }
}

/// Two lower-case hexadecimal digits for each byte, the high one first.
pub open spec fn hex_encode_spec(bytes: Seq<u8>) -> Seq<char>
    decreases bytes.len(),
{
    if bytes.len() == 0 {
        Seq::empty()
    } else {
        seq![hex_digit(bytes[0] / 16), hex_digit(bytes[0] % 16)] + hex_encode_spec(
            bytes.drop_first(),
        )
    }
}

/// Hexadecimal text is twice as long as the bytes that it stands for.
pub proof fn lemma_hex_encode_len(bytes: Seq<u8>)
    ensures
        hex_encode_spec(bytes).len() == 2 * bytes.len(),
    decreases bytes.len(),
{
    if bytes.len() > 0 {
        lemma_hex_encode_len(bytes.drop_first());
    }
}

/// The number that a hexadecimal digit of either case stands for.
pub open spec fn hex_value(c: char) -> Option<u8> {
    let code = c as u32;
    if 48 <= code <= 57 {
        Some((code - 48) as u8)
    } else if 97 <= code <= 102 {
        Some((code - 87) as u8)
    } else if 65 <= code <= 70 {
        Some((code - 55) as u8)
    } else {
        None
    }
}

/// The bytes that hexadecimal text stands for, or `None` where the text has
/// an odd length or holds anything but hexadecimal digits.
pub open spec fn hex_decode_spec(text: Seq<char>) -> Option<Seq<u8>>
    decreases text.len(),
{
    if text.len() == 0 {
        Some(Seq::empty())
    } else if text.len() == 1 {
        None
    } else {
        match (hex_value(text[0]), hex_value(text[1]), hex_decode_spec(text.subrange(2, text.len() as int))) {
            (Some(high), Some(low), Some(rest)) => Some(seq![(high * 16 + low) as u8] + rest),
            _ => None,
        }
    }
}

/// What `encrypt` returns.
pub open spec fn encrypt_spec(text: Seq<char>, key: Seq<u8>, nonce: Seq<u8>) -> Result<
    Seq<char>,
    AeadError,
> {
    if key.len() != 32 {
        Err(AeadError::InvalidKeyLength)
    } else if nonce.len() != 12 {
        Err(AeadError::InvalidNonceLength)
    } else if encode_utf8(text).len() > aes_gcm_max_plaintext() {
        Err(AeadError::EncryptionFailed)
    } else {
        Ok(hex_encode_spec(spec_aes256_gcm_encrypt(key, nonce, encode_utf8(text))))
    }
}

/// What `decrypt` returns.
pub open spec fn decrypt_spec(text: Seq<char>, key: Seq<u8>, nonce: Seq<u8>) -> Result<
    Seq<char>,
    AeadError,
> {
    if key.len() != 32 {
        Err(AeadError::InvalidKeyLength)
    } else if nonce.len() != 12 {
        Err(AeadError::InvalidNonceLength)
    } else {
        match hex_decode_spec(text) {
            None => Err(AeadError::InvalidCiphertext),
            Some(ciphertext) => match spec_aes256_gcm_decrypt(key, nonce, ciphertext) {
                None => Err(AeadError::DecryptionFailed),
                Some(plaintext) => if valid_utf8(plaintext) {
                    Ok(decode_utf8(plaintext))
                } else {
                    Err(AeadError::InvalidUtf8)
                },
            },
        }
    }
}

/// The outcome of an operation that returns text, with the text as a
/// sequence of characters.
pub open spec fn text_result_view(r: Result<String, AeadError>) -> Result<Seq<char>, AeadError> {
    match r {
        Ok(text) => Ok(text@),
        Err(e) => Err(e),
    }
}

/// AES-256-GCM encryption from the `aes-gcm` crate.
///
/// Trusted: the body makes an `Aes256Gcm` from the key (`NewAead::new`) and
/// calls `Aead::encrypt` with the nonce and the plaintext, which fails
/// exactly when the plaintext is longer than 2^36 bytes and otherwise
/// returns the encrypted plaintext followed by the tag of 16 bytes.
/// `from_slice` panics on another key or nonce size, which `requires`
/// leaves out. Beyond its length the ciphertext is only named.
#[verifier::external_body]
fn aes256_gcm_encrypt(key: &[u8], nonce: &[u8], plaintext: &[u8]) -> (r: Option<Vec<u8>>)
    requires
        key@.len() == 32,
        nonce@.len() == 12,
    ensures
        r is Some <==> plaintext@.len() <= aes_gcm_max_plaintext(),
        r matches Some(ciphertext) ==> ciphertext@ == spec_aes256_gcm_encrypt(
            key@,
            nonce@,
            plaintext@,
        ),
        r matches Some(ciphertext) ==> ciphertext@.len() == plaintext@.len() + 16,
{
    let cipher: aes_gcm::Aes256Gcm = aes_gcm::aead::NewAead::new(aes_gcm::Key::from_slice(key));
    aes_gcm::aead::Aead::encrypt(&cipher, aes_gcm::Nonce::from_slice(nonce), plaintext).ok()
}

/// AES-256-GCM decryption from the `aes-gcm` crate.
///
/// Trusted: the body makes an `Aes256Gcm` from the key (`NewAead::new`) and
/// calls `Aead::decrypt` with the nonce and the ciphertext. `from_slice`
/// panics on another key or nonce size, which `requires` leaves out. The
/// outcome is only named.
#[verifier::external_body]
fn aes256_gcm_decrypt(key: &[u8], nonce: &[u8], ciphertext: &[u8]) -> (r: Option<Vec<u8>>)
    requires
        key@.len() == 32,
        nonce@.len() == 12,
    ensures
        match r {
            Some(plaintext) => spec_aes256_gcm_decrypt(key@, nonce@, ciphertext@) == Some(
                plaintext@,
            ),
            None => spec_aes256_gcm_decrypt(key@, nonce@, ciphertext@) is None,
        },
{
    let cipher: aes_gcm::Aes256Gcm = aes_gcm::aead::NewAead::new(aes_gcm::Key::from_slice(key));
    aes_gcm::aead::Aead::decrypt(&cipher, aes_gcm::Nonce::from_slice(nonce), ciphertext).ok()
}

/// Lower-case hexadecimal text of bytes.
///
/// Trusted: the body calls `hex::encode`, which writes two digits from
/// `0123456789abcdef` for each byte, the high half first.
#[verifier::external_body]
fn hex_encode(bytes: &[u8]) -> (text: String)
    ensures
        text@ == hex_encode_spec(bytes@),
{
    hex::encode(bytes)
}

/// Bytes of hexadecimal text.
///
/// Trusted: the body calls `hex::decode`, which refuses text of odd length
/// and any character that is no hexadecimal digit, and takes digits of
/// either case.
#[verifier::external_body]
fn hex_decode(text: &str) -> (r: Option<Vec<u8>>)
    ensures
        match r {
            Some(bytes) => hex_decode_spec(text@) == Some(bytes@),
            None => hex_decode_spec(text@) is None,
        },
{
    hex::decode(text).ok()
}

/// Text from its UTF-8 encoding.
///
/// Trusted: the body calls `String::from_utf8`, which succeeds exactly on
/// valid UTF-8 and then holds the characters that the bytes encode.
#[verifier::external_body]
fn string_from_utf8(bytes: Vec<u8>) -> (r: Option<String>)
    ensures
        match r {
            Some(text) => valid_utf8(bytes@) && text@ == decode_utf8(bytes@),
            None => !valid_utf8(bytes@),
        },
{
    String::from_utf8(bytes).ok()
}

/// Encrypts text with AES-256-GCM under a 32-byte key and a 12-byte nonce
/// and returns the ciphertext, tag included, as hexadecimal text: two digits
/// for each byte of the text's UTF-8 encoding and of the 16-byte tag.
pub fn encrypt(text: &str, key: &[u8], nonce: &[u8]) -> (r: Result<String, AeadError>)
    ensures
        text_result_view(r) == encrypt_spec(text@, key@, nonce@),
        r matches Ok(ciphertext) ==> ciphertext@.len() == 2 * (encode_utf8(text@).len() + 16),
{
    if key.len() != 32 {
        return Err(AeadError::InvalidKeyLength);
    }
    if nonce.len() != 12 {
        return Err(AeadError::InvalidNonceLength);
    }
    match aes256_gcm_encrypt(key, nonce, text.as_bytes()) {
        Some(ciphertext) => {
            proof {
                lemma_hex_encode_len(ciphertext@);
            }
            Ok(hex_encode(ciphertext.as_slice()))
        },
        None => Err(AeadError::EncryptionFailed),
    }
}

/// Decrypts hexadecimal ciphertext with AES-256-GCM under a 32-byte key and
/// a 12-byte nonce and returns the plaintext as text.
pub fn decrypt(text: &str, key: &[u8], nonce: &[u8]) -> (r: Result<String, AeadError>)
    ensures
        text_result_view(r) == decrypt_spec(text@, key@, nonce@),
{
    if key.len() != 32 {
        return Err(AeadError::InvalidKeyLength);
    }
    if nonce.len() != 12 {
        return Err(AeadError::InvalidNonceLength);
    }
    let ciphertext = match hex_decode(text) {
        Some(bytes) => bytes,
        None => {
            return Err(AeadError::InvalidCiphertext);
        },
    };
    let decrypted_text = match aes256_gcm_decrypt(key, nonce, ciphertext.as_slice()) {
        Some(bytes) => bytes,
        None => {
            return Err(AeadError::DecryptionFailed);
        },
    };
    match string_from_utf8(decrypted_text) {
        Some(plaintext) => Ok(plaintext),
        None => Err(AeadError::InvalidUtf8),
    }
}

} // verus!
