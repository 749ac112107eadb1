use x3dh_crypto::aead::{decrypt, encrypt, AeadError};

fn counting_key() -> Vec<u8> {
    (0..32u8).collect()
}

fn counting_nonce() -> Vec<u8> {
    (0..12u8).collect()
}

#[test]
fn encrypt_known_answer_for_zero_key() {
    let text = "\0\0\0\0\0\0\0\0\0\0\0\0\0\0\0\0";
    let ciphertext = encrypt(text, &[0u8; 32], &[0u8; 12]).unwrap();
    assert_eq!(ciphertext, "cea7403d4d606b6e074ec5d3baf39d18d0d1c8a799996bf0265b98b5d48ab919");
}

#[test]
fn encrypt_empty_text_gives_the_tag() {
    let ciphertext = encrypt("", &[0u8; 32], &[0u8; 12]).unwrap();
    assert_eq!(ciphertext, "530f8afbc74536b9a963b4f1c4cb738b");
}

#[test]
fn encrypt_known_answer_for_text_beyond_ascii() {
    let ciphertext = encrypt("héllo wörld ✓", &counting_key(), &counting_nonce()).unwrap();
    assert_eq!(
        ciphertext,
        "2fc17f77a98ae26c4ef7e5e7d5c99af110b664c98592145f75aba2df2cd5855430"
    );
}

#[test]
fn decrypt_known_answers() {
    let plaintext = decrypt(
        "2fc17f77a98ae26c4ef7e5e7d5c99af110b664c98592145f75aba2df2cd5855430",
        &counting_key(),
        &counting_nonce(),
    )
    .unwrap();
    assert_eq!(plaintext, "héllo wörld ✓");
    assert_eq!(decrypt("530f8afbc74536b9a963b4f1c4cb738b", &[0u8; 32], &[0u8; 12]).unwrap(), "");
}

#[test]
fn decrypt_takes_upper_case_digits() {
    let plaintext = decrypt(
        "2FC17F77A98AE26C4EF7E5E7D5C99AF110B664C98592145F75ABA2DF2CD5855430",
        &counting_key(),
        &counting_nonce(),
    )
    .unwrap();
    assert_eq!(plaintext, "héllo wörld ✓");
}

#[test]
fn decrypt_inverts_encrypt() {
    let key = counting_key();
    let nonce = counting_nonce();
    for text in ["", "a", "attack at dawn", "ключ 鍵 🔑", "line one\nline two"] {
        let ciphertext = encrypt(text, &key, &nonce).unwrap();
        assert_eq!(ciphertext.len(), 2 * (text.len() + 16));
        assert!(ciphertext.chars().all(|c| c.is_ascii_digit() || ('a'..='f').contains(&c)));
        assert_eq!(decrypt(&ciphertext, &key, &nonce).unwrap(), text);
    }
}

#[test]
fn encrypt_rejects_wrong_key_length() {
    assert_eq!(encrypt("text", &[0u8; 31], &[0u8; 12]), Err(AeadError::InvalidKeyLength));
    assert_eq!(encrypt("text", &[0u8; 16], &[0u8; 12]), Err(AeadError::InvalidKeyLength));
    assert_eq!(encrypt("text", &[], &[0u8; 11]), Err(AeadError::InvalidKeyLength));
}

#[test]
fn encrypt_rejects_wrong_nonce_length() {
    assert_eq!(encrypt("text", &[0u8; 32], &[0u8; 11]), Err(AeadError::InvalidNonceLength));
    assert_eq!(encrypt("text", &[0u8; 32], &[0u8; 13]), Err(AeadError::InvalidNonceLength));
    assert_eq!(encrypt("text", &[0u8; 32], &[]), Err(AeadError::InvalidNonceLength));
}

#[test]
fn decrypt_rejects_wrong_key_and_nonce_length() {
    let ciphertext = "530f8afbc74536b9a963b4f1c4cb738b";
    assert_eq!(decrypt(ciphertext, &[0u8; 33], &[0u8; 12]), Err(AeadError::InvalidKeyLength));
    assert_eq!(decrypt(ciphertext, &[0u8; 32], &[0u8; 16]), Err(AeadError::InvalidNonceLength));
    assert_eq!(decrypt("not hex", &[0u8; 31], &[0u8; 11]), Err(AeadError::InvalidKeyLength));
}

#[test]
fn decrypt_rejects_text_that_is_not_hexadecimal() {
    let key = [0u8; 32];
    let nonce = [0u8; 12];
    assert_eq!(decrypt("530f8afbc74536b9a963b4f1c4cb738", &key, &nonce), Err(AeadError::InvalidCiphertext));
    assert_eq!(decrypt("530f8afbc74536b9a963b4f1c4cb738g", &key, &nonce), Err(AeadError::InvalidCiphertext));
    assert_eq!(decrypt("é30f8afbc74536b9a963b4f1c4cb738", &key, &nonce), Err(AeadError::InvalidCiphertext));
    assert_eq!(decrypt("53 0f", &key, &nonce), Err(AeadError::InvalidCiphertext));
}

#[test]
fn decrypt_rejects_ciphertext_that_does_not_authenticate() {
    let key = [0u8; 32];
    let nonce = [0u8; 12];
    assert_eq!(
        decrypt("cea7403d4d606b6e074ec5d3baf39d18d0d1c8a799996bf0265b98b5d48ab918", &key, &nonce),
        Err(AeadError::DecryptionFailed)
    );
    assert_eq!(
        decrypt("cea7403d4d606b6e074ec5d3baf39d18d0d1c8a799996bf0265b98b5d48ab919", &[1u8; 32], &nonce),
        Err(AeadError::DecryptionFailed)
    );
    assert_eq!(
        decrypt("cea7403d4d606b6e074ec5d3baf39d18d0d1c8a799996bf0265b98b5d48ab919", &key, &[1u8; 12]),
        Err(AeadError::DecryptionFailed)
    );
    assert_eq!(decrypt("", &key, &nonce), Err(AeadError::DecryptionFailed));
    assert_eq!(decrypt("530f8afbc74536b9a963b4f1c4cb73", &key, &nonce), Err(AeadError::DecryptionFailed));
}

#[test]
fn decrypt_rejects_plaintext_that_is_not_utf8() {
    assert_eq!(
        decrypt("b8fc852ae4118744cf27cf993d3f40bf0a4c", &counting_key(), &counting_nonce()),
        Err(AeadError::InvalidUtf8)
    );
}
