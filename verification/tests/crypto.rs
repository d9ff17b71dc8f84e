use base64::engine::general_purpose::STANDARD;
use base64::Engine;
use stickyflow::cipher::{decrypt_bytes, decrypt_text, encrypt_bytes, encrypt_text, MASTER_KEY_LEN, NONCE_LEN, TAG_LEN};
use stickyflow::error::StoreError;
use stickyflow::keywrap::{unwrap_master_key, wrap_master_key};

fn key(byte: u8) -> Vec<u8> {
    vec![byte; MASTER_KEY_LEN]
}

#[test]
fn encrypted_bytes_decrypt_to_the_plaintext() {
    let plaintext = b"a note body".to_vec();
    let payload = encrypt_bytes(&key(7), &plaintext).unwrap();
    assert_eq!(payload.len(), NONCE_LEN + plaintext.len() + TAG_LEN);
    assert_eq!(decrypt_bytes(&key(7), &payload).unwrap(), plaintext);
}

#[test]
fn empty_plaintext_round_trips() {
    let payload = encrypt_bytes(&key(1), &[]).unwrap();
    assert_eq!(payload.len(), NONCE_LEN + TAG_LEN);
    assert_eq!(decrypt_bytes(&key(1), &payload).unwrap(), Vec::<u8>::new());
}

#[test]
fn each_encryption_uses_a_fresh_nonce() {
    let first = encrypt_bytes(&key(3), b"same").unwrap();
    let second = encrypt_bytes(&key(3), b"same").unwrap();
    assert_ne!(first, second);
    assert_ne!(&first[..NONCE_LEN], &second[..NONCE_LEN]);
}

#[test]
fn encryption_refuses_a_short_key() {
    assert_eq!(encrypt_bytes(&[0u8; 31], b"x"), Err(StoreError::CipherKeyLength));
}

#[test]
fn decryption_refuses_a_payload_without_ciphertext() {
    assert_eq!(decrypt_bytes(&key(7), &[0u8; NONCE_LEN]), Err(StoreError::EncryptedPayloadInvalid));
    assert_eq!(decrypt_bytes(&[0u8; 3], &[0u8; 5]), Err(StoreError::EncryptedPayloadInvalid));
}

#[test]
fn decryption_refuses_a_short_key() {
    let payload = encrypt_bytes(&key(7), b"x").unwrap();
    assert_eq!(decrypt_bytes(&[0u8; 16], &payload), Err(StoreError::CipherKeyLength));
}

#[test]
fn decryption_under_another_key_fails() {
    let payload = encrypt_bytes(&key(7), b"secret").unwrap();
    assert_eq!(decrypt_bytes(&key(8), &payload), Err(StoreError::DecryptionFailed));
}

#[test]
fn tampered_payload_fails_authentication() {
    let mut payload = encrypt_bytes(&key(7), b"secret").unwrap();
    let last = payload.len() - 1;
    payload[last] ^= 1;
    assert_eq!(decrypt_bytes(&key(7), &payload), Err(StoreError::DecryptionFailed));
}

#[test]
fn text_round_trips_through_encryption() {
    let text = "Grüße, 世界 \u{1F600}";
    let payload = encrypt_text(&key(9), text).unwrap();
    assert_eq!(payload.len(), NONCE_LEN + text.len() + TAG_LEN);
    assert_eq!(decrypt_text(&key(9), &payload).unwrap(), text);
}

#[test]
fn decrypting_non_utf8_bytes_as_text_fails() {
    let payload = encrypt_bytes(&key(9), &[0xff, 0xfe]).unwrap();
    let expected = String::from_utf8(vec![0xff, 0xfe]).unwrap_err().to_string();
    assert_eq!(decrypt_text(&key(9), &payload), Err(StoreError::Outside(expected)));
}

#[test]
fn wrapped_master_key_unwraps_with_the_same_password() {
    let master_key = key(42);
    let (salt, wrapped) = wrap_master_key("correct horse", &master_key).unwrap();
    assert_eq!(salt.len(), 24);
    assert!(salt.ends_with("=="));
    assert_eq!(unwrap_master_key("correct horse", &salt, &wrapped).unwrap(), master_key);
}

#[test]
fn wrapped_master_key_refuses_another_password() {
    let (salt, wrapped) = wrap_master_key("correct horse", &key(42)).unwrap();
    assert_eq!(unwrap_master_key("wrong horse", &salt, &wrapped), Err(StoreError::DecryptionFailed));
}

#[test]
fn unwrapping_a_key_of_the_wrong_length_fails() {
    let (salt, wrapped) = wrap_master_key("correct horse", &[5u8; 16]).unwrap();
    assert_eq!(unwrap_master_key("correct horse", &salt, &wrapped), Err(StoreError::StoredKeyLength));
}

#[test]
fn unwrapping_with_bad_base64_fails() {
    let (salt, wrapped) = wrap_master_key("pw", &key(1)).unwrap();
    let refusal = |text: &str| StoreError::Outside(STANDARD.decode(text).unwrap_err().to_string());
    assert_eq!(unwrap_master_key("pw", "not base64!", &wrapped), Err(refusal("not base64!")));
    assert_eq!(unwrap_master_key("pw", &salt, "%%%%"), Err(refusal("%%%%")));
    // Non-canonical trailing bits are refused as well.
    assert_eq!(unwrap_master_key("pw", "AB==", &wrapped), Err(refusal("AB==")));
}

#[test]
fn unwrapping_with_a_short_salt_fails_in_the_key_derivation() {
    let (_, wrapped) = wrap_master_key("pw", &key(1)).unwrap();
    // "AAAA" decodes to three bytes, fewer than Argon2's minimum of eight.
    assert_eq!(
        unwrap_master_key("pw", "AAAA", &wrapped),
        Err(StoreError::Outside("salt is too short".to_string()))
    );
}

#[test]
fn unwrapping_a_too_short_wrapped_key_fails() {
    let (salt, _) = wrap_master_key("pw", &key(1)).unwrap();
    // Twelve zero bytes: a nonce without any ciphertext.
    assert_eq!(unwrap_master_key("pw", &salt, "AAAAAAAAAAAAAAAA"), Err(StoreError::EncryptedPayloadInvalid));
}
