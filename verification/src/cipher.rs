use aes_gcm::{
    aead::{Aead, KeyInit},
    Aes256Gcm, Nonce,
};
use argon2::password_hash::rand_core::{OsRng, RngCore};
use vstd::prelude::*;

use crate::encoding::{string_from_utf8, utf8_error_text};
use crate::error::StoreError;

verus! {

/// Length in bytes of the master key and of every AES-256 key.
pub const MASTER_KEY_LEN: usize = 32;

/// Length in bytes of the random nonce written in front of each ciphertext.
pub const NONCE_LEN: usize = 12;

/// Length in bytes of the authentication tag that AES-GCM appends.
pub const TAG_LEN: usize = 16;

/// Largest plaintext, in bytes, that AES-GCM accepts (`aes_gcm::P_MAX`).
pub const AES_GCM_MAX_PLAINTEXT: u64 = 68719476736;

/// The ciphertext, with its tag appended, that AES-256-GCM gives for a key,
/// a nonce and a plaintext (no associated data).
pub uninterp spec fn aes256_gcm_sealed(key: Seq<u8>, nonce: Seq<u8>, plaintext: Seq<u8>) -> Seq<u8>;

/// What AES-256-GCM decryption gives for a key, a nonce and a ciphertext with
/// its tag (no associated data): the plaintext, or `None` when the tag does
/// not authenticate the ciphertext.
pub uninterp spec fn aes256_gcm_opened(key: Seq<u8>, nonce: Seq<u8>, ciphertext: Seq<u8>) -> Option<
    Seq<u8>,
>;

/// Encrypts with `aes_gcm::Aes256Gcm` (`KeyInit::new_from_slice`, then
/// `Aead::encrypt`).
///
/// Trusted: a key of another length than 32 bytes is refused
/// (`InvalidLength`); a plaintext longer than `P_MAX` is refused; otherwise
/// the result is the ciphertext followed by a 16-byte tag, and decrypting it
/// with the same key and nonce gives the plaintext back.
#[verifier::external_body]
fn aes256_gcm_encrypt(key: &[u8], nonce: &[u8], plaintext: &[u8]) -> (r: Result<Vec<u8>, StoreError>)
    requires
        nonce@.len() == NONCE_LEN,
    ensures
        key@.len() != MASTER_KEY_LEN ==> r matches Err(StoreError::CipherKeyLength),
        key@.len() == MASTER_KEY_LEN && plaintext@.len() > AES_GCM_MAX_PLAINTEXT ==> r matches Err(StoreError::EncryptionFailed),
        key@.len() == MASTER_KEY_LEN && plaintext@.len() <= AES_GCM_MAX_PLAINTEXT ==> r is Ok,
        r matches Ok(c) ==> {
            &&& c@ == aes256_gcm_sealed(key@, nonce@, plaintext@)
            &&& c@.len() == plaintext@.len() + TAG_LEN
            &&& aes256_gcm_opened(key@, nonce@, c@) == Some(plaintext@)
        },
{
    let cipher = Aes256Gcm::new_from_slice(key).map_err(|_| StoreError::CipherKeyLength)?;
    cipher.encrypt(Nonce::from_slice(nonce), plaintext).map_err(|_| StoreError::EncryptionFailed)
}

/// Decrypts with `aes_gcm::Aes256Gcm` (`KeyInit::new_from_slice`, then
/// `Aead::decrypt`).
///
/// Trusted: a key of another length than 32 bytes is refused
/// (`InvalidLength`); otherwise the result is what AES-256-GCM decryption
/// gives, and a failed authentication is an error.
#[verifier::external_body]
fn aes256_gcm_decrypt(key: &[u8], nonce: &[u8], ciphertext: &[u8]) -> (r: Result<Vec<u8>, StoreError>)
    requires
        nonce@.len() == NONCE_LEN,
    ensures
        key@.len() != MASTER_KEY_LEN ==> r matches Err(StoreError::CipherKeyLength),
        key@.len() == MASTER_KEY_LEN ==> match aes256_gcm_opened(key@, nonce@, ciphertext@) {
            Some(p) => r matches Ok(v) && v@ == p,
            None => r matches Err(StoreError::DecryptionFailed),
        },
{
    let cipher = Aes256Gcm::new_from_slice(key).map_err(|_| StoreError::CipherKeyLength)?;
    cipher.decrypt(Nonce::from_slice(nonce), ciphertext).map_err(|_| StoreError::DecryptionFailed)
}

/// Fills a buffer of the given length from the operating system's random
/// source (`rand_core::OsRng`, `RngCore::try_fill_bytes`).
///
/// Trusted: on success the buffer has the requested length; the bytes are
/// random. When the operating system cannot supply randomness the crate's
/// error comes back, kept as its description.
#[verifier::external_body]
pub(crate) fn generate_random_bytes(length: usize) -> (r: Result<Vec<u8>, StoreError>)
    ensures
        r matches Ok(bytes) ==> bytes@.len() == length,
        r matches Err(e) ==> e is RandomSource,
{
    let mut bytes = vec![0_u8; length];
    OsRng.try_fill_bytes(&mut bytes).map_err(|error| StoreError::RandomSource(error.to_string()))?;
    Ok(bytes)
}

/// Whether a result is the failure of the operating system's random source.
pub open spec fn random_source_failed<T>(r: Result<T, StoreError>) -> bool {
    r matches Err(StoreError::RandomSource(_))
}

/// A payload as written by `encrypt_bytes`: a nonce, then the AES-256-GCM
/// ciphertext of the plaintext under that nonce.
pub open spec fn is_sealed_payload(key: Seq<u8>, plaintext: Seq<u8>, payload: Seq<u8>) -> bool {
    &&& payload.len() == NONCE_LEN + plaintext.len() + TAG_LEN
    &&& payload.subrange(NONCE_LEN as int, payload.len() as int) == aes256_gcm_sealed(
        key,
        payload.subrange(0, NONCE_LEN as int),
        plaintext,
    )
    &&& aes256_gcm_opened(
        key,
        payload.subrange(0, NONCE_LEN as int),
        payload.subrange(NONCE_LEN as int, payload.len() as int),
    ) == Some(plaintext)
}

/// What a payload decrypts to under a key: nothing when it is too short to
/// hold a nonce and a ciphertext, else the AES-256-GCM decryption of the part
/// after the nonce.
pub open spec fn opened_payload(key: Seq<u8>, payload: Seq<u8>) -> Option<Seq<u8>> {
    if payload.len() <= NONCE_LEN {
        None
    } else {
        aes256_gcm_opened(
            key,
            payload.subrange(0, NONCE_LEN as int),
            payload.subrange(NONCE_LEN as int, payload.len() as int),
        )
    }
}

/// What a payload decrypts to as text: the decrypted bytes read as UTF-8.
pub open spec fn opened_text(key: Seq<u8>, payload: Seq<u8>) -> Option<Seq<char>> {
    match opened_payload(key, payload) {
        Some(bytes) => if vstd::utf8::valid_utf8(bytes) {
            Some(vstd::utf8::decode_utf8(bytes))
        } else {
            None
        },
        None => None,
    }
}

/// A payload written for a plaintext decrypts, under the same key, to that
/// plaintext.
pub proof fn lemma_sealed_payload_opens(key: Seq<u8>, plaintext: Seq<u8>, payload: Seq<u8>)
    requires
        is_sealed_payload(key, plaintext, payload),
    ensures
        opened_payload(key, payload) == Some(plaintext),
{
}

/// A payload written for the UTF-8 bytes of a text decrypts, under the same
/// key, to that text.
pub proof fn lemma_sealed_text_opens(key: Seq<u8>, text: Seq<char>, payload: Seq<u8>)
    requires
        is_sealed_payload(key, vstd::utf8::encode_utf8(text), payload),
    ensures
        opened_text(key, payload) == Some(text),
{
    vstd::utf8::encode_utf8_valid_utf8(text);
    vstd::utf8::encode_utf8_decode_utf8(text);
}

/// Encrypts bytes under a 32-byte key with a fresh random nonce; the payload
/// is the nonce followed by the ciphertext and its tag. The key is checked
/// before the nonce is drawn.
pub fn encrypt_bytes(key: &[u8], plaintext: &[u8]) -> (r: Result<Vec<u8>, StoreError>)
    ensures
        key@.len() != MASTER_KEY_LEN ==> r matches Err(StoreError::CipherKeyLength),
        key@.len() == MASTER_KEY_LEN && plaintext@.len() > AES_GCM_MAX_PLAINTEXT ==> (r matches Err(
            StoreError::EncryptionFailed,
        ) || random_source_failed(r)),
        key@.len() == MASTER_KEY_LEN && plaintext@.len() <= AES_GCM_MAX_PLAINTEXT ==> (r is Ok
            || random_source_failed(r)),
        r matches Ok(payload) ==> is_sealed_payload(key@, plaintext@, payload@),
{
    if key.len() != MASTER_KEY_LEN {
        return Err(StoreError::CipherKeyLength);
    }
    let nonce_bytes = generate_random_bytes(NONCE_LEN)?;
    let ciphertext = aes256_gcm_encrypt(key, nonce_bytes.as_slice(), plaintext)?;
    let ghost nonce = nonce_bytes@;
    let mut payload = nonce_bytes;
    payload.extend_from_slice(ciphertext.as_slice());
    proof {
        assert(payload@.subrange(0, NONCE_LEN as int) =~= nonce);
        assert(payload@.subrange(NONCE_LEN as int, payload@.len() as int) =~= ciphertext@);
    }
    Ok(payload)
}

/// Decrypts a payload written by `encrypt_bytes`.
pub fn decrypt_bytes(key: &[u8], payload: &[u8]) -> (r: Result<Vec<u8>, StoreError>)
    ensures
        payload@.len() <= NONCE_LEN ==> r matches Err(StoreError::EncryptedPayloadInvalid),
        payload@.len() > NONCE_LEN && key@.len() != MASTER_KEY_LEN ==> r matches Err(StoreError::CipherKeyLength),
        payload@.len() > NONCE_LEN && key@.len() == MASTER_KEY_LEN ==> match opened_payload(
            key@,
            payload@,
        ) {
            Some(p) => r matches Ok(v) && v@ == p,
            None => r matches Err(StoreError::DecryptionFailed),
        },
{
    if payload.len() <= NONCE_LEN {
        return Err(StoreError::EncryptedPayloadInvalid);
    }
    let (nonce_bytes, ciphertext) = payload.split_at(NONCE_LEN);
    aes256_gcm_decrypt(key, nonce_bytes, ciphertext)
}

/// Encrypts the UTF-8 bytes of a text.
pub fn encrypt_text(key: &[u8], plaintext: &str) -> (r: Result<Vec<u8>, StoreError>)
    ensures
        key@.len() != MASTER_KEY_LEN ==> r matches Err(StoreError::CipherKeyLength),
        key@.len() == MASTER_KEY_LEN && vstd::utf8::encode_utf8(plaintext@).len()
            > AES_GCM_MAX_PLAINTEXT ==> (r matches Err(StoreError::EncryptionFailed)
            || random_source_failed(r)),
        key@.len() == MASTER_KEY_LEN && vstd::utf8::encode_utf8(plaintext@).len()
            <= AES_GCM_MAX_PLAINTEXT ==> (r is Ok || random_source_failed(r)),
        r matches Ok(payload) ==> is_sealed_payload(
            key@,
            vstd::utf8::encode_utf8(plaintext@),
            payload@,
        ),
        r matches Ok(payload) ==> opened_text(key@, payload@) == Some(plaintext@),
{
    let r = encrypt_bytes(key, plaintext.as_bytes());
    proof {
        if let Ok(payload) = &r {
            lemma_sealed_text_opens(key@, plaintext@, payload@);
        }
    }
    r
}

/// Whether a payload decrypts, under a key the cipher takes, to valid UTF-8
/// text.
pub open spec fn text_opens(key: Seq<u8>, payload: Seq<u8>) -> bool {
    key.len() == MASTER_KEY_LEN && opened_text(key, payload) is Some
}

/// The error that decrypting a payload as text gives when it fails: first
/// the payload's length, then the key's, then authentication, then UTF-8,
/// whose error carries the standard library's description of the decrypted
/// bytes.
pub open spec fn is_text_decrypt_error(key: Seq<u8>, payload: Seq<u8>, e: StoreError) -> bool {
    if payload.len() <= NONCE_LEN {
        e == StoreError::EncryptedPayloadInvalid
    } else if key.len() != MASTER_KEY_LEN {
        e == StoreError::CipherKeyLength
    } else if opened_payload(key, payload) is None {
        e == StoreError::DecryptionFailed
    } else {
        e matches StoreError::Outside(m) && match opened_payload(key, payload) {
            Some(bytes) => m@ == utf8_error_text(bytes),
            None => false,
        }
    }
}

/// Decrypts a payload and reads the plaintext as UTF-8 text.
pub fn decrypt_text(key: &[u8], payload: &[u8]) -> (r: Result<String, StoreError>)
    ensures
        r is Ok <==> text_opens(key@, payload@),
        r matches Ok(s) ==> opened_text(key@, payload@) == Some(s@),
        r matches Err(e) ==> is_text_decrypt_error(key@, payload@, e),
{
    let plaintext = decrypt_bytes(key, payload)?;
    string_from_utf8(plaintext)
}

} // verus!
