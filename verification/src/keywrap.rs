use argon2::Argon2;
use vstd::prelude::*;
use zeroize::Zeroize;

use crate::cipher::{
    decrypt_bytes, encrypt_bytes, generate_random_bytes, lemma_sealed_payload_opens,
    opened_payload, random_source_failed, AES_GCM_MAX_PLAINTEXT, MASTER_KEY_LEN, NONCE_LEN,
};
use crate::encoding::{
    base64_decode, base64_decoding, base64_encode, base64_error_text, lemma_base64_round_trip,
};
use crate::error::StoreError;

verus! {

/// Length in bytes of the random salt from which the key-encryption key is
/// derived.
pub const KDF_SALT_LEN: usize = 16;

/// Largest password and salt, in bytes, that Argon2 accepts.
pub const ARGON2_MAX_INPUT_LEN: u64 = 4294967295;

/// Smallest salt, in bytes, that Argon2 accepts.
pub const ARGON2_MIN_SALT_LEN: usize = 8;

/// The key of the given length that Argon2id with the crate's default
/// parameters derives from a password and a salt.
pub uninterp spec fn argon2_derived_key(password: Seq<u8>, salt: Seq<u8>, length: nat) -> Seq<u8>;

/// Smallest output, in bytes, that Argon2 produces.
pub const ARGON2_MIN_OUTPUT_LEN: usize = 4;

/// Whether Argon2 accepts a password and a salt of these lengths.
pub open spec fn argon2_accepts(password: Seq<u8>, salt: Seq<u8>) -> bool {
    &&& password.len() <= ARGON2_MAX_INPUT_LEN
    &&& ARGON2_MIN_SALT_LEN <= salt.len() <= ARGON2_MAX_INPUT_LEN
}

/// The description of the error with which Argon2 refuses a password and a
/// salt: the password's length is checked first, then the salt's.
pub open spec fn argon2_refusal_text(password: Seq<u8>, salt: Seq<u8>) -> Seq<char> {
    if password.len() > ARGON2_MAX_INPUT_LEN {
        "password is too long"@
    } else if salt.len() < ARGON2_MIN_SALT_LEN {
        "salt is too short"@
    } else {
        "salt is too long"@
    }
}

/// The UTF-8 bytes of a text.
pub open spec fn utf8(text: Seq<char>) -> Seq<u8> {
    vstd::utf8::encode_utf8(text)
}

/// Derives a key with `argon2::Argon2::default()`
/// (`Argon2::hash_password_into` into an output of the given length).
///
/// Trusted: with the default parameters, an output length from 4 bytes up to
/// `MAX_OUTPUT_LEN` is accepted; the crate then refuses a password longer
/// than `MAX_PWD_LEN` and a salt shorter than `MIN_SALT_LEN` or longer than
/// `MAX_SALT_LEN` (in that order), and otherwise fills the output,
/// deterministically in the password, the salt and the length. The error is
/// the crate's `argon2::Error`, kept as its description.
#[verifier::external_body]
fn argon2_derive_key(password: &str, salt: &[u8], length: usize) -> (r: Result<Vec<u8>, StoreError>)
    requires
        ARGON2_MIN_OUTPUT_LEN <= length <= ARGON2_MAX_INPUT_LEN,
    ensures
        argon2_accepts(utf8(password@), salt@) ==> r is Ok,
        r matches Ok(k) ==> k@.len() == length && k@ == argon2_derived_key(utf8(password@), salt@, length as nat),
        !argon2_accepts(utf8(password@), salt@) ==> r matches Err(StoreError::Outside(_)),
        r matches Err(StoreError::Outside(m)) ==> m@ == argon2_refusal_text(utf8(password@), salt@),
{
    let mut key = vec![0_u8; length];
    Argon2::default()
        .hash_password_into(password.as_bytes(), salt, key.as_mut_slice())
        .map_err(|error| StoreError::Outside(error.to_string()))?;
    Ok(key)
}

/// The key-encryption key for a password and a salt: a 32-byte Argon2id key.
fn derive_kek(password: &str, salt: &[u8]) -> (r: Result<Vec<u8>, StoreError>)
    ensures
        argon2_accepts(utf8(password@), salt@) ==> r is Ok,
        r matches Ok(k) ==> k@.len() == MASTER_KEY_LEN && k@ == kek_for(utf8(password@), salt@),
        !argon2_accepts(utf8(password@), salt@) ==> (r matches Err(StoreError::Outside(m)) && m@
            == argon2_refusal_text(utf8(password@), salt@)),
{
    argon2_derive_key(password, salt, MASTER_KEY_LEN)
}

/// The key-encryption key that a password and a salt give.
pub open spec fn kek_for(password: Seq<u8>, salt: Seq<u8>) -> Seq<u8> {
    argon2_derived_key(password, salt, MASTER_KEY_LEN as nat)
}

/// Overwrites a buffer of key material with zeros and empties it
/// (`zeroize::Zeroize` for `Vec<u8>`).
///
/// Trusted: the crate's implementation zeroes the elements and the spare
/// capacity, then clears the vector.
#[verifier::external_body]
pub(crate) fn wipe(bytes: &mut Vec<u8>)
    ensures
        final(bytes)@.len() == 0,
{
    bytes.zeroize();
}

/// Why a wrapped master key could not be recovered.
pub enum UnwrapFault {
    /// The salt text is not base64.
    SaltEncoding,
    /// The wrapped-key text is not base64.
    WrappedEncoding,
    /// Argon2 refused the password or the salt.
    KdfRefused,
    /// The wrapped key is too short to hold a nonce and a ciphertext.
    PayloadInvalid,
    /// Decryption under the derived key failed: wrong password or damaged data.
    Rejected,
    /// The recovered key does not have the master-key length.
    WrongLength,
}

/// What recovering a master key from a password, a base64 salt and a base64
/// wrapped key gives: the salt and the wrapped key are decoded, a key is
/// derived from the password and the salt, and the wrapped key is decrypted
/// under it.
pub open spec fn key_unwrap(
    password: Seq<char>,
    salt_b64: Seq<char>,
    wrapped_b64: Seq<char>,
) -> Result<Seq<u8>, UnwrapFault> {
    match base64_decoding(salt_b64) {
        None => Err(UnwrapFault::SaltEncoding),
        Some(salt) => match base64_decoding(wrapped_b64) {
            None => Err(UnwrapFault::WrappedEncoding),
            Some(wrapped) => if !argon2_accepts(utf8(password), salt) {
                Err(UnwrapFault::KdfRefused)
            } else if wrapped.len() <= NONCE_LEN {
                Err(UnwrapFault::PayloadInvalid)
            } else {
                match opened_payload(kek_for(utf8(password), salt), wrapped) {
                    None => Err(UnwrapFault::Rejected),
                    Some(key) => if key.len() == MASTER_KEY_LEN {
                        Ok(key)
                    } else {
                        Err(UnwrapFault::WrongLength)
                    },
                }
            },
        },
    }
}

/// The error that recovering a master key reports for each fault: the
/// outside libraries' descriptions for undecodable text and for a refused
/// password or salt, and the library's own errors for the rest.
pub open spec fn is_unwrap_error(
    password: Seq<char>,
    salt_b64: Seq<char>,
    wrapped_b64: Seq<char>,
    fault: UnwrapFault,
    e: StoreError,
) -> bool {
    match fault {
        UnwrapFault::SaltEncoding => e matches StoreError::Outside(m) && m@ == base64_error_text(salt_b64),
        UnwrapFault::WrappedEncoding => e matches StoreError::Outside(m) && m@ == base64_error_text(
            wrapped_b64,
        ),
        UnwrapFault::KdfRefused => e matches StoreError::Outside(m) && match base64_decoding(salt_b64) {
            Some(salt) => m@ == argon2_refusal_text(utf8(password), salt),
            None => false,
        },
        UnwrapFault::PayloadInvalid => e == StoreError::EncryptedPayloadInvalid,
        UnwrapFault::Rejected => e == StoreError::DecryptionFailed,
        UnwrapFault::WrongLength => e == StoreError::StoredKeyLength,
    }
}

/// Wraps the master key under a key derived from the password and a fresh
/// random salt; gives the salt and the wrapped key as base64 text. The salt
/// is drawn first, then the key is derived, then the nonce is drawn.
pub fn wrap_master_key(password: &str, master_key: &[u8]) -> (r: Result<(String, String), StoreError>)
    ensures
        utf8(password@).len() > ARGON2_MAX_INPUT_LEN ==> (r matches Err(StoreError::Outside(m))
            && m@ == "password is too long"@) || random_source_failed(r),
        utf8(password@).len() <= ARGON2_MAX_INPUT_LEN && master_key@.len() > AES_GCM_MAX_PLAINTEXT
            ==> r matches Err(StoreError::EncryptionFailed) || random_source_failed(r),
        utf8(password@).len() <= ARGON2_MAX_INPUT_LEN && master_key@.len() <= AES_GCM_MAX_PLAINTEXT
            ==> r is Ok || random_source_failed(r),
        r matches Ok((salt, _)) ==> base64_decoding(salt@) matches Some(s) && s.len()
            == KDF_SALT_LEN,
        r matches Ok((salt, wrapped)) ==> master_key@.len() == MASTER_KEY_LEN ==> key_unwrap(
            password@,
            salt@,
            wrapped@,
        ) == Ok::<Seq<u8>, UnwrapFault>(master_key@),
        r matches Ok((salt, wrapped)) ==> master_key@.len() != MASTER_KEY_LEN ==> key_unwrap(
            password@,
            salt@,
            wrapped@,
        ) == Err::<Seq<u8>, UnwrapFault>(UnwrapFault::WrongLength),
{
    let salt = generate_random_bytes(KDF_SALT_LEN)?;
    let mut kek = derive_kek(password, salt.as_slice())?;
    let sealed = encrypt_bytes(kek.as_slice(), master_key);
    wipe(&mut kek);
    let wrapped = sealed?;
    proof {
        lemma_base64_round_trip(salt@);
        lemma_base64_round_trip(wrapped@);
        lemma_sealed_payload_opens(kek_for(utf8(password@), salt@), master_key@, wrapped@);
    }
    Ok((base64_encode(salt.as_slice()), base64_encode(wrapped.as_slice())))
}

/// Recovers the master key from the password, the base64 salt and the base64
/// wrapped key.
pub fn unwrap_master_key(password: &str, salt_b64: &str, wrapped_b64: &str) -> (r: Result<
    Vec<u8>,
    StoreError,
>)
    ensures
        match key_unwrap(password@, salt_b64@, wrapped_b64@) {
            Ok(key) => r matches Ok(v) && v@ == key,
            Err(fault) => r matches Err(e) && is_unwrap_error(password@, salt_b64@, wrapped_b64@, fault, e),
        },
{
    let salt = base64_decode(salt_b64)?;
    let wrapped = base64_decode(wrapped_b64)?;
    proof {
        lemma_base64_round_trip(salt@);
        lemma_base64_round_trip(wrapped@);
    }
    let mut kek = derive_kek(password, salt.as_slice())?;
    let opened = decrypt_bytes(kek.as_slice(), wrapped.as_slice());
    wipe(&mut kek);
    let master_key = opened?;
    if master_key.len() != MASTER_KEY_LEN {
        return Err(StoreError::StoredKeyLength);
    }
    Ok(master_key)
}

} // verus!
