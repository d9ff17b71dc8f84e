use vstd::prelude::*;

use crate::text::{i64_text, i64_to_text};

verus! {

/// Every way an operation of the note store can fail.
///
/// Each variant stands for one condition; `error_message` gives the text
/// shown to the user for it.
#[derive(Debug, PartialEq, Eq)]
pub enum StoreError {
    /// A stored payload is too short to hold a nonce and a ciphertext.
    EncryptedPayloadInvalid,
    /// Authenticated decryption rejected the payload.
    DecryptionFailed,
    /// The cipher refused to encrypt the plaintext.
    EncryptionFailed,
    /// The cipher was handed a key whose length is not the one it takes.
    CipherKeyLength,
    /// The master key recovered from the security configuration has the wrong length.
    StoredKeyLength,
    /// A master key handed to the session has the wrong length.
    KeyLength,
    /// The in-memory key slot could not be reached.
    StateUnavailable,
    /// No master key is loaded: the session is locked.
    Locked,
    /// The local key file is absent while encrypted notes exist.
    LocalKeyMissing,
    /// The local key file does not hold a key of the right length.
    LocalKeyFileInvalid,
    /// The database reports a schema version this program does not know.
    UnsupportedSchemaVersion(i64),
    /// A note title longer than allowed.
    TitleTooLong,
    /// A note body larger than allowed.
    ContentTooLarge,
    /// A note colour that is empty or too long.
    ColorInvalid,
    /// A note type outside the known kinds.
    NoteTypeInvalid,
    /// Security was already configured.
    AlreadyConfigured,
    /// A new password shorter than allowed.
    PasswordTooShort,
    /// Password protection is on but no password hash is stored.
    PasswordHashMissing,
    /// No note has the given id.
    NoteNotFound,
    /// A sticky window mode other than `chip` or `expanded`.
    InvalidStickyMode,
    /// A clock reading that does not fit a signed 64-bit millisecond count.
    TimestampOutOfRange,
    /// An outside library reported an error; its own description is kept.
    Outside(String),
    /// The operating system's random source failed, with its description.
    RandomSource(String),
}

/// The text shown to the user for an error.
pub open spec fn error_text(error: StoreError) -> Seq<char> {
    match error {
        StoreError::EncryptedPayloadInvalid => "Encrypted payload is invalid."@,
        StoreError::DecryptionFailed => "Unable to decrypt local data."@,
        StoreError::EncryptionFailed => "Encryption failed."@,
        StoreError::CipherKeyLength => "Invalid Length"@,
        StoreError::StoredKeyLength => "Stored encryption key has an invalid length."@,
        StoreError::KeyLength => "Encryption key has an invalid length."@,
        StoreError::StateUnavailable => "Encryption state is unavailable."@,
        StoreError::Locked => "StickyFlow is locked. Unlock the application first."@,
        StoreError::LocalKeyMissing => "The local encryption key is missing, so existing notes cannot be decrypted."@,
        StoreError::LocalKeyFileInvalid => "The local encryption key file is invalid."@,
        StoreError::TitleTooLong => "Note title cannot exceed 200 characters."@,
        StoreError::ContentTooLarge => "Note content cannot exceed 1 MiB."@,
        StoreError::ColorInvalid => "Note color is invalid."@,
        StoreError::NoteTypeInvalid => "Note type is invalid."@,
        StoreError::AlreadyConfigured => "Security has already been configured."@,
        StoreError::PasswordTooShort => "Password must be at least 8 characters."@,
        StoreError::PasswordHashMissing => "Password lock is enabled but no password hash is stored."@,
        StoreError::NoteNotFound => "Note not found."@,
        StoreError::InvalidStickyMode => "Invalid sticky mode."@,
        StoreError::TimestampOutOfRange => "out of range integral type conversion attempted"@,
        StoreError::UnsupportedSchemaVersion(version) => "Unsupported StickyFlow database schema version: "@ + i64_text(version),
        StoreError::Outside(message) => message@,
        StoreError::RandomSource(message) => message@,
    }
}

/// The text shown to the user for an error.
pub fn error_message(error: &StoreError) -> (text: String)
    ensures
        text@ == error_text(*error),
{
    match error {
        StoreError::EncryptedPayloadInvalid => "Encrypted payload is invalid.".to_owned(),
        StoreError::DecryptionFailed => "Unable to decrypt local data.".to_owned(),
        StoreError::EncryptionFailed => "Encryption failed.".to_owned(),
        StoreError::CipherKeyLength => "Invalid Length".to_owned(),
        StoreError::StoredKeyLength => "Stored encryption key has an invalid length.".to_owned(),
        StoreError::KeyLength => "Encryption key has an invalid length.".to_owned(),
        StoreError::StateUnavailable => "Encryption state is unavailable.".to_owned(),
        StoreError::Locked => "StickyFlow is locked. Unlock the application first.".to_owned(),
        StoreError::LocalKeyMissing => "The local encryption key is missing, so existing notes cannot be decrypted.".to_owned(),
        StoreError::LocalKeyFileInvalid => "The local encryption key file is invalid.".to_owned(),
        StoreError::TitleTooLong => "Note title cannot exceed 200 characters.".to_owned(),
        StoreError::ContentTooLarge => "Note content cannot exceed 1 MiB.".to_owned(),
        StoreError::ColorInvalid => "Note color is invalid.".to_owned(),
        StoreError::NoteTypeInvalid => "Note type is invalid.".to_owned(),
        StoreError::AlreadyConfigured => "Security has already been configured.".to_owned(),
        StoreError::PasswordTooShort => "Password must be at least 8 characters.".to_owned(),
        StoreError::PasswordHashMissing => "Password lock is enabled but no password hash is stored.".to_owned(),
        StoreError::NoteNotFound => "Note not found.".to_owned(),
        StoreError::InvalidStickyMode => "Invalid sticky mode.".to_owned(),
        StoreError::TimestampOutOfRange => "out of range integral type conversion attempted".to_owned(),
        StoreError::UnsupportedSchemaVersion(version) => {
            let mut text = "Unsupported StickyFlow database schema version: ".to_owned();
            text.append(i64_to_text(*version).as_str());
            text
        },
        StoreError::Outside(message) => message.clone(),
        StoreError::RandomSource(message) => message.clone(),
    }
}

} // verus!
