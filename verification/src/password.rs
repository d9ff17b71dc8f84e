use argon2::password_hash::{PasswordHash, PasswordHasher, PasswordVerifier, SaltString};
use argon2::Argon2;
use vstd::prelude::*;

use crate::cipher::{generate_random_bytes, random_source_failed, MASTER_KEY_LEN};
use crate::error::StoreError;
use crate::keywrap::{
    is_unwrap_error, key_unwrap, unwrap_master_key, utf8, wrap_master_key, UnwrapFault,
    ARGON2_MAX_INPUT_LEN,
};
use crate::session::new_master_key;

verus! {

/// Fewest characters a new application password may have.
pub const MIN_PASSWORD_CHARS: usize = 8;

/// Length in bytes of the random salt of a new password hash (the length
/// that `Salt::RECOMMENDED_LENGTH` names).
pub const PHC_SALT_LEN: usize = 16;

/// Fewest salt bytes with which a password can be hashed (Argon2's
/// `MIN_SALT_LEN`).
pub const PHC_MIN_SALT_LEN: usize = 8;

/// Most salt bytes that fit a PHC salt string of 64 characters.
pub const PHC_MAX_SALT_LEN: usize = 48;

/// What reading a text as a PHC password-hash string reports: `None` when it
/// parses, else the description of the parse error.
pub uninterp spec fn phc_parse_error(phc: Seq<char>) -> Option<Seq<char>>;

/// Whether a text parses as a PHC password-hash string.
pub open spec fn phc_string_parses(phc: Seq<char>) -> bool {
    phc_parse_error(phc) is None
}

/// Whether Argon2 accepts a password against a PHC password-hash string
/// (recomputing the hash with the algorithm, version, parameters and salt
/// that the string records).
pub uninterp spec fn phc_verifies(phc: Seq<char>, password: Seq<u8>) -> bool;

/// Hashes a password into a PHC string with `Argon2::default()`: the salt
/// bytes become a `SaltString` (`SaltString::encode_b64`), then
/// `PasswordHasher::hash_password` runs and the hash is written with its
/// `Display`.
///
/// Trusted: `encode_b64` accepts up to 48 bytes (64 characters); hashing then
/// fails only for a password longer than Argon2's `MAX_PWD_LEN` or a salt
/// shorter than its `MIN_SALT_LEN`, since the default parameters and output
/// length are valid. The string parses back as a PHC hash, and verifying the
/// same password against it succeeds, as the crate's hash/verify pair
/// documents. The crate's error is kept as its description: a password that
/// is too long is reported as `password_hash::Error::Password`. A salt of fewer
/// than three bytes encodes to fewer than the four characters that `Salt`
/// takes, and `SaltString::as_salt` then panics, so it is left out.
#[verifier::external_body]
fn argon2_hash_phc(password: &str, salt: &[u8]) -> (r: Result<String, StoreError>)
    requires
        salt@.len() >= 3,
    ensures
        utf8(password@).len() <= ARGON2_MAX_INPUT_LEN && PHC_MIN_SALT_LEN <= salt@.len() <= PHC_MAX_SALT_LEN ==> r is Ok,
        utf8(password@).len() > ARGON2_MAX_INPUT_LEN && PHC_MIN_SALT_LEN <= salt@.len() <= PHC_MAX_SALT_LEN
            ==> r is Err,
        r matches Err(StoreError::Outside(m)) ==> (utf8(password@).len() > ARGON2_MAX_INPUT_LEN
            && PHC_MIN_SALT_LEN <= salt@.len() <= PHC_MAX_SALT_LEN ==> m@ == "invalid password"@),
        r matches Ok(phc) ==> phc_string_parses(phc@) && phc_verifies(phc@, utf8(password@)),
        r matches Err(e) ==> e is Outside,
{
    let salt = SaltString::encode_b64(salt).map_err(|error| StoreError::Outside(error.to_string()))?;
    Argon2::default()
        .hash_password(password.as_bytes(), &salt)
        .map(|hash| hash.to_string())
        .map_err(|error| StoreError::Outside(error.to_string()))
}

/// Checks a password against a stored PHC string with `Argon2::default()`:
/// the string is read with `PasswordHash::new`, then
/// `PasswordVerifier::verify_password` runs on it.
///
/// Trusted: a string that does not parse is an error, kept as its
/// description, which depends on the string alone; otherwise the result says
/// whether verification succeeded.
#[verifier::external_body]
fn argon2_verify_phc(password: &str, phc: &str) -> (r: Result<bool, StoreError>)
    ensures
        r is Ok <==> phc_string_parses(phc@),
        r matches Err(StoreError::Outside(m)) ==> phc_parse_error(phc@) == Some(m@),
        r matches Ok(accepted) ==> accepted == phc_verifies(phc@, utf8(password@)),
        r matches Err(e) ==> e is Outside,
{
    let parsed = PasswordHash::new(phc).map_err(|error| StoreError::Outside(error.to_string()))?;
    Ok(Argon2::default().verify_password(password.as_bytes(), &parsed).is_ok())
}

/// The persisted security settings.
#[derive(Debug, Clone, PartialEq, Eq)]
pub struct SecurityConfig {
    /// Whether an application password protects the master key.
    pub enabled: bool,
    /// PHC string of the application password.
    pub password_hash: Option<String>,
    /// Base64 salt from which the key-encryption key is derived.
    pub kdf_salt: Option<String>,
    /// Base64 master key, encrypted under the key-encryption key.
    pub wrapped_master_key: Option<String>,
}

/// What the user interface is told about security before unlocking.
#[derive(Debug, Clone, Copy, PartialEq, Eq)]
pub struct SecurityStatus {
    /// Whether security was configured at all.
    pub configured: bool,
    /// Whether an application password is required.
    pub enabled: bool,
}

/// The status that a stored configuration (or its absence) shows.
pub fn security_status(config: &Option<SecurityConfig>) -> (status: SecurityStatus)
    ensures
        status.configured == config is Some,
        status.enabled == (config matches Some(c) && c.enabled),
{
    match config {
        Some(c) => SecurityStatus { configured: true, enabled: c.enabled },
        None => SecurityStatus { configured: false, enabled: false },
    }
}

/// Whether a configuration keeps the master key in the local key file (set
/// up without a password), so that the session opens without one.
pub fn uses_local_key(config: &Option<SecurityConfig>) -> (b: bool)
    ensures
        b == (config matches Some(c) && !c.enabled),
{
    match config {
        Some(c) => !c.enabled,
        None => false,
    }
}

/// A configuration under which a password unlocks a master key: protection
/// is on, the password verifies against the stored hash, and the stored
/// wrapped key unwraps, under that password, to the master key.
pub open spec fn unlocks_with(config: SecurityConfig, password: Seq<char>, master_key: Seq<u8>) -> bool {
    &&& config.enabled
    &&& match config.password_hash {
        Some(h) => phc_string_parses(h@) && phc_verifies(h@, utf8(password)),
        None => false,
    }
    &&& match (config.kdf_salt, config.wrapped_master_key) {
        (Some(s), Some(w)) => key_unwrap(password, s@, w@) == Ok::<Seq<u8>, UnwrapFault>(
            master_key,
        ),
        _ => false,
    }
}

/// The outcome of setting up an application password.
pub struct PasswordSetup {
    /// The configuration to persist.
    pub config: SecurityConfig,
    /// The new master key, to load into the session.
    pub master_key: Vec<u8>,
}

/// Sets up password protection: hashes the password with a fresh random
/// salt, creates a fresh master key and wraps it under the password.
pub fn setup_password(already_configured: bool, password: &str) -> (r: Result<
    PasswordSetup,
    StoreError,
>)
    ensures
        already_configured ==> r matches Err(StoreError::AlreadyConfigured),
        !already_configured && password@.len() < MIN_PASSWORD_CHARS ==> r matches Err(
            StoreError::PasswordTooShort,
        ),
        !already_configured && password@.len() >= MIN_PASSWORD_CHARS && utf8(password@).len()
            <= ARGON2_MAX_INPUT_LEN ==> r is Ok || random_source_failed(r),
        !already_configured && password@.len() >= MIN_PASSWORD_CHARS && utf8(password@).len()
            > ARGON2_MAX_INPUT_LEN ==> (r matches Err(StoreError::Outside(m)) && m@
            == "invalid password"@) || random_source_failed(r),
        r matches Ok(setup) ==> setup.master_key@.len() == MASTER_KEY_LEN && unlocks_with(
            setup.config,
            password@,
            setup.master_key@,
        ),
{
    if already_configured {
        return Err(StoreError::AlreadyConfigured);
    }
    if password.unicode_len() < MIN_PASSWORD_CHARS {
        return Err(StoreError::PasswordTooShort);
    }
    let password_salt = generate_random_bytes(PHC_SALT_LEN)?;
    let password_hash = argon2_hash_phc(password, password_salt.as_slice())?;
    let master_key = new_master_key()?;
    let (kdf_salt, wrapped_master_key) = wrap_master_key(password, master_key.as_slice())?;
    Ok(PasswordSetup {
        config: SecurityConfig {
            enabled: true,
            password_hash: Some(password_hash),
            kdf_salt: Some(kdf_salt),
            wrapped_master_key: Some(wrapped_master_key),
        },
        master_key,
    })
}

/// The configuration written when the user declines a password: the master
/// key then lives in the local key file.
pub fn skip_password_setup(already_configured: bool) -> (r: Result<SecurityConfig, StoreError>)
    ensures
        already_configured ==> r matches Err(StoreError::AlreadyConfigured),
        !already_configured ==> r == Ok::<SecurityConfig, StoreError>(
            SecurityConfig {
                enabled: false,
                password_hash: None,
                kdf_salt: None,
                wrapped_master_key: None,
            },
        ),
{
    if already_configured {
        return Err(StoreError::AlreadyConfigured);
    }
    Ok(SecurityConfig { enabled: false, password_hash: None, kdf_salt: None, wrapped_master_key: None })
}

/// What an unlock attempt with a password does, by the stored configuration.
pub enum UnlockPlan {
    /// Security was never configured: nothing unlocks.
    NotConfigured,
    /// No password is used: the local key file holds the master key.
    UseLocalKey,
    /// Protection is on but no password hash is stored.
    HashMissing,
    /// The stored password hash is not a PHC string.
    HashInvalid,
    /// The password does not verify.
    Rejected,
    /// The password verifies and the stored wrapped key is unwrapped.
    Unwrap(Result<Seq<u8>, UnwrapFault>),
    /// The password verifies but no wrapped key is stored yet: a fresh master
    /// key is created and wrapped.
    Migrate,
}

/// The plan that a configuration and a password call for.
pub open spec fn unlock_plan(config: Option<SecurityConfig>, password: Seq<char>) -> UnlockPlan {
    match config {
        None => UnlockPlan::NotConfigured,
        Some(c) => if !c.enabled {
            UnlockPlan::UseLocalKey
        } else {
            match c.password_hash {
                None => UnlockPlan::HashMissing,
                Some(h) => if !phc_string_parses(h@) {
                    UnlockPlan::HashInvalid
                } else if !phc_verifies(h@, utf8(password)) {
                    UnlockPlan::Rejected
                } else {
                    match (c.kdf_salt, c.wrapped_master_key) {
                        (Some(s), Some(w)) => UnlockPlan::Unwrap(key_unwrap(password, s@, w@)),
                        _ => UnlockPlan::Migrate,
                    }
                }
            }
        },
    }
}

/// The result of an unlock attempt.
pub enum Unlock {
    /// Security was never configured.
    NotConfigured,
    /// The local key file is to be loaded.
    UseLocalKey,
    /// The password was refused.
    Rejected,
    /// The password unlocked this master key; a configuration to persist comes
    /// with it when the wrapped key had to be created.
    Unlocked { master_key: Vec<u8>, updated_config: Option<SecurityConfig> },
}

/// Checks a password against the stored configuration and recovers the
/// master key.
pub fn unlock_with_password(config: Option<SecurityConfig>, password: &str) -> (r: Result<
    Unlock,
    StoreError,
>)
    ensures
        match unlock_plan(config, password@) {
            UnlockPlan::NotConfigured => r matches Ok(Unlock::NotConfigured),
            UnlockPlan::UseLocalKey => r matches Ok(Unlock::UseLocalKey),
            UnlockPlan::HashMissing => r matches Err(StoreError::PasswordHashMissing),
            UnlockPlan::HashInvalid => r matches Err(StoreError::Outside(m)) && match config {
                Some(c) => match c.password_hash {
                    Some(h) => phc_parse_error(h@) == Some(m@),
                    None => false,
                },
                None => false,
            },
            UnlockPlan::Rejected => r matches Ok(Unlock::Rejected),
            UnlockPlan::Unwrap(Ok(key)) => r matches Ok(
                Unlock::Unlocked { master_key, updated_config: None },
            ) && master_key@ == key,
            UnlockPlan::Unwrap(Err(fault)) => r matches Err(e) && config matches Some(c)
                && c.kdf_salt matches Some(s) && c.wrapped_master_key matches Some(w)
                && is_unwrap_error(password@, s@, w@, fault, e),
            UnlockPlan::Migrate => if utf8(password@).len() <= ARGON2_MAX_INPUT_LEN {
                (r matches Ok(Unlock::Unlocked { master_key, updated_config: Some(updated) }) && {
                    &&& master_key@.len() == MASTER_KEY_LEN
                    &&& unlocks_with(updated, password@, master_key@)
                    &&& config matches Some(c) && updated.password_hash == c.password_hash
                }) || random_source_failed(r)
            } else {
                (r matches Err(StoreError::Outside(m)) && m@ == "password is too long"@)
                    || random_source_failed(r)
            },
        },
{
    let mut config = match config {
        None => return Ok(Unlock::NotConfigured),
        Some(c) => c,
    };
    if !config.enabled {
        return Ok(Unlock::UseLocalKey);
    }
    let accepted = match &config.password_hash {
        None => return Err(StoreError::PasswordHashMissing),
        Some(stored_hash) => argon2_verify_phc(password, stored_hash.as_str())?,
    };
    if !accepted {
        return Ok(Unlock::Rejected);
    }
    match (&config.kdf_salt, &config.wrapped_master_key) {
        (Some(salt), Some(wrapped)) => {
            let master_key = unwrap_master_key(password, salt.as_str(), wrapped.as_str())?;
            Ok(Unlock::Unlocked { master_key, updated_config: None })
        },
        _ => {
            let master_key = new_master_key()?;
            let (salt, wrapped) = wrap_master_key(password, master_key.as_slice())?;
            config.kdf_salt = Some(salt);
            config.wrapped_master_key = Some(wrapped);
            Ok(Unlock::Unlocked { master_key, updated_config: Some(config) })
        },
    }
}

/// A configuration that a password unlocks leads an unlock attempt with that
/// password to the master key it holds: what `setup_password` stores, the
/// same password recovers.
pub proof fn lemma_unlock_after_setup(config: SecurityConfig, password: Seq<char>, master_key: Seq<u8>)
    requires
        unlocks_with(config, password, master_key),
    ensures
        unlock_plan(Some(config), password) == UnlockPlan::Unwrap(
            Ok::<Seq<u8>, UnwrapFault>(master_key),
        ),
{
}

/// With password protection on, a master key comes out of an unlock attempt
/// only when the password verifies against the stored hash.
pub proof fn lemma_unlock_needs_verified_password(config: SecurityConfig, password: Seq<char>)
    requires
        config.enabled,
    ensures
        (unlock_plan(Some(config), password) is Unwrap || unlock_plan(Some(config), password) is Migrate)
            ==> (config.password_hash matches Some(h) && phc_verifies(h@, utf8(password))),
{
}

} // verus!
