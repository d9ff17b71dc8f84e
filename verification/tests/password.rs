use stickyflow::error::StoreError;
use stickyflow::password::{
    security_status, setup_password, skip_password_setup, unlock_with_password, uses_local_key,
    SecurityConfig, SecurityStatus, Unlock,
};

const PASSWORD: &str = "correct horse battery";

#[test]
fn setup_then_unlock_gives_back_the_master_key() {
    let setup = setup_password(false, PASSWORD).unwrap();
    assert_eq!(setup.master_key.len(), 32);
    assert!(setup.config.enabled);
    assert!(setup.config.password_hash.as_deref().unwrap().starts_with("$argon2id$"));
    match unlock_with_password(Some(setup.config.clone()), PASSWORD).unwrap() {
        Unlock::Unlocked { master_key, updated_config } => {
            assert_eq!(master_key, setup.master_key);
            assert!(updated_config.is_none());
        }
        _ => panic!("the password set up must unlock"),
    }
}

#[test]
fn another_password_is_rejected() {
    let setup = setup_password(false, PASSWORD).unwrap();
    assert!(matches!(unlock_with_password(Some(setup.config), "not the password"), Ok(Unlock::Rejected)));
}

#[test]
fn setup_refuses_when_already_configured() {
    assert!(matches!(setup_password(true, PASSWORD), Err(StoreError::AlreadyConfigured)));
    assert!(matches!(setup_password(true, "short"), Err(StoreError::AlreadyConfigured)));
}

#[test]
fn setup_counts_characters_not_bytes() {
    assert!(matches!(setup_password(false, "1234567"), Err(StoreError::PasswordTooShort)));
    // Seven characters, fourteen bytes.
    assert!(matches!(setup_password(false, "ééééééé"), Err(StoreError::PasswordTooShort)));
    assert!(setup_password(false, "éééééééé").is_ok());
}

#[test]
fn skipping_the_password_writes_a_disabled_configuration() {
    assert_eq!(
        skip_password_setup(false),
        Ok(SecurityConfig { enabled: false, password_hash: None, kdf_salt: None, wrapped_master_key: None })
    );
    assert_eq!(skip_password_setup(true), Err(StoreError::AlreadyConfigured));
}

#[test]
fn unlocking_without_configuration_does_nothing() {
    assert!(matches!(unlock_with_password(None, PASSWORD), Ok(Unlock::NotConfigured)));
}

#[test]
fn unlocking_without_password_protection_uses_the_local_key() {
    let config = skip_password_setup(false).unwrap();
    assert!(matches!(unlock_with_password(Some(config), "anything"), Ok(Unlock::UseLocalKey)));
}

#[test]
fn unlocking_without_a_stored_hash_fails() {
    let config = SecurityConfig { enabled: true, password_hash: None, kdf_salt: None, wrapped_master_key: None };
    assert!(matches!(unlock_with_password(Some(config), PASSWORD), Err(StoreError::PasswordHashMissing)));
}

#[test]
fn unlocking_with_a_malformed_hash_fails() {
    let config = SecurityConfig {
        enabled: true,
        password_hash: Some("not a hash".to_string()),
        kdf_salt: None,
        wrapped_master_key: None,
    };
    let expected = argon2::password_hash::PasswordHash::new("not a hash").unwrap_err().to_string();
    assert_eq!(unlock_with_password(Some(config), PASSWORD).err(), Some(StoreError::Outside(expected)));
}

#[test]
fn unlocking_a_configuration_without_wrapped_key_creates_one() {
    let mut config = setup_password(false, PASSWORD).unwrap().config;
    config.kdf_salt = None;
    config.wrapped_master_key = None;
    let (master_key, updated) = match unlock_with_password(Some(config.clone()), PASSWORD).unwrap() {
        Unlock::Unlocked { master_key, updated_config: Some(updated) } => (master_key, updated),
        _ => panic!("a verified password must unlock and store a wrapped key"),
    };
    assert_eq!(master_key.len(), 32);
    assert_eq!(updated.password_hash, config.password_hash);
    assert!(updated.kdf_salt.is_some() && updated.wrapped_master_key.is_some());
    match unlock_with_password(Some(updated), PASSWORD).unwrap() {
        Unlock::Unlocked { master_key: again, updated_config: None } => assert_eq!(again, master_key),
        _ => panic!("the migrated configuration must unlock"),
    }
}

#[test]
fn unlocking_with_a_damaged_wrapped_key_fails() {
    let mut config = setup_password(false, PASSWORD).unwrap().config;
    config.wrapped_master_key = Some("AAAAAAAAAAAAAAAAAAAAAAAAAAAAAAAAAAAAAAAAAAAAAAAAAAAAAAAAAAAA".to_string());
    assert!(matches!(unlock_with_password(Some(config), PASSWORD), Err(StoreError::DecryptionFailed)));
}

#[test]
fn status_reports_configuration() {
    assert_eq!(security_status(&None), SecurityStatus { configured: false, enabled: false });
    let disabled = skip_password_setup(false).unwrap();
    assert_eq!(security_status(&Some(disabled.clone())), SecurityStatus { configured: true, enabled: false });
    assert!(uses_local_key(&Some(disabled)));
    assert!(!uses_local_key(&None));
    let enabled = SecurityConfig { enabled: true, password_hash: None, kdf_salt: None, wrapped_master_key: None };
    assert_eq!(security_status(&Some(enabled.clone())), SecurityStatus { configured: true, enabled: true });
    assert!(!uses_local_key(&Some(enabled)));
}

#[test]
fn an_eight_character_password_is_accepted() {
    let setup = setup_password(false, "12345678").unwrap();
    assert_eq!(setup.master_key.len(), 32);
    assert!(setup.config.kdf_salt.is_some());
    assert!(setup.config.wrapped_master_key.is_some());
    // The PHC string carries a 16-byte salt: 22 base64 characters without padding.
    let hash = setup.config.password_hash.unwrap();
    let fields: Vec<&str> = hash.split('$').collect();
    assert_eq!(fields[4].len(), 22);
}

#[test]
fn two_setups_use_different_salts_and_keys() {
    let first = setup_password(false, PASSWORD).unwrap();
    let second = setup_password(false, PASSWORD).unwrap();
    assert_ne!(first.config.password_hash, second.config.password_hash);
    assert_ne!(first.master_key, second.master_key);
}
