use agent_lock::auth::{set_credential, validate_pin, verify_pin_internal, AuthConfig, ValidationError};

#[test]
fn test_hash_consistency() {
    let pin = "1234";
    let hash1 = AuthConfig::hash_pin(pin);
    let hash2 = AuthConfig::hash_pin(pin);
    assert_eq!(hash1, hash2);
}

#[test]
fn test_verify_correct_pin() {
    let config = AuthConfig::new("1234");
    assert!(config.verify("1234"));
}

#[test]
fn test_verify_incorrect_pin() {
    let config = AuthConfig::new("1234");
    assert!(!config.verify("5678"));
}

#[test]
fn hash_is_lowercase_hex_sha256() {
    assert_eq!(
        AuthConfig::hash_pin("1234"),
        "03ac674216f3e15c761ee1a5e255f067953623c8b388b4459e13f978d7c846f4"
    );
}

#[test]
fn stored_digest_is_not_the_pin() {
    let config = AuthConfig::new("1234");
    assert_eq!(config.pin_hash.len(), 64);
    assert_ne!(config.pin_hash, "1234");
}

#[test]
fn every_valid_length_round_trips() {
    for pin in ["1234", "12345", "000000", "9876543", "12345678"] {
        let config = set_credential(pin, pin).unwrap();
        assert!(config.verify(pin));
    }
}

#[test]
fn other_pins_do_not_verify() {
    let config = set_credential("4321", "4321").unwrap();
    for other in ["1234", "43210", "0000", "43211234"] {
        assert!(!config.verify(other));
    }
}

#[test]
fn validate_accepts_four_to_eight_digits() {
    assert_eq!(validate_pin("0000"), Ok(()));
    assert_eq!(validate_pin("12345678"), Ok(()));
}

#[test]
fn validate_rejects_bad_lengths() {
    assert_eq!(validate_pin(""), Err(ValidationError::BadFormat));
    assert_eq!(validate_pin("123"), Err(ValidationError::BadFormat));
    assert_eq!(validate_pin("123456789"), Err(ValidationError::BadFormat));
}

#[test]
fn validate_rejects_non_digits() {
    assert_eq!(validate_pin("12a4"), Err(ValidationError::BadFormat));
    assert_eq!(validate_pin("12 34"), Err(ValidationError::BadFormat));
    assert_eq!(validate_pin("-123"), Err(ValidationError::BadFormat));
    assert_eq!(validate_pin("\u{ff11}\u{ff12}\u{ff13}\u{ff14}"), Err(ValidationError::BadFormat));
    assert_eq!(validate_pin("\u{0661}\u{0662}\u{0663}\u{0664}"), Err(ValidationError::BadFormat));
}

#[test]
fn set_credential_reports_bad_format_before_mismatch() {
    assert!(matches!(set_credential("12a4", "1234"), Err(ValidationError::BadFormat)));
    assert!(matches!(set_credential("123", "123"), Err(ValidationError::BadFormat)));
}

#[test]
fn set_credential_reports_mismatch() {
    assert!(matches!(set_credential("1234", "1235"), Err(ValidationError::Mismatch)));
    assert!(matches!(set_credential("1234", ""), Err(ValidationError::Mismatch)));
}

#[test]
fn set_credential_stores_the_digest() {
    let config = set_credential("1234", "1234").unwrap();
    assert_eq!(config.pin_hash, AuthConfig::hash_pin("1234"));
}

#[test]
fn missing_store_verifies_nothing() {
    assert!(!verify_pin_internal(&None, "1234"));
}

#[test]
fn corrupt_store_verifies_nothing() {
    let corrupt = Some(AuthConfig { pin_hash: String::from("not a digest") });
    assert!(!verify_pin_internal(&corrupt, "1234"));
}

#[test]
fn loaded_store_verifies_its_pin() {
    let stored = Some(AuthConfig::new("2468"));
    assert!(verify_pin_internal(&stored, "2468"));
    assert!(!verify_pin_internal(&stored, "1357"));
}
