use landz_server::auth::password::{hash_password, verify_password};
use landz_server::encoding::base64_encode;
use landz_server::http::auth::{
    account_creation_failure, auth_success, family_name_available, hashing_failure, login_check,
    login_verdict, CONFLICT, INTERNAL_SERVER_ERROR, UNAUTHORIZED,
};

#[test]
fn test_hash_password() {
    let password = "TestPassword123";
    let hash = hash_password(password).unwrap();

    // Check that hash is not empty
    assert!(!hash.is_empty());

    // Check that hash starts with Argon2 identifier
    assert!(hash.starts_with("$argon2"));
}

#[test]
fn test_verify_password_correct() {
    let password = "CorrectPassword123";
    let hash = hash_password(password).unwrap();

    // Verify with correct password
    assert!(verify_password(password, &hash).unwrap());
}

#[test]
fn test_verify_password_incorrect() {
    let password = "CorrectPassword123";
    let hash = hash_password(password).unwrap();

    // Verify with incorrect password
    assert!(!verify_password("WrongPassword123", &hash).unwrap());
}

#[test]
fn test_different_salts() {
    let password = "SamePassword123";
    let hash1 = hash_password(password).unwrap();
    let hash2 = hash_password(password).unwrap();

    // Same password should produce different hashes (different salts)
    assert_ne!(hash1, hash2);

    // Both should verify correctly
    assert!(verify_password(password, &hash1).unwrap());
    assert!(verify_password(password, &hash2).unwrap());
}

#[test]
fn test_invalid_hash_format() {
    let password = "TestPassword123";
    let invalid_hash = "not-a-valid-hash";

    // Should return error for invalid hash format
    assert!(verify_password(password, invalid_hash).is_err());
}

#[test]
fn invalid_hash_error_names_the_format() {
    let e = verify_password("x", "not-a-valid-hash").unwrap_err();
    assert!(e.starts_with("Invalid hash format: "));
}

#[test]
fn login_of_unknown_player_is_unauthorized() {
    let r = login_check(Ok(None), "pw").unwrap_err();
    assert_eq!(r.status, UNAUTHORIZED);
    assert_eq!(r.body.error, "Invalid credentials");
}

#[test]
fn login_without_hash_requires_migration() {
    let r = login_check(Ok(Some(None)), "pw").unwrap_err();
    assert_eq!(r.status, UNAUTHORIZED);
    assert_eq!(r.body.error, "Account requires password migration");
}

#[test]
fn login_database_error() {
    let r = login_check(Err("down".to_string()), "pw").unwrap_err();
    assert_eq!(r.status, INTERNAL_SERVER_ERROR);
    assert_eq!(r.body.error, "Database error");
}

#[test]
fn login_with_right_and_wrong_password() {
    let hash = hash_password("secret").unwrap();
    assert!(login_check(Ok(Some(Some(hash.clone()))), "secret").is_ok());
    let r = login_check(Ok(Some(Some(hash))), "other").unwrap_err();
    assert_eq!(r.status, UNAUTHORIZED);
    assert_eq!(r.body.error, "Invalid credentials");
    let r = login_check(Ok(Some(Some("garbage".to_string()))), "secret").unwrap_err();
    assert_eq!(r.status, INTERNAL_SERVER_ERROR);
    assert_eq!(r.body.error, "Password verification error");
}

#[test]
fn login_verdict_cases() {
    assert!(login_verdict(Ok(true)).is_ok());
    assert_eq!(login_verdict(Ok(false)).unwrap_err().status, UNAUTHORIZED);
    assert_eq!(login_verdict(Err("x".to_string())).unwrap_err().status, INTERNAL_SERVER_ERROR);
}

#[test]
fn registration_name_checks() {
    assert!(family_name_available(Ok(false)).is_ok());
    let r = family_name_available(Ok(true)).unwrap_err();
    assert_eq!(r.status, CONFLICT);
    assert_eq!(r.body.error, "This family name is already taken");
    let r = family_name_available(Err("x".to_string())).unwrap_err();
    assert_eq!(r.status, INTERNAL_SERVER_ERROR);
    assert_eq!(r.body.error, "Database error");
    assert_eq!(hashing_failure().body.error, "Password processing error");
    assert_eq!(account_creation_failure("dup").body.error, "Failed to create account: dup");
}

#[test]
fn base64_of_known_values() {
    assert_eq!(base64_encode(&b"Man".to_vec()), "TWFu");
    assert_eq!(base64_encode(&b"Ma".to_vec()), "TWE=");
    assert_eq!(base64_encode(&b"M".to_vec()), "TQ==");
    assert_eq!(base64_encode(&vec![]), "");
    assert_eq!(base64_encode(&vec![0xfb, 0xff]), "+/8=");
}

#[test]
fn auth_success_encodes_token() {
    let r = auth_success(&b"hello".to_vec(), 42);
    assert_eq!(r.token, "aGVsbG8=");
    assert_eq!(r.player_id, 42);
}

#[test]
fn a_hash_carries_the_default_argon2id_parameters() {
    let hash = hash_password("").unwrap();
    assert!(hash.starts_with("$argon2id$v=19$m=19456,t=2,p=1$"));
    assert_eq!(verify_password("", &hash), Ok(true));
    assert!(verify_password("x", "argon2id$v=19").is_err());
    assert!(verify_password("x", "").is_err());
}
