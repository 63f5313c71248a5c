use argon2::password_hash::{PasswordHasher, SaltString};
use auth_service::email::Email;
use auth_service::error::AuthAPIError;
use auth_service::login_attempt_id::LoginAttemptId;
use auth_service::password::HashedPassword;
use auth_service::two_fa_code::TwoFACode;

#[test]
fn test_valid_input() {
    let email = Email::parse("test@example.com".to_owned()).unwrap();

    assert_eq!(email.as_str(), "test@example.com");
}

#[test]
fn email_test_asref_impl() {
    let email = Email::parse("test@example.com".to_owned()).unwrap();
    let email = email.as_str();

    assert_eq!(email, "test@example.com");
}

#[test]
fn test_invalid_input() {
    let test_cases = [Email::parse("testexample.com".to_owned())];

    for test_case in test_cases {
        assert_eq!(test_case, Err(AuthAPIError::InvalidCredentials));
    }
}

#[test]
fn test_valid_password() {
    let raw_password = "RustOrBust456!".to_owned();
    let raw_password_wrong = "RustOrBust4567!".to_owned();
    let password = HashedPassword::parse(raw_password.clone()).unwrap();

    assert!(password.verify_raw_password(&raw_password));
    assert!(!password.verify_raw_password(&raw_password_wrong));
}

#[test]
fn password_test_asref_impl() {
    let password1 = HashedPassword::parse("RustOrBust456!".to_owned()).unwrap();
    let password2 = HashedPassword::parse_password_hash(password1.as_str().to_owned()).unwrap();

    assert_eq!(password1, password2);
}

#[test]
fn test_invalid_password() {
    let test_cases = [
        HashedPassword::parse("1234567".to_owned()),
        HashedPassword::parse("badpass".to_owned()),
    ];

    for test_case in test_cases {
        assert_eq!(test_case, Err(AuthAPIError::InvalidCredentials));
    }
}

#[test]
fn can_parse_valid_argon2_hash() {
    let raw_password = "TestPassword123";
    let salt = SaltString::encode_b64(&[7u8; 16]).unwrap();
    let argon2 = argon2::Argon2::new(
        argon2::Algorithm::Argon2id,
        argon2::Version::V0x13,
        argon2::Params::new(15000, 2, 1, None).unwrap(),
    );

    let hash_string = argon2
        .hash_password(raw_password.as_bytes(), &salt)
        .unwrap()
        .to_string();

    let hash_password = HashedPassword::parse_password_hash(hash_string.clone()).unwrap();

    assert_eq!(hash_password.as_str(), hash_string.as_str());
    assert!(hash_password.as_str().starts_with("$argon2id$v=19$"));
}

#[test]
fn stored_hash_must_be_well_formed() {
    assert!(HashedPassword::parse_password_hash("not a phc record".to_owned()).is_err());
    assert!(HashedPassword::parse_password_hash(String::new()).is_err());
}

#[test]
fn two_fa_code_has_six_digits_with_leading_zeros() {
    let code = TwoFACode::from_value(42);
    assert_eq!(code.as_str(), "000042");

    let code = TwoFACode::from_value(0);
    assert_eq!(code.as_str(), "000000");

    let code = TwoFACode::from_value(999_999);
    assert_eq!(code.as_str(), "999999");
}

#[test]
fn two_fa_code_generation_is_six_digits() {
    for _ in 0..32 {
        let code = TwoFACode::default();
        assert_eq!(code.as_str().len(), 6);
        assert!(code.as_str().chars().all(|c| c.is_ascii_digit()));
    }
}

#[test]
fn two_fa_code_parse_accepts_exactly_six_digits() {
    assert!(TwoFACode::parse("123456".to_owned()).is_ok());
    assert!(TwoFACode::parse("000042".to_owned()).is_ok());
    assert!(TwoFACode::parse("12345".to_owned()).is_err());
    assert!(TwoFACode::parse("1234567".to_owned()).is_err());
    assert!(TwoFACode::parse("12a456".to_owned()).is_err());
    assert!(TwoFACode::parse("+12345".to_owned()).is_err());
    assert!(TwoFACode::parse(String::new()).is_err());

    let parsed = TwoFACode::parse("000042".to_owned()).unwrap();
    assert_eq!(parsed, TwoFACode::from_value(42));
}

#[test]
fn login_attempt_id_accepts_only_uuids() {
    assert!(LoginAttemptId::parse("550e8400-e29b-41d4-a716-446655440000".to_owned()).is_ok());
    assert!(LoginAttemptId::parse("some_id".to_owned()).is_err());
    assert!(LoginAttemptId::parse("1234-asddf548-df".to_owned()).is_err());
    assert!(LoginAttemptId::parse(String::new()).is_err());
}

#[test]
fn login_attempt_id_default_round_trips() {
    let id = LoginAttemptId::default();
    let reparsed = LoginAttemptId::parse(id.as_str().to_owned()).unwrap();
    assert_eq!(id, reparsed);
}

#[test]
fn error_outcomes_map_to_fixed_statuses_and_messages() {
    assert_eq!(AuthAPIError::UserAlreadyExists.status_code(), 409);
    assert_eq!(AuthAPIError::UserAlreadyExists.message(), "User already exists");
    assert_eq!(AuthAPIError::InvalidCredentials.status_code(), 400);
    assert_eq!(AuthAPIError::InvalidCredentials.message(), "Invalid credentials");
    assert_eq!(AuthAPIError::IncorrectCredentials.status_code(), 401);
    assert_eq!(AuthAPIError::IncorrectCredentials.message(), "Incorrect credentials");
    assert_eq!(AuthAPIError::MissingToken.status_code(), 400);
    assert_eq!(AuthAPIError::MissingToken.message(), "Missing token");
    assert_eq!(AuthAPIError::InvalidToken.status_code(), 401);
    assert_eq!(AuthAPIError::InvalidToken.message(), "Invalid token");
    assert_eq!(AuthAPIError::UnexpectedError.status_code(), 500);
    assert_eq!(AuthAPIError::UnexpectedError.message(), "Unexpected error");
}
