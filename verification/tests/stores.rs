use auth_service::data_stores::{
    BannedTokenStore, TwoFACodeStore, TwoFACodeStoreError, UserStore, UserStoreError,
};
use auth_service::email::Email;
use auth_service::hashmap_two_fa_code_store::HashMapTwoFACodeStore;
use auth_service::hashmap_user_store::HashmapUserStore;
use auth_service::hashset_banned_token_store::HashsetBannedTokenStore;
use auth_service::login_attempt_id::LoginAttemptId;
use auth_service::password::HashedPassword;
use auth_service::two_fa_code::TwoFACode;
use auth_service::user::User;

#[test]
fn test_add_code() {
    let mut two_fa_codes = HashMapTwoFACodeStore::default();

    let email = Email::parse("test@example.com".to_owned()).unwrap();
    let login_attempt_id = LoginAttemptId::default();
    let code = TwoFACode::default();

    let result = two_fa_codes.add_code(email.clone(), login_attempt_id, code);

    assert!(result.is_ok());
    assert!(two_fa_codes.get_code(&email).is_ok());
}

#[test]
fn test_remove_code() {
    let mut two_fa_codes = HashMapTwoFACodeStore::default();

    let email = Email::parse("test@example.com".to_owned()).unwrap();
    let login_attempt_id = LoginAttemptId::default();
    let code = TwoFACode::default();

    let result = two_fa_codes.add_code(email.clone(), login_attempt_id, code);

    assert!(result.is_ok());
    assert!(two_fa_codes.get_code(&email).is_ok());

    let result = two_fa_codes.remove_code(&email);
    assert!(result.is_ok());
    assert_eq!(
        two_fa_codes.get_code(&email),
        Err(TwoFACodeStoreError::LoginAttempIdNotFound)
    );
}

#[test]
fn test_get_code() {
    let mut two_fa_codes = HashMapTwoFACodeStore::default();

    let email = Email::parse("test@example.com".to_owned()).unwrap();
    let login_attempt_id = LoginAttemptId::default();
    let code = TwoFACode::default();

    let result = two_fa_codes.add_code(email.clone(), login_attempt_id.clone(), code.clone());

    assert!(result.is_ok());

    let (login_attempt_id2, code2) = two_fa_codes.get_code(&email).unwrap();
    assert_eq!(login_attempt_id, login_attempt_id2);
    assert_eq!(code, code2);
}

#[test]
fn removing_a_missing_code_fails_and_changes_nothing() {
    let mut two_fa_codes = HashMapTwoFACodeStore::default();
    let email = Email::parse("test@example.com".to_owned()).unwrap();

    assert_eq!(
        two_fa_codes.remove_code(&email),
        Err(TwoFACodeStoreError::LoginAttempIdNotFound)
    );
}

#[test]
fn hashmap_user_store_test_add_user() {
    let mut users = HashmapUserStore::default();

    let email = Email::parse("text@example.com".to_owned()).unwrap();
    let password = HashedPassword::parse("1234ABCD".to_owned()).unwrap();

    let new_user = User::new(email, password, false);

    let add_new_user1 = users.add_user(new_user.clone());
    let add_new_user2 = users.add_user(new_user.clone());

    assert_eq!(add_new_user1, Ok(()));
    assert_eq!(add_new_user2, Err(UserStoreError::UserAlreadyExists));
}

#[test]
fn hashmap_user_store_test_get_user() {
    let mut users = HashmapUserStore::default();

    let email = Email::parse("text@example.com".to_owned()).unwrap();
    let password = HashedPassword::parse("1234ABCD".to_owned()).unwrap();
    let new_user = User::new(email, password, false);

    let _ = users.add_user(new_user.clone());

    let get_user1 = users.get_user(&new_user.email);

    let email2 = Email::parse("non-existent-user@example.com".to_owned()).unwrap();
    let get_user2 = users.get_user(&email2);

    assert_eq!(get_user1, Ok(new_user));
    assert_eq!(get_user2, Err(UserStoreError::UserNotFound));
}

#[test]
fn hashmap_user_store_test_validate_user() {
    let mut users = HashmapUserStore::default();

    let email = Email::parse("text@example.com".to_owned()).unwrap();
    let raw_password = "1234ABCD".to_owned();
    let password = HashedPassword::parse(raw_password.clone()).unwrap();
    let new_user = User::new(email, password, false);

    let _ = users.add_user(new_user.clone());

    let validate_user1 = users.validate_user(&new_user.email, &raw_password);

    let raw_password2 = "wrong_password".to_owned();
    let validate_user2 = users.validate_user(&new_user.email, &raw_password2);

    let email3 = Email::parse("non-existent-user@example.com".to_owned()).unwrap();
    let validate_user3 = users.validate_user(&email3, &raw_password);

    assert_eq!(validate_user1, Ok(()));
    assert_eq!(validate_user2, Err(UserStoreError::InvalidCredentials));
    assert_eq!(validate_user3, Err(UserStoreError::UserNotFound));
}

#[test]
fn test_add_token() {
    let mut banned_tokens = HashsetBannedTokenStore::default();

    let token1 = "token1".to_owned();
    let token2 = "token2".to_owned();

    banned_tokens.add_token(&token1).unwrap();
    banned_tokens.add_token(&token2).unwrap();
    banned_tokens.add_token(&token2).unwrap();

    assert_eq!(banned_tokens.check_token(&token1), Ok(true));
    assert_eq!(banned_tokens.check_token(&token2), Ok(true));
}

#[test]
fn test_get_existing_token() {
    let mut banned_tokens = HashsetBannedTokenStore::default();

    let token1 = "token1".to_owned();
    let token2 = "".to_owned();

    banned_tokens.add_token(&token1).unwrap();
    banned_tokens.add_token(&token2).unwrap();

    assert_eq!(banned_tokens.check_token(&token1), Ok(true));
    assert_eq!(banned_tokens.check_token(&token2), Ok(true));
}

#[test]
fn test_get_nonexisting_token() {
    let banned_tokens = HashsetBannedTokenStore::default();

    let token1 = "token1".to_owned();
    let token2 = "".to_owned();

    assert_eq!(banned_tokens.check_token(&token1), Ok(false));
    assert_eq!(banned_tokens.check_token(&token2), Ok(false));
}

#[test]
fn overwriting_a_challenge_invalidates_the_first_pair() {
    let mut two_fa_codes = HashMapTwoFACodeStore::default();

    let email = Email::parse("test@example.com".to_owned()).unwrap();
    let id1 = LoginAttemptId::parse("550e8400-e29b-41d4-a716-446655440000".to_owned()).unwrap();
    let id2 = LoginAttemptId::parse("67e55044-10b1-426f-9247-bb680e5fe0c8".to_owned()).unwrap();
    let code1 = TwoFACode::from_value(111_111);
    let code2 = TwoFACode::from_value(222_222);

    two_fa_codes
        .add_code(email.clone(), id1.clone(), code1.clone())
        .unwrap();
    two_fa_codes
        .add_code(email.clone(), id2.clone(), code2.clone())
        .unwrap();

    let (stored_id, stored_code) = two_fa_codes.get_code(&email).unwrap();
    assert_ne!((stored_id.clone(), stored_code.clone()), (id1, code1));
    assert_eq!((stored_id, stored_code), (id2, code2));
}
