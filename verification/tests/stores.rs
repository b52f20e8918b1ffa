use auth_service::banned_store::{BannedTokenStore, HashsetBannedTokenStore};
use auth_service::email::Email;
use auth_service::errors::TwoFACodeStoreError;
use auth_service::password::HashedPassword;
use auth_service::two_fa::{LoginAttemptId, TwoFaCode};
use auth_service::two_fa_store::{HashmapTwoFACodeStore, TwoFACodeStore};
use auth_service::user::User;
use auth_service::user_store::{HashmapUserStore, UserStore};

const NOW: u64 = 1_700_000_000;

#[test]
fn test_add_user() {
    let mut store = HashmapUserStore::default();
    let mail = Email("test@test.com".to_string());
    let pass = HashedPassword("password@test.com".to_string());
    let user = User::new(mail, pass, false);
    store.add_user(user.clone()).unwrap();
    assert_eq!(store.get_user(&user.email).unwrap(), user);
}

#[test]
fn test_get_user() {
    let mut store = HashmapUserStore::default();
    let user1 = User::new(
        Email("usr1@mail.com".to_string()),
        HashedPassword("password".to_string()),
        false,
    );
    let user2 = User::new(
        Email("usr2@mail.com".to_string()),
        HashedPassword("password".to_string()),
        false,
    );
    store.add_user(user1.clone()).unwrap();
    store.add_user(user2.clone()).unwrap();
    let user_from_store1 = store.get_user(&user1.email).unwrap();
    let user_from_store2 = store.get_user(&user2.email).unwrap();
    assert_eq!(user_from_store1, user1);
    assert_eq!(user_from_store2, user2);
}

#[test]
fn test_validate_user() {
    let mut store = HashmapUserStore::default();
    let hashed = HashedPassword::parse("password").unwrap();
    let user = User::new(Email("usr1@mail.com".to_string()), hashed, false);
    store.add_user(user.clone()).unwrap();
    assert!(store.validate_user(&user.email, "password").is_ok());
    assert!(store.validate_user(&user.email, "wrong_password").is_err());
}

#[test]
fn wrong_password_is_invalid_credentials() {
    let mut store = HashmapUserStore::default();
    let hashed = HashedPassword::parse("password").unwrap();
    let user = User::new(Email("usr1@mail.com".to_string()), hashed, false);
    store.add_user(user.clone()).unwrap();
    assert_eq!(
        store.validate_user(&user.email, "wrong_password"),
        Err(auth_service::errors::UserStoreError::InvalidCredentials)
    );
}

#[test]
fn duplicate_email_is_rejected() {
    let mut store = HashmapUserStore::default();
    let user = User::new(
        Email("test@test.com".to_string()),
        HashedPassword("hash".to_string()),
        false,
    );
    store.add_user(user.clone()).unwrap();
    let again = store.add_user(user);
    assert_eq!(
        again,
        Err(auth_service::errors::UserStoreError::UserAlreadyExists)
    );
}

#[test]
fn unknown_user_is_not_found() {
    let store = HashmapUserStore::default();
    let missing = Email("nobody@mail.com".to_string());
    assert_eq!(
        store.get_user(&missing),
        Err(auth_service::errors::UserStoreError::UserNotFound)
    );
    assert_eq!(
        store.validate_user(&missing, "password"),
        Err(auth_service::errors::UserStoreError::UserNotFound)
    );
}

#[test]
fn test_add_code() {
    let mut store = HashmapTwoFACodeStore::default();
    let mail = Email("test@test.com".to_string());
    let login_attempt_id = LoginAttemptId::default();
    let code = TwoFaCode::default();
    let add_res = store.add_code(mail.clone(), login_attempt_id.clone(), code.clone(), NOW);
    assert_eq!(add_res, Ok(()));
    let result = store.get_code(&mail, NOW).unwrap();
    assert_eq!(result.0, login_attempt_id);
    assert_eq!(result.1, code);
}

#[test]
fn test_remove_code() {
    let mut store = HashmapTwoFACodeStore::default();
    let mail = Email("test@test.com".to_string());
    let login_attempt_id = LoginAttemptId::default();
    let code = TwoFaCode::default();
    store
        .add_code(mail.clone(), login_attempt_id.clone(), code.clone(), NOW)
        .unwrap();
    let remove_res = store.remove_code(&mail);
    assert_eq!(remove_res, Ok(()));

    // Not found
    let another_mail = Email("test2@test.com".to_string());
    let remove_err = store.remove_code(&another_mail);
    assert_eq!(remove_err, Err(TwoFACodeStoreError::LoginAttemptIdNotFound));
}

#[test]
fn test_get_code() {
    let mut store = HashmapTwoFACodeStore::default();
    let mail = Email("test@test.com".to_string());
    let login_attempt_id = LoginAttemptId::default();
    let code = TwoFaCode::default();
    store
        .add_code(mail.clone(), login_attempt_id.clone(), code.clone(), NOW)
        .unwrap();
    let get_res = store.get_code(&mail, NOW);
    assert_eq!(get_res, Ok((login_attempt_id, code)));

    // Not found
    let another_mail = Email("test2@test.com".to_string());
    let get_err = store.get_code(&another_mail, NOW);
    assert_eq!(get_err, Err(TwoFACodeStoreError::LoginAttemptIdNotFound));
}

#[test]
fn code_expires_after_ttl() {
    let mut store = HashmapTwoFACodeStore::default();
    let mail = Email("test@test.com".to_string());
    let id = LoginAttemptId::default();
    let code = TwoFaCode::default();
    store.add_code(mail.clone(), id, code, NOW).unwrap();
    assert!(store.get_code(&mail, NOW + 599).is_ok());
    assert_eq!(
        store.get_code(&mail, NOW + 600),
        Err(TwoFACodeStoreError::LoginAttemptIdNotFound)
    );
}

#[test]
fn second_code_replaces_first() {
    let mut store = HashmapTwoFACodeStore::default();
    let mail = Email("test@test.com".to_string());
    let id1 = LoginAttemptId::default();
    let code1 = TwoFaCode::default();
    let id2 = LoginAttemptId::default();
    let code2 = TwoFaCode::default();
    store
        .add_code(mail.clone(), id1, code1, NOW)
        .unwrap();
    store
        .add_code(mail.clone(), id2.clone(), code2.clone(), NOW + 10)
        .unwrap();
    assert_eq!(store.get_code(&mail, NOW + 10), Ok((id2, code2)));
}

#[test]
fn test_add_token() {
    let mut store = HashsetBannedTokenStore::new();
    store.add_token("token".to_string()).unwrap();
    assert!(store.is_token_banned("token".to_string()));
}

#[test]
fn test_is_token_banned() {
    let mut store = HashsetBannedTokenStore::new();
    assert!(!store.is_token_banned("token".to_string()));

    // add token to store
    store.add_token("token2".to_string()).unwrap();
    assert!(store.is_token_banned("token2".to_string()));
}

#[test]
fn banning_twice_is_reported() {
    let mut store = HashsetBannedTokenStore::new();
    store.add_token("token".to_string()).unwrap();
    assert_eq!(
        store.add_token("token".to_string()),
        Err(auth_service::errors::BannedTokenStoreError::TokenAlreadyBanned)
    );
    assert!(store.is_token_banned("token".to_string()));
}
