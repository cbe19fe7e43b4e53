use auth_service::{
    compute_password_hash, decode_two_fa_pair, encode_two_fa_pair, get_key, verify_password_hash,
    BannedTokenStore, BannedTokenStoreError, Email, HashmapTwoFACodeStore, HashmapUserStore,
    HashsetBannedTokenStore, LoginAttemptId, Password, TwoFACode, TwoFACodeStore, User, UserStore,
    UserStoreError,
};

#[test]
fn test_add_token() {
    let mut token_store = HashsetBannedTokenStore::default();

    assert_eq!(token_store.add_token("token".to_string()), Ok(()));

    assert_eq!(
        token_store.add_token("token".to_string()),
        Err(BannedTokenStoreError::TokenAlreadyExists)
    );
}

#[test]
fn banned_store_tells_members_apart() {
    let mut token_store = HashsetBannedTokenStore::default();
    assert_eq!(token_store.contains_token("token"), Ok(false));
    assert_eq!(token_store.add_token("token".to_string()), Ok(()));
    assert_eq!(token_store.contains_token("token"), Ok(true));
    assert_eq!(token_store.contains_token("other"), Ok(false));
}

#[test]
fn test_add_code() {
    let mut store = HashmapTwoFACodeStore::default();
    let email = Email::parse("user@example.com").unwrap();
    let login_attempt_id = LoginAttemptId::parse(uuid::Uuid::new_v4().to_string()).unwrap();
    let fa_code = TwoFACode::parse("123456".to_string()).unwrap();

    assert!(store
        .add_code(email.clone(), login_attempt_id.clone(), fa_code.clone())
        .is_ok());
}

#[test]
fn test_remove_code() {
    let mut store = HashmapTwoFACodeStore::default();
    let email = Email::parse("user@example.com").unwrap();
    let login_attempt_id = LoginAttemptId::parse(uuid::Uuid::new_v4().to_string()).unwrap();
    let fa_code = TwoFACode::parse("123456".to_string()).unwrap();

    assert!(store
        .add_code(email.clone(), login_attempt_id.clone(), fa_code.clone())
        .is_ok());

    let code_store = store.get_code(&email).unwrap();

    assert_eq!(code_store, (login_attempt_id, fa_code));

    store.remove_code(&email).unwrap();

    assert!(store.get_code(&email).is_err());
}

#[test]
fn test_get_code() {
    let mut store = HashmapTwoFACodeStore::default();
    let email = Email::parse("user@example.com").unwrap();
    let login_attempt_id = LoginAttemptId::parse(uuid::Uuid::new_v4().to_string()).unwrap();
    let fa_code = TwoFACode::parse("123456".to_string()).unwrap();

    assert!(store
        .add_code(email.clone(), login_attempt_id.clone(), fa_code.clone())
        .is_ok());

    let code_store = store.get_code(&email).unwrap();

    assert_eq!(code_store, (login_attempt_id, fa_code));
}

#[test]
fn two_fa_store_overwrites_pending_challenge() {
    let mut store = HashmapTwoFACodeStore::default();
    let email = Email::parse("user@example.com").unwrap();
    let first = (LoginAttemptId::default(), TwoFACode::parse("111111".to_string()).unwrap());
    let second = (LoginAttemptId::default(), TwoFACode::parse("222222".to_string()).unwrap());

    assert!(store.add_code(email.clone(), first.0.clone(), first.1.clone()).is_ok());
    assert!(store.add_code(email.clone(), second.0.clone(), second.1.clone()).is_ok());

    assert_eq!(store.get_code(&email).unwrap(), second);
}

#[test]
fn two_fa_store_remove_of_absent_email_fails() {
    let mut store = HashmapTwoFACodeStore::default();
    let email = Email::parse("user@example.com").unwrap();
    assert!(store.remove_code(&email).is_err());
}

#[test]
fn test_add_user() {
    let mut user_store = HashmapUserStore::default();

    let user = User::new(
        Email::parse("user@example.com").unwrap(),
        Password::parse("password").unwrap(),
        false,
    );

    assert_eq!(user_store.add_user(user.clone()), Ok(()));

    assert_eq!(
        user_store.add_user(user),
        Err(UserStoreError::UserAlreadyExists)
    );
}

#[test]
fn test_get_user() {
    let mut user_store = HashmapUserStore::default();

    let user = User::new(
        Email::parse("user@example.com").unwrap(),
        Password::parse("password").unwrap(),
        false,
    );

    assert_eq!(user_store.add_user(user.clone()), Ok(()));

    assert_eq!(
        user_store
            .get_user(&user.email)
            .expect("Failed to get the user"),
        user
    );

    assert_eq!(
        user_store.get_user(&Email::parse("another@example.com").unwrap()),
        Err(UserStoreError::UserNotFound)
    );
}

#[test]
fn test_validate_user() {
    let mut user_store = HashmapUserStore::default();

    let user = User::new(
        Email::parse("user@example.com").unwrap(),
        Password::parse("password").unwrap(),
        false,
    );

    assert_eq!(user_store.add_user(user.clone()), Ok(()));

    assert_eq!(
        user_store.validate_user(&user.email, &user.password),
        Ok(())
    );

    assert_eq!(
        user_store.validate_user(&user.email, &Password::parse("wrong password").unwrap()),
        Err(UserStoreError::InvalidCredentials)
    );
}

#[test]
fn cache_key_carries_prefix_and_email() {
    let email = Email::parse("user@example.com").unwrap();
    assert_eq!(get_key(&email), "two_fa_code:user@example.com".to_string());
}

#[test]
fn two_fa_pair_frame_round_trips() {
    let id = LoginAttemptId::default();
    let code = TwoFACode::parse("834629".to_string()).unwrap();
    let frame = encode_two_fa_pair(&id, &code);
    let (id_back, code_back) = decode_two_fa_pair(frame.as_str()).unwrap();
    assert_eq!(id_back, id);
    assert_eq!(code_back, code);
}

#[test]
fn two_fa_pair_frame_rejects_garbage() {
    assert!(decode_two_fa_pair("").is_none());
    assert!(decode_two_fa_pair("12345").is_none());
    assert!(decode_two_fa_pair("12a456not-a-uuid").is_none());
    let id = LoginAttemptId::default();
    assert!(decode_two_fa_pair(&format!("83462x{}", id.to_string())).is_none());
    assert!(decode_two_fa_pair("834629not-a-uuid").is_none());
}

#[test]
fn password_digest_verifies_its_own_password_only() {
    let password = Password::parse("password123").unwrap();
    let digest = compute_password_hash(&password).unwrap();
    assert_ne!(digest, "password123".to_string());
    assert_eq!(verify_password_hash(digest.as_str(), &password), Ok(()));
    let other = Password::parse("different123").unwrap();
    assert_eq!(
        verify_password_hash(digest.as_str(), &other),
        Err(UserStoreError::InvalidCredentials)
    );
}

#[test]
fn password_digest_check_rejects_malformed_digest() {
    let password = Password::parse("password123").unwrap();
    assert_eq!(
        verify_password_hash("not a digest", &password),
        Err(UserStoreError::InvalidCredentials)
    );
}
