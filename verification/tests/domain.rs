use auth_service::{Email, LoginAttemptId, Password, TwoFACode, UserStoreError};

#[test]
fn email_test_parse_with_incorrect_value() {
    assert_eq!(
        Email::parse("wrongemail.com").unwrap_err(),
        UserStoreError::InvalidEmail
    )
}

#[test]
fn email_test_parse_with_correct_value() {
    assert_eq!(
        Email::parse("mail@example.com").unwrap(),
        Email::parse("mail@example.com").unwrap()
    );
    assert_eq!(Email::parse("mail@example.com").unwrap().as_ref(), "mail@example.com");
}

#[test]
fn password_test_parse_with_incorrect_value() {
    assert_eq!(
        Password::parse("pass").unwrap_err(),
        UserStoreError::InvalidCredentials
    )
}

#[test]
fn password_test_parse_with_correct_value() {
    assert_eq!(
        Password::parse("password123").unwrap(),
        Password::parse("password123").unwrap()
    );
    assert_eq!(Password::parse("password123").unwrap().as_ref(), "password123");
}

#[test]
fn one_time_code_is_exactly_six_digits() {
    assert!(TwoFACode::parse("123456".to_string()).is_ok());
    assert!(TwoFACode::parse("000000".to_string()).is_ok());
    assert!(TwoFACode::parse("12345".to_string()).is_err());
    assert!(TwoFACode::parse("1234567".to_string()).is_err());
    assert!(TwoFACode::parse("12a456".to_string()).is_err());
    assert_eq!(
        TwoFACode::parse("12a456".to_string()).unwrap_err(),
        "Invalid 2FA Code".to_string()
    );
}

#[test]
fn one_time_code_keeps_its_text() {
    let code = TwoFACode::parse("834629".to_string()).unwrap();
    assert_eq!(code.as_ref(), "834629");
}

#[test]
fn random_one_time_code_is_well_formed() {
    let code = TwoFACode::default();
    let text = code.as_ref().to_string();
    assert_eq!(text.len(), 6);
    assert!(text.chars().all(|c| c.is_ascii_digit()));
    assert_eq!(TwoFACode::parse(text.clone()).unwrap(), code);
}

#[test]
fn challenge_id_rejects_malformed_text() {
    assert_eq!(
        LoginAttemptId::parse("not-a-uuid".to_string()).unwrap_err(),
        "Invalid UUID".to_string()
    );
}

#[test]
fn challenge_id_accepts_uuid_text() {
    let text = uuid::Uuid::new_v4().to_string();
    let id = LoginAttemptId::parse(text.clone()).unwrap();
    assert_eq!(id.to_string(), text);
}

#[test]
fn challenge_id_round_trips() {
    let minted = LoginAttemptId::default();
    let reparsed = LoginAttemptId::parse(minted.to_string()).unwrap();
    assert_eq!(reparsed, minted);
}
