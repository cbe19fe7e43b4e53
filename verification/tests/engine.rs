use auth_service::{
    generate_token, login, logout, signup, validate_token, verify_2fa, verify_token, AuthAPIError,
    Email, HashmapTwoFACodeStore, HashmapUserStore, HashsetBannedTokenStore, LoginRequest,
    LoginResponse, SignupRequest, TokenError, TwoFACodeStore, Verify2FARequest,
    VerifyTokenRequest, TOKEN_TTL_SECONDS,
};

const NOW: u64 = 1_700_000_000;
const KEY: &str = "test-signing-key";

fn signup_request(email: &str, password: &str, requires_2fa: bool) -> SignupRequest {
    SignupRequest {
        email: email.to_string(),
        password: password.to_string(),
        requires_2fa,
    }
}

fn login_request(email: &str, password: &str) -> LoginRequest {
    LoginRequest {
        email: email.to_string(),
        password: password.to_string(),
    }
}

#[test]
fn signup_then_login_yields_verifiable_session() {
    let mut users = HashmapUserStore::default();
    let mut codes = HashmapTwoFACodeStore::default();
    let banned = HashsetBannedTokenStore::default();

    signup(&mut users, signup_request("a@x.com", "password123", false)).unwrap();

    let (response, token) =
        login(&users, &mut codes, login_request("a@x.com", "password123"), NOW, KEY).unwrap();
    assert!(matches!(response, LoginResponse::RegularAuth));
    let token = token.unwrap();

    let subject = verify_token(
        &banned,
        &VerifyTokenRequest { token },
        NOW + 1,
        KEY,
    )
    .unwrap();
    assert_eq!(subject, Email::parse("a@x.com").unwrap());
}

#[test]
fn two_factor_login_yields_challenge_not_token() {
    let mut users = HashmapUserStore::default();
    let mut codes = HashmapTwoFACodeStore::default();
    let banned = HashsetBannedTokenStore::default();

    signup(&mut users, signup_request("b@x.com", "password123", true)).unwrap();

    let (response, token) =
        login(&users, &mut codes, login_request("b@x.com", "password123"), NOW, KEY).unwrap();
    assert!(token.is_none());
    let challenge = match response {
        LoginResponse::TwoFactorAuth(challenge) => challenge,
        LoginResponse::RegularAuth => panic!("expected a second-factor challenge"),
    };
    assert_eq!(challenge.message, "2FA required".to_string());

    let guesses = [
        "".to_string(),
        challenge.login_attempt_id.clone(),
        "00000000000000000000999999".to_string(),
    ];
    for guess in guesses {
        assert_eq!(
            verify_token(&banned, &VerifyTokenRequest { token: guess }, NOW + 1, KEY),
            Err(AuthAPIError::InvalidCredential)
        );
    }
}

#[test]
fn two_factor_challenge_is_single_use() {
    let mut users = HashmapUserStore::default();
    let mut codes = HashmapTwoFACodeStore::default();

    signup(&mut users, signup_request("b@x.com", "password123", true)).unwrap();
    login(&users, &mut codes, login_request("b@x.com", "password123"), NOW, KEY).unwrap();

    let email = Email::parse("b@x.com").unwrap();
    let (id, code) = codes.get_code(&email).unwrap();
    let request = |id: &str, code: &str| Verify2FARequest {
        email: "b@x.com".to_string(),
        login_attempt_id: id.to_string(),
        two_fa_code: code.to_string(),
    };

    let token = verify_2fa(
        &users,
        &mut codes,
        request(&id.to_string(), code.as_ref()),
        NOW,
        KEY,
    )
    .unwrap();
    assert!(validate_token(&token, NOW + 1, KEY).is_ok());

    assert_eq!(
        verify_2fa(&users, &mut codes, request(&id.to_string(), code.as_ref()), NOW, KEY),
        Err(AuthAPIError::IncorrectCredentials)
    );
}

#[test]
fn wrong_second_factor_leaves_challenge_for_retry() {
    let mut users = HashmapUserStore::default();
    let mut codes = HashmapTwoFACodeStore::default();

    signup(&mut users, signup_request("b@x.com", "password123", true)).unwrap();
    login(&users, &mut codes, login_request("b@x.com", "password123"), NOW, KEY).unwrap();

    let email = Email::parse("b@x.com").unwrap();
    let (id, code) = codes.get_code(&email).unwrap();
    let wrong_code = if code.as_ref() == "999999" { "999998" } else { "999999" };

    assert_eq!(
        verify_2fa(
            &users,
            &mut codes,
            Verify2FARequest {
                email: "b@x.com".to_string(),
                login_attempt_id: id.to_string(),
                two_fa_code: wrong_code.to_string(),
            },
            NOW,
            KEY,
        ),
        Err(AuthAPIError::IncorrectCredentials)
    );

    let token = verify_2fa(
        &users,
        &mut codes,
        Verify2FARequest {
            email: "b@x.com".to_string(),
            login_attempt_id: id.to_string(),
            two_fa_code: code.as_ref().to_string(),
        },
        NOW,
        KEY,
    )
    .unwrap();
    assert!(validate_token(&token, NOW + 1, KEY).is_ok());
}

#[test]
fn only_latest_challenge_verifies() {
    let mut users = HashmapUserStore::default();
    let mut codes = HashmapTwoFACodeStore::default();

    signup(&mut users, signup_request("b@x.com", "password123", true)).unwrap();

    let email = Email::parse("b@x.com").unwrap();
    login(&users, &mut codes, login_request("b@x.com", "password123"), NOW, KEY).unwrap();
    let earlier = codes.get_code(&email).unwrap();
    login(&users, &mut codes, login_request("b@x.com", "password123"), NOW, KEY).unwrap();
    let latest = codes.get_code(&email).unwrap();

    if earlier != latest {
        assert_eq!(
            verify_2fa(
                &users,
                &mut codes,
                Verify2FARequest {
                    email: "b@x.com".to_string(),
                    login_attempt_id: earlier.0.to_string(),
                    two_fa_code: earlier.1.as_ref().to_string(),
                },
                NOW,
                KEY,
            ),
            Err(AuthAPIError::IncorrectCredentials)
        );
    }

    let token = verify_2fa(
        &users,
        &mut codes,
        Verify2FARequest {
            email: "b@x.com".to_string(),
            login_attempt_id: latest.0.to_string(),
            two_fa_code: latest.1.as_ref().to_string(),
        },
        NOW,
        KEY,
    )
    .unwrap();
    assert!(validate_token(&token, NOW + 1, KEY).is_ok());
}

#[test]
fn logout_then_verify_session_fails() {
    let mut users = HashmapUserStore::default();
    let mut codes = HashmapTwoFACodeStore::default();
    let mut banned = HashsetBannedTokenStore::default();

    signup(&mut users, signup_request("a@x.com", "password123", false)).unwrap();
    let (_, token) =
        login(&users, &mut codes, login_request("a@x.com", "password123"), NOW, KEY).unwrap();
    let token = token.unwrap();

    assert!(verify_token(&banned, &VerifyTokenRequest { token: token.clone() }, NOW + 1, KEY).is_ok());
    assert_eq!(logout(&mut banned, Some(token.as_str()), NOW + 1, KEY), Ok(()));
    assert_eq!(
        verify_token(&banned, &VerifyTokenRequest { token: token.clone() }, NOW + 2, KEY),
        Err(AuthAPIError::InvalidCredential)
    );
}

#[test]
fn second_logout_is_a_conflict() {
    let mut users = HashmapUserStore::default();
    let mut codes = HashmapTwoFACodeStore::default();
    let mut banned = HashsetBannedTokenStore::default();

    signup(&mut users, signup_request("a@x.com", "password123", false)).unwrap();
    let (_, token) =
        login(&users, &mut codes, login_request("a@x.com", "password123"), NOW, KEY).unwrap();
    let token = token.unwrap();

    assert_eq!(logout(&mut banned, Some(token.as_str()), NOW + 1, KEY), Ok(()));
    assert_eq!(
        logout(&mut banned, Some(token.as_str()), NOW + 2, KEY),
        Err(AuthAPIError::Conflict)
    );
}

#[test]
fn logout_without_credential_or_with_garbage_fails() {
    let mut banned = HashsetBannedTokenStore::default();
    assert_eq!(
        logout(&mut banned, None, NOW, KEY),
        Err(AuthAPIError::MissingCredential)
    );
    assert_eq!(
        logout(&mut banned, Some("not-a-token"), NOW, KEY),
        Err(AuthAPIError::InvalidCredential)
    );
}

#[test]
fn example_flow_matches_specification() {
    let mut users = HashmapUserStore::default();
    let mut codes = HashmapTwoFACodeStore::default();
    let banned = HashsetBannedTokenStore::default();

    let created = signup(&mut users, signup_request("a@x.com", "password123", false)).unwrap();
    assert_eq!(created.message, "User created successfully!".to_string());

    let (response, token) =
        login(&users, &mut codes, login_request("a@x.com", "password123"), NOW, KEY).unwrap();
    assert!(matches!(response, LoginResponse::RegularAuth));
    let token = token.unwrap();

    let subject = verify_token(&banned, &VerifyTokenRequest { token }, NOW + 1, KEY).unwrap();
    assert_eq!(subject.as_ref(), "a@x.com");

    assert_eq!(
        login(&users, &mut codes, login_request("a@x.com", "wrongpass"), NOW, KEY).unwrap_err(),
        AuthAPIError::IncorrectCredentials
    );
}

#[test]
fn duplicate_signup_conflicts_and_bad_input_is_rejected() {
    let mut users = HashmapUserStore::default();
    signup(&mut users, signup_request("a@x.com", "password123", false)).unwrap();
    assert_eq!(
        signup(&mut users, signup_request("a@x.com", "password123", false)),
        Err(AuthAPIError::Conflict)
    );
    assert_eq!(
        signup(&mut users, signup_request("wrongemail.com", "password123", false)),
        Err(AuthAPIError::InvalidInput)
    );
    assert_eq!(
        signup(&mut users, signup_request("b@x.com", "pass", false)),
        Err(AuthAPIError::InvalidInput)
    );
}

#[test]
fn login_input_and_credential_errors_are_told_apart() {
    let mut users = HashmapUserStore::default();
    let mut codes = HashmapTwoFACodeStore::default();
    signup(&mut users, signup_request("a@x.com", "password123", false)).unwrap();

    assert_eq!(
        login(&users, &mut codes, login_request("wrongemail.com", "password123"), NOW, KEY)
            .unwrap_err(),
        AuthAPIError::InvalidInput
    );
    assert_eq!(
        login(&users, &mut codes, login_request("a@x.com", "pass"), NOW, KEY).unwrap_err(),
        AuthAPIError::InvalidInput
    );
    assert_eq!(
        login(&users, &mut codes, login_request("nobody@x.com", "password123"), NOW, KEY)
            .unwrap_err(),
        AuthAPIError::IncorrectCredentials
    );
}

#[test]
fn verify_2fa_rejects_malformed_input() {
    let users = HashmapUserStore::default();
    let mut codes = HashmapTwoFACodeStore::default();
    let id = uuid::Uuid::new_v4().to_string();

    let cases = [
        ("wrongemail.com", id.as_str(), "123456"),
        ("a@x.com", "not-a-uuid", "123456"),
        ("a@x.com", id.as_str(), "12345"),
    ];
    for (email, attempt, code) in cases {
        assert_eq!(
            verify_2fa(
                &users,
                &mut codes,
                Verify2FARequest {
                    email: email.to_string(),
                    login_attempt_id: attempt.to_string(),
                    two_fa_code: code.to_string(),
                },
                NOW,
                KEY,
            ),
            Err(AuthAPIError::InvalidInput)
        );
    }
}

#[test]
fn token_codec_round_trips_and_expires() {
    let email = Email::parse("a@x.com").unwrap();
    let token = generate_token(&email, NOW, KEY);

    assert_eq!(validate_token(&token, NOW + 1, KEY).unwrap(), "a@x.com".to_string());
    assert_eq!(
        validate_token(&token, NOW + TOKEN_TTL_SECONDS, KEY),
        Err(TokenError::Expired)
    );
}

#[test]
fn token_codec_rejects_tampering_and_foreign_keys() {
    let email = Email::parse("a@x.com").unwrap();
    let token = generate_token(&email, NOW, KEY);

    assert_eq!(validate_token(&token, NOW + 1, "other-key"), Err(TokenError::Malformed));
    assert_eq!(validate_token("", NOW, KEY), Err(TokenError::Malformed));
    assert_eq!(validate_token("abc", NOW, KEY), Err(TokenError::Malformed));

    let mut subject_swapped = token[..60].to_string();
    subject_swapped.push_str("b@x.com");
    assert_eq!(validate_token(&subject_swapped, NOW + 1, KEY), Err(TokenError::Malformed));
}
