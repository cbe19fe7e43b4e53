use vstd::prelude::*;
use crate::data_stores::{
    code_valid, uuid_ok, BannedTokenStore, LoginAttemptId, TwoFACode, TwoFACodeStore, UserStore,
};
use crate::email::{email_ok, Email};
use crate::errors::{AuthAPIError, UserStoreError, BannedTokenStoreError, TwoFACodeStoreError};
use crate::password::Password;
use crate::token::{spec_token, spec_validate, validate_token, generate_token, TOKEN_TTL_SECONDS};
use crate::user::User;

verus! {

/// The boundary's signup input.
pub struct SignupRequest {
    pub email: String,
    pub password: String,
    pub requires_2fa: bool,
}

/// The boundary's signup acknowledgement.
#[derive(Debug)]
pub struct SignupResponse {
    pub message: String,
}

impl PartialEq for SignupResponse {
    fn eq(&self, other: &Self) -> (r: bool) {
        self.message == other.message
    }
}

impl vstd::std_specs::cmp::PartialEqSpecImpl for SignupResponse {
    open spec fn obeys_eq_spec() -> bool {
        true
    }

    open spec fn eq_spec(&self, other: &Self) -> bool {
        self.message@ == other.message@
    }
}

/// The boundary's login input.
pub struct LoginRequest {
    pub email: String,
    pub password: String,
}

/// What a login that demands a second factor hands back: a notice and the
/// fresh challenge identifier. The one-time code itself is never returned;
/// it travels out of band.
#[derive(Debug)]
pub struct TwoFactorAuthResponse {
    pub message: String,
    pub login_attempt_id: String,
}

/// A login's visible outcome: either a plain success, whose session token
/// rides beside it, or a demand for the second factor.
#[derive(Debug)]
pub enum LoginResponse {
    RegularAuth,
    TwoFactorAuth(TwoFactorAuthResponse),
}

/// The boundary's second-factor input.
pub struct Verify2FARequest {
    pub email: String,
    pub login_attempt_id: String,
    pub two_fa_code: String,
}

/// The boundary's token-verification input.
pub struct VerifyTokenRequest {
    pub token: String,
}

/// Whether the signup input has well-shaped fields.
pub open spec fn spec_signup_input_ok(email: Seq<char>, password: Seq<char>) -> bool {
    email_ok(email) && Password::spec_valid(password)
}

/// Registers a new user: well-shaped input is demanded, the email must be
/// free, and the stored record carries exactly the given fields.
pub fn signup<U: UserStore>(user_store: &mut U, request: SignupRequest) -> (r: Result<
    SignupResponse,
    AuthAPIError,
>)
    ensures
        !spec_signup_input_ok(request.email@, request.password@) ==> (r matches Err(e)
            && e == AuthAPIError::InvalidInput
            && final(user_store).users() == old(user_store).users()),
        spec_signup_input_ok(request.email@, request.password@) && old(user_store).users().contains_key(
            request.email@,
        ) ==> ((r == Err::<SignupResponse, AuthAPIError>(AuthAPIError::Conflict) || r == Err::<
            SignupResponse,
            AuthAPIError,
        >(AuthAPIError::UnexpectedError)) && final(user_store).users() == old(user_store).users()),
        spec_signup_input_ok(request.email@, request.password@) && !old(user_store).users().contains_key(
            request.email@,
        ) ==> ({
            ||| (r matches Ok(resp) && resp.message@ == "User created successfully!"@
                && final(user_store).users() == old(user_store).users().insert(
                    request.email@,
                    (request.password@, request.requires_2fa),
                ))
            ||| (r == Err::<SignupResponse, AuthAPIError>(AuthAPIError::UnexpectedError)
                && final(user_store).users() == old(user_store).users())
        }),
        final(user_store).infallible() == old(user_store).infallible(),
        old(user_store).infallible() ==> r != Err::<SignupResponse, AuthAPIError>(
            AuthAPIError::UnexpectedError,
        ),
{
    let email = match Email::parse(request.email.as_str()) {
        Ok(email) => email,
        Err(_) => {
            return Err(AuthAPIError::InvalidInput);
        },
    };
    let password = match Password::parse(request.password.as_str()) {
        Ok(password) => password,
        Err(_) => {
            return Err(AuthAPIError::InvalidInput);
        },
    };
    let user = User::new(email, password, request.requires_2fa);
    match user_store.add_user(user) {
        Ok(_) => Ok(SignupResponse { message: "User created successfully!".to_owned() }),
        Err(UserStoreError::UserAlreadyExists) => Err(AuthAPIError::Conflict),
        Err(_) => Err(AuthAPIError::UnexpectedError),
    }
}

/// Whether the login input has well-shaped fields.
pub open spec fn spec_login_input_ok(email: Seq<char>, password: Seq<char>) -> bool {
    email_ok(email) && Password::spec_valid(password)
}

/// Whether the directory holds this email with this password.
pub open spec fn spec_credentials_match(
    users: Map<Seq<char>, (Seq<char>, bool)>,
    email: Seq<char>,
    password: Seq<char>,
) -> bool {
    users.contains_key(email) && users[email].0 == password
}

/// Issues the session for a password-only account.
fn handle_no_2fa(email: &Email, now: u64, key: &str) -> (r: Result<
    (LoginResponse, Option<String>),
    AuthAPIError,
>)
    requires
        now + TOKEN_TTL_SECONDS <= u64::MAX,
    ensures
        r matches Ok(pair) && pair.0 is RegularAuth && (pair.1 matches Some(t) && t@ == spec_token(
            email@,
            now,
            (now + TOKEN_TTL_SECONDS) as u64,
            key@,
        )),
{
    let token = generate_token(email, now, key);
    Ok((LoginResponse::RegularAuth, Some(token)))
}

/// Mints a fresh challenge for a two-factor account and stores it,
/// overwriting any pending one; the response carries the identifier only.
fn handle_2fa<T: TwoFACodeStore>(email: &Email, two_fa_code_store: &mut T) -> (r: Result<
    (LoginResponse, Option<String>),
    AuthAPIError,
>)
    ensures
        ({
            ||| (r matches Ok(pair) && (pair.0 matches LoginResponse::TwoFactorAuth(resp)
                && pair.1 is None
                && uuid_ok(resp.login_attempt_id@)
                && resp.message@ == "2FA required"@
                && exists|c: Seq<char>|
                    #[trigger] code_valid(c) && final(two_fa_code_store).codes() == old(two_fa_code_store).codes().insert(email@, (resp.login_attempt_id@, c))))
            ||| (r == Err::<(LoginResponse, Option<String>), AuthAPIError>(
                AuthAPIError::UnexpectedError,
            ) && final(two_fa_code_store).codes() == old(two_fa_code_store).codes())
        }),
        final(two_fa_code_store).infallible() == old(two_fa_code_store).infallible(),
        old(two_fa_code_store).infallible() ==> r is Ok,
{
    let login_attempt_id = LoginAttemptId::default();
    let two_fa_code = TwoFACode::default();
    let id_text = login_attempt_id.to_string();
    match two_fa_code_store.add_code(email.clone(), login_attempt_id, two_fa_code) {
        Ok(_) => {
            let response = TwoFactorAuthResponse {
                message: "2FA required".to_owned(),
                login_attempt_id: id_text,
            };
            Ok((LoginResponse::TwoFactorAuth(response), None))
        },
        Err(_) => Err(AuthAPIError::UnexpectedError),
    }
}

/// Checks the password and either issues a session at once or, for a
/// two-factor account, stores a fresh challenge and returns its identifier.
/// Malformed input, wrong credentials and unknown emails are told apart
/// from each other exactly as far as the taxonomy allows: the latter two
/// surface identically.
pub fn login<U: UserStore, T: TwoFACodeStore>(
    user_store: &U,
    two_fa_code_store: &mut T,
    request: LoginRequest,
    now: u64,
    key: &str,
) -> (r: Result<(LoginResponse, Option<String>), AuthAPIError>)
    requires
        now + TOKEN_TTL_SECONDS <= u64::MAX,
    ensures
        !spec_login_input_ok(request.email@, request.password@) ==> (r == Err::<
            (LoginResponse, Option<String>),
            AuthAPIError,
        >(AuthAPIError::InvalidInput) && final(two_fa_code_store).codes() == old(two_fa_code_store).codes()),
        spec_login_input_ok(request.email@, request.password@) && !spec_credentials_match(
            user_store.users(),
            request.email@,
            request.password@,
        ) ==> ((r == Err::<(LoginResponse, Option<String>), AuthAPIError>(
            AuthAPIError::IncorrectCredentials,
        ) || r == Err::<(LoginResponse, Option<String>), AuthAPIError>(
            AuthAPIError::UnexpectedError,
        )) && final(two_fa_code_store).codes() == old(two_fa_code_store).codes()),
        spec_login_input_ok(request.email@, request.password@) && spec_credentials_match(
            user_store.users(),
            request.email@,
            request.password@,
        ) && !user_store.users()[request.email@].1 ==> ({
            ||| (r matches Ok(pair) && pair.0 is RegularAuth && (pair.1 matches Some(t) && t@
                == spec_token(request.email@, now, (now + TOKEN_TTL_SECONDS) as u64, key@))
                && final(two_fa_code_store).codes() == old(two_fa_code_store).codes())
            ||| (r == Err::<(LoginResponse, Option<String>), AuthAPIError>(
                AuthAPIError::UnexpectedError,
            ) && final(two_fa_code_store).codes() == old(two_fa_code_store).codes())
        }),
        spec_login_input_ok(request.email@, request.password@) && spec_credentials_match(
            user_store.users(),
            request.email@,
            request.password@,
        ) && user_store.users()[request.email@].1 ==> ({
            ||| (r matches Ok(pair) && (pair.0 matches LoginResponse::TwoFactorAuth(resp)
                && pair.1 is None
                && uuid_ok(resp.login_attempt_id@)
                && resp.message@ == "2FA required"@
                && exists|c: Seq<char>|
                    #[trigger] code_valid(c) && final(two_fa_code_store).codes() == old(two_fa_code_store).codes().insert(request.email@, (resp.login_attempt_id@, c))))
            ||| (r == Err::<(LoginResponse, Option<String>), AuthAPIError>(
                AuthAPIError::UnexpectedError,
            ) && final(two_fa_code_store).codes() == old(two_fa_code_store).codes())
        }),
        final(two_fa_code_store).infallible() == old(two_fa_code_store).infallible(),
        user_store.infallible() && old(two_fa_code_store).infallible() ==> r != Err::<
            (LoginResponse, Option<String>),
            AuthAPIError,
        >(AuthAPIError::UnexpectedError),
{
    let email = match Email::parse(request.email.as_str()) {
        Ok(email) => email,
        Err(_) => {
            return Err(AuthAPIError::InvalidInput);
        },
    };
    let password = match Password::parse(request.password.as_str()) {
        Ok(password) => password,
        Err(_) => {
            return Err(AuthAPIError::InvalidInput);
        },
    };
    match user_store.validate_user(&email, &password) {
        Ok(_) => (),
        Err(UserStoreError::InvalidCredentials) => {
            return Err(AuthAPIError::IncorrectCredentials);
        },
        Err(UserStoreError::UserNotFound) => {
            return Err(AuthAPIError::IncorrectCredentials);
        },
        Err(_) => {
            return Err(AuthAPIError::UnexpectedError);
        },
    }
    let user = match user_store.get_user(&email) {
        Ok(user) => user,
        Err(UserStoreError::UserNotFound) => {
            return Err(AuthAPIError::IncorrectCredentials);
        },
        Err(_) => {
            return Err(AuthAPIError::UnexpectedError);
        },
    };
    if user.requires_2fa {
        handle_2fa(&user.email, two_fa_code_store)
    } else {
        handle_no_2fa(&user.email, now, key)
    }
}

/// Whether the store's pending challenge for this email is exactly this
/// identifier and code.
pub open spec fn spec_challenge_matches(
    codes: Map<Seq<char>, (Seq<char>, Seq<char>)>,
    email: Seq<char>,
    id: Seq<char>,
    code: Seq<char>,
) -> bool {
    codes.contains_key(email) && codes[email] == (id, code)
}

/// Whether the second-factor input has well-shaped fields.
pub open spec fn spec_verify_2fa_input_ok(email: Seq<char>, id: Seq<char>, code: Seq<char>) -> bool {
    email_ok(email) && uuid_ok(id) && code_valid(code)
}

/// Redeems a pending challenge: on an exact match of identifier and code
/// the challenge is consumed — single use — and the session is issued; on
/// any mismatch the challenge stays for a retry and the caller learns only
/// that the credentials were incorrect.
pub fn verify_2fa<U: UserStore, T: TwoFACodeStore>(
    user_store: &U,
    two_fa_code_store: &mut T,
    request: Verify2FARequest,
    now: u64,
    key: &str,
) -> (r: Result<String, AuthAPIError>)
    requires
        now + TOKEN_TTL_SECONDS <= u64::MAX,
    ensures
        !spec_verify_2fa_input_ok(request.email@, request.login_attempt_id@, request.two_fa_code@)
            ==> (r == Err::<String, AuthAPIError>(AuthAPIError::InvalidInput) && final(two_fa_code_store).codes() == old(two_fa_code_store).codes()),
        spec_verify_2fa_input_ok(request.email@, request.login_attempt_id@, request.two_fa_code@)
            && !(user_store.users().contains_key(request.email@) && spec_challenge_matches(
            old(two_fa_code_store).codes(),
            request.email@,
            request.login_attempt_id@,
            request.two_fa_code@,
        )) ==> ((r == Err::<String, AuthAPIError>(AuthAPIError::IncorrectCredentials) || r == Err::<
            String,
            AuthAPIError,
        >(AuthAPIError::UnexpectedError)) && final(two_fa_code_store).codes() == old(two_fa_code_store).codes()),
        spec_verify_2fa_input_ok(request.email@, request.login_attempt_id@, request.two_fa_code@)
            && user_store.users().contains_key(request.email@) && spec_challenge_matches(
            old(two_fa_code_store).codes(),
            request.email@,
            request.login_attempt_id@,
            request.two_fa_code@,
        ) ==> ({
            ||| (r matches Ok(t) && t@ == spec_token(
                request.email@,
                now,
                (now + TOKEN_TTL_SECONDS) as u64,
                key@,
            ) && final(two_fa_code_store).codes() == old(two_fa_code_store).codes().remove(
                request.email@,
            ))
            ||| (r == Err::<String, AuthAPIError>(AuthAPIError::UnexpectedError) && final(two_fa_code_store).codes() == old(two_fa_code_store).codes())
        }),
        final(two_fa_code_store).infallible() == old(two_fa_code_store).infallible(),
        user_store.infallible() && old(two_fa_code_store).infallible() ==> r != Err::<
            String,
            AuthAPIError,
        >(AuthAPIError::UnexpectedError),
{
    let email = match Email::parse(request.email.as_str()) {
        Ok(email) => email,
        Err(_) => {
            return Err(AuthAPIError::InvalidInput);
        },
    };
    let login_attempt_id = match LoginAttemptId::parse(request.login_attempt_id) {
        Ok(login_attempt_id) => login_attempt_id,
        Err(_) => {
            return Err(AuthAPIError::InvalidInput);
        },
    };
    let two_fa_code = match TwoFACode::parse(request.two_fa_code) {
        Ok(two_fa_code) => two_fa_code,
        Err(_) => {
            return Err(AuthAPIError::InvalidInput);
        },
    };
    let user = match user_store.get_user(&email) {
        Ok(user) => user,
        Err(UserStoreError::UserNotFound) => {
            return Err(AuthAPIError::IncorrectCredentials);
        },
        Err(_) => {
            return Err(AuthAPIError::UnexpectedError);
        },
    };
    let stored = match two_fa_code_store.get_code(&email) {
        Ok(stored) => stored,
        Err(TwoFACodeStoreError::LoginAttemptIdNotFound) => {
            return Err(AuthAPIError::IncorrectCredentials);
        },
        Err(_) => {
            return Err(AuthAPIError::UnexpectedError);
        },
    };
    if stored.0 == login_attempt_id && stored.1 == two_fa_code {
        match two_fa_code_store.remove_code(&email) {
            Ok(_) => (),
            Err(_) => {
                return Err(AuthAPIError::UnexpectedError);
            },
        }
        let token = generate_token(&user.email, now, key);
        Ok(token)
    } else {
        Err(AuthAPIError::IncorrectCredentials)
    }
}

/// What verifying a session credential says: the subject email when the
/// token is the codec's own under the key, unexpired, not in the ledger,
/// and bound to a well-shaped address; one indistinct failure otherwise.
pub open spec fn spec_verify_session(
    t: Seq<char>,
    now: u64,
    key: Seq<char>,
    banned: Set<Seq<char>>,
) -> Result<Seq<char>, AuthAPIError> {
    match spec_validate(t, now, key) {
        Ok(subject) => {
            if banned.contains(t) {
                Err(AuthAPIError::InvalidCredential)
            } else if !email_ok(subject) {
                Err(AuthAPIError::InvalidCredential)
            } else {
                Ok(subject)
            }
        },
        Err(_) => Err(AuthAPIError::InvalidCredential),
    }
}

/// Verifies a presented session token: codec check first, then the
/// revocation ledger; success returns the subject the token is bound to.
pub fn verify_token<B: BannedTokenStore>(
    banned_token_store: &B,
    request: &VerifyTokenRequest,
    now: u64,
    key: &str,
) -> (r: Result<Email, AuthAPIError>)
    ensures
        ({
            let sv = spec_verify_session(request.token@, now, key@, banned_token_store.banned());
            ||| (r matches Ok(em) && (sv matches Ok(s) && em@ == s))
            ||| (r matches Err(e) && sv == Err::<Seq<char>, AuthAPIError>(e))
            ||| (r == Err::<Email, AuthAPIError>(AuthAPIError::UnexpectedError))
        }),
        !(spec_validate(request.token@, now, key@) matches Ok(_)) ==> r == Err::<
            Email,
            AuthAPIError,
        >(AuthAPIError::InvalidCredential),
        banned_token_store.infallible() ==> r != Err::<Email, AuthAPIError>(
            AuthAPIError::UnexpectedError,
        ),
{
    let subject = match validate_token(request.token.as_str(), now, key) {
        Ok(subject) => subject,
        Err(_) => {
            return Err(AuthAPIError::InvalidCredential);
        },
    };
    match banned_token_store.contains_token(request.token.as_str()) {
        Ok(true) => Err(AuthAPIError::InvalidCredential),
        Ok(false) => match Email::parse(subject.as_str()) {
            Ok(email) => Ok(email),
            Err(_) => Err(AuthAPIError::InvalidCredential),
        },
        Err(_) => Err(AuthAPIError::UnexpectedError),
    }
}

/// What logging a credential out says: a malformed or expired token is an
/// invalid credential, a token already in the ledger is a conflict — the
/// boundary reports a repeated logout — and otherwise the logout is owed.
pub open spec fn spec_logout(
    t: Seq<char>,
    now: u64,
    key: Seq<char>,
    banned: Set<Seq<char>>,
) -> Result<(), AuthAPIError> {
    if !(spec_validate(t, now, key) matches Ok(_)) {
        Err(AuthAPIError::InvalidCredential)
    } else if banned.contains(t) {
        Err(AuthAPIError::Conflict)
    } else {
        Ok(())
    }
}

/// Revokes a presented session token, the only way a session ends before
/// its natural expiry. A missing credential is the caller's error; a token
/// already revoked surfaces as a distinct conflict.
pub fn logout<B: BannedTokenStore>(
    banned_token_store: &mut B,
    token: Option<&str>,
    now: u64,
    key: &str,
) -> (r: Result<(), AuthAPIError>)
    ensures
        token is None ==> (r == Err::<(), AuthAPIError>(AuthAPIError::MissingCredential) && final(banned_token_store).banned() == old(banned_token_store).banned()),
        token matches Some(t) ==> ({
            let sl = spec_logout(t@, now, key@, old(banned_token_store).banned());
            ||| (sl matches Err(e) && r == Err::<(), AuthAPIError>(e) && final(banned_token_store).banned() == old(banned_token_store).banned())
            ||| (sl is Ok && r == Ok::<(), AuthAPIError>(()) && final(banned_token_store).banned()
                == old(banned_token_store).banned().insert(t@))
            ||| (r == Err::<(), AuthAPIError>(AuthAPIError::UnexpectedError) && final(banned_token_store).banned() == old(banned_token_store).banned())
        }),
        token matches Some(t) && !(spec_validate(t@, now, key@) matches Ok(_)) ==> (r == Err::<
            (),
            AuthAPIError,
        >(AuthAPIError::InvalidCredential) && final(banned_token_store).banned() == old(
            banned_token_store,
        ).banned()),
        final(banned_token_store).infallible() == old(banned_token_store).infallible(),
        old(banned_token_store).infallible() ==> r != Err::<(), AuthAPIError>(
            AuthAPIError::UnexpectedError,
        ),
{
    let t = match token {
        Some(t) => t,
        None => {
            return Err(AuthAPIError::MissingCredential);
        },
    };
    match validate_token(t, now, key) {
        Ok(_) => (),
        Err(_) => {
            return Err(AuthAPIError::InvalidCredential);
        },
    }
    match banned_token_store.add_token(t.to_owned()) {
        Ok(_) => Ok(()),
        Err(BannedTokenStoreError::TokenAlreadyExists) => Err(AuthAPIError::Conflict),
        Err(_) => Err(AuthAPIError::UnexpectedError),
    }
}

} // verus!
