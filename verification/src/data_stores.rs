use vstd::prelude::*;
use crate::digits::{all_digits, dec_digits, is_digit, push_dec};
use crate::email::Email;
use crate::errors::{BannedTokenStoreError, TwoFACodeStoreError, UserStoreError};
use crate::password::Password;
use crate::user::User;

verus! {

/// Whether a character sequence is a well-formed challenge identifier.
///
/// Names the verdict of `uuid::Uuid::parse_str` on a string holding exactly
/// these characters: that verdict depends on the characters alone.
pub uninterp spec fn uuid_ok(s: Seq<char>) -> bool;

/// Relies on `uuid::Uuid::parse_str`: it accepts or rejects a string by its
/// characters and nothing else.
#[verifier::external_body]
fn uuid_parse_ok(id: &str) -> (r: bool)
    ensures
        r == uuid_ok(id@),
{
    uuid::Uuid::parse_str(id).is_ok()
}

/// Relies on `uuid::Uuid::new_v4` and the hyphenated form its `Display`
/// prints, which `uuid::Uuid::parse_str` accepts back.
#[verifier::external_body]
fn fresh_uuid_string() -> (r: String)
    ensures
        uuid_ok(r@),
{
    uuid::Uuid::new_v4().to_string()
}

/// Relies on `rand::random_range`: the result lies in the inclusive range
/// handed to it, so every six-digit code can be drawn.
#[verifier::external_body]
fn random_code_number() -> (r: u32)
    ensures
        r <= 999999,
{
    rand::random_range(0u32..=999999)
}

/// An opaque identifier minted for one login attempt that awaits its second
/// factor; well-formed when the identifier parser accepts it.
#[derive(Debug)]
pub struct LoginAttemptId(String);

impl View for LoginAttemptId {
    type V = Seq<char>;

    closed spec fn view(&self) -> Seq<char> {
        self.0@
    }
}

impl Clone for LoginAttemptId {
    fn clone(&self) -> (r: Self)
        ensures
            r@ == self@,
    {
        LoginAttemptId(self.0.clone())
    }
}

impl PartialEq for LoginAttemptId {
    fn eq(&self, other: &Self) -> (r: bool) {
        self.0 == other.0
    }
}

impl vstd::std_specs::cmp::PartialEqSpecImpl for LoginAttemptId {
    open spec fn obeys_eq_spec() -> bool {
        true
    }

    open spec fn eq_spec(&self, other: &Self) -> bool {
        self@ == other@
    }
}

impl LoginAttemptId {
    /// A well-formed identifier.
    pub open spec fn wf(&self) -> bool {
        uuid_ok(self@)
    }

    /// Accepts exactly the strings the identifier parser accepts, and keeps
    /// the accepted string as it came.
    pub fn parse(id: String) -> (r: Result<Self, String>)
        ensures
            uuid_ok(id@) ==> (r matches Ok(a) && a@ == id@ && a.wf()),
            !uuid_ok(id@) ==> (r matches Err(e) && e@ == "Invalid UUID"@),
    {
        if uuid_parse_ok(id.as_str()) {
            Ok(LoginAttemptId(id))
        } else {
            Err("Invalid UUID".to_owned())
        }
    }

    /// The identifier's text.
    pub fn to_string(&self) -> (r: String)
        ensures
            r@ == self@,
    {
        self.0.clone()
    }

    /// The identifier's text as a string slice.
    pub fn as_ref(&self) -> (r: &str)
        ensures
            r@ == self@,
    {
        self.0.as_str()
    }
}

impl Default for LoginAttemptId {
    /// Mints a fresh random identifier, always well-formed.
    fn default() -> (r: Self)
        ensures
            r.wf(),
    {
        LoginAttemptId(fresh_uuid_string())
    }
}

/// Whether a character sequence is a well-formed one-time code: exactly six
/// decimal digits.
pub open spec fn code_valid(s: Seq<char>) -> bool {
    s.len() == 6 && all_digits(s)
}

/// A one-shot numeric second factor of exactly six decimal digits.
#[derive(Debug)]
pub struct TwoFACode(String);

impl View for TwoFACode {
    type V = Seq<char>;

    closed spec fn view(&self) -> Seq<char> {
        self.0@
    }
}

impl Clone for TwoFACode {
    fn clone(&self) -> (r: Self)
        ensures
            r@ == self@,
    {
        TwoFACode(self.0.clone())
    }
}

impl PartialEq for TwoFACode {
    fn eq(&self, other: &Self) -> (r: bool) {
        self.0 == other.0
    }
}

impl vstd::std_specs::cmp::PartialEqSpecImpl for TwoFACode {
    open spec fn obeys_eq_spec() -> bool {
        true
    }

    open spec fn eq_spec(&self, other: &Self) -> bool {
        self@ == other@
    }
}

impl TwoFACode {
    /// A well-formed code.
    pub open spec fn wf(&self) -> bool {
        code_valid(self@)
    }

    /// Accepts exactly the strings of six decimal digits.
    pub fn parse(code: String) -> (r: Result<Self, String>)
        ensures
            code_valid(code@) ==> (r matches Ok(c) && c@ == code@ && c.wf()),
            !code_valid(code@) ==> (r matches Err(e) && e@ == "Invalid 2FA Code"@),
    {
        let n = code.as_str().unicode_len();
        if n != 6 {
            return Err("Invalid 2FA Code".to_owned());
        }
        let mut k: usize = 0;
        while k < 6
            invariant
                code@.len() == 6,
                0 <= k <= 6,
                forall|i: int| 0 <= i < k ==> is_digit(#[trigger] code@[i]),
            decreases 6 - k,
        {
            let c = code.as_str().get_char(k);
            if !('0' <= c && c <= '9') {
                proof {
                    assert(!is_digit(code@[k as int]));
                }
                return Err("Invalid 2FA Code".to_owned());
            }
            k = k + 1;
        }
        Ok(TwoFACode(code))
    }

    /// The code's text as a string slice.
    pub fn as_ref(&self) -> (r: &str)
        ensures
            r@ == self@,
    {
        self.0.as_str()
    }
}

impl Default for TwoFACode {
    /// Draws a uniformly random six-digit code, always well-formed.
    fn default() -> (r: Self)
        ensures
            r.wf(),
    {
        let n = random_code_number();
        let mut s = String::new();
        push_dec(&mut s, n as u64, 6);
        proof {
            crate::digits::lemma_dec_digits_len(n as nat, 6);
            crate::digits::lemma_dec_digits_all_digits(n as nat, 6);
            assert(s@ =~= dec_digits(n as nat, 6));
        }
        TwoFACode(s)
    }
}

/// A directory of user records keyed by email. Every backend carries the
/// same exact semantics over its abstract contents; a backend whose storage
/// can fail may report `UnexpectedError` instead, changing nothing.
pub trait UserStore: Sized {
    /// The directory's contents: each stored email mapped to the stored
    /// password and second-factor flag. The default stands for a backend
    /// whose contents the proofs never see; verified stores override it.
    open spec fn users(&self) -> Map<Seq<char>, (Seq<char>, bool)> {
        Map::empty()
    }

    /// Whether this backend can never fail with `UnexpectedError`. The
    /// in-memory store promises it; a backend over a connection does not,
    /// and the cautious default is that it may fail.
    open spec fn infallible(&self) -> bool {
        false
    }

    /// Persists the record unless the email is already present.
    fn add_user(&mut self, user: User) -> (r: Result<(), UserStoreError>)
        ensures
            ({
                ||| (r == Err::<(), UserStoreError>(UserStoreError::UnexpectedError)
                    && final(self).users() == old(self).users())
                ||| (old(self).users().contains_key(user.email@)
                    && r == Err::<(), UserStoreError>(UserStoreError::UserAlreadyExists)
                    && final(self).users() == old(self).users())
                ||| (!old(self).users().contains_key(user.email@)
                    && r == Ok::<(), UserStoreError>(())
                    && final(self).users() == old(self).users().insert(
                        user.email@,
                        (user.password@, user.requires_2fa),
                    ))
            }),
            final(self).infallible() == old(self).infallible(),
            old(self).infallible() ==> r != Err::<(), UserStoreError>(
                UserStoreError::UnexpectedError,
            ),
    ;

    /// Looks the record up by its email.
    fn get_user(&self, email: &Email) -> (r: Result<User, UserStoreError>)
        ensures
            ({
                ||| (r == Err::<User, UserStoreError>(UserStoreError::UnexpectedError))
                ||| (self.users().contains_key(email@)
                    && (r matches Ok(u)
                        && u.email@ == email@
                        && u.password@ == self.users()[email@].0
                        && u.requires_2fa == self.users()[email@].1))
                ||| (!self.users().contains_key(email@)
                    && r == Err::<User, UserStoreError>(UserStoreError::UserNotFound))
            }),
            self.infallible() ==> r != Err::<User, UserStoreError>(
                UserStoreError::UnexpectedError,
            ),
    ;

    /// Checks the password of the record stored under the email, telling a
    /// missing record from a wrong password.
    fn validate_user(&self, email: &Email, password: &Password) -> (r: Result<
        (),
        UserStoreError,
    >)
        ensures
            ({
                ||| (r == Err::<(), UserStoreError>(UserStoreError::UnexpectedError))
                ||| (!self.users().contains_key(email@)
                    && r == Err::<(), UserStoreError>(UserStoreError::UserNotFound))
                ||| (self.users().contains_key(email@)
                    && self.users()[email@].0 == password@
                    && r == Ok::<(), UserStoreError>(()))
                ||| (self.users().contains_key(email@)
                    && self.users()[email@].0 != password@
                    && r == Err::<(), UserStoreError>(UserStoreError::InvalidCredentials))
            }),
            self.infallible() ==> r != Err::<(), UserStoreError>(
                UserStoreError::UnexpectedError,
            ),
    ;
}

/// The revocation ledger: the set of session tokens invalidated before
/// their natural expiry. A backend whose storage can fail may report
/// `UnexpectedError` instead, changing nothing.
pub trait BannedTokenStore: Sized {
    /// The ledger's contents. The default stands for a backend whose
    /// contents the proofs never see; verified stores override it.
    open spec fn banned(&self) -> Set<Seq<char>> {
        Set::empty()
    }

    /// Whether this backend can never fail with `UnexpectedError`. The
    /// in-memory ledger promises it; a backend over a connection does not,
    /// and the cautious default is that it may fail.
    open spec fn infallible(&self) -> bool {
        false
    }

    /// Records the token; recording it twice is a distinguishable error, so
    /// the boundary can report a repeated logout.
    fn add_token(&mut self, token: String) -> (r: Result<(), BannedTokenStoreError>)
        ensures
            ({
                ||| (r == Err::<(), BannedTokenStoreError>(BannedTokenStoreError::UnexpectedError)
                    && final(self).banned() == old(self).banned())
                ||| (old(self).banned().contains(token@)
                    && r == Err::<(), BannedTokenStoreError>(BannedTokenStoreError::TokenAlreadyExists)
                    && final(self).banned() == old(self).banned())
                ||| (!old(self).banned().contains(token@)
                    && r == Ok::<(), BannedTokenStoreError>(())
                    && final(self).banned() == old(self).banned().insert(token@))
            }),
            final(self).infallible() == old(self).infallible(),
            old(self).infallible() ==> r != Err::<(), BannedTokenStoreError>(
                BannedTokenStoreError::UnexpectedError,
            ),
    ;

    /// Whether the token has been revoked.
    fn contains_token(&self, token: &str) -> (r: Result<bool, BannedTokenStoreError>)
        ensures
            ({
                ||| (r == Err::<bool, BannedTokenStoreError>(BannedTokenStoreError::UnexpectedError))
                ||| (r == Ok::<bool, BannedTokenStoreError>(self.banned().contains(token@)))
            }),
            self.infallible() ==> r == Ok::<bool, BannedTokenStoreError>(
                self.banned().contains(token@),
            ),
    ;
}

/// The pending-challenge store: at most one challenge per email, created on
/// a login that demands a second factor and destroyed when that factor is
/// verified (or by backend expiry). A backend whose storage can fail may
/// report `UnexpectedError` instead, changing nothing.
pub trait TwoFACodeStore: Sized {
    /// The store's contents: each email with a pending challenge mapped to
    /// its identifier and one-time code. The default stands for a backend
    /// whose contents the proofs never see; verified stores override it.
    open spec fn codes(&self) -> Map<Seq<char>, (Seq<char>, Seq<char>)> {
        Map::empty()
    }

    /// Whether this backend can never fail with `UnexpectedError`. The
    /// in-memory store promises it; a backend over a connection does not,
    /// and the cautious default is that it may fail.
    open spec fn infallible(&self) -> bool {
        false
    }

    /// Stores the pair, overwriting any pending challenge for the email.
    fn add_code(&mut self, email: Email, login_attempt_id: LoginAttemptId, code: TwoFACode) -> (r:
        Result<(), TwoFACodeStoreError>)
        ensures
            ({
                ||| (r == Err::<(), TwoFACodeStoreError>(TwoFACodeStoreError::UnexpectedError)
                    && final(self).codes() == old(self).codes())
                ||| (r == Ok::<(), TwoFACodeStoreError>(())
                    && final(self).codes() == old(self).codes().insert(
                        email@,
                        (login_attempt_id@, code@),
                    ))
            }),
            final(self).infallible() == old(self).infallible(),
            old(self).infallible() ==> r == Ok::<(), TwoFACodeStoreError>(()),
    ;

    /// Removes the pending challenge for the email, if any.
    fn remove_code(&mut self, email: &Email) -> (r: Result<(), TwoFACodeStoreError>)
        ensures
            ({
                ||| (r == Err::<(), TwoFACodeStoreError>(TwoFACodeStoreError::UnexpectedError)
                    && final(self).codes() == old(self).codes())
                ||| (old(self).codes().contains_key(email@)
                    && r == Ok::<(), TwoFACodeStoreError>(())
                    && final(self).codes() == old(self).codes().remove(email@))
                ||| (!old(self).codes().contains_key(email@)
                    && r == Err::<(), TwoFACodeStoreError>(TwoFACodeStoreError::LoginAttemptIdNotFound)
                    && final(self).codes() == old(self).codes())
            }),
            final(self).infallible() == old(self).infallible(),
            old(self).infallible() ==> r != Err::<(), TwoFACodeStoreError>(
                TwoFACodeStoreError::UnexpectedError,
            ),
    ;

    /// Reads the pending challenge for the email without consuming it:
    /// verification must read, decide, then consume.
    fn get_code(&self, email: &Email) -> (r: Result<
        (LoginAttemptId, TwoFACode),
        TwoFACodeStoreError,
    >)
        ensures
            ({
                ||| (r == Err::<(LoginAttemptId, TwoFACode), TwoFACodeStoreError>(
                    TwoFACodeStoreError::UnexpectedError,
                ))
                ||| (self.codes().contains_key(email@)
                    && (r matches Ok(p)
                        && p.0@ == self.codes()[email@].0
                        && p.1@ == self.codes()[email@].1))
                ||| (!self.codes().contains_key(email@)
                    && r == Err::<(LoginAttemptId, TwoFACode), TwoFACodeStoreError>(
                        TwoFACodeStoreError::LoginAttemptIdNotFound,
                    ))
            }),
            self.infallible() ==> r != Err::<(LoginAttemptId, TwoFACode), TwoFACodeStoreError>(
                TwoFACodeStoreError::UnexpectedError,
            ),
    ;
}

} // verus!
