use vstd::prelude::*;
use vstd::std_specs::cmp::PartialEqSpec;
use crate::data_stores::{uuid_ok, LoginAttemptId};
use crate::email::email_ok;
use crate::engine::{spec_challenge_matches, spec_logout, spec_verify_session};
use crate::errors::AuthAPIError;
use crate::token::{
    lemma_token_round_trip, lemma_validate_sound, spec_token, spec_validate, token_exp, token_iat,
    token_subject, TOKEN_TTL_SECONDS,
};

verus! {

/// A session token minted at login for a signed-up email verifies, at any
/// moment before its expiry and as long as it has not been revoked, and
/// names exactly that email.
pub proof fn lemma_login_token_verifies(
    email: Seq<char>,
    now: u64,
    later: u64,
    key: Seq<char>,
    banned: Set<Seq<char>>,
)
    requires
        email_ok(email),
        now + TOKEN_TTL_SECONDS <= u64::MAX,
        later < now + TOKEN_TTL_SECONDS,
        !banned.contains(spec_token(email, now, (now + TOKEN_TTL_SECONDS) as u64, key)),
    ensures
        spec_verify_session(
            spec_token(email, now, (now + TOKEN_TTL_SECONDS) as u64, key),
            later,
            key,
            banned,
        ) == Ok::<Seq<char>, AuthAPIError>(email),
{
    lemma_token_round_trip(email, now, (now + TOKEN_TTL_SECONDS) as u64, key, later);
}

/// A minted token is rejected as expired from its recorded expiry onward.
pub proof fn lemma_token_expires(
    email: Seq<char>,
    iat: u64,
    exp: u64,
    later: u64,
    key: Seq<char>,
    banned: Set<Seq<char>>,
)
    requires
        exp <= later,
    ensures
        spec_verify_session(spec_token(email, iat, exp, key), later, key, banned) == Err::<
            Seq<char>,
            AuthAPIError,
        >(AuthAPIError::InvalidCredential),
{
    lemma_token_round_trip(email, iat, exp, key, later);
}

/// Session verification succeeds only on a token this codec minted under
/// the key: the accepted text is, character for character, a minted token
/// that is unexpired, unrevoked, and bound to the returned subject.
pub proof fn lemma_session_requires_minted_token(
    t: Seq<char>,
    now: u64,
    key: Seq<char>,
    banned: Set<Seq<char>>,
)
    requires
        spec_verify_session(t, now, key, banned) matches Ok(s),
    ensures
        spec_verify_session(t, now, key, banned) == Ok::<Seq<char>, AuthAPIError>(
            token_subject(t),
        ),
        t == spec_token(token_subject(t), token_iat(t) as u64, token_exp(t) as u64, key),
        token_exp(t) > now,
        !banned.contains(t),
        email_ok(token_subject(t)),
{
    lemma_validate_sound(t, now, key);
}

/// A well-formed challenge identifier round-trips: whatever parsing the
/// text of a minted identifier may return — as the parser's own contract
/// states it — is an identifier equal to the minted one.
pub proof fn lemma_challenge_id_round_trip(
    minted: LoginAttemptId,
    reparsed: Result<LoginAttemptId, String>,
)
    requires
        minted.wf(),
        uuid_ok(minted@) ==> (reparsed matches Ok(a) && a@ == minted@),
    ensures
        reparsed matches Ok(a) && a.eq_spec(&minted),
{
}

/// A pending challenge is single-use: once consumed for its email, the very
/// pair that just matched no longer matches anything.
pub proof fn lemma_challenge_single_use(
    codes: Map<Seq<char>, (Seq<char>, Seq<char>)>,
    email: Seq<char>,
    id: Seq<char>,
    code: Seq<char>,
)
    requires
        spec_challenge_matches(codes, email, id, code),
    ensures
        !spec_challenge_matches(codes.remove(email), email, id, code),
{
}

/// Issuing a fresh challenge for an email is last-writer-wins: afterwards
/// the fresh pair matches and any different earlier pair no longer does.
pub proof fn lemma_latest_challenge_wins(
    codes: Map<Seq<char>, (Seq<char>, Seq<char>)>,
    email: Seq<char>,
    earlier: (Seq<char>, Seq<char>),
    fresh: (Seq<char>, Seq<char>),
)
    requires
        earlier != fresh,
    ensures
        spec_challenge_matches(codes.insert(email, fresh), email, fresh.0, fresh.1),
        !spec_challenge_matches(codes.insert(email, fresh), email, earlier.0, earlier.1),
{
}

/// A revoked token never verifies again: once it stands in the ledger,
/// session verification fails on it with an invalid credential, whatever
/// the moment and whatever else the ledger holds.
pub proof fn lemma_revoked_token_never_verifies(
    t: Seq<char>,
    now: u64,
    key: Seq<char>,
    banned: Set<Seq<char>>,
)
    ensures
        spec_verify_session(t, now, key, banned.insert(t)) == Err::<Seq<char>, AuthAPIError>(
            AuthAPIError::InvalidCredential,
        ),
{
}

/// A second logout of the same still-unexpired token is a conflict: the
/// first logout put the token in the ledger, and there the second finds it.
pub proof fn lemma_second_logout_conflicts(
    t: Seq<char>,
    now: u64,
    later: u64,
    key: Seq<char>,
    banned: Set<Seq<char>>,
)
    requires
        spec_logout(t, now, key, banned) == Ok::<(), AuthAPIError>(()),
        spec_validate(t, later, key) matches Ok(_),
    ensures
        spec_logout(t, later, key, banned.insert(t)) == Err::<(), AuthAPIError>(
            AuthAPIError::Conflict,
        ),
{
}

} // verus!
