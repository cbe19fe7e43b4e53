use vstd::prelude::*;
use crate::data_stores::{code_valid, uuid_ok, LoginAttemptId, TwoFACode};
use crate::email::Email;

verus! {

/// The cache key under which an email's pending challenge is stored.
pub open spec fn spec_two_fa_key(email: Seq<char>) -> Seq<char> {
    "two_fa_code:"@ + email
}

/// Builds the cache key for an email's pending challenge.
pub fn get_key(email: &Email) -> (r: String)
    ensures
        r@ == spec_two_fa_key(email@),
{
    let mut s = "two_fa_code:".to_owned();
    s.append(email.as_ref());
    s
}

/// A pending challenge framed as one string: the six code digits first,
/// then the identifier text.
pub open spec fn spec_pair_encoding(id: Seq<char>, code: Seq<char>) -> Seq<char> {
    code + id
}

/// Whether a string frames a pending challenge: a six-digit code followed
/// by a well-formed identifier.
pub open spec fn spec_pair_decodable(s: Seq<char>) -> bool {
    s.len() >= 6 && code_valid(s.subrange(0, 6)) && uuid_ok(s.skip(6))
}

/// Frames a pending challenge for an expiring cache: the fixed-width code
/// goes first, so the frame splits back without an escape scheme.
pub fn encode_two_fa_pair(login_attempt_id: &LoginAttemptId, code: &TwoFACode) -> (r: String)
    requires
        code.wf(),
    ensures
        r@ == spec_pair_encoding(login_attempt_id@, code@),
{
    let mut s = code.as_ref().to_owned();
    s.append(login_attempt_id.as_ref());
    s
}

/// Splits a frame back into the identifier and code; exactly the frames
/// that `encode_two_fa_pair` produces are accepted.
pub fn decode_two_fa_pair(s: &str) -> (r: Option<(LoginAttemptId, TwoFACode)>)
    ensures
        spec_pair_decodable(s@) ==> (r matches Some(p) && p.0@ == s@.skip(6) && p.1@ == s@.subrange(
            0,
            6,
        )),
        !spec_pair_decodable(s@) ==> r is None,
{
    let n = s.unicode_len();
    if n < 6 {
        return None;
    }
    let code_part = s.substring_char(0, 6);
    let id_part = s.substring_char(6, n);
    proof {
        assert(id_part@ =~= s@.skip(6));
    }
    match TwoFACode::parse(code_part.to_owned()) {
        Ok(code) => match LoginAttemptId::parse(id_part.to_owned()) {
            Ok(id) => Some((id, code)),
            Err(_) => None,
        },
        Err(_) => None,
    }
}

/// A framed challenge decodes back to the identifier and code it framed.
pub proof fn lemma_pair_round_trip(id: Seq<char>, code: Seq<char>)
    requires
        uuid_ok(id),
        code_valid(code),
    ensures
        spec_pair_decodable(spec_pair_encoding(id, code)),
        spec_pair_encoding(id, code).subrange(0, 6) == code,
        spec_pair_encoding(id, code).skip(6) == id,
{
    let e = spec_pair_encoding(id, code);
    assert(e.subrange(0, 6) =~= code);
    assert(e.skip(6) =~= id);
}

} // verus!
