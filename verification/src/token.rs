use vstd::prelude::*;
use crate::digits::{all_digits, dec_digits, dec_val, push_dec, read_dec20, pow10,
    lemma_dec_digits_len, lemma_dec_digits_all_digits, lemma_dec_val_of_dec_digits,
    lemma_dec_val_bound, lemma_dec_digits_of_dec_val};
use crate::email::Email;

verus! {

/// How long an issued session lives, in seconds.
pub const TOKEN_TTL_SECONDS: u64 = 600;

/// Why the codec rejected a token: not this codec's output under the key,
/// or past its recorded expiry.
#[derive(Clone, Copy, Debug, PartialEq, Eq, Structural)]
pub enum TokenError {
    Malformed,
    Expired,
}

/// One step of the token tag: shift the accumulator and mix one character
/// in, with wraparound arithmetic.
pub open spec fn tag_step(acc: u64, c: char) -> u64 {
    vstd::wrapping::u64_specs::wrapping_add(
        vstd::wrapping::u64_specs::wrapping_mul(acc, 31),
        c as u64,
    )
}

/// The integrity tag of a character sequence: a keyed fold over the key's
/// characters followed by the payload's.
pub open spec fn tag_fold(s: Seq<char>) -> u64
    decreases s.len(),
{
    if s.len() == 0 {
        7
    } else {
        tag_step(tag_fold(s.drop_last()), s.last())
    }
}

/// A session token's unsigned part: issue time, expiry, subject.
pub open spec fn token_core(subject: Seq<char>, iat: u64, exp: u64) -> Seq<char> {
    dec_digits(iat as nat, 20) + dec_digits(exp as nat, 20) + subject
}

/// The full token the codec mints: twenty digits of issue time, twenty of
/// expiry, twenty of keyed tag over the unsigned part, then the subject.
pub open spec fn spec_token(subject: Seq<char>, iat: u64, exp: u64, key: Seq<char>) -> Seq<char> {
    dec_digits(iat as nat, 20) + dec_digits(exp as nat, 20) + dec_digits(
        tag_fold(key + token_core(subject, iat, exp)) as nat,
        20,
    ) + subject
}

/// The issue time a token's text records.
pub open spec fn token_iat(t: Seq<char>) -> int {
    dec_val(t.subrange(0, 20))
}

/// The expiry a token's text records.
pub open spec fn token_exp(t: Seq<char>) -> int {
    dec_val(t.subrange(20, 40))
}

/// The subject a token's text records.
pub open spec fn token_subject(t: Seq<char>) -> Seq<char> {
    t.skip(60)
}

/// Whether the text is this codec's output under the key: three in-range
/// decimal fields, and the tag field equal to the keyed tag of the rest.
pub open spec fn token_shape_ok(t: Seq<char>, key: Seq<char>) -> bool {
    &&& t.len() >= 60
    &&& all_digits(t.subrange(0, 20))
    &&& all_digits(t.subrange(20, 40))
    &&& all_digits(t.subrange(40, 60))
    &&& token_iat(t) <= u64::MAX
    &&& token_exp(t) <= u64::MAX
    &&& dec_val(t.subrange(40, 60)) <= u64::MAX
    &&& dec_val(t.subrange(40, 60)) == tag_fold(key + (t.subrange(0, 40) + t.skip(60)))
}

/// What verification says of a token at a moment: its subject when it is
/// well-shaped under the key and unexpired, else why not. Revocation is the
/// caller's concern, kept out of the codec.
pub open spec fn spec_validate(t: Seq<char>, now: u64, key: Seq<char>) -> Result<
    Seq<char>,
    TokenError,
> {
    if !token_shape_ok(t, key) {
        Err(TokenError::Malformed)
    } else if token_exp(t) <= now {
        Err(TokenError::Expired)
    } else {
        Ok(token_subject(t))
    }
}

/// The keyed tag, computed over the key's characters then the payload's.
fn tag_exec(key: &str, payload: &str) -> (r: u64)
    ensures
        r == tag_fold(key@ + payload@),
{
    let mut acc: u64 = 7;
    let nk = key.unicode_len();
    let mut i: usize = 0;
    proof {
        assert(key@.take(0) =~= Seq::<char>::empty());
    }
    while i < nk
        invariant
            nk == key@.len(),
            0 <= i <= nk,
            acc == tag_fold(key@.take(i as int)),
        decreases nk - i,
    {
        let c = key.get_char(i);
        proof {
            let t = key@.take(i as int);
            let t1 = key@.take(i + 1int);
            assert(t1.drop_last() =~= t);
            assert(t1.last() == key@[i as int]);
        }
        acc = acc.wrapping_mul(31).wrapping_add(c as u64);
        i = i + 1;
    }
    proof {
        assert(key@.take(nk as int) =~= key@);
    }
    let np = payload.unicode_len();
    let mut j: usize = 0;
    proof {
        assert(key@ + payload@.take(0) =~= key@);
    }
    while j < np
        invariant
            nk == key@.len(),
            np == payload@.len(),
            0 <= j <= np,
            acc == tag_fold(key@ + payload@.take(j as int)),
        decreases np - j,
    {
        let c = payload.get_char(j);
        proof {
            let t = key@ + payload@.take(j as int);
            let t1 = key@ + payload@.take(j + 1int);
            assert(t1.drop_last() =~= t);
            assert(t1.last() == payload@[j as int]);
        }
        acc = acc.wrapping_mul(31).wrapping_add(c as u64);
        j = j + 1;
    }
    proof {
        assert(key@ + payload@.take(np as int) =~= key@ + payload@);
    }
    acc
}

/// Mints the signed, time-bound session token for the subject: issued now,
/// expiring one lifetime later, tagged under the key.
pub fn generate_token(email: &Email, now: u64, key: &str) -> (r: String)
    requires
        now + TOKEN_TTL_SECONDS <= u64::MAX,
    ensures
        r@ == spec_token(email@, now, (now + TOKEN_TTL_SECONDS) as u64, key@),
{
    let exp = now + TOKEN_TTL_SECONDS;
    let mut core = String::new();
    push_dec(&mut core, now, 20);
    push_dec(&mut core, exp, 20);
    core.append(email.as_ref());
    proof {
        assert(core@ =~= token_core(email@, now, exp));
    }
    let tag = tag_exec(key, core.as_str());
    let mut token = String::new();
    push_dec(&mut token, now, 20);
    push_dec(&mut token, exp, 20);
    push_dec(&mut token, tag, 20);
    token.append(email.as_ref());
    proof {
        assert(token@ =~= spec_token(email@, now, exp, key@));
    }
    token
}

/// Checks that the token is this codec's output under the key and has not
/// expired, and returns the subject it is bound to. Exactly the texts that
/// `spec_validate` accepts are accepted.
pub fn validate_token(token: &str, now: u64, key: &str) -> (r: Result<String, TokenError>)
    ensures
        ({
            let sv = spec_validate(token@, now, key@);
            match r {
                Ok(s) => (sv matches Ok(ss) && s@ == ss),
                Err(e) => sv == Err::<Seq<char>, TokenError>(e),
            }
        }),
{
    let n = token.unicode_len();
    if n < 60 {
        return Err(TokenError::Malformed);
    }
    let iat = match read_dec20(token, 0) {
        Some(v) => v,
        None => {
            return Err(TokenError::Malformed);
        },
    };
    let exp = match read_dec20(token, 20) {
        Some(v) => v,
        None => {
            return Err(TokenError::Malformed);
        },
    };
    let tag = match read_dec20(token, 40) {
        Some(v) => v,
        None => {
            return Err(TokenError::Malformed);
        },
    };
    let prefix = token.substring_char(0, 40);
    let subject = token.substring_char(60, n);
    let mut payload = prefix.to_owned();
    payload.append(subject);
    proof {
        assert(payload@ =~= token@.subrange(0, 40) + token@.skip(60));
    }
    let computed = tag_exec(key, payload.as_str());
    if computed != tag {
        return Err(TokenError::Malformed);
    }
    if exp <= now {
        proof {
            assert(token_shape_ok(token@, key@));
        }
        return Err(TokenError::Expired);
    }
    proof {
        assert(token_shape_ok(token@, key@));
        assert(subject@ =~= token_subject(token@));
    }
    Ok(subject.to_owned())
}

/// Any unsigned 64-bit number fits in twenty decimal digits.
proof fn lemma_u64_fits_20_digits(n: u64)
    ensures
        n < pow10(20),
        dec_val(dec_digits(n as nat, 20)) == n,
        dec_digits(n as nat, 20).len() == 20,
        all_digits(dec_digits(n as nat, 20)),
{
    assert(pow10(20) == 100000000000000000000) by {
        reveal_with_fuel(pow10, 21);
    }
    lemma_dec_val_of_dec_digits(n as nat, 20);
    lemma_dec_digits_len(n as nat, 20);
    lemma_dec_digits_all_digits(n as nat, 20);
}

/// A token the codec minted verifies under the same key at any moment
/// before its expiry, as the subject it was minted for, and is rejected as
/// expired from its expiry on.
pub proof fn lemma_token_round_trip(subject: Seq<char>, iat: u64, exp: u64, key: Seq<char>, now: u64)
    ensures
        spec_validate(spec_token(subject, iat, exp, key), now, key) == (if exp > now {
            Ok::<Seq<char>, TokenError>(subject)
        } else {
            Err::<Seq<char>, TokenError>(TokenError::Expired)
        }),
{
    let t = spec_token(subject, iat, exp, key);
    let tag = tag_fold(key + token_core(subject, iat, exp));
    lemma_u64_fits_20_digits(iat);
    lemma_u64_fits_20_digits(exp);
    lemma_u64_fits_20_digits(tag);
    assert(t.subrange(0, 20) =~= dec_digits(iat as nat, 20));
    assert(t.subrange(20, 40) =~= dec_digits(exp as nat, 20));
    assert(t.subrange(40, 60) =~= dec_digits(tag as nat, 20));
    assert(t.skip(60) =~= subject);
    assert(t.subrange(0, 40) + t.skip(60) =~= token_core(subject, iat, exp));
    assert(token_shape_ok(t, key));
    assert(token_exp(t) == exp);
}

/// Whatever verification accepts is, character for character, a token the
/// codec mints: the recorded subject, times and key reproduce it exactly.
pub proof fn lemma_validate_sound(t: Seq<char>, now: u64, key: Seq<char>)
    requires
        spec_validate(t, now, key) matches Ok(s),
    ensures
        ({
            let s = token_subject(t);
            let iat = token_iat(t) as u64;
            let exp = token_exp(t) as u64;
            t == spec_token(s, iat, exp, key) && exp > now
        }),
{
    let s = token_subject(t);
    let iat = token_iat(t) as u64;
    let exp = token_exp(t) as u64;
    lemma_dec_val_bound(t.subrange(0, 20));
    lemma_dec_val_bound(t.subrange(20, 40));
    lemma_dec_val_bound(t.subrange(40, 60));
    lemma_dec_digits_of_dec_val(t.subrange(0, 20));
    lemma_dec_digits_of_dec_val(t.subrange(20, 40));
    lemma_dec_digits_of_dec_val(t.subrange(40, 60));
    assert(t.subrange(0, 40) + t.skip(60) =~= token_core(s, iat, exp)) by {
        assert(t.subrange(0, 40) =~= t.subrange(0, 20) + t.subrange(20, 40));
    }
    assert(t =~= spec_token(s, iat, exp, key)) by {
        assert(t =~= t.subrange(0, 20) + t.subrange(20, 40) + t.subrange(40, 60) + t.skip(60));
    }
}

} // verus!
