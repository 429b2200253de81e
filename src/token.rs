use vstd::prelude::*;

use crate::errors::TokenFailure;
use crate::models::{Claims, ClaimsView, User};

verus! {

#[verifier::external_type_specification]
#[verifier::external_body]
pub struct ExJwtError(jsonwebtoken::errors::Error);

/// The token that signing `(sub, role, exp)` with `secret` yields: an HS256 JWT whose payload
/// is the JSON object `{sub, role, exp}`.
pub uninterp spec fn signed_token(sub: Seq<char>, role: Seq<char>, exp: u64, secret: Seq<char>) -> Seq<char>;

/// The claims that `token` carries when its signature checks out under `secret` and its
/// payload holds a string `sub`, a string `role` and an unsigned integer `exp`; expiry is not
/// looked at.
pub uninterp spec fn token_contents(token: Seq<char>, secret: Seq<char>) -> Option<ClaimsView>;

/// Relies on jsonwebtoken::encode with the default header (HS256) and an HMAC key made of the
/// secret's bytes, over the JSON object {sub, role, exp}: header and key are of the same
/// family, both parts serialise, and HMAC signing cannot fail, so a token always comes back;
/// it is a function of these values, and jsonwebtoken::decode with the same secret gives them
/// back.
#[verifier::external_body]
fn encode_claims(sub: &str, role: &str, exp: u64, secret: &str) -> (r: Result<String, jsonwebtoken::errors::Error>)
    ensures
        r is Ok,
        r matches Ok(t) ==> t@ == signed_token(sub@, role@, exp, secret@),
        r matches Ok(t) ==> token_contents(t@, secret@) == Some((sub@, role@, exp)),
{
    let mut payload = serde_json::Map::default();
    payload.insert("sub".to_owned(), serde_json::Value::from(sub));
    payload.insert("role".to_owned(), serde_json::Value::from(role));
    payload.insert("exp".to_owned(), serde_json::Value::from(exp));
    let key = jsonwebtoken::EncodingKey::from_secret(secret.as_bytes());
    jsonwebtoken::encode(&jsonwebtoken::Header::default(), &payload, &key)
}

/// Relies on jsonwebtoken::decode under its default validation (HS256 only, `exp` required)
/// with its own expiry check switched off, and on serde_json's accessors for the string
/// members sub and role and the unsigned member exp of the payload: the outcome is a function
/// of the token and the secret. A signature mismatch is told apart from every other refusal.
#[verifier::external_body]
fn decode_claims(token: &str, secret: &str) -> (r: Result<Claims, TokenFailure>)
    ensures
        r is Ok <==> token_contents(token@, secret@) is Some,
        r matches Ok(c) ==> token_contents(token@, secret@) == Some(c@),
        !(r matches Err(TokenFailure::Expired)),
{
    let key = jsonwebtoken::DecodingKey::from_secret(secret.as_bytes());
    let mut rules = jsonwebtoken::Validation::default();
    rules.validate_exp = false;
    match jsonwebtoken::decode::<serde_json::Value>(token, &key, &rules) {
        Ok(d) => match (d.claims["sub"].as_str(), d.claims["role"].as_str(), d.claims["exp"].as_u64()) {
            (Some(s), Some(r), Some(e)) => Ok(Claims { sub: s.to_owned(), role: r.to_owned(), exp: e }),
            _ => Err(TokenFailure::Malformed),
        },
        Err(e) if matches!(e.kind(), jsonwebtoken::errors::ErrorKind::InvalidSignature) => Err(TokenFailure::BadSignature),
        Err(_) => Err(TokenFailure::Malformed),
    }
}

#[verifier::external_type_specification]
#[verifier::external_body]
pub struct ExSystemTime(std::time::SystemTime);

#[verifier::external_type_specification]
#[verifier::external_body]
pub struct ExSystemTimeError(std::time::SystemTimeError);

/// Relies on std::time::SystemTime::now: a reading of the system clock.
#[verifier::external_body]
fn clock_now() -> (r: std::time::SystemTime) {
    std::time::SystemTime::now()
}

/// Relies on std::time::SystemTime::duration_since: the time elapsed since the Unix epoch,
/// or an error when the reading lies before it.
#[verifier::external_body]
fn since_epoch(t: &std::time::SystemTime) -> (r: Result<std::time::Duration, std::time::SystemTimeError>) {
    t.duration_since(std::time::UNIX_EPOCH)
}

/// Relies on std::time::Duration::as_secs: the whole seconds of a duration.
#[verifier::external_body]
fn whole_seconds(d: &std::time::Duration) -> (r: u64) {
    d.as_secs()
}

/// Current time in Unix seconds, a clock set before 1970 counting as the epoch itself.
pub fn current_timestamp() -> (r: u64) {
    let now = clock_now();
    match since_epoch(&now) {
        Ok(d) => whole_seconds(&d),
        Err(_) => 0,
    }
}

/// Seconds in a day.
pub const SECONDS_PER_DAY: i64 = 86400;

/// Expiry of a session opened at `now` that lasts `days` days.
pub open spec fn expiry_at(now: u64, days: i64) -> int {
    now + days * SECONDS_PER_DAY
}

/// Whether a token that expires at `exp` is still accepted at `now`.
pub open spec fn unexpired(exp: u64, now: u64) -> bool {
    now <= exp
}

/// What parsing `token` under `secret` at time `now` gives.
pub open spec fn parse_outcome(token: Seq<char>, secret: Seq<char>, now: u64) -> Option<ClaimsView> {
    match token_contents(token, secret) {
        Some(c) => if unexpired(c.2, now) { Some(c) } else { None },
        None => None,
    }
}

/// Claims of a session for `user` opened at `now` with a lifetime of `days` days, when the
/// expiry is a representable time (not before the epoch, within `u64`).
pub fn session_claims(user: &User, now: u64, days: i64) -> (r: Option<Claims>)
    ensures
        r is Some <==> 0 <= expiry_at(now, days) <= u64::MAX,
        r matches Some(c) ==> c@ == (user.username@, user.role@, expiry_at(now, days) as u64),
{
    proof {
        assert(-0x8000_0000_0000_0000 * 86400 <= days * 86400 <= 0x8000_0000_0000_0000 * 86400)
            by (nonlinear_arith)
            requires
                -0x8000_0000_0000_0000 <= days <= 0x8000_0000_0000_0000,
        ;
    }
    let span: i128 = days as i128 * (SECONDS_PER_DAY as i128);
    let exp: i128 = now as i128 + span;
    if exp < 0 || exp > u64::MAX as i128 {
        None
    } else {
        Some(Claims { sub: user.username.clone(), role: user.role.clone(), exp: exp as u64 })
    }
}

/// Signs `claims` with `secret` into a session token.
pub fn issue_token(claims: &Claims, secret: &str) -> (r: String)
    ensures
        r@ == signed_token(claims.sub@, claims.role@, claims.exp, secret@),
        token_contents(r@, secret@) == Some(claims@),
{
    match encode_claims(claims.sub.as_str(), claims.role.as_str(), claims.exp, secret) {
        Ok(t) => t,
        Err(_) => {
            proof {
                assert(false);
            }
            String::new()
        },
    }
}

/// Reads the claims of `token` under `secret` at time `now`: they come back when the signature
/// checks out and the expiry is not past; otherwise the cause is named.
pub fn parse_token(token: &str, secret: &str, now: u64) -> (r: Result<Claims, TokenFailure>)
    ensures
        r is Ok <==> parse_outcome(token@, secret@, now) is Some,
        r matches Ok(c) ==> parse_outcome(token@, secret@, now) == Some(c@),
        r == Err::<Claims, TokenFailure>(TokenFailure::Expired) <==> (token_contents(token@, secret@) matches Some(c) && !unexpired(c.2, now)),
{
    match decode_claims(token, secret) {
        Ok(c) => {
            if now <= c.exp {
                Ok(c)
            } else {
                Err(TokenFailure::Expired)
            }
        },
        Err(f) => Err(f),
    }
}

} // verus!
