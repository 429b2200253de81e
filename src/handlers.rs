use vstd::prelude::*;

use crate::config::Config;
use crate::errors::{AppError, ErrorView, StoreFailure};
use crate::models::{ClaimsView, RegisterUser, TokenResponse, User};
use crate::token::{current_timestamp, expiry_at, issue_token, session_claims, signed_token, token_contents};
use crate::utils::{hash_password, is_cost12_digest, password_verdict, verify_password};
use crate::validation::report;

verus! {

// ----- registration -----

/// A user row ready to be inserted: the name and the digest of the password.
#[derive(Debug, Clone)]
pub struct NewUser {
    pub username: String,
    pub password_hash: String,
}

/// Validates a registration body and hashes its password. The password itself goes no
/// further than the hash function.
pub fn prepare_registration(payload: &RegisterUser) -> (r: Result<NewUser, AppError>)
    ensures
        payload.problems().len() > 0 ==> (r matches Err(e) && e@ == ErrorView::Validation(report(payload.problems()))),
        payload.problems().len() == 0 ==> (r is Ok || (r matches Err(e) && e@ == ErrorView::PasswordHash)),
        r matches Ok(n) ==> n.username@ == payload.username@
            && password_verdict(payload.password@, n.password_hash@) == Some(true)
            && is_cost12_digest(n.password_hash@),
{
    match payload.check() {
        Err(e) => Err(e),
        Ok(()) => match hash_password(payload.password.as_str()) {
            Err(e) => Err(e),
            Ok(h) => Ok(NewUser { username: payload.username.clone(), password_hash: h }),
        },
    }
}

/// Message for a username that is already taken.
pub open spec fn taken_message() -> Seq<char> {
    "用户名已存在"@
}

/// What a registration answers once the store has replied to the insert.
pub open spec fn registration_result(insert: Result<(), StoreFailure>) -> Result<u16, ErrorView> {
    match insert {
        Ok(()) => Ok(201),
        Err(StoreFailure::UniqueViolation) => Err(ErrorView::Conflict(taken_message())),
        Err(f) => Err(ErrorView::Database(f)),
    }
}

pub open spec fn status_result(r: Result<u16, AppError>) -> Result<u16, ErrorView> {
    match r {
        Ok(s) => Ok(s),
        Err(e) => Err(e@),
    }
}

/// Maps the store's reply to an insert of a new user: created, or a conflict when the name
/// is taken, or the store's own failure.
pub fn finish_registration(insert: Result<(), StoreFailure>) -> (r: Result<u16, AppError>)
    ensures
        status_result(r) == registration_result(insert),
{
    match insert {
        Ok(()) => Ok(201),
        Err(StoreFailure::UniqueViolation) => Err(AppError::conflict("用户名已存在")),
        Err(f) => Err(AppError::Database(f)),
    }
}

/// The identity store's side of an insert: a name that is already there is refused as a
/// duplicate, any other goes in.
pub open spec fn identity_insert(existing: Set<Seq<char>>, username: Seq<char>) -> Result<(), StoreFailure> {
    if existing.contains(username) {
        Err(StoreFailure::UniqueViolation)
    } else {
        Ok(())
    }
}

/// A second registration of a name ends in a conflict, whatever either password: the second
/// body reaches the store as the same name (with its own digest), and the store, which holds
/// the first, refuses it.
pub proof fn lemma_second_registration_conflicts(
    existing: Set<Seq<char>>,
    first: RegisterUser,
    second: RegisterUser,
    row: NewUser,
)
    requires
        existing.contains(first.username@),
        second.username@ == first.username@,
        row.username@ == second.username@,
    ensures
        registration_result(identity_insert(existing, row.username@)) == Err::<u16, ErrorView>(
            ErrorView::Conflict(taken_message()),
        ),
        ErrorView::Conflict(taken_message()).status() == 409,
{
}

// ----- login -----

/// Message of every refused login, whichever part of the credentials was wrong.
pub open spec fn login_refused_message() -> Seq<char> {
    "用户名或密码错误"@
}

/// Message for a lifetime that puts the expiry outside representable time.
pub open spec fn lifetime_message() -> Seq<char> {
    "令牌有效期超出范围"@
}

/// What a login decides: refuse with an error, or sign a token with these claims.
pub enum LoginDecision {
    Refused(ErrorView),
    Granted(ClaimsView),
}

/// The login decision for the user row found under the given name (`None` when there is
/// none), the password offered, a lifetime of `days` days and the time `now`.
pub open spec fn login_decision(found: Option<User>, password: Seq<char>, days: i64, now: u64) -> LoginDecision {
    match found {
        None => LoginDecision::Refused(ErrorView::Authentication(login_refused_message())),
        Some(u) => match password_verdict(password, u.password_hash@) {
            None => LoginDecision::Refused(ErrorView::PasswordHash),
            Some(false) => LoginDecision::Refused(ErrorView::Authentication(login_refused_message())),
            Some(true) => if 0 <= expiry_at(now, days) <= u64::MAX {
                LoginDecision::Granted((u.username@, u.role@, expiry_at(now, days) as u64))
            } else {
                LoginDecision::Refused(ErrorView::Internal(lifetime_message()))
            },
        },
    }
}

/// Whether `r` is the answer of a login at time `now`: the refusal that the decision names,
/// or the token signed over the granted claims.
pub open spec fn login_answers(r: Result<TokenResponse, AppError>, found: Option<User>, password: Seq<char>, config: &Config, now: u64) -> bool {
    match login_decision(found, password, config.jwt_expiration_days, now) {
        LoginDecision::Refused(e) => r matches Err(x) && x@ == e,
        LoginDecision::Granted(c) => r matches Ok(t)
            && t.token@ == signed_token(c.0, c.1, c.2, config.jwt_secret@)
            && token_contents(t.token@, config.jwt_secret@) == Some(c),
    }
}

/// Completes a login at time `now`, given the user row found under the offered name.
/// An unknown name and a wrong password are refused alike. On success the token is signed
/// over the row's current name and role, with expiry `now` plus the configured lifetime.
pub fn login_at(found: Option<User>, password: &str, config: &Config, now: u64) -> (r: Result<TokenResponse, AppError>)
    ensures
        login_answers(r, found, password@, config, now),
{
    let user = match found {
        None => { return Err(AppError::authentication("用户名或密码错误")); },
        Some(u) => u,
    };
    let valid = match verify_password(password, user.password_hash.as_str()) {
        Err(e) => { return Err(e); },
        Ok(v) => v,
    };
    if !valid {
        return Err(AppError::authentication("用户名或密码错误"));
    }
    let claims = match session_claims(&user, now, config.jwt_expiration_days) {
        None => { return Err(AppError::internal("令牌有效期超出范围")); },
        Some(c) => c,
    };
    Ok(TokenResponse { token: issue_token(&claims, config.jwt_secret.as_str()) })
}

/// Completes a login at the current time. Whatever the clock says, the outcome is that of
/// a login at some moment.
pub fn login(found: Option<User>, password: &str, config: &Config) -> (r: Result<TokenResponse, AppError>)
    ensures
        exists|now: u64| #[trigger] login_answers(r, found, password@, config, now),
{
    let now = current_timestamp();
    login_at(found, password, config, now)
}

/// A name that passed registration, stored with the digest of its password, logs in with
/// that password: the login grants claims whose subject is the registered name, and a token
/// that such a login hands out decodes under the server secret to that subject.
pub proof fn lemma_register_then_login(payload: RegisterUser, row: NewUser, stored: User, config: Config, now: u64)
    requires
        payload.problems().len() == 0,
        row.username@ == payload.username@,
        password_verdict(payload.password@, row.password_hash@) == Some(true),
        stored.username@ == row.username@,
        stored.password_hash@ == row.password_hash@,
        0 <= expiry_at(now, config.jwt_expiration_days) <= u64::MAX,
    ensures
        login_decision(Some(stored), payload.password@, config.jwt_expiration_days, now) == LoginDecision::Granted(
            (payload.username@, stored.role@, expiry_at(now, config.jwt_expiration_days) as u64),
        ),
        forall|r: Result<TokenResponse, AppError>|
            #[trigger] login_answers(r, Some(stored), payload.password@, &config, now)
                ==> (r matches Ok(t) && token_contents(t.token@, config.jwt_secret@) matches Some(c)
                    && c.0 == payload.username@),
{
}

/// A wrong password for an existing name and any password for a missing name are refused
/// with the same error.
pub proof fn lemma_login_refusals_alike(stored: User, password: Seq<char>, other: Seq<char>, days: i64, now: u64)
    requires
        password_verdict(password, stored.password_hash@) == Some(false),
    ensures
        login_decision(Some(stored), password, days, now) == login_decision(None, other, days, now),
        login_decision(None, other, days, now) == LoginDecision::Refused(ErrorView::Authentication(login_refused_message())),
{
}

} // verus!
