use inkwell::config::Config;
use inkwell::errors::{AppError, StoreFailure, TokenFailure};
use inkwell::handlers::{finish_registration, login, login_at, prepare_registration};
use inkwell::middleware::{admit_request, authenticate, requires_auth};
use inkwell::models::{Claims, RegisterUser, User};
use inkwell::token::{issue_token, parse_token, session_claims};
use inkwell::utils::{check_delete_result, hash_password, verify_password};

const NOW: u64 = 1_700_000_000;
const DAY: u64 = 86_400;

fn config(days: i64) -> Config {
    Config {
        database_url: "sqlite::memory:".to_string(),
        jwt_secret: "test_secret".to_string(),
        server_host: "127.0.0.1".to_string(),
        server_port: 3000,
        db_max_connections: 1,
        jwt_expiration_days: days,
    }
}

fn stored_user(id: i64, username: &str, password: &str) -> User {
    let body = RegisterUser { username: username.to_string(), password: password.to_string() };
    let row = prepare_registration(&body).unwrap();
    User { id, username: row.username, password_hash: row.password_hash, role: "user".to_string() }
}

fn claims(sub: &str, exp: u64) -> Claims {
    Claims { sub: sub.to_string(), role: "user".to_string(), exp }
}

#[test]
fn route_classifier() {
    assert!(!requires_auth("GET", "/posts"));
    assert!(!requires_auth("GET", "/posts/1/comments"));
    assert!(requires_auth("POST", "/posts"));
    assert!(requires_auth("PUT", "/posts/1"));
    assert!(requires_auth("DELETE", "/posts/1"));
    assert!(requires_auth("POST", "/posts/1/comments"));
    assert!(requires_auth("DELETE", "/posts/1/comments/2"));
    assert!(!requires_auth("POST", "/register"));
    assert!(!requires_auth("POST", "/login"));
    assert!(requires_auth("POST", "/register/extra"));
    assert!(!requires_auth("OPTIONS", "/posts"));
}

#[test]
fn hash_then_verify() {
    let hash = hash_password("password123").unwrap();
    assert_ne!(hash, "password123");
    assert_eq!(hash.len(), 60);
    assert!(hash.starts_with("$2b$12$"));
    assert_ne!(hash_password("password123").unwrap(), hash);
    assert_eq!(verify_password("password123", &hash), Ok(true));
    assert_eq!(verify_password("password124", &hash), Ok(false));
    assert_eq!(verify_password("password123", "not a digest"), Err(AppError::PasswordHash));
}

#[test]
fn token_round_trip_and_expiry() {
    let user = User { id: 1, username: "alice".to_string(), password_hash: String::new(), role: "admin".to_string() };
    let c = session_claims(&user, NOW, 1).unwrap();
    assert_eq!(c, Claims { sub: "alice".to_string(), role: "admin".to_string(), exp: NOW + DAY });
    let token = issue_token(&c, "test_secret");
    assert_eq!(token.split('.').count(), 3);
    assert_eq!(parse_token(&token, "test_secret", NOW), Ok(c.clone()));
    assert_eq!(parse_token(&token, "test_secret", NOW + DAY), Ok(c.clone()));
    assert_eq!(parse_token(&token, "test_secret", NOW + DAY + 1), Err(TokenFailure::Expired));
    assert_eq!(parse_token(&token, "other_secret", NOW), Err(TokenFailure::BadSignature));
    assert_eq!(parse_token("not.a.token", "test_secret", NOW), Err(TokenFailure::Malformed));
    assert_eq!(parse_token("", "test_secret", NOW), Err(TokenFailure::Malformed));
}

#[test]
fn session_claims_out_of_range() {
    let user = User { id: 1, username: "a".to_string(), password_hash: String::new(), role: "r".to_string() };
    assert_eq!(session_claims(&user, NOW, i64::MAX), None);
    assert_eq!(session_claims(&user, NOW, -1_000_000), None);
    assert_eq!(session_claims(&user, NOW, -1).map(|c| c.exp), Some(NOW - DAY));
    assert_eq!(session_claims(&user, 0, 0).map(|c| c.exp), Some(0));
}

#[test]
fn authentication_messages() {
    let token = issue_token(&claims("alice", NOW + DAY), "s");
    let bearer = format!("Bearer {}", token);
    assert_eq!(authenticate(Some(&bearer), "s", NOW), Ok(claims("alice", NOW + DAY)));
    let missing = AppError::authentication("Missing Authorization header");
    let invalid = AppError::authentication("Invalid or expired token");
    assert_eq!(authenticate(None, "s", NOW), Err(missing.clone()));
    assert_eq!(authenticate(Some(&format!("Basic {}", token)), "s", NOW), Err(missing.clone()));
    assert_eq!(authenticate(Some(&token), "s", NOW), Err(missing));
    assert_eq!(authenticate(Some(&bearer), "other", NOW), Err(invalid.clone()));
    assert_eq!(authenticate(Some(&bearer), "s", NOW + 2 * DAY), Err(invalid.clone()));
    assert_eq!(authenticate(Some("Bearer junk"), "s", NOW), Err(invalid.clone()));
    assert_eq!(invalid.status_code(), 401);
}

#[test]
fn create_post_returns_a_401_for_unauthenticated_request() {
    let err = admit_request("POST", "/posts", None, "s", NOW).unwrap_err();
    assert_eq!(err.status_code(), 401);
    let public = admit_request("GET", "/posts", None, "s", NOW).unwrap();
    assert!(public.identity.is_none());
    let login_route = admit_request("POST", "/login", Some("Bearer junk"), "s", NOW).unwrap();
    assert!(login_route.identity.is_none());
}

#[test]
fn register_returns_a_409_when_username_is_taken() {
    assert_eq!(finish_registration(Ok(())), Ok(201));
    let err = finish_registration(Err(StoreFailure::UniqueViolation)).unwrap_err();
    assert_eq!(err, AppError::conflict("用户名已存在"));
    assert_eq!(err.status_code(), 409);
    assert_eq!(finish_registration(Err(StoreFailure::Other)), Err(AppError::Database(StoreFailure::Other)));
}

#[test]
fn register_returns_a_201_for_valid_form_data() {
    let body = RegisterUser { username: "test_user".to_string(), password: "password123".to_string() };
    let row = prepare_registration(&body).unwrap();
    assert_eq!(row.username, "test_user");
    assert_ne!(row.password_hash, "password123");
    assert_eq!(verify_password("password123", &row.password_hash), Ok(true));
    assert_eq!(finish_registration(Ok(())), Ok(201));
}

#[test]
fn login_returns_a_200_and_token_for_valid_credentials() {
    let cfg = config(1);
    let user = stored_user(7, "testuser_login_success", "password123");
    let answer = login_at(Some(user), "password123", &cfg, NOW).unwrap();
    assert!(!answer.token.is_empty());
    let decoded = parse_token(&answer.token, "test_secret", NOW).unwrap();
    assert_eq!(decoded.sub, "testuser_login_success");
    assert_eq!(decoded.role, "user");
    assert_eq!(decoded.exp, NOW + DAY);
    let now_answer = login(Some(stored_user(8, "someone", "password123")), "password123", &cfg).unwrap();
    assert!(!now_answer.token.is_empty());
}

#[test]
fn login_returns_a_401_for_invalid_credentials() {
    let cfg = config(1);
    let user = stored_user(7, "testuser_login_fail", "correct_password");
    let unknown = login_at(None, "correct_password", &cfg, NOW).unwrap_err();
    let wrong = login_at(Some(user), "wrong_password", &cfg, NOW).unwrap_err();
    assert_eq!(unknown.status_code(), 401);
    assert_eq!(unknown, wrong);
    assert_eq!(unknown.to_response().error, wrong.to_response().error);
}

#[test]
fn login_with_unreadable_digest_is_internal() {
    let user = User { id: 1, username: "abc".to_string(), password_hash: "x".to_string(), role: "user".to_string() };
    assert_eq!(login_at(Some(user), "pw", &config(1), NOW).unwrap_err(), AppError::PasswordHash);
}

#[test]
fn login_with_unrepresentable_lifetime_is_internal() {
    let user = stored_user(1, "abc", "password123");
    let err = login_at(Some(user), "password123", &config(i64::MAX), NOW).unwrap_err();
    assert_eq!(err, AppError::internal("令牌有效期超出范围"));
    assert_eq!(err.error_message(), AppError::internal("other").error_message());
}

#[test]
fn delete_result_statuses() {
    assert_eq!(check_delete_result(1, "Post"), Ok(204));
    assert_eq!(check_delete_result(0, "Comment"), Err(AppError::not_found("Comment not found")));
}
