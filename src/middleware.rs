use vstd::prelude::*;
use vstd::string::*;
use vstd::utf8::*;

use crate::errors::{AppError, ErrorView};
use crate::models::{Claims, ClaimsView};
use crate::token::{current_timestamp, expiry_at, parse_outcome, parse_token, token_contents};

verus! {

/// Methods that change state.
pub open spec fn is_mutating(method: Seq<char>) -> bool {
    method == "POST"@ || method == "PUT"@ || method == "DELETE"@
}

/// The two routes that open a session and so stay public whatever the method.
pub open spec fn is_session_entry(path: Seq<char>) -> bool {
    path == "/register"@ || path == "/login"@
}

/// Whether a request must carry a valid token before it reaches a handler.
pub open spec fn route_protected(method: Seq<char>, path: Seq<char>) -> bool {
    is_mutating(method) && !is_session_entry(path)
}

/// Whether `text` holds `part` at some position.
pub open spec fn contains(text: Seq<char>, part: Seq<char>) -> bool {
    exists|i: int| 0 <= i <= text.len() - part.len() && #[trigger] text.subrange(i, i + part.len()) == part
}

fn same_text(a: &str, b: &str) -> (r: bool)
    ensures
        r == (a@ == b@),
{
    a.to_owned() == b.to_owned()
}

/// Decides, from the method and the path alone, whether a request needs authentication:
/// reads are public, and so are registration and login; every other write is protected.
pub fn requires_auth(method: &str, path: &str) -> (r: bool)
    ensures
        r == route_protected(method@, path@),
{
    let mutating = same_text(method, "POST") || same_text(method, "PUT") || same_text(method, "DELETE");
    mutating && !(same_text(path, "/register") || same_text(path, "/login"))
}

/// Writes to any path that holds a comment segment are protected.
pub proof fn lemma_comment_writes_protected(method: Seq<char>, path: Seq<char>)
    requires
        is_mutating(method),
        contains(path, "/comments"@),
    ensures
        route_protected(method, path),
{
    reveal_strlit("/comments");
    reveal_strlit("/register");
    reveal_strlit("/login");
    let i = choose|i: int| 0 <= i <= path.len() - "/comments"@.len() && #[trigger] path.subrange(i, i + "/comments"@.len()) == "/comments"@;
    if path == "/register"@ {
        assert(i == 0);
        assert(path.subrange(0, 9)[1] == path[1]);
    }
}

/// Reads never need authentication.
pub proof fn lemma_reads_public(path: Seq<char>)
    ensures
        !route_protected("GET"@, path),
{
    reveal_strlit("GET");
    reveal_strlit("POST");
    reveal_strlit("PUT");
    reveal_strlit("DELETE");
    assert("GET"@ != "POST"@ && "GET"@ != "PUT"@ && "GET"@ != "DELETE"@) by {
        assert("GET"@.len() != "POST"@.len());
        assert("GET"@[0] != "PUT"@[0]);
        assert("GET"@.len() != "DELETE"@.len());
    }
}

/// The UTF-8 encoding of a string whose first `k` characters are ASCII starts with those `k`
/// bytes, ends with the encoding of the rest, and has a character boundary at `k`.
proof fn lemma_ascii_prefix_split(s: Seq<char>, k: int)
    requires
        0 <= k <= s.len(),
        forall|i: int| 0 <= i < k ==> (#[trigger] s[i]) as u32 <= 0x7f,
    ensures
        encode_utf8(s).len() >= k,
        is_char_boundary(encode_utf8(s), k),
        encode_utf8(s).subrange(k, encode_utf8(s).len() as int) == encode_utf8(s.subrange(k, s.len() as int)),
    decreases k,
{
    broadcast use encode_utf8_valid_utf8;

    if k == 0 {
        assert(s.subrange(0, s.len() as int) =~= s);
        assert(encode_utf8(s).subrange(0, encode_utf8(s).len() as int) =~= encode_utf8(s));
    } else {
        let bytes = encode_utf8(s);
        let tail = s.drop_first();
        assert forall|i: int| 0 <= i < k - 1 implies (#[trigger] tail[i]) as u32 <= 0x7f by {
            assert(tail[i] == s[i + 1]);
        }
        lemma_ascii_prefix_split(tail, k - 1);
        encode_utf8_first_scalar(s);
        assert(has_width_1_encoding(s[0] as u32));
        assert(encode_scalar(s[0] as u32).len() == 1);
        assert(bytes == encode_scalar(s[0] as u32) + encode_utf8(tail));
        assert(pop_first_scalar(bytes) =~= encode_utf8(tail));
        assert(tail.subrange(k - 1, tail.len() as int) =~= s.subrange(k, s.len() as int));
        assert(bytes.subrange(k, bytes.len() as int) =~= encode_utf8(tail).subrange(k - 1, encode_utf8(tail).len() as int));
    }
}

fn bearer_char(i: usize) -> (c: char)
    requires
        i < 7,
    ensures
        c == "Bearer "@[i as int],
{
    proof {
        reveal_strlit("Bearer ");
    }
    match i {
        0 => 'B',
        1 => 'e',
        2 => 'a',
        3 => 'r',
        4 => 'e',
        5 => 'r',
        _ => ' ',
    }
}

/// Whether `h` starts with `Bearer `.
fn has_bearer_prefix(h: &str) -> (r: bool)
    ensures
        r == "Bearer "@.is_prefix_of(h@),
{
    proof {
        reveal_strlit("Bearer ");
    }
    let mut n: usize = 0;
    for c in it: h.chars()
        invariant
            it.seq() == h@,
            "Bearer "@.len() == 7,
            n <= 7,
            n <= it.index(),
            n < 7 ==> n == it.index(),
            forall|i: int| 0 <= i < n ==> h@[i] == "Bearer "@[i],
    {
        if n < 7 {
            if c != bearer_char(n) {
                proof {
                    if "Bearer "@.is_prefix_of(h@) {
                        assert(h@.subrange(0, 7)[n as int] == h@[n as int]);
                    }
                }
                return false;
            }
            n = n + 1;
        }
    }
    if n == 7 {
        assert("Bearer "@ =~= h@.subrange(0, 7));
    }
    n == 7
}

/// The rest of `h` after `Bearer `, when `h` starts with it.
fn strip_bearer(h: &str) -> (r: Option<&str>)
    ensures
        r is Some <==> "Bearer "@.is_prefix_of(h@),
        r matches Some(rest) ==> rest@ == h@.subrange(7, h@.len() as int),
{
    proof {
        reveal_strlit("Bearer ");
    }
    if !has_bearer_prefix(h) {
        return None;
    }
    proof {
        assert forall|i: int| 0 <= i < 7 implies (#[trigger] h@[i]) as u32 <= 0x7f by {
            assert(h@[i] == "Bearer "@[i]);
        }
        lemma_ascii_prefix_split(h@, 7);
    }
    let (_, rest) = h.split_at(7);
    proof {
        broadcast use encode_utf8_decode_utf8;

        assert(rest@ == decode_utf8(encode_utf8(rest@)));
        assert(decode_utf8(encode_utf8(h@.subrange(7, h@.len() as int))) == h@.subrange(7, h@.len() as int));
    }
    Some(rest)
}

/// The token that an authorization header carries, if it has the bearer form.
pub open spec fn bearer_of(header: Seq<char>) -> Option<Seq<char>> {
    if "Bearer "@.is_prefix_of(header) {
        Some(header.subrange(7, header.len() as int))
    } else {
        None
    }
}

/// Message for a request that carries no bearer token.
pub open spec fn missing_message() -> Seq<char> {
    "Missing Authorization header"@
}

/// Message for a token that is malformed, forged or expired.
pub open spec fn invalid_message() -> Seq<char> {
    "Invalid or expired token"@
}

/// What the authentication check decides for an authorization header (`None` when absent), under
/// `secret`, at time `now`.
pub open spec fn auth_outcome(header: Option<Seq<char>>, secret: Seq<char>, now: u64) -> Result<ClaimsView, ErrorView> {
    match header {
        None => Err(ErrorView::Authentication(missing_message())),
        Some(h) => match bearer_of(h) {
            None => Err(ErrorView::Authentication(missing_message())),
            Some(t) => match parse_outcome(t, secret, now) {
                Some(c) => Ok(c),
                None => Err(ErrorView::Authentication(invalid_message())),
            },
        },
    }
}

pub open spec fn opt_view(h: Option<&str>) -> Option<Seq<char>> {
    match h {
        Some(s) => Some(s@),
        None => None,
    }
}

pub open spec fn claims_result(r: Result<Claims, AppError>) -> Result<ClaimsView, ErrorView> {
    match r {
        Ok(c) => Ok(c@),
        Err(e) => Err(e@),
    }
}

/// The authentication check: takes the bearer token out of the authorization header and checks it.
/// An absent header and an invalid token are both authentication failures, told apart by
/// their messages.
pub fn authenticate(authorization: Option<&str>, secret: &str, now: u64) -> (r: Result<Claims, AppError>)
    ensures
        claims_result(r) == auth_outcome(opt_view(authorization), secret@, now),
{
    proof {
        reveal_strlit("Bearer ");
    }
    let token = match authorization {
        Some(h) => strip_bearer(h),
        None => None,
    };
    match token {
        None => Err(AppError::authentication("Missing Authorization header")),
        Some(t) => match parse_token(t, secret, now) {
            Ok(c) => Ok(c),
            Err(_) => Err(AppError::authentication("Invalid or expired token")),
        },
    }
}

/// The authentication check at the current time. Whatever the clock says, the answer is the check's
/// answer at some moment.
pub fn authenticate_now(authorization: Option<&str>, secret: &str) -> (r: Result<Claims, AppError>)
    ensures
        exists|now: u64| claims_result(r) == auth_outcome(opt_view(authorization), secret@, now),
{
    let now = current_timestamp();
    authenticate(authorization, secret, now)
}

/// What the pipeline knows of a request once it has passed the authentication check: the verified identity,
/// present exactly when the route is protected.
#[derive(Debug, Clone)]
pub struct RequestContext {
    pub identity: Option<Claims>,
}

/// Classifies the request and, when it is protected, runs the authentication check. Public requests pass
/// without any look at their headers.
pub fn admit_request(method: &str, path: &str, authorization: Option<&str>, secret: &str, now: u64) -> (r: Result<RequestContext, AppError>)
    ensures
        !route_protected(method@, path@) ==> (r matches Ok(ctx) && ctx.identity is None),
        route_protected(method@, path@) ==> (match auth_outcome(opt_view(authorization), secret@, now) {
            Ok(c) => r matches Ok(ctx) && ctx.identity matches Some(id) && id@ == c,
            Err(e) => r matches Err(x) && x@ == e,
        }),
{
    if !requires_auth(method, path) {
        return Ok(RequestContext { identity: None });
    }
    match authenticate(authorization, secret, now) {
        Ok(c) => Ok(RequestContext { identity: Some(c) }),
        Err(e) => Err(e),
    }
}

/// Every refusal of the authentication check is reported with the authentication status, whatever its cause.
pub proof fn lemma_auth_refusals_unauthorized(header: Option<Seq<char>>, secret: Seq<char>, now: u64)
    ensures
        auth_outcome(header, secret, now) matches Err(e) ==> e.status() == 401,
{
}

/// A token issued at `issued` with a lifetime of `days` days is accepted at issuance, and
/// refused as an authentication failure once the clock has gone past that lifetime.
pub proof fn lemma_token_lifetime(
    token: Seq<char>,
    secret: Seq<char>,
    sub: Seq<char>,
    role: Seq<char>,
    issued: u64,
    days: i64,
    later: u64,
)
    requires
        days >= 0,
        0 <= expiry_at(issued, days) <= u64::MAX,
        token_contents(token, secret) == Some((sub, role, expiry_at(issued, days) as u64)),
        later > expiry_at(issued, days),
    ensures
        auth_outcome(Some("Bearer "@ + token), secret, issued) == Ok::<ClaimsView, ErrorView>(
            (sub, role, expiry_at(issued, days) as u64),
        ),
        auth_outcome(Some("Bearer "@ + token), secret, later) == Err::<ClaimsView, ErrorView>(
            ErrorView::Authentication(invalid_message()),
        ),
{
    reveal_strlit("Bearer ");
    let h = "Bearer "@ + token;
    assert("Bearer "@.is_prefix_of(h)) by {
        assert(h.subrange(0, 7) =~= "Bearer "@);
    }
    assert(h.subrange(7, h.len() as int) =~= token);
    assert(days * 86400 >= 0) by (nonlinear_arith)
        requires
            days >= 0,
    ;
}

} // verus!
