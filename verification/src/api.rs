use vstd::prelude::*;
use vstd::string::*;

use crate::text::{signed_decimal, signed_decimal_text, strip_prefix};
use crate::users::{created_user, now_millis, CreateUserDTO, Timestamp, User, UserError, UserService};

verus! {

/// The claims of a session token: the user name and the issue and expiry
/// times in seconds since the Unix epoch.
#[derive(Debug, Clone)]
pub struct TokenClaims {
    pub sub: String,
    pub iat: usize,
    pub exp: usize,
}

/// The answer that carries one account.
#[derive(Debug, Clone)]
pub struct SingleUserResponse {
    pub data: User,
}

/// An error answer: an HTTP status and its message.
#[derive(Debug, Clone)]
pub struct AppError {
    pub status: u16,
    pub message: String,
}

pub const STATUS_UNAUTHORIZED: u16 = 401;
pub const STATUS_NOT_FOUND: u16 = 404;
pub const STATUS_INTERNAL_SERVER_ERROR: u16 = 500;

/// How long a session token lasts, in seconds.
pub const TOKEN_LIFETIME_SECS: usize = 3600;

impl AppError {
    /// An error answer with the given status.
    pub fn with_status(status: u16, message: String) -> (r: Self)
        ensures
            r.status == status,
            r.message == message,
    {
        AppError { status, message }
    }

    /// An error answer with status 500, as any error without a status gets.
    pub fn internal(message: String) -> (r: Self)
        ensures
            r.status == STATUS_INTERNAL_SERVER_ERROR,
            r.message == message,
    {
        AppError { status: STATUS_INTERNAL_SERVER_ERROR, message }
    }
}

impl UserError {
    /// The text of the error.
    pub fn message(&self) -> (r: String)
        ensures
            self matches UserError::NotFound(id) ==> r@ == "User not found: "@ + signed_decimal_text(id as int),
    {
        match self {
            UserError::NotFound(id) => {
                let mut s = String::from_str("User not found: ");
                let digits = signed_decimal(*id);
                s.append(digits.as_str());
                s
            },
        }
    }
}

/// The secret that signs session tokens: the configured one, else `Secret`.
pub fn token_secret(configured: Option<String>) -> (r: String)
    ensures
        r@ == (match configured {
            Some(s) => s@,
            None => "Secret"@,
        }),
{
    match configured {
        Some(s) => s,
        None => String::from_str("Secret"),
    }
}

/// The token of an `Authorization: Bearer <token>` header, or the 401 answer
/// when the header is missing or of another kind.
pub fn bearer_token(header: Option<&str>) -> (r: Result<String, AppError>)
    ensures
        r is Ok <==> (header matches Some(h) && "Bearer "@.is_prefix_of(h@)),
        r matches Ok(t) ==> header matches Some(h) && h@ == "Bearer "@ + t@,
        r matches Err(e) ==> e.status == STATUS_UNAUTHORIZED && e.message@ == "Missing Bearer Token"@,
{
    let token = match header {
        Some(h) => strip_prefix(h, "Bearer "),
        None => None,
    };
    match token {
        Some(t) => Ok(t),
        None => Err(AppError::with_status(STATUS_UNAUTHORIZED, String::from_str("Missing Bearer Token"))),
    }
}

/// The claims of a token that decoded and validated, or the 401 answer.
pub fn accept_claims(decoded: Option<TokenClaims>) -> (r: Result<TokenClaims, AppError>)
    ensures
        r is Ok <==> decoded is Some,
        r matches Ok(c) ==> decoded == Some(c),
        r matches Err(e) ==> e.status == STATUS_UNAUTHORIZED && e.message@ == "Invalid bearer token"@,
{
    match decoded {
        Some(c) => Ok(c),
        None => Err(AppError::with_status(STATUS_UNAUTHORIZED, String::from_str("Invalid bearer token"))),
    }
}

/// Some account has the name `username`.
pub open spec fn has_account_named(users: UserService, username: Seq<char>) -> bool {
    exists|k: i64| #[trigger] users.data.items@.contains_key(k) && users.data.items@[k].username@ == username
}

/// `answer` is what signing in `username` at second `now` gives: claims for
/// an hour when an account has the name, else the 401 answer.
pub open spec fn login_answer(users: UserService, username: String, now: usize, answer: Result<TokenClaims, AppError>) -> bool {
    &&& (answer is Ok <==> has_account_named(users, username@))
    &&& (answer matches Ok(c) ==> c.sub == username && c.iat == now && c.exp == now + TOKEN_LIFETIME_SECS)
    &&& (answer matches Err(e) ==> e.status == STATUS_UNAUTHORIZED && e.message@ == "Invalid username or password"@)
}

/// Signs in `username` at time `now` (seconds): the claims of the token to
/// issue, valid for an hour, or the 401 answer when no account has the name.
pub fn login(users: &UserService, username: String, now: usize) -> (r: Result<TokenClaims, AppError>)
    requires
        now + TOKEN_LIFETIME_SECS <= usize::MAX,
    ensures
        login_answer(*users, username, now, r),
{
    match users.get_user_by_name(username.as_str()) {
        None => Err(AppError::with_status(STATUS_UNAUTHORIZED, String::from_str("Invalid username or password"))),
        Some(u) => {
            proof {
                let k = choose|k: i64| users.data.items@.contains_key(k) && users.data.items@[k] == u;
                assert(users.data.items@.contains_key(k) && users.data.items@[k].username@ == username@);
            }
            Ok(TokenClaims { sub: username, iat: now, exp: now + TOKEN_LIFETIME_SECS })
        },
    }
}

/// A clock reading, in milliseconds, whose second the token's fields can
/// hold with an hour added: not before 1970 and not too late.
pub open spec fn clock_in_range(millis: i64) -> bool {
    millis >= 0 && millis / 1000 + TOKEN_LIFETIME_SECS <= usize::MAX
}

/// `r` is what signing in `username` gives when the clock reads `millis`:
/// nothing when the reading is out of range, else `login` at its second.
pub open spec fn login_at_reading(users: UserService, username: String, millis: i64, r: Option<Result<TokenClaims, AppError>>) -> bool {
    &&& (r is Some <==> clock_in_range(millis))
    &&& (r matches Some(answer) ==> login_answer(users, username, (millis / 1000) as usize, answer))
}

/// Signs in `username` when the clock reads `millis`: `None` when the reading
/// is a time that the token's fields cannot hold (before 1970, or so late
/// that an hour more overflows), else what `login` answers at its second.
pub fn login_at_millis(users: &UserService, username: String, millis: i64) -> (r: Option<Result<TokenClaims, AppError>>)
    ensures
        login_at_reading(*users, username, millis, r),
{
    if millis < 0 {
        return None;
    }
    let secs: u64 = (millis / 1000) as u64;
    if secs > (usize::MAX as u64) - (TOKEN_LIFETIME_SECS as u64) {
        return None;
    }
    Some(login(users, username, secs as usize))
}

/// Signs in `username` at the current time, as `login_at_millis` does at the
/// clock's reading.
pub fn login_now(users: &UserService, username: String) -> (r: Option<Result<TokenClaims, AppError>>)
    ensures
        exists|millis: i64| #[trigger] login_at_reading(*users, username, millis, r),
{
    let millis = now_millis();
    login_at_millis(users, username, millis)
}

/// The value of an `Authorization` header that carries `token`.
pub fn bearer_header(token: &str) -> (r: String)
    ensures
        r@ == "Bearer "@ + token@,
{
    let mut s = String::from_str("Bearer ");
    s.append(token);
    s
}

/// The token that `jsonwebtoken::encode` makes with the default header
/// (HS256) of the claims object `{"sub": sub, "iat": iat, "exp": exp}`, its
/// keys in that order, signed with `secret`.
pub uninterp spec fn hs256_token(sub: Seq<char>, iat: usize, exp: usize, secret: Seq<char>) -> Seq<char>;

/// What `jsonwebtoken::decode` reads from `token` with key `secret` and the
/// default validation without the clock-based expiry check: the `sub`,
/// `iat` and `exp` claims, or `None` when the token is malformed, its
/// signature does not match, a claim is missing or has another type, or
/// another check of the validation fails.
pub uninterp spec fn jwt_claims(token: Seq<char>, secret: Seq<char>) -> Option<(Seq<char>, usize, usize)>;

/// Claims by their plain values.
pub open spec fn claims_view(c: Option<TokenClaims>) -> Option<(Seq<char>, usize, usize)> {
    match c {
        Some(c) => Some((c.sub@, c.iat, c.exp)),
        None => None,
    }
}

/// Signs `claims` with `secret`. Trusted: calls `jsonwebtoken::encode` with
/// the default header on the JSON object of the three claims (`serde_json`
/// keeps the keys in the order they are inserted: `sub`, `iat`, `exp`, the
/// order of the fields of `TokenClaims`) and an HMAC
/// key made from the secret's bytes. The result is `hs256_token` of them; the
/// call cannot fail (the HS256 header matches an HMAC key, serialising a
/// header and a JSON object cannot fail, and HMAC signing returns `Ok`), and
/// decoding the token with the same secret gives the claims back.
#[verifier::external_body]
fn encode_claims(claims: &TokenClaims, secret: &str) -> (r: String)
    ensures
        r@ == hs256_token(claims.sub@, claims.iat, claims.exp, secret@),
        jwt_claims(r@, secret@) == Some((claims.sub@, claims.iat, claims.exp)),
{
    let mut m = serde_json::Map::new();
    m.insert("sub".to_string(), serde_json::Value::from(claims.sub.clone()));
    m.insert("iat".to_string(), serde_json::Value::from(claims.iat));
    m.insert("exp".to_string(), serde_json::Value::from(claims.exp));
    let key = jsonwebtoken::EncodingKey::from_secret(secret.as_bytes());
    jsonwebtoken::encode(&jsonwebtoken::Header::default(), &serde_json::Value::Object(m), &key).unwrap()
}

/// Reads the claims of `token` signed with `secret`. Trusted: calls
/// `jsonwebtoken::decode` with an HMAC key made from the secret's bytes and
/// the default validation with `validate_exp` switched off (so no clock is
/// read; the `exp` claim is still required), then takes the `sub` string
/// and the `iat` and `exp` numbers of the claims. The result is `jwt_claims`
/// of the token and the secret.
#[verifier::external_body]
fn decode_claims(token: &str, secret: &str) -> (r: Option<TokenClaims>)
    ensures
        claims_view(r) == jwt_claims(token@, secret@),
{
    let mut validation = jsonwebtoken::Validation::default();
    validation.validate_exp = false;
    let key = jsonwebtoken::DecodingKey::from_secret(secret.as_bytes());
    let c = jsonwebtoken::decode::<serde_json::Value>(token, &key, &validation).ok()?.claims;
    Some(TokenClaims {
        sub: c.get("sub")?.as_str()?.to_string(),
        iat: usize::try_from(c.get("iat")?.as_u64()?).ok()?,
        exp: usize::try_from(c.get("exp")?.as_u64()?).ok()?,
    })
}

/// The leeway, in seconds, that the expiry check grants.
pub const EXPIRY_LEEWAY_SECS: u64 = 60;

/// A token that expires at second `exp` is expired when the clock reads
/// `millis`: more than the leeway has passed since.
pub open spec fn token_expired(exp: usize, millis: i64) -> bool {
    exp + EXPIRY_LEEWAY_SECS < millis / 1000
}

/// `r` is what issuing a token for `username` with `secret` gives when the
/// clock reads `millis`: nothing when the reading is out of range, the 401
/// answer when no account has the name, else the token of the hour-long
/// claims from the reading's second, which decodes back to them.
pub open spec fn issued_at_reading(users: UserService, username: Seq<char>, secret: Seq<char>, millis: i64, r: Option<Result<String, AppError>>) -> bool {
    let now = (millis / 1000) as usize;
    &&& (r is Some <==> clock_in_range(millis))
    &&& (r matches Some(Ok(t)) ==> {
        &&& has_account_named(users, username)
        &&& t@ == hs256_token(username, now, (now + TOKEN_LIFETIME_SECS) as usize, secret)
        &&& jwt_claims(t@, secret) == Some((username, now, (now + TOKEN_LIFETIME_SECS) as usize))
    })
    &&& (r matches Some(Err(e)) ==> !has_account_named(users, username) && e.status == STATUS_UNAUTHORIZED
        && e.message@ == "Invalid username or password"@)
}

/// The secret that signs tokens, by its text.
pub open spec fn secret_text(configured: Option<String>) -> Seq<char> {
    match configured {
        Some(s) => s@,
        None => "Secret"@,
    }
}

/// Issues a session token for `username` when the clock reads `millis`.
pub fn issue_token_at(users: &UserService, username: String, configured_secret: Option<String>, millis: i64) -> (r: Option<Result<String, AppError>>)
    ensures
        issued_at_reading(*users, username@, secret_text(configured_secret), millis, r),
{
    let ghost name = username@;
    match login_at_millis(users, username, millis) {
        None => None,
        Some(Err(e)) => Some(Err(e)),
        Some(Ok(claims)) => {
            let secret = token_secret(configured_secret);
            Some(Ok(encode_claims(&claims, secret.as_str())))
        },
    }
}

/// Issues a session token for `username` at the current time, as
/// `issue_token_at` does at the clock's reading.
pub fn issue_token(users: &UserService, username: String, configured_secret: Option<String>) -> (r: Option<Result<String, AppError>>)
    ensures
        exists|millis: i64| #[trigger] issued_at_reading(*users, username@, secret_text(configured_secret), millis, r),
{
    let millis = now_millis();
    issue_token_at(users, username, configured_secret, millis)
}

/// The header's text, if there is a header.
pub open spec fn header_text(header: Option<&str>) -> Option<Seq<char>> {
    match header {
        Some(h) => Some(h@),
        None => None,
    }
}

/// `r` is what checking a request with `header` against `secret` gives when
/// the clock reads `millis`: 401 "Missing Bearer Token" unless the header
/// starts with `Bearer `; else the claims of the token after it, when it
/// decodes and has not expired; else 401 "Invalid bearer token".
pub open spec fn authorized_at_reading(header: Option<Seq<char>>, secret: Seq<char>, millis: i64, r: Result<TokenClaims, AppError>) -> bool {
    match header {
        Some(h) if "Bearer "@.is_prefix_of(h) => {
            let decoded = jwt_claims(h.subrange("Bearer "@.len() as int, h.len() as int), secret);
            if decoded matches Some(c) && !token_expired(c.2, millis) {
                r matches Ok(claims) && claims_view(Some(claims)) == decoded
            } else {
                r matches Err(e) && e.status == STATUS_UNAUTHORIZED && e.message@ == "Invalid bearer token"@
            }
        },
        _ => r matches Err(e) && e.status == STATUS_UNAUTHORIZED && e.message@ == "Missing Bearer Token"@,
    }
}

/// Checks the `Authorization` header of a request when the clock reads `millis`.
pub fn authorize_at(header: Option<&str>, configured_secret: Option<String>, millis: i64) -> (r: Result<TokenClaims, AppError>)
    ensures
        authorized_at_reading(header_text(header), secret_text(configured_secret), millis, r),
{
    let token = match bearer_token(header) {
        Ok(t) => t,
        Err(e) => {
            return Err(e);
        },
    };
    proof {
        let h = header->0@;
        assert(token@ =~= h.subrange("Bearer "@.len() as int, h.len() as int));
    }
    let secret = token_secret(configured_secret);
    let decoded = decode_claims(token.as_str(), secret.as_str());
    let live = match decoded {
        Some(c) => {
            let expired = millis >= 0 && (c.exp as i128) + (EXPIRY_LEEWAY_SECS as i128) < ((millis / 1000) as i128);
            if expired { None } else { Some(c) }
        },
        None => None,
    };
    accept_claims(live)
}

/// Checks the `Authorization` header of a request at the current time, as
/// `authorize_at` does at the clock's reading.
pub fn authorize(header: Option<&str>, configured_secret: Option<String>) -> (r: Result<TokenClaims, AppError>)
    ensures
        exists|millis: i64| #[trigger] authorized_at_reading(header_text(header), secret_text(configured_secret), millis, r),
        r matches Err(e) && e.message@ == "Missing Bearer Token"@
            <==> !(header matches Some(h) && "Bearer "@.is_prefix_of(h@)),
{
    let millis = now_millis();
    proof {
        reveal_strlit("Missing Bearer Token");
        reveal_strlit("Invalid bearer token");
        assert("Missing Bearer Token"@[0] != "Invalid bearer token"@[0]);
    }
    authorize_at(header, configured_secret, millis)
}

/// A token issued for an account is accepted until its expiry plus the
/// leeway has passed, and gives back the claims it was issued with.
pub proof fn law_issued_token_is_accepted(
    token: Seq<char>,
    secret: Seq<char>,
    sub: Seq<char>,
    iat: usize,
    exp: usize,
    millis: i64,
    r: Result<TokenClaims, AppError>,
)
    requires
        jwt_claims(token, secret) == Some((sub, iat, exp)),
        millis / 1000 <= exp + EXPIRY_LEEWAY_SECS,
        authorized_at_reading(Some("Bearer "@ + token), secret, millis, r),
    ensures
        r matches Ok(c) && c.sub@ == sub && c.iat == iat && c.exp == exp,
{
    let h = "Bearer "@ + token;
    assert("Bearer "@.is_prefix_of(h)) by {
        assert(h.subrange(0, "Bearer "@.len() as int) =~= "Bearer "@);
    }
    assert(h.subrange("Bearer "@.len() as int, h.len() as int) =~= token);
}

/// Registers an account: the answer carries the new account.
pub fn register(users: &mut UserService, req: CreateUserDTO) -> (r: Result<SingleUserResponse, AppError>)
    requires
        old(users).data.counter < i64::MAX,
    ensures
        final(users).data.counter == old(users).data.counter + 1,
        exists|now: Timestamp| {
            &&& r == Ok::<SingleUserResponse, AppError>(SingleUserResponse {
                data: created_user(final(users).data.counter, req, now),
            })
            &&& final(users).data.items@ == old(users).data.items@.insert(
                final(users).data.counter,
                created_user(final(users).data.counter, req, now),
            )
        },
{
    match users.create_user(req) {
        Ok(user) => Ok(SingleUserResponse { data: user }),
        Err(e) => Err(AppError::internal(e.message())),
    }
}

/// Reading the token back from the header made for it gives the token.
pub proof fn law_bearer_round_trip(token: Seq<char>)
    ensures
        "Bearer "@.is_prefix_of("Bearer "@ + token),
{
    assert(("Bearer "@ + token).subrange(0, "Bearer "@.len() as int) =~= "Bearer "@);
}

/// The token of a bearer header is determined by the header: two tokens
/// that give the same header are the same.
pub proof fn law_bearer_token_is_unique(t1: Seq<char>, t2: Seq<char>)
    requires
        "Bearer "@ + t1 == "Bearer "@ + t2,
    ensures
        t1 == t2,
{
    assert(t1 =~= ("Bearer "@ + t1).subrange("Bearer "@.len() as int, ("Bearer "@ + t1).len() as int));
    assert(t2 =~= ("Bearer "@ + t2).subrange("Bearer "@.len() as int, ("Bearer "@ + t2).len() as int));
}

} // verus!
