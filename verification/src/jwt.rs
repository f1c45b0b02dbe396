//! Bearer-token lifecycle: a submitter logs in with its aircraft
//! identifier and receives a short-lived signed token; later requests
//! carry the token in a cookie or in the Authorization header, and
//! the decoded claim identifies the aircraft.
//!
//! The symmetric-key design is a placeholder for PKI-issued
//! certificates; the claim shape and the cookie-or-header boundary
//! are meant to outlive it.

use crate::text::utf8_string;
use rand::distr::SampleString;
use vstd::prelude::*;
use vstd::utf8::{decode_utf8, valid_utf8};

verus! {

/// Seconds a minted token stays valid.
pub const JWT_EXPIRE_SECONDS: u64 = 360;

/// Error body returned with an unauthorised response.
#[derive(Debug, Clone)]
pub struct ErrorResponse {
    /// Outcome label, always "fail" for errors.
    pub status: String,
    /// What went wrong.
    pub message: String,
}

impl ErrorResponse {
    /// An error body with the "fail" status and the given message.
    pub fn fail(message: String) -> (r: ErrorResponse)
        ensures
            r.status@ == "fail"@,
            r.message == message,
    {
        ErrorResponse { status: String::from_str("fail"), message }
    }
}

/// The payload of a bearer token: the aircraft identifier it was
/// minted for and its lifetime.
#[derive(Debug, Clone)]
pub struct Claim {
    /// Subject: the aircraft identifier.
    pub sub: String,
    /// Issued-at time, in seconds since the epoch.
    pub iat: u64,
    /// Expiration time, in seconds since the epoch.
    pub exp: u64,
}

/// Errors of the token lifecycle.
#[derive(Debug, Copy, Clone, PartialEq, Eq, Structural)]
pub enum AuthError {
    /// The signing backend refused to mint a token. The HS256 path
    /// never reports this ([`Claim::create`] proves success); the
    /// case covers replacement signing backends.
    MintFailure,
    /// The token is missing, malformed, expired, or signed with
    /// another key.
    Unauthorized,
}

impl AuthError {
    /// The HTTP status this error maps to.
    pub fn status_code(&self) -> (r: u16)
        ensures
            self is MintFailure ==> r == 500,
            self is Unauthorized ==> r == 401,
    {
        match self {
            AuthError::MintFailure => 500,
            AuthError::Unauthorized => 401,
        }
    }
}

/// The signed token that the signing key and the claim fields
/// determine: HS256 over the fixed header and the claim payload.
pub uninterp spec fn token_of(secret: Seq<char>, sub: Seq<char>, iat: int, exp: int) -> Seq<char>;

/// The claim payload a well-formed token embeds: its subject,
/// issued-at and expiration fields. A token carries its payload in
/// the clear, so this is a function of the token alone.
pub uninterp spec fn claims_of(token: Seq<char>) -> Option<(Seq<char>, int, int)>;

/// Relies on jsonwebtoken::encode with an HS256 header: the token is
/// a deterministic function of the key and the serialized claims,
/// and embeds exactly the claims it was minted over. Under the HMAC
/// provider this path cannot fail: the key accepts any length, and
/// the fixed header and the string and integer claims always
/// serialize, so a token is always minted.
#[verifier::external_body]
fn encode_token(secret: &str, sub: &String, iat: u64, exp: u64) -> (r: Option<String>)
    ensures
        r is Some,
        r matches Some(t) ==> t@ == token_of(secret@, sub@, iat as int, exp as int) && claims_of(
            t@,
        ) == Some((sub@, iat as int, exp as int)),
{
    let mut claims = serde_json::Map::new();
    claims.insert("sub".to_string(), serde_json::Value::String(sub.clone()));
    claims.insert("iat".to_string(), serde_json::Value::from(iat));
    claims.insert("exp".to_string(), serde_json::Value::from(exp));
    let header = jsonwebtoken::Header::new(jsonwebtoken::Algorithm::HS256);
    let key = jsonwebtoken::EncodingKey::from_secret(secret.as_bytes());
    jsonwebtoken::encode(&header, &serde_json::Value::Object(claims), &key).ok()
}

/// Relies on jsonwebtoken::decode with HS256 validation and no
/// leeway: success requires the signature to match the key and the
/// expiration to lie in the future, and the returned claims are
/// exactly those the token embeds. Whether a given call succeeds
/// depends on the clock, so no success is promised.
#[verifier::external_body]
fn decode_token(secret: &str, token: &str) -> (r: Option<(String, u64, u64)>)
    ensures
        r matches Some(c) ==> claims_of(token@) == Some((c.0@, c.1 as int, c.2 as int)),
{
    let key = jsonwebtoken::DecodingKey::from_secret(secret.as_bytes());
    let mut validation = jsonwebtoken::Validation::new(jsonwebtoken::Algorithm::HS256);
    validation.leeway = 0;
    let data = jsonwebtoken::decode::<serde_json::Value>(token, &key, &validation).ok()?;
    let sub = data.claims.get("sub")?.as_str()?.to_string();
    let iat = data.claims.get("iat")?.as_u64()?;
    let exp = data.claims.get("exp")?.as_u64()?;
    Some((sub, iat, exp))
}

/// Relies on rand's Alphanumeric distribution: a fresh secret of 42
/// characters, each an ASCII letter or digit. The sample is random,
/// so nothing relates two calls.
#[verifier::external_body]
pub fn new_jwt_secret() -> (r: String)
    ensures
        r@.len() == 42,
        forall|i: int| 0 <= i < r@.len() ==> spec_is_alphanumeric(#[trigger] r@[i]),
{
    rand::distr::Alphanumeric.sample_string(&mut rand::rng(), 42)
}

/// ASCII letters and digits.
pub open spec fn spec_is_alphanumeric(c: char) -> bool {
    ('0' <= c <= '9') || ('a' <= c <= 'z') || ('A' <= c <= 'Z')
}

impl Claim {
    /// Create and encode a bearer token for the given subject: the
    /// claim is issued now and expires [`JWT_EXPIRE_SECONDS`] later.
    pub fn create(sub: String, now_s: u64, secret: &str) -> (r: Result<String, AuthError>)
        requires
            now_s + JWT_EXPIRE_SECONDS < 0x100000000,
        ensures
            r matches Ok(t) ==> t@ == token_of(
                secret@,
                sub@,
                now_s as int,
                now_s + JWT_EXPIRE_SECONDS,
            ) && claims_of(t@) == Some((sub@, now_s as int, (now_s + JWT_EXPIRE_SECONDS) as int)),
            r is Ok,
    {
        let exp: u64 = now_s + JWT_EXPIRE_SECONDS;
        match encode_token(secret, &sub, now_s, exp) {
            Some(t) => Ok(t),
            None => Err(AuthError::MintFailure),
        }
    }

    /// Decode a bearer token: on success the returned claim is
    /// exactly the payload the token embeds; failure means the token
    /// is unauthorised.
    pub fn decode(token: &str, secret: &str) -> (r: Result<Claim, AuthError>)
        ensures
            r matches Ok(c) ==> claims_of(token@) == Some((c.sub@, c.iat as int, c.exp as int)),
            r matches Err(e) ==> e is Unauthorized,
    {
        match decode_token(secret, token) {
            Some((sub, iat, exp)) => Ok(Claim { sub, iat, exp }),
            None => Err(AuthError::Unauthorized),
        }
    }
}

/// Errors of the login endpoint.
#[derive(Debug, Copy, Clone, PartialEq, Eq, Structural)]
pub enum LoginError {
    /// The identifier was not valid UTF-8 or was empty.
    InvalidIdentifier,
    /// The signing backend refused to mint a token. The HS256 path
    /// never reports this ([`login`]'s contract rules it out); the
    /// case covers replacement signing backends.
    MintFailure,
}

impl LoginError {
    /// The HTTP status this error maps to.
    pub fn status_code(&self) -> (r: u16)
        ensures
            self is InvalidIdentifier ==> r == 400,
            self is MintFailure ==> r == 500,
    {
        match self {
            LoginError::InvalidIdentifier => 400,
            LoginError::MintFailure => 500,
        }
    }
}

/// Remote ID login: mint a token binding the submitted identifier.
///
/// An identifier that is not valid UTF-8, or is empty, is rejected;
/// every other identifier is minted a token issued now and expiring
/// [`JWT_EXPIRE_SECONDS`] later.
pub fn login(identifier: Vec<u8>, now_s: u64, secret: &str) -> (r: Result<String, LoginError>)
    requires
        now_s + JWT_EXPIRE_SECONDS < 0x100000000,
    ensures
        r is Err <==> (!valid_utf8(identifier@) || decode_utf8(identifier@).len() == 0),
        r matches Err(e) ==> e is InvalidIdentifier,
        r matches Ok(t) ==> valid_utf8(identifier@) && decode_utf8(identifier@).len() > 0 && t@
            == token_of(
            secret@,
            decode_utf8(identifier@),
            now_s as int,
            now_s + JWT_EXPIRE_SECONDS,
        ),
{
    let Some(identifier) = utf8_string(identifier) else {
        return Err(LoginError::InvalidIdentifier);
    };
    if identifier.as_str().unicode_len() == 0 {
        return Err(LoginError::InvalidIdentifier);
    }
    match Claim::create(identifier, now_s, secret) {
        Ok(t) => Ok(t),
        Err(_) => Err(LoginError::MintFailure),
    }
}

/// The token a request carries: the "token" cookie when present,
/// else the bearer token of the Authorization header; a request with
/// neither is unauthorised.
pub fn choose_token(cookie_token: Option<String>, authorization: Option<&String>) -> (r: Result<
    String,
    AuthError,
>)
    ensures
        r matches Ok(t) ==> (match cookie_token {
            Some(c) => t == c,
            None => match authorization {
                Some(a) => spec_bearer(a@) matches Some(b) && t@ == b,
                None => false,
            },
        }),
        r is Err <==> (cookie_token is None && (match authorization {
            Some(a) => spec_bearer(a@) is None,
            None => true,
        })),
        r matches Err(e) ==> e is Unauthorized,
{
    if let Some(c) = cookie_token {
        return Ok(c);
    }
    let Some(auth) = authorization else {
        return Err(AuthError::Unauthorized);
    };
    match bearer_token(auth.as_str()) {
        Some(t) => Ok(t),
        None => Err(AuthError::Unauthorized),
    }
}

/// The token after a "Bearer " prefix, if the string has one.
pub open spec fn spec_bearer(auth: Seq<char>) -> Option<Seq<char>> {
    if auth.len() >= 7 && auth.take(7) == "Bearer "@ {
        Some(auth.skip(7))
    } else {
        None
    }
}

/// Strip the "Bearer " prefix from an Authorization header value.
pub fn bearer_token(auth: &str) -> (r: Option<String>)
    ensures
        r matches Some(t) ==> spec_bearer(auth@) == Some(t@),
        r is Some <==> spec_bearer(auth@) is Some,
{
    proof {
        reveal_strlit("Bearer ");
    }
    let n: usize = auth.unicode_len();
    if n < 7 {
        proof {
            assert(spec_bearer(auth@) is None);
        }
        return None;
    }
    let prefix: &str = auth.substring_char(0, 7);
    if prefix.get_char(0) == 'B' && prefix.get_char(1) == 'e' && prefix.get_char(2) == 'a'
        && prefix.get_char(3) == 'r' && prefix.get_char(4) == 'e' && prefix.get_char(5) == 'r'
        && prefix.get_char(6) == ' ' {
        proof {
            assert(auth@.take(7) =~= "Bearer "@);
        }
        let rest: &str = auth.substring_char(7, n);
        proof {
            assert(auth@.subrange(7, n as int) =~= auth@.skip(7));
        }
        Some(String::from_str(rest))
    } else {
        proof {
            assert(auth@.take(7) !~= "Bearer "@);
        }
        None
    }
}

} // verus!
