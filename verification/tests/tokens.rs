//! Tests of the bearer-token lifecycle, run against the real signing
//! library.

use svc_telemetry::jwt::{
    bearer_token, choose_token, login, new_jwt_secret, AuthError, Claim, ErrorResponse,
    LoginError, JWT_EXPIRE_SECONDS,
};

fn now_seconds() -> u64 {
    std::time::SystemTime::now()
        .duration_since(std::time::UNIX_EPOCH)
        .unwrap()
        .as_secs()
}

#[test]
fn login_rejects_empty_identifier() {
    let secret = new_jwt_secret();
    let r = login(Vec::new(), now_seconds(), secret.as_str());
    assert_eq!(r, Err(LoginError::InvalidIdentifier));
    assert_eq!(LoginError::InvalidIdentifier.status_code(), 400);
    let r = login(vec![0xFF, 0xFE], now_seconds(), secret.as_str());
    assert_eq!(r, Err(LoginError::InvalidIdentifier));
}

#[test]
fn minted_token_verifies_and_names_the_subject() {
    let secret = new_jwt_secret();
    assert_eq!(secret.len(), 42);
    let now = now_seconds();
    let token = login(b"aircraftX".to_vec(), now, secret.as_str()).unwrap();
    let claim = Claim::decode(token.as_str(), secret.as_str()).unwrap();
    assert_eq!(claim.sub, "aircraftX");
    assert_eq!(claim.iat, now);
    assert_eq!(claim.exp, now + JWT_EXPIRE_SECONDS);
}

#[test]
fn expired_token_rejected() {
    let secret = new_jwt_secret();
    // A claim minted as if 361 seconds had passed is already expired.
    let minted_at = now_seconds() - (JWT_EXPIRE_SECONDS + 1);
    let token = Claim::create(String::from("aircraftX"), minted_at, secret.as_str()).unwrap();
    let r = Claim::decode(token.as_str(), secret.as_str());
    assert!(r.is_err());
}

#[test]
fn token_signed_with_other_key_rejected() {
    let secret = new_jwt_secret();
    let other = new_jwt_secret();
    assert_ne!(secret, other);
    let token = Claim::create(String::from("aircraftX"), now_seconds(), secret.as_str()).unwrap();
    let r = Claim::decode(token.as_str(), other.as_str());
    assert!(r.is_err());
    assert_eq!(AuthError::Unauthorized.status_code(), 401);
}

#[test]
fn bearer_header_parsing() {
    let token = bearer_token("Bearer abc.def.ghi");
    assert_eq!(token, Some(String::from("abc.def.ghi")));
    assert_eq!(bearer_token("Basic abc"), None);
    assert_eq!(bearer_token(""), None);
    assert_eq!(bearer_token("Bearer"), None);
}

#[test]
fn cookie_wins_over_authorization_header() {
    let header = String::from("Bearer from-header");
    let r = choose_token(Some(String::from("from-cookie")), Some(&header));
    assert_eq!(r, Ok(String::from("from-cookie")));
    let r = choose_token(None, Some(&header));
    assert_eq!(r, Ok(String::from("from-header")));
    // A request with neither source is unauthorised.
    let r = choose_token(None, None);
    assert_eq!(r, Err(AuthError::Unauthorized));
    let bad = String::from("Token xyz");
    assert_eq!(choose_token(None, Some(&bad)), Err(AuthError::Unauthorized));
}

#[test]
fn error_response_carries_fail_status() {
    let body = ErrorResponse::fail(String::from("could not get authorization header."));
    assert_eq!(body.status, "fail");
    assert_eq!(body.message, "could not get authorization header.");
}
