use std::time::{SystemTime, UNIX_EPOCH};

use tickets::auth::extractor::AuthContext;
use tickets::auth::jwt::{check_decoded_access_token, decode_access_token, encode_access_token, encode_access_token_at};
use tickets::auth::middleware::{auth_cookie_should_be_removed, resolve_auth_context};
use tickets::auth::{AUTH_SECRET, AUTH_TOKEN, AUTH_TOKEN_EXPIRY_HOURS};
use tickets::error::Error;
use tickets::web::routes_login::{login_token, LoginPayload};

fn now() -> i64 {
    SystemTime::now().duration_since(UNIX_EPOCH).unwrap().as_secs() as i64
}

fn jwt_error() -> jsonwebtoken::errors::Error {
    jsonwebtoken::errors::ErrorKind::InvalidToken.into()
}

#[test]
fn constants() {
    assert_eq!(AUTH_TOKEN, "access-token");
    assert_eq!(AUTH_SECRET, "super-secure");
    assert_eq!(AUTH_TOKEN_EXPIRY_HOURS, 168);
}

#[test]
fn auth_context_carries_user() {
    assert_eq!(AuthContext::new(42).user_id(), 42);
}

#[test]
fn auth_context_from_extension() {
    let ctx = AuthContext::new(5);
    assert_eq!(AuthContext::from_request_extension(Some(&ctx)).unwrap(), ctx);
    assert!(matches!(AuthContext::from_request_extension(None), Err(Error::AuthTokenNotProvided)));
}

#[test]
fn login() {
    let payload = LoginPayload { username: "admin".to_string(), password: "1234".to_string() };
    assert_eq!(login_token(&payload).unwrap(), "user-1.exp.sign");
}

#[test]
fn login_with_wrong_credentials_fails() {
    let wrong_password = LoginPayload { username: "admin".to_string(), password: "12345".to_string() };
    assert!(matches!(login_token(&wrong_password), Err(Error::LoginFail)));
    let wrong_user = LoginPayload { username: "root".to_string(), password: "1234".to_string() };
    assert!(matches!(login_token(&wrong_user), Err(Error::LoginFail)));
    let empty = LoginPayload { username: String::new(), password: String::new() };
    assert!(matches!(login_token(&empty), Err(Error::LoginFail)));
}

#[test]
fn issued_token_decodes_to_its_user() {
    let token = encode_access_token(1).unwrap();
    assert_ne!(token, "1");
    assert_eq!(token.split('.').count(), 3);
    assert_eq!(decode_access_token(token).unwrap(), 1);
    let token = encode_access_token(u64::MAX).unwrap();
    assert_eq!(decode_access_token(token).unwrap(), u64::MAX);
}

#[test]
fn token_issued_at_is_deterministic() {
    let a = encode_access_token_at(7, 1_000).unwrap();
    let b = encode_access_token_at(7, 1_000).unwrap();
    let c = encode_access_token_at(8, 1_000).unwrap();
    let d = encode_access_token_at(7, 1_001).unwrap();
    assert_eq!(a, b);
    assert_ne!(a, c);
    assert_ne!(a, d);
}

#[test]
fn long_expired_token_fails_to_decode() {
    let token = encode_access_token_at(1, 0).unwrap();
    assert!(matches!(decode_access_token(token), Err(Error::AuthTokenDecodeFail { .. })));
}

#[test]
fn token_just_past_expiry_is_expired() {
    // Expired 30 s ago: still inside the decoder's 60 s leeway, so the
    // service's own expiry check rejects it.
    let issued_at = now() - 7 * 24 * 3600 - 30;
    let token = encode_access_token_at(1, issued_at).unwrap();
    assert!(matches!(decode_access_token(token), Err(Error::AuthTokenExpired)));
}

#[test]
fn token_still_valid_before_expiry() {
    let issued_at = now() - 7 * 24 * 3600 + 120;
    let token = encode_access_token_at(3, issued_at).unwrap();
    assert_eq!(decode_access_token(token).unwrap(), 3);
}

#[test]
fn malformed_or_forged_token_fails_to_decode() {
    assert!(matches!(decode_access_token("user-1.exp.sign".to_string()), Err(Error::AuthTokenDecodeFail { .. })));
    assert!(matches!(decode_access_token(String::new()), Err(Error::AuthTokenDecodeFail { .. })));
    let token = encode_access_token(1).unwrap();
    let mut forged = token.clone();
    forged.push('x');
    assert!(matches!(decode_access_token(forged), Err(Error::AuthTokenDecodeFail { .. })));
}

#[test]
fn checking_decoded_claims() {
    assert_eq!(check_decoded_access_token(Ok((4, 100)), 100).unwrap(), 4);
    assert_eq!(check_decoded_access_token(Ok((4, 100)), 99).unwrap(), 4);
    assert!(matches!(check_decoded_access_token(Ok((4, 100)), 101), Err(Error::AuthTokenExpired)));
    assert!(matches!(check_decoded_access_token(Err(jwt_error()), 0), Err(Error::AuthTokenDecodeFail { .. })));
}

#[test]
fn resolving_without_token() {
    let r = resolve_auth_context(None);
    assert!(matches!(r, Err(Error::AuthTokenNotProvided)));
    assert!(!auth_cookie_should_be_removed(&r));
}

#[test]
fn resolving_valid_token() {
    let token = encode_access_token(9).unwrap();
    let r = resolve_auth_context(Some(token));
    assert_eq!(r.as_ref().unwrap().user_id(), 9);
    assert!(!auth_cookie_should_be_removed(&r));
}

#[test]
fn resolving_bad_token_removes_cookie() {
    let r = resolve_auth_context(Some("user-1.exp.sign".to_string()));
    assert!(matches!(r, Err(Error::AuthTokenDecodeFail { .. })));
    assert!(auth_cookie_should_be_removed(&r));
    let expired = encode_access_token_at(1, now() - 7 * 24 * 3600 - 30).unwrap();
    let r = resolve_auth_context(Some(expired));
    assert!(matches!(r, Err(Error::AuthTokenExpired)));
    assert!(auth_cookie_should_be_removed(&r));
}

fn base64url_decode(s: &str) -> Vec<u8> {
    let alphabet = b"ABCDEFGHIJKLMNOPQRSTUVWXYZabcdefghijklmnopqrstuvwxyz0123456789-_";
    let mut bits: u32 = 0;
    let mut n: u32 = 0;
    let mut out = Vec::new();
    for c in s.bytes() {
        let v = alphabet.iter().position(|&a| a == c).unwrap() as u32;
        bits = (bits << 6) | v;
        n += 6;
        if n >= 8 {
            n -= 8;
            out.push((bits >> n) as u8);
            bits &= (1 << n) - 1;
        }
    }
    out
}

#[test]
fn token_payload_lists_sub_then_exp() {
    let token = encode_access_token_at(1, 1_000).unwrap();
    let parts: Vec<&str> = token.split('.').collect();
    assert_eq!(parts.len(), 3);
    let payload = String::from_utf8(base64url_decode(parts[1])).unwrap();
    assert_eq!(payload, format!("{{\"sub\":1,\"exp\":{}}}", 1_000 + 7 * 24 * 3600));
}

#[test]
fn tokens_at_same_time_differ_per_user() {
    let t = now();
    assert_ne!(encode_access_token_at(1, t).unwrap(), encode_access_token_at(2, t).unwrap());
    assert_eq!(encode_access_token_at(1, t).unwrap(), encode_access_token_at(1, t).unwrap());
}

#[test]
fn token_signed_with_other_secret_fails_to_decode() {
    let mut claims = serde_json::Map::new();
    claims.insert("sub".to_string(), serde_json::Value::from(1u64));
    claims.insert("exp".to_string(), serde_json::Value::from(now() + 3600));
    let forged = jsonwebtoken::encode(
        &jsonwebtoken::Header::default(),
        &claims,
        &jsonwebtoken::EncodingKey::from_secret(b"not-the-secret"),
    )
    .unwrap();
    assert!(matches!(decode_access_token(forged), Err(Error::AuthTokenDecodeFail { .. })));
}
