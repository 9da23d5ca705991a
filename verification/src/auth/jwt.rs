//! Issuing and checking access tokens: JSON Web Tokens signed with HS256
//! whose claims are the user id (`sub`) and the expiry time (`exp`, seconds
//! since the Unix epoch).
use crate::auth::{AUTH_SECRET, AUTH_TOKEN_EXPIRY_HOURS};
use crate::error::Error;
use chrono::Utc;
use jsonwebtoken::errors::Error as JWTError;
use jsonwebtoken::{decode, encode, DecodingKey, EncodingKey, Header, Validation};
use vstd::prelude::*;

verus! {

/// The token that `jsonwebtoken::encode` produces for the claims
/// `{"sub": sub, "exp": exp}` under the default header (HS256) and the HMAC
/// secret `secret`.
pub uninterp spec fn jwt_hs256_token(sub: u64, exp: i64, secret: Seq<char>) -> Seq<char>;

/// The signature part that `jsonwebtoken::crypto::sign` computes for
/// `message` with HS256 and the HMAC key `secret`: the URL-safe base64,
/// without padding, of the 32-byte HMAC-SHA256 of the message, so 43
/// characters and no dot.
pub uninterp spec fn hs256_signature(message: Seq<char>, secret: Seq<char>) -> Seq<char>;

/// Whether a `jsonwebtoken` error is of the kind `ExpiredSignature`: the
/// decoder's own check that the `exp` claim is not more than its leeway in
/// the past, by its own clock.
pub uninterp spec fn jwt_error_is_expired_signature(err: JWTError) -> bool;

/// Whether `token` is of the form `message.signature`, where `message`
/// holds a dot (header and payload) and `signature` is the HS256 signature
/// of `message` under `secret` (43 characters, no dot).
pub open spec fn signed_with(token: Seq<char>, secret: Seq<char>) -> bool {
    exists|message: Seq<char>|
        {
            &&& token == message + seq!['.'] + #[trigger] hs256_signature(message, secret)
            &&& message.contains('.')
            &&& !hs256_signature(message, secret).contains('.')
            &&& hs256_signature(message, secret).len() == 43
        }
}

/// Whether `claims` (user id, expiry) is what a token signed with `secret`
/// can carry: if the token was issued for some claims, these are the ones.
pub open spec fn decoded_claims_of(token: Seq<char>, secret: Seq<char>, claims: (u64, i64)) -> bool {
    forall|sub: u64, exp: i64|
        #[trigger] jwt_hs256_token(sub, exp, secret) == token ==> claims == (sub, exp)
}

/// Whether `decoded` is an outcome that decoding `token` with `secret` can
/// have. A success needs a valid signature and gives back the claims the
/// token was issued for. A token issued with `secret` and a non-negative
/// expiry decodes to its claims unless the decoder finds, by its own clock,
/// that it has expired; any other token may fail in any way.
pub open spec fn jwt_decode_outcome(
    token: Seq<char>,
    secret: Seq<char>,
    decoded: Result<(u64, i64), JWTError>,
) -> bool {
    &&& decoded matches Ok(claims) ==> decoded_claims_of(token, secret, claims) && signed_with(
        token,
        secret,
    )
    &&& forall|sub: u64, exp: i64|
        #[trigger] jwt_hs256_token(sub, exp, secret) == token && 0 <= exp ==> (decoded == Ok::<
            (u64, i64),
            JWTError,
        >((sub, exp)) || (decoded matches Err(err) && jwt_error_is_expired_signature(err)))
}

/// `chrono::Utc::now().timestamp()`: the current time in whole seconds since
/// the Unix epoch. `Utc::now` panics when the clock is before the epoch or
/// past chrono's last representable year (262142), so every value it returns
/// lies in `[0, 2^43)`; nothing more is claimed of it.
#[verifier::external_body]
fn utc_now_timestamp() -> (t: i64)
    ensures
        0 <= t,
        t < 0x800_0000_0000,
{
    Utc::now().timestamp()
}

/// `jsonwebtoken::encode` with the default header (HS256), the claims object
/// `{"sub": sub, "exp": exp}` and the HMAC key `secret`. In the crate's
/// source this call cannot fail (the key family matches HS256, a JSON object
/// always serializes, HMAC signing always succeeds), so the result is claimed
/// to be `Ok`, holding the token named by `jwt_hs256_token`. That token is
/// `header.payload` followed by a dot and the HS256 signature of
/// `header.payload` (base64 has no dots), and its payload is the JSON of the
/// claims, so no other claims give the same token.
#[verifier::external_body]
fn jwt_encode(sub: u64, exp: i64, secret: &str) -> (r: Result<String, JWTError>)
    ensures
        r is Ok,
        r matches Ok(t) ==> t@ == jwt_hs256_token(sub, exp, secret@),
        r matches Ok(t) ==> exists|message: Seq<char>|
            {
                &&& t@ == message + seq!['.'] + #[trigger] hs256_signature(message, secret@)
                &&& message.contains('.')
                &&& !hs256_signature(message, secret@).contains('.')
                &&& hs256_signature(message, secret@).len() == 43
            },
        r matches Ok(t) ==> forall|sub2: u64, exp2: i64|
            #[trigger] jwt_hs256_token(sub2, exp2, secret@) == t@ ==> sub2 == sub && exp2 == exp,
{
    let mut claims = serde_json::Map::new();
    claims.insert("sub".to_string(), serde_json::Value::from(sub));
    claims.insert("exp".to_string(), serde_json::Value::from(exp));
    encode(&Header::default(), &claims, &EncodingKey::from_secret(secret.as_bytes()))
}

/// `jsonwebtoken::decode` with the HMAC key `secret` and the default
/// validation (HS256, `exp` required as a non-negative integer and not more
/// than 60 s in the past by the crate's own clock), followed by reading the
/// `sub` claim as a `u64` and the `exp` claim as an `i64`; any failure is
/// `jsonwebtoken`'s error. Claimed: a success needs the token to be
/// `message.signature` with `signature` the HS256 signature of `message`
/// (the decoder splits at the last two dots and re-signs `message`), and
/// gives back the claims the token was issued with. For a token issued with
/// the same secret and an expiry `>= 0`, every step of the decoder succeeds
/// except possibly the expiry check, whose failure is `ExpiredSignature`.
/// What the decoder's clock reads is not claimed.
#[verifier::external_body]
fn jwt_decode(token: &str, secret: &str) -> (r: Result<(u64, i64), JWTError>)
    ensures
        r matches Ok(claims) ==> decoded_claims_of(token@, secret@, claims) && signed_with(
            token@,
            secret@,
        ),
        forall|sub: u64, exp: i64|
            #[trigger] jwt_hs256_token(sub, exp, secret@) == token@ && 0 <= exp ==> (r == Ok::<
                (u64, i64),
                JWTError,
            >((sub, exp)) || (r matches Err(err) && jwt_error_is_expired_signature(err))),
{
    let key = DecodingKey::from_secret(secret.as_bytes());
    let data = decode::<serde_json::Value>(token, &key, &Validation::default())?;
    let sub = serde_json::from_value::<u64>(data.claims["sub"].clone())?;
    let exp = serde_json::from_value::<i64>(data.claims["exp"].clone())?;
    Ok((sub, exp))
}

/// How long an access token stays valid, in seconds.
pub open spec fn token_lifetime() -> int {
    AUTH_TOKEN_EXPIRY_HOURS as int * 3600
}

/// The expiry of a token issued at time `now`.
pub open spec fn expiry_of_token_issued_at(now: int) -> int {
    now + token_lifetime()
}

/// The token the service issues for `user_id` at time `now`.
pub open spec fn access_token_issued_at(user_id: u64, now: int) -> Seq<char> {
    jwt_hs256_token(user_id, expiry_of_token_issued_at(now) as i64, AUTH_SECRET@)
}

/// What checking a token answers, given what decoding it gave and the time
/// `now` at which the expiry is checked: a decoding failure is reported as
/// such, a token whose expiry lies before `now` has expired, and otherwise
/// the token's user id is the answer.
pub open spec fn access_token_outcome(decoded: Result<(u64, i64), JWTError>, now: i64) -> Result<u64, Error> {
    match decoded {
        Err(err) => Err(Error::AuthTokenDecodeFail { err }),
        Ok((sub, exp)) => if exp < now {
            Err(Error::AuthTokenExpired)
        } else {
            Ok(sub)
        },
    }
}

/// Whether `answer` is what checking the access token `token` can give:
/// the outcome for some possible decoding of it and some time the clock can
/// read.
pub open spec fn access_token_answer(token: Seq<char>, answer: Result<u64, Error>) -> bool {
    exists|decoded: Result<(u64, i64), JWTError>, now: i64|
        {
            &&& 0 <= now < 0x800_0000_0000
            &&& jwt_decode_outcome(token, AUTH_SECRET@, decoded)
            &&& #[trigger] access_token_outcome(decoded, now) == answer
        }
}

/// An access token lives one week: it expires 604800 seconds after it is
/// issued.
pub proof fn law_token_lives_one_week(issued_at: int)
    ensures
        expiry_of_token_issued_at(issued_at) == issued_at + 604800,
{
}

/// Once a token has decoded, the check against the time `now` answers its
/// user exactly when `now` is not past its expiry and `AuthTokenExpired`
/// otherwise; which user the token names plays no part in the verdict, a
/// token accepted at some time is accepted at every earlier time, and a
/// decoding failure is answered as that failure.
pub proof fn law_expiry_check()
    ensures
        forall|sub: u64, exp: i64, now: i64|
            #[trigger] access_token_outcome(Ok((sub, exp)), now) == if now <= exp {
                Ok::<u64, Error>(sub)
            } else {
                Err::<u64, Error>(Error::AuthTokenExpired)
            },
        forall|sub1: u64, sub2: u64, exp: i64, now: i64|
            (#[trigger] access_token_outcome(Ok((sub1, exp)), now) is Ok) == (
            #[trigger] access_token_outcome(Ok((sub2, exp)), now) is Ok),
        forall|sub: u64, exp: i64, now1: i64, now2: i64|
            now1 <= now2 && #[trigger] access_token_outcome(Ok((sub, exp)), now2) is Ok
                ==> #[trigger] access_token_outcome(Ok((sub, exp)), now1) is Ok,
        forall|err: JWTError, now: i64|
            #[trigger] access_token_outcome(Err(err), now) == Err::<u64, Error>(
                Error::AuthTokenDecodeFail { err },
            ),
{
}

/// Whether `token` is issued for the claims `(sub, exp)` and for no others.
pub open spec fn names_only_claims(token: Seq<char>, sub: u64, exp: i64) -> bool {
    &&& token == jwt_hs256_token(sub, exp, AUTH_SECRET@)
    &&& forall|sub2: u64, exp2: i64|
        #[trigger] jwt_hs256_token(sub2, exp2, AUTH_SECRET@) == token ==> sub2 == sub && exp2 == exp
}

/// A token issued for a user at a time not before the Unix epoch decodes to
/// exactly the claims it was issued with, unless the decoder finds by its
/// own clock that it has expired; once decoded, it is checked at time `now`
/// to answer with that user as long as `now` is not past its expiry, and to
/// have expired after.
pub proof fn law_issued_token_round_trip(
    user_id: u64,
    issued_at: i64,
    decoded: Result<(u64, i64), JWTError>,
    now: i64,
)
    requires
        0 <= issued_at,
        expiry_of_token_issued_at(issued_at as int) <= i64::MAX,
        jwt_decode_outcome(access_token_issued_at(user_id, issued_at as int), AUTH_SECRET@, decoded),
    ensures
        decoded == Ok::<(u64, i64), JWTError>(
            (user_id, expiry_of_token_issued_at(issued_at as int) as i64),
        ) || (decoded matches Err(err) && jwt_error_is_expired_signature(err)),
        decoded is Ok ==> access_token_outcome(decoded, now) == if now
            <= expiry_of_token_issued_at(issued_at as int) {
            Ok::<u64, Error>(user_id)
        } else {
            Err::<u64, Error>(Error::AuthTokenExpired)
        },
{
    let exp = expiry_of_token_issued_at(issued_at as int) as i64;
    assert(jwt_hs256_token(user_id, exp, AUTH_SECRET@) == access_token_issued_at(
        user_id,
        issued_at as int,
    ));
}

/// Checking a token the service issued for a user answers with that user,
/// or with `AuthTokenExpired`, or with a decoding failure that is the
/// decoder's own expiry check; never with another user or another error.
pub proof fn law_issued_token_answers_for_its_user(
    user_id: u64,
    issued_at: i64,
    answer: Result<u64, Error>,
)
    requires
        0 <= issued_at,
        expiry_of_token_issued_at(issued_at as int) <= i64::MAX,
        access_token_answer(access_token_issued_at(user_id, issued_at as int), answer),
    ensures
        answer matches Ok(u) ==> u == user_id,
        answer is Err ==> (answer matches Err(Error::AuthTokenExpired) || (answer matches Err(
            Error::AuthTokenDecodeFail { err },
        ) && jwt_error_is_expired_signature(err))),
{
    let (decoded, now) = choose|decoded: Result<(u64, i64), JWTError>, now: i64|
        {
            &&& 0 <= now < 0x800_0000_0000
            &&& jwt_decode_outcome(
                access_token_issued_at(user_id, issued_at as int),
                AUTH_SECRET@,
                decoded,
            )
            &&& #[trigger] access_token_outcome(decoded, now) == answer
        };
    law_issued_token_round_trip(user_id, issued_at, decoded, now);
}

/// Whatever token is checked, the answer is its user id, a decoding failure
/// or expiry; never one of the service's other errors.
pub proof fn law_token_check_errors(token: Seq<char>, answer: Result<u64, Error>)
    requires
        access_token_answer(token, answer),
    ensures
        answer matches Err(e) ==> (e is AuthTokenDecodeFail || e is AuthTokenExpired),
{
}

/// A token that is not signed with the service's secret is rejected as not
/// decoding: no user is ever answered for it.
pub proof fn law_unsigned_token_rejected(token: Seq<char>, answer: Result<u64, Error>)
    requires
        access_token_answer(token, answer),
        !signed_with(token, AUTH_SECRET@),
    ensures
        answer matches Err(Error::AuthTokenDecodeFail { .. }),
{
}

/// A token with fewer than two dots is signed with no secret.
pub proof fn law_signed_token_has_two_dots(token: Seq<char>, secret: Seq<char>)
    requires
        forall|i: int, j: int| 0 <= i < j < token.len() && token[i] == '.' ==> token[j] != '.',
    ensures
        !signed_with(token, secret),
{
    if signed_with(token, secret) {
        let message = choose|message: Seq<char>|
            {
                &&& token == message + seq!['.'] + #[trigger] hs256_signature(message, secret)
                &&& message.contains('.')
                &&& !hs256_signature(message, secret).contains('.')
                &&& hs256_signature(message, secret).len() == 43
            };
        let k = choose|k: int| 0 <= k < message.len() && message[k] == '.';
        assert(token[k] == '.');
        assert(token[message.len() as int] == '.');
    }
}

/// A token shorter than 45 characters (a dot, at least one more character
/// with a dot, and a 43-character signature) is signed with no secret.
pub proof fn law_short_token_unsigned(token: Seq<char>, secret: Seq<char>)
    requires
        token.len() < 45,
    ensures
        !signed_with(token, secret),
{
}

/// At one and the same issue time, two users get the same token exactly
/// when they are the same user.
pub proof fn law_issued_tokens_differ_per_user(user1: u64, user2: u64, issued_at: i64)
    requires
        expiry_of_token_issued_at(issued_at as int) <= i64::MAX,
        names_only_claims(
            access_token_issued_at(user1, issued_at as int),
            user1,
            expiry_of_token_issued_at(issued_at as int) as i64,
        ),
    ensures
        access_token_issued_at(user1, issued_at as int) == access_token_issued_at(
            user2,
            issued_at as int,
        ) <==> user1 == user2,
{
    let exp = expiry_of_token_issued_at(issued_at as int) as i64;
    assert(access_token_issued_at(user2, issued_at as int) == jwt_hs256_token(
        user2,
        exp,
        AUTH_SECRET@,
    ));
}

/// Issues the access token for `user_id` at time `now` (seconds since the
/// Unix epoch): it expires `AUTH_TOKEN_EXPIRY_HOURS` hours later, and it is
/// issued for no other user and no other expiry.
pub fn encode_access_token_at(user_id: u64, now: i64) -> (r: Result<String, Error>)
    requires
        expiry_of_token_issued_at(now as int) <= i64::MAX,
    ensures
        r matches Ok(t) && t@ == access_token_issued_at(user_id, now as int),
        r matches Ok(t) && names_only_claims(
            t@,
            user_id,
            expiry_of_token_issued_at(now as int) as i64,
        ),
{
    let lifetime: i64 = AUTH_TOKEN_EXPIRY_HOURS as i64 * 3600;
    let expiration = now + lifetime;
    match jwt_encode(user_id, expiration, AUTH_SECRET) {
        Ok(token) => Ok(token),
        Err(err) => Err(Error::AuthTokenEncodeFail { err }),
    }
}

/// Issues an access token for `user_id`, valid for `AUTH_TOKEN_EXPIRY_HOURS`
/// hours from now, and issued for no other user and no other expiry.
pub fn encode_access_token(user_id: u64) -> (r: Result<String, Error>)
    ensures
        r matches Ok(t) && exists|now: i64|
            {
                &&& 0 <= now < 0x800_0000_0000
                &&& #[trigger] access_token_issued_at(user_id, now as int) == t@
                &&& names_only_claims(t@, user_id, expiry_of_token_issued_at(now as int) as i64)
            },
{
    let now = utc_now_timestamp();
    let r = encode_access_token_at(user_id, now);
    assert(r matches Ok(t) && access_token_issued_at(user_id, now as int) == t@);
    r
}

/// Answers for a token, given what decoding it gave and the current time
/// `now`: the decoding error, `AuthTokenExpired` when the token's expiry lies
/// before `now`, or the token's user id.
pub fn check_decoded_access_token(decoded: Result<(u64, i64), JWTError>, now: i64) -> (r: Result<
    u64,
    Error,
>)
    ensures
        r == access_token_outcome(decoded, now),
{
    match decoded {
        Err(err) => Err(Error::AuthTokenDecodeFail { err }),
        Ok((sub, exp)) => {
            if exp < now {
                Err(Error::AuthTokenExpired)
            } else {
                Ok(sub)
            }
        },
    }
}

/// Checks an access token and answers with the id of the user it was issued
/// for; fails when the token does not decode under the service's secret or
/// has expired.
pub fn decode_access_token(access_token: String) -> (r: Result<u64, Error>)
    ensures
        access_token_answer(access_token@, r),
{
    let decoded = jwt_decode(access_token.as_str(), AUTH_SECRET);
    let now: i64 = match &decoded {
        Ok(_) => utc_now_timestamp(),
        Err(_) => 0,
    };
    let r = check_decoded_access_token(decoded, now);
    assert(access_token_outcome(decoded, now) == r);
    r
}

} // verus!
