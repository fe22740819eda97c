use vstd::prelude::*;

use crate::errors::AuthError;

verus! {

/// A decoded claim set: the numeric subject a token was issued for and
/// the absolute second (since the Unix epoch) at which it expires.
#[derive(Clone, Copy, PartialEq, Eq, Structural, Debug)]
pub struct Claims {
    pub id: u64,
    pub exp: u64,
}

/// The signed bearer token that `jsonwebtoken` produces for the claim
/// set `{id, exp}` under `secret` with its default HS256 header: a
/// deterministic function of the three arguments.
pub uninterp spec fn jwt_of(id: u64, exp: u64, secret: Seq<u8>) -> Seq<char>;

/// What decoding `token` under `secret` yields before any expiry check:
/// the embedded claim pair when the signature verifies and the payload
/// carries numeric `id` and `exp` claims, `None` otherwise. A
/// deterministic function of the two arguments.
pub uninterp spec fn jwt_claims_of(token: Seq<char>, secret: Seq<u8>) -> Option<(u64, u64)>;

/// Signs the claim set `{id, exp}` under `secret`.
///
/// Relies on `jsonwebtoken::encode` with the default HS256 header and an
/// HMAC secret, a combination its source never rejects: the token is a
/// deterministic function of the claims and the secret — never empty,
/// since it joins three base64 parts with dots — and decoding it under
/// the same secret yields the claims back.
#[verifier::external_body]
fn jwt_encode(id: u64, exp: u64, secret: &[u8]) -> (r: String)
    ensures
        r@ == jwt_of(id, exp, secret@),
        r@.len() > 0,
        jwt_claims_of(r@, secret@) == Some((id, exp)),
{
    let mut claims = serde_json::Map::new();
    claims.insert("id".to_string(), serde_json::Value::from(id));
    claims.insert("exp".to_string(), serde_json::Value::from(exp));
    let key = jsonwebtoken::EncodingKey::from_secret(secret);
    let header = jsonwebtoken::Header::default();
    jsonwebtoken::encode(&header, &serde_json::Value::Object(claims), &key)
        .expect("signing with an HMAC secret does not fail")
}

/// Checks a token's signature under `secret` and extracts its claims.
///
/// Relies on `jsonwebtoken::decode` over HS256 with expiry validation
/// turned off, so that the outcome depends on the token and the secret
/// alone. That a token signed under one secret does not verify under a
/// different one is a cryptographic-hardness expectation of HMAC, not a
/// fact of the code for every byte sequence (RFC 2104 key preparation
/// maps some distinct secrets to the same key), so nothing of the kind
/// is claimed here; the tests exercise it on real values.
#[verifier::external_body]
fn jwt_decode(token: &str, secret: &[u8]) -> (r: Option<(u64, u64)>)
    ensures
        r == jwt_claims_of(token@, secret@),
{
    let mut validation = jsonwebtoken::Validation::new(jsonwebtoken::Algorithm::HS256);
    validation.validate_exp = false;
    validation.required_spec_claims = std::collections::HashSet::new();
    let key = jsonwebtoken::DecodingKey::from_secret(secret);
    match jsonwebtoken::decode::<serde_json::Value>(token, &key, &validation) {
        Ok(d) => {
            let id = d.claims.get("id").and_then(serde_json::Value::as_u64);
            let exp = d.claims.get("exp").and_then(serde_json::Value::as_u64);
            match (id, exp) {
                (Some(id), Some(exp)) => Some((id, exp)),
                _ => None,
            }
        }
        Err(_) => None,
    }
}

/// What verifying `token` under `secret` at time `now` returns: the
/// embedded claims when the signature checks out and the expiry lies
/// strictly after `now`, and `TokenInvalid` otherwise — a forged or
/// malformed token and an expired one are not told apart.
pub open spec fn decode_spec(token: Seq<char>, secret: Seq<u8>, now: u64) -> Result<
    Claims,
    AuthError,
> {
    match jwt_claims_of(token, secret) {
        Some((id, exp)) => if exp > now {
            Ok(Claims { id, exp })
        } else {
            Err(AuthError::TokenInvalid)
        },
        None => Err(AuthError::TokenInvalid),
    }
}

/// Builds the claim set `{subject, now + ttl}` and signs it under
/// `secret` with HMAC-SHA256.
pub fn mint(subject: u64, ttl: u64, secret: &[u8], now: u64) -> (token: String)
    requires
        now + ttl <= u64::MAX,
    ensures
        token@ == jwt_of(subject, (now + ttl) as u64, secret@),
        token@.len() > 0,
        jwt_claims_of(token@, secret@) == Some((subject, (now + ttl) as u64)),
{
    jwt_encode(subject, now + ttl, secret)
}

/// Verifies a bearer token at time `now`: signature integrity under
/// `secret` and strict expiry — a token is already invalid at exactly
/// its expiry second. Every failure collapses to `TokenInvalid`.
pub fn decode_token(token: &str, secret: &[u8], now: u64) -> (r: Result<Claims, AuthError>)
    ensures
        r == decode_spec(token@, secret@, now),
{
    match jwt_decode(token, secret) {
        Some((id, exp)) => {
            if exp > now {
                Ok(Claims { id, exp })
            } else {
                Err(AuthError::TokenInvalid)
            }
        },
        None => Err(AuthError::TokenInvalid),
    }
}

/// Round trip of the codec: a token carrying the claims `(subject, exp)`
/// under `secret` decodes to that same subject at any time strictly
/// before `exp`, and is rejected from `exp` on.
pub proof fn lemma_decode_round_trip(
    token: Seq<char>,
    subject: u64,
    exp: u64,
    secret: Seq<u8>,
    now: u64,
)
    requires
        jwt_claims_of(token, secret) == Some((subject, exp)),
    ensures
        now < exp ==> decode_spec(token, secret, now) == Ok::<Claims, AuthError>(
            Claims { id: subject, exp },
        ),
        now >= exp ==> decode_spec(token, secret, now) == Err::<Claims, AuthError>(
            AuthError::TokenInvalid,
        ),
{
}

/// Tokens are told apart by their claims: two tokens that decode to
/// different claim sets under one secret cannot be the same string —
/// in particular, a second login under a fresh claim identifier hands
/// back a different token than the first.
pub proof fn lemma_distinct_claims_distinct_tokens(t1: Seq<char>, t2: Seq<char>, secret: Seq<u8>)
    requires
        jwt_claims_of(t1, secret) != jwt_claims_of(t2, secret),
    ensures
        t1 != t2,
{
}

} // verus!
