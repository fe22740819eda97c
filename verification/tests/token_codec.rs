use authcore::errors::AuthError;
use authcore::token::{decode_token, mint, Claims};

const SECRET: &[u8] = b"unit-test-signing-secret";

#[test]
fn mint_then_decode_returns_subject() {
    let now: u64 = 1_700_000_000;
    let token = mint(42, 3600, SECRET, now);
    let decoded = decode_token(&token, SECRET, now + 1).unwrap();
    assert_eq!(decoded, Claims { id: 42, exp: now + 3600 });
}

#[test]
fn decode_fails_from_expiry_second_on() {
    let now: u64 = 1_700_000_000;
    let token = mint(7, 60, SECRET, now);
    // one second before expiry: still valid
    assert!(decode_token(&token, SECRET, now + 59).is_ok());
    // at exactly expires_at: already invalid, no leniency
    assert_eq!(decode_token(&token, SECRET, now + 60), Err(AuthError::TokenInvalid));
    // and well after
    assert_eq!(decode_token(&token, SECRET, now + 61), Err(AuthError::TokenInvalid));
}

#[test]
fn decode_with_wrong_secret_always_fails() {
    let now: u64 = 1_700_000_000;
    let token = mint(42, 3600, SECRET, now);
    // valid under the right secret, rejected under any other
    assert!(decode_token(&token, SECRET, now).is_ok());
    assert_eq!(
        decode_token(&token, b"some-other-secret", now),
        Err(AuthError::TokenInvalid)
    );
    // wrong secret fails even for an expired token
    assert_eq!(
        decode_token(&token, b"some-other-secret", now + 7200),
        Err(AuthError::TokenInvalid)
    );
}

#[test]
fn malformed_tokens_are_invalid() {
    let now: u64 = 1_700_000_000;
    assert_eq!(decode_token("", SECRET, now), Err(AuthError::TokenInvalid));
    assert_eq!(decode_token("not.a.jwt", SECRET, now), Err(AuthError::TokenInvalid));
    let token = mint(1, 3600, SECRET, now);
    // truncating the signature must break verification
    let cut = &token[..token.len() - 2];
    assert_eq!(decode_token(cut, SECRET, now), Err(AuthError::TokenInvalid));
}

#[test]
fn distinct_claims_give_distinct_tokens() {
    let now: u64 = 1_700_000_000;
    let t1 = mint(1, 3600, SECRET, now);
    let t2 = mint(2, 3600, SECRET, now);
    assert_ne!(t1, t2);
    // and each decodes back to its own subject
    assert_eq!(decode_token(&t1, SECRET, now).unwrap().id, 1);
    assert_eq!(decode_token(&t2, SECRET, now).unwrap().id, 2);
}

#[test]
fn clock_at_upper_bound_still_mints() {
    // the largest timestamp the library accepts
    let now: u64 = i64::MAX as u64;
    let token = mint(3, 86400, SECRET, now);
    let claims = decode_token(&token, SECRET, now).unwrap();
    assert_eq!(claims.id, 3);
    assert_eq!(claims.exp, now + 86400);
    assert_eq!(
        decode_token(&token, SECRET, now + 86400),
        Err(AuthError::TokenInvalid)
    );
}
