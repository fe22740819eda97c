use authcore::errors::AuthError;
use authcore::gate::{authenticate, authenticate_now, AuthenticationToken};
use authcore::identity::{sign_in, sign_up};
use authcore::store::AuthDb;
use authcore::token::mint;

const SECRET: &[u8] = b"unit-test-signing-secret";
const NOW: u64 = 1_700_000_000;

fn db_with_admin() -> AuthDb {
    let mut db = AuthDb::new();
    db.add_role(&"role-1".to_string(), &"admin".to_string());
    db
}

#[test]
fn missing_or_empty_header_is_unauthenticated() {
    assert_eq!(authenticate(None, SECRET, NOW), Err(AuthError::Unauthenticated));
    let empty = String::new();
    assert_eq!(
        authenticate(Some(&empty), SECRET, NOW),
        Err(AuthError::Unauthenticated)
    );
}

#[test]
fn valid_token_resolves_principal() {
    let token = mint(42, 3600, SECRET, NOW);
    assert_eq!(
        authenticate(Some(&token), SECRET, NOW + 1),
        Ok(AuthenticationToken { id: 42 })
    );
}

#[test]
fn expired_or_forged_token_is_unauthenticated() {
    let token = mint(42, 60, SECRET, NOW);
    assert_eq!(
        authenticate(Some(&token), SECRET, NOW + 60),
        Err(AuthError::Unauthenticated)
    );
    let forged = mint(42, 3600, b"some-other-secret", NOW);
    assert_eq!(
        authenticate(Some(&forged), SECRET, NOW + 1),
        Err(AuthError::Unauthenticated)
    );
    let garbage = "not.a.jwt".to_string();
    assert_eq!(
        authenticate(Some(&garbage), SECRET, NOW),
        Err(AuthError::Unauthenticated)
    );
}

#[test]
fn end_to_end_sign_up_sign_in_authenticate() {
    // the full flows against the real clock, hasher and codec
    let mut db = db_with_admin();
    let email = "a@x.com".to_string();

    let t1 = sign_up(&mut db, &email, "pw1", SECRET).unwrap();
    assert_eq!(db.users.len(), 1);
    assert_eq!(db.sessions.len(), 1);

    let t2 = sign_in(&mut db, &email, "pw1", SECRET).unwrap();
    assert_ne!(t1, t2);

    // both tokens resolve a principal, and each principal's claim id
    // matches a session row
    let p2 = authenticate_now(Some(&t2), SECRET).unwrap();
    assert!(db.find_by_claim(p2.id).is_some());
    let p1 = authenticate_now(Some(&t1), SECRET).unwrap();
    assert!(db.find_by_claim(p1.id).is_some());

    // wrong password still fails after everything else succeeded
    assert_eq!(
        sign_in(&mut db, &email, "pw2", SECRET),
        Err(AuthError::BadCredentials)
    );
}

#[test]
fn gate_is_stateless_about_sessions() {
    // authentication reads the signature and expiry only: a token that
    // verifies is accepted even after its session row is gone
    let mut db = db_with_admin();
    let email = "a@x.com".to_string();
    let t1 = sign_up(&mut db, &email, "pw1", SECRET).unwrap();
    let p1 = authenticate_now(Some(&t1), SECRET).unwrap();
    assert!(db.find_by_claim(p1.id).is_some());

    db.sessions.clear();
    assert!(db.find_by_claim(p1.id).is_none());
    assert_eq!(authenticate_now(Some(&t1), SECRET), Ok(p1));
}
