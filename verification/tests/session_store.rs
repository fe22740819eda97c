use authcore::errors::AuthError;
use authcore::store::AuthDb;

fn db_with_admin() -> AuthDb {
    let mut db = AuthDb::new();
    db.add_role(&"role-1".to_string(), &"admin".to_string());
    db
}

#[test]
fn create_inserts_session_row() {
    let mut db = AuthDb::new();
    let r = db.create(
        11,
        &"user-1".to_string(),
        &"role-1".to_string(),
        &"tok-a".to_string(),
        1000,
        86400,
    );
    assert_eq!(r, Ok(()));
    assert_eq!(db.sessions.len(), 1);
    assert_eq!(db.sessions[0].id, 11);
    assert_eq!(db.sessions[0].user_id, "user-1");
    assert_eq!(db.sessions[0].role_id, "role-1");
    assert_eq!(db.sessions[0].access_token, "tok-a");
    assert_eq!(db.sessions[0].expires_at, 1000 + 86400);
}

#[test]
fn duplicate_claim_is_refused() {
    let mut db = AuthDb::new();
    let uid = "user-1".to_string();
    let rid = "role-1".to_string();
    assert_eq!(db.create(11, &uid, &rid, &"tok-a".to_string(), 1000, 100), Ok(()));
    // same claim id while the first row is live
    assert_eq!(
        db.create(11, &uid, &rid, &"tok-b".to_string(), 1050, 100),
        Err(AuthError::DuplicateClaim)
    );
    assert_eq!(db.sessions.len(), 1);
    // another user's live row blocks the claim id too
    assert_eq!(
        db.create(11, &"user-2".to_string(), &rid, &"tok-c".to_string(), 1050, 100),
        Err(AuthError::DuplicateClaim)
    );
}

#[test]
fn second_live_session_is_kept_alongside_first() {
    // a new login while a prior session is still live leaves two live rows
    let mut db = AuthDb::new();
    let uid = "user-1".to_string();
    let rid = "role-1".to_string();
    assert_eq!(db.create(1, &uid, &rid, &"tok-a".to_string(), 1000, 86400), Ok(()));
    assert_eq!(db.create(2, &uid, &rid, &"tok-b".to_string(), 1500, 86400), Ok(()));
    assert_eq!(db.sessions.len(), 2);
    assert!(db.sessions[0].expires_at > 1500 && db.sessions[1].expires_at > 1500);
}

#[test]
fn create_prunes_only_expired_rows_of_that_user() {
    let mut db = AuthDb::new();
    let uid = "user-1".to_string();
    let other = "user-2".to_string();
    let rid = "role-1".to_string();
    assert_eq!(db.create(1, &uid, &rid, &"tok-a".to_string(), 1000, 100), Ok(()));
    assert_eq!(db.create(2, &other, &rid, &"tok-b".to_string(), 1000, 100), Ok(()));
    // at 1100 both rows are expired (1000 + 100 <= 1100), but only
    // user-1's row is swept by user-1's new login
    assert_eq!(db.create(3, &uid, &rid, &"tok-c".to_string(), 1100, 100), Ok(()));
    assert_eq!(db.sessions.len(), 2);
    assert_eq!(db.sessions[0].id, 2);
    assert_eq!(db.sessions[1].id, 3);
}

#[test]
fn prune_expired_is_idempotent() {
    let mut db = AuthDb::new();
    let uid = "user-1".to_string();
    let rid = "role-1".to_string();
    assert_eq!(db.create(1, &uid, &rid, &"tok-a".to_string(), 1000, 100), Ok(()));
    assert_eq!(db.create(2, &uid, &rid, &"tok-b".to_string(), 1000, 500), Ok(()));
    db.prune_expired(&uid, 1200);
    assert_eq!(db.sessions.len(), 1);
    assert_eq!(db.sessions[0].id, 2);
    db.prune_expired(&uid, 1200);
    assert_eq!(db.sessions.len(), 1);
    // a row dies at exactly its expiry second
    db.prune_expired(&uid, 1500);
    assert_eq!(db.sessions.len(), 0);
}

#[test]
fn find_by_claim_resolves_sessions() {
    let mut db = AuthDb::new();
    let uid = "user-1".to_string();
    let rid = "role-1".to_string();
    assert_eq!(db.create(7, &uid, &rid, &"tok-a".to_string(), 1000, 100), Ok(()));
    let found = db.find_by_claim(7).unwrap();
    assert_eq!(found.user_id, "user-1");
    assert!(db.find_by_claim(8).is_none());
}

#[test]
fn check_user_gates_both_flows() {
    let mut db = db_with_admin();
    assert_eq!(db.check_user(&"a@x.com".to_string(), true), Ok(None));
    assert_eq!(
        db.check_user(&"a@x.com".to_string(), false),
        Err(AuthError::EmailUnknown)
    );
    let r = authcore::identity::sign_up_hashed(
        &mut db,
        &"a@x.com".to_string(),
        &bcrypt::hash("pw1", 4).unwrap(),
        99,
        1_700_000_000,
        b"s",
    );
    assert!(r.is_ok());
    assert_eq!(
        db.check_user(&"a@x.com".to_string(), true),
        Err(AuthError::EmailTaken)
    );
    assert_eq!(db.check_user(&"a@x.com".to_string(), false), Ok(Some(0)));
}

#[test]
fn get_admin_finds_first_admin_role() {
    let mut db = AuthDb::new();
    assert!(db.get_admin().is_none());
    db.add_role(&"r-0".to_string(), &"viewer".to_string());
    db.add_role(&"r-1".to_string(), &"admin".to_string());
    db.add_role(&"r-2".to_string(), &"admin".to_string());
    assert_eq!(db.get_admin(), Some(1));
}

#[test]
fn error_messages_are_stable() {
    assert_eq!(AuthError::EmailTaken.message(), "Email has already registered");
    assert_eq!(AuthError::EmailUnknown.message(), "Email has not been registered");
    assert_eq!(AuthError::BadCredentials.message(), "Invalid email or password");
    assert_eq!(AuthError::TokenInvalid.message(), "Invalid authentication token sent!");
    assert_eq!(AuthError::Unauthenticated.message(), "No authentication token sent!");
}
