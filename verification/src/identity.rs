use vstd::prelude::*;

use crate::clock::{now_timestamp, MAX_TIMESTAMP};
use crate::errors::AuthError;
use crate::hashing::{bcrypt_verify_of, hash_password, verify_password};
use crate::ids::fresh_claim_id;
use crate::store::{
    first_user_with_email, has_session_id, lemma_email_taken_after_sign_up, prune_spec, AuthDb,
    Role, Session, User,
};
use crate::token::{jwt_claims_of, jwt_of, mint};

verus! {

/// Issued tokens expire this many seconds after issuance.
pub const TOKEN_TTL_SECS: u64 = 86400;

/// Session rows expire this many seconds after insertion.
pub const SESSION_TTL_SECS: u64 = 86400;

/// `k` is the position of the first role named `admin`, the default
/// role handed to every sign-up.
pub open spec fn first_admin_role(roles: Seq<Role>, k: int) -> bool {
    &&& 0 <= k < roles.len()
    &&& roles[k].name@ == "admin"@
    &&& forall|j: int| 0 <= j < k ==> roles[j].name@ != "admin"@
}

/// What the tail of both flows — minting a token under `claim_id` and
/// recording its session row for `user_id` — does to the store and
/// returns: after the expiry sweep for `user_id`, a colliding claim
/// identifier is refused as `DuplicateClaim`; otherwise the signed
/// token for `(claim_id, now + TOKEN_TTL_SECS)` comes back and its row,
/// expiring at `now + SESSION_TTL_SECS`, is appended.
pub open spec fn session_outcome(
    pre: AuthDb,
    post: AuthDb,
    r: Result<String, AuthError>,
    user_id: String,
    role_id: String,
    claim_id: u64,
    now: u64,
    secret: Seq<u8>,
) -> bool {
    let pruned = prune_spec(pre.sessions@, user_id@, now);
    if has_session_id(pruned, claim_id) {
        &&& r == Err::<String, AuthError>(AuthError::DuplicateClaim)
        &&& post.sessions@ == pruned
    } else {
        let exp = (now + TOKEN_TTL_SECS) as u64;
        &&& r matches Ok(token)
        &&& (r matches Ok(token) ==> {
            &&& token@ == jwt_of(claim_id, exp, secret)
            &&& jwt_claims_of(token@, secret) == Some((claim_id, exp))
            &&& post.sessions@ == pruned.push(
                Session {
                    id: claim_id,
                    user_id: user_id,
                    role_id: role_id,
                    access_token: token,
                    expires_at: (now + SESSION_TTL_SECS) as u64,
                },
            )
        })
    }
}

/// What a sign-up that passed the email and role gates does, given the
/// user row `u` it created: the row carries the requested email, the
/// supplied password hash and the default role, it is appended whatever
/// happens next, and the session tail behaves as `session_outcome`
/// says.
pub open spec fn sign_up_outcome(
    pre: AuthDb,
    post: AuthDb,
    r: Result<String, AuthError>,
    u: User,
    email: Seq<char>,
    password_hash: String,
    claim_id: u64,
    now: u64,
    secret: Seq<u8>,
) -> bool {
    &&& u.email@ == email
    &&& u.password == password_hash
    &&& (exists|k: int| first_admin_role(pre.roles@, k) && u.role_id == pre.roles@[k].id)
    &&& post.users@ == pre.users@.push(u)
    &&& session_outcome(pre, post, r, u.id, u.role_id, claim_id, now, secret)
}

/// Sign-up with the random inputs fixed: the caller supplies the
/// password hash, the claim identifier and the clock reading, and the
/// outcome is pinned down for every input. The flow: refuse a taken
/// email, resolve the default role, create the user, mint the token,
/// record the session.
pub fn sign_up_hashed(
    db: &mut AuthDb,
    email: &String,
    password_hash: &String,
    claim_id: u64,
    now: u64,
    secret: &[u8],
) -> (r: Result<String, AuthError>)
    requires
        old(db).wf(),
        now <= MAX_TIMESTAMP,
    ensures
        final(db).wf(),
        final(db).roles@ == old(db).roles@,
        old(db).has_email(email@) ==> r == Err::<String, AuthError>(AuthError::EmailTaken)
            && *final(db) == *old(db),
        !old(db).has_email(email@) && !old(db).has_role("admin"@) ==> r == Err::<
            String,
            AuthError,
        >(AuthError::RoleMissing) && *final(db) == *old(db),
        !old(db).has_email(email@) && old(db).has_role("admin"@) ==> exists|u: User|
            sign_up_outcome(
                *old(db),
                *final(db),
                r,
                u,
                email@,
                *password_hash,
                claim_id,
                now,
                secret@,
            ),
        r matches Ok(t) ==> !old(db).has_email(email@) && final(db).has_email(email@),
{
    match db.check_user(email, true) {
        Err(e) => {
            return Err(e);
        },
        Ok(_) => {},
    }
    let role_i = match db.get_admin() {
        Some(i) => i,
        None => {
            return Err(AuthError::RoleMissing);
        },
    };
    let role_id = db.roles[role_i].id.clone();
    let user = db.add_user(&role_id, email, password_hash);
    let token = mint(claim_id, TOKEN_TTL_SECS, secret, now);
    let created = db.create(claim_id, &user.id, &user.role_id, &token, now, SESSION_TTL_SECS);
    proof {
        assert(first_admin_role(old(db).roles@, role_i as int));
        lemma_email_taken_after_sign_up(old(db).users@, user);
    }
    match created {
        Ok(_) => {
            proof {
                assert(sign_up_outcome(
                    *old(db),
                    *db,
                    Ok::<String, AuthError>(token),
                    user,
                    email@,
                    *password_hash,
                    claim_id,
                    now,
                    secret@,
                ));
            }
            Ok(token)
        },
        Err(e) => {
            proof {
                assert(sign_up_outcome(
                    *old(db),
                    *db,
                    Err::<String, AuthError>(e),
                    user,
                    email@,
                    *password_hash,
                    claim_id,
                    now,
                    secret@,
                ));
            }
            Err(e)
        },
    }
}

/// A registration is unrepeatable: whatever a sign-up that passed the
/// email gate went on to return, the store now carries a user with that
/// email — and the sign-up contracts then refuse the same email with
/// `EmailTaken`, so a sign-up for a fresh email succeeds at most once.
pub proof fn lemma_sign_up_succeeds_once(
    pre: AuthDb,
    post: AuthDb,
    r: Result<String, AuthError>,
    u: User,
    email: Seq<char>,
    password_hash: String,
    claim_id: u64,
    now: u64,
    secret: Seq<u8>,
)
    requires
        sign_up_outcome(pre, post, r, u, email, password_hash, claim_id, now, secret),
    ensures
        post.has_email(email),
{
    lemma_email_taken_after_sign_up(pre.users@, u);
}

/// Registers a new account and signs it in: hashes the password, draws
/// a fresh claim identifier, reads the clock, and runs the pinned flow.
/// A taken email and a missing default role are refused exactly as in
/// the pinned flow; the hash, claim and clock are drawn inside, so the
/// rest of the outcome is stated for whatever values they took.
pub fn sign_up(db: &mut AuthDb, email: &String, password: &str, secret: &[u8]) -> (r: Result<
    String,
    AuthError,
>)
    requires
        old(db).wf(),
    ensures
        final(db).wf(),
        final(db).roles@ == old(db).roles@,
        old(db).has_email(email@) ==> r == Err::<String, AuthError>(AuthError::EmailTaken)
            && *final(db) == *old(db),
        !old(db).has_email(email@) && !old(db).has_role("admin"@) ==> r == Err::<
            String,
            AuthError,
        >(AuthError::RoleMissing) && *final(db) == *old(db),
        !old(db).has_email(email@) && old(db).has_role("admin"@) ==> {
            ||| (r == Err::<String, AuthError>(AuthError::HashingFailure)
                && *final(db) == *old(db))
            ||| (exists|u: User, claim_id: u64, now: u64|
                bcrypt_verify_of(password@, u.password@) == Some(true) && sign_up_outcome(
                    *old(db),
                    *final(db),
                    r,
                    u,
                    email@,
                    u.password,
                    claim_id,
                    now,
                    secret@,
                ))
        },
        r matches Ok(t) ==> !old(db).has_email(email@) && final(db).has_email(email@),
{
    match db.check_user(email, true) {
        Err(e) => {
            return Err(e);
        },
        Ok(_) => {},
    }
    if db.get_admin().is_none() {
        return Err(AuthError::RoleMissing);
    }
    let hash = match hash_password(password) {
        Ok(h) => h,
        Err(e) => {
            return Err(e);
        },
    };
    let now = now_timestamp();
    let claim_id = fresh_claim_id();
    let r = sign_up_hashed(db, email, &hash, claim_id, now, secret);
    proof {
        let u0 = choose|u: User|
            sign_up_outcome(*old(db), *db, r, u, email@, hash, claim_id, now, secret@);
        assert(sign_up_outcome(*old(db), *db, r, u0, email@, u0.password, claim_id, now, secret@));
        assert(bcrypt_verify_of(password@, u0.password@) == Some(true));
    }
    r
}

/// What a sign-in attempt for `email` with `password` does, given the
/// claim identifier and clock reading it used: an unknown email is
/// refused untouched; otherwise the first user carrying the email is
/// checked — a malformed stored hash is `HashingFailure`, a hash that
/// does not verify is `BadCredentials`, both leaving the store alone,
/// and a verifying hash runs the session tail of `session_outcome`.
pub open spec fn sign_in_outcome(
    pre: AuthDb,
    post: AuthDb,
    r: Result<String, AuthError>,
    email: Seq<char>,
    password: Seq<char>,
    claim_id: u64,
    now: u64,
    secret: Seq<u8>,
) -> bool {
    if !pre.has_email(email) {
        r == Err::<String, AuthError>(AuthError::EmailUnknown) && post == pre
    } else {
        exists|i: int|
            {
                &&& first_user_with_email(pre.users@, email, i)
                &&& match bcrypt_verify_of(password, pre.users@[i].password@) {
                    None => r == Err::<String, AuthError>(AuthError::HashingFailure) && post
                        == pre,
                    Some(false) => r == Err::<String, AuthError>(AuthError::BadCredentials)
                        && post == pre,
                    Some(true) => session_outcome(
                        pre,
                        post,
                        r,
                        pre.users@[i].id,
                        pre.users@[i].role_id,
                        claim_id,
                        now,
                        secret,
                    ),
                }
            }
    }
}

/// Resolves `email` to the first user carrying it and checks `password`
/// against that user's stored bcrypt hash: `EmailUnknown` when no user
/// has the email, `BadCredentials` when the hash does not verify,
/// `HashingFailure` when the stored hash is malformed, and the user's
/// position otherwise.
pub fn validate_user(db: &AuthDb, email: &String, password: &str) -> (r: Result<
    usize,
    AuthError,
>)
    ensures
        !db.has_email(email@) ==> r == Err::<usize, AuthError>(AuthError::EmailUnknown),
        db.has_email(email@) ==> exists|i: int|
            {
                &&& first_user_with_email(db.users@, email@, i)
                &&& match bcrypt_verify_of(password@, db.users@[i].password@) {
                    None => r == Err::<usize, AuthError>(AuthError::HashingFailure),
                    Some(false) => r == Err::<usize, AuthError>(AuthError::BadCredentials),
                    Some(true) => r == Ok::<usize, AuthError>(i as usize),
                }
            },
        r matches Ok(i) ==> first_user_with_email(db.users@, email@, i as int)
            && bcrypt_verify_of(password@, db.users@[i as int].password@) == Some(true),
{
    let idx = match db.find_user_by_email(email) {
        Some(i) => i,
        None => {
            return Err(AuthError::EmailUnknown);
        },
    };
    let r = match verify_password(password, db.users[idx].password.as_str()) {
        Ok(true) => Ok(idx),
        Ok(false) => Err(AuthError::BadCredentials),
        Err(e) => Err(e),
    };
    proof {
        assert(first_user_with_email(db.users@, email@, idx as int));
    }
    r
}

/// Sign-in success, in one statement: a sign-in that used `claim_id`
/// and clock reading `now` returned a token exactly when some user
/// carries `email`, the stored hash of the first such user verifies
/// `password`, and `claim_id` is free once that user's expired rows are
/// swept.
pub proof fn lemma_sign_in_succeeds_iff(
    pre: AuthDb,
    post: AuthDb,
    r: Result<String, AuthError>,
    email: Seq<char>,
    password: Seq<char>,
    claim_id: u64,
    now: u64,
    secret: Seq<u8>,
)
    requires
        sign_in_outcome(pre, post, r, email, password, claim_id, now, secret),
    ensures
        r is Ok <==> exists|i: int|
            {
                &&& first_user_with_email(pre.users@, email, i)
                &&& bcrypt_verify_of(password, pre.users@[i].password@) == Some(true)
                &&& !has_session_id(
                    prune_spec(pre.sessions@, pre.users@[i].id@, now),
                    claim_id,
                )
            },
{
}

/// Sign-in with the random inputs fixed: the caller supplies the claim
/// identifier and the clock reading. Succeeds — returning the freshly
/// minted token after recording its session row — exactly when a user
/// carries `email`, the stored hash verifies `password`, and the claim
/// identifier is free after the expiry sweep.
pub fn sign_in_at(
    db: &mut AuthDb,
    email: &String,
    password: &str,
    claim_id: u64,
    now: u64,
    secret: &[u8],
) -> (r: Result<String, AuthError>)
    requires
        old(db).wf(),
        now <= MAX_TIMESTAMP,
    ensures
        final(db).wf(),
        final(db).users@ == old(db).users@,
        final(db).roles@ == old(db).roles@,
        sign_in_outcome(*old(db), *final(db), r, email@, password@, claim_id, now, secret@),
{
    let idx = match validate_user(db, email, password) {
        Ok(i) => i,
        Err(e) => {
            return Err(e);
        },
    };
    let user_id = db.users[idx].id.clone();
    let role_id = db.users[idx].role_id.clone();
    let token = mint(claim_id, TOKEN_TTL_SECS, secret, now);
    let created = db.create(claim_id, &user_id, &role_id, &token, now, SESSION_TTL_SECS);
    let r = match created {
        Ok(_) => Ok(token),
        Err(e) => Err(e),
    };
    proof {
        assert(first_user_with_email(old(db).users@, email@, idx as int));
        assert(sign_in_outcome(*old(db), *db, r, email@, password@, claim_id, now, secret@));
    }
    r
}

/// Signs an existing user in, drawing the claim identifier and the
/// clock reading inside; the outcome is stated for whatever values they
/// took.
pub fn sign_in(db: &mut AuthDb, email: &String, password: &str, secret: &[u8]) -> (r: Result<
    String,
    AuthError,
>)
    requires
        old(db).wf(),
    ensures
        final(db).wf(),
        final(db).users@ == old(db).users@,
        final(db).roles@ == old(db).roles@,
        !old(db).has_email(email@) ==> r == Err::<String, AuthError>(AuthError::EmailUnknown)
            && *final(db) == *old(db),
        exists|claim_id: u64, now: u64|
            sign_in_outcome(*old(db), *final(db), r, email@, password@, claim_id, now, secret@),
{
    let now = now_timestamp();
    let claim_id = fresh_claim_id();
    sign_in_at(db, email, password, claim_id, now, secret)
}

} // verus!
