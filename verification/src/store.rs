use vstd::prelude::*;

use crate::errors::AuthError;
use crate::ids::fresh_user_id;
use vstd::string::StringExecFns;

verus! {

/// A registered account: primary key, reference to its role, the unique
/// email it signed up with, and the bcrypt hash of its password.
pub struct User {
    pub id: String,
    pub role_id: String,
    pub email: String,
    pub password: String,
}

impl Clone for User {
    fn clone(&self) -> (r: Self)
        ensures
            r == *self,
    {
        User {
            id: self.id.clone(),
            role_id: self.role_id.clone(),
            email: self.email.clone(),
            password: self.password.clone(),
        }
    }
}

/// A pre-seeded role; sign-up assigns the one named `admin`.
pub struct Role {
    pub id: String,
    pub name: String,
}

impl Clone for Role {
    fn clone(&self) -> (r: Self)
        ensures
            r == *self,
    {
        Role { id: self.id.clone(), name: self.name.clone() }
    }
}

/// One issued token: keyed by the claim identifier embedded in the
/// token, correlated to the user and role it was issued for, carrying
/// the signed token text and its own absolute expiry second.
pub struct Session {
    pub id: u64,
    pub user_id: String,
    pub role_id: String,
    pub access_token: String,
    pub expires_at: u64,
}

impl Clone for Session {
    fn clone(&self) -> (r: Self)
        ensures
            r == *self,
    {
        Session {
            id: self.id,
            user_id: self.user_id.clone(),
            role_id: self.role_id.clone(),
            access_token: self.access_token.clone(),
            expires_at: self.expires_at,
        }
    }
}

/// A session row still counts at time `now`: expiry is strict, so a row
/// is dead at exactly its `expires_at` second.
pub open spec fn session_live(s: Session, now: u64) -> bool {
    s.expires_at > now
}

/// The expiry sweep for `user_id` keeps a row iff it belongs to a
/// different user or is still live.
pub open spec fn session_retained(s: Session, user_id: Seq<char>, now: u64) -> bool {
    s.user_id@ != user_id || session_live(s, now)
}

/// The session rows left after sweeping the expired rows of `user_id`,
/// in their original order.
pub open spec fn prune_spec(sessions: Seq<Session>, user_id: Seq<char>, now: u64) -> Seq<
    Session,
> {
    sessions.filter(|s: Session| session_retained(s, user_id, now))
}

/// The rows of `user_id` that are still live at `now`, in order.
pub open spec fn live_for_user(sessions: Seq<Session>, user_id: Seq<char>, now: u64) -> Seq<
    Session,
> {
    sessions.filter(|s: Session| s.user_id@ == user_id && session_live(s, now))
}

/// Some row carries the claim identifier `claim_id`.
pub open spec fn has_session_id(sessions: Seq<Session>, claim_id: u64) -> bool {
    exists|i: int| 0 <= i < sessions.len() && sessions[i].id == claim_id
}

/// Claim identifiers are primary keys: no two rows share one.
pub open spec fn unique_session_ids(sessions: Seq<Session>) -> bool {
    forall|i: int, j: int|
        #![trigger sessions[i].id, sessions[j].id]
        0 <= i < j < sessions.len() ==> sessions[i].id != sessions[j].id
}

/// Some user signed up with `email`.
pub open spec fn has_user_email(users: Seq<User>, email: Seq<char>) -> bool {
    exists|i: int| 0 <= i < users.len() && users[i].email@ == email
}

/// `i` is the position of the first user registered with `email`.
pub open spec fn first_user_with_email(users: Seq<User>, email: Seq<char>, i: int) -> bool {
    &&& 0 <= i < users.len()
    &&& users[i].email@ == email
    &&& forall|j: int| 0 <= j < i ==> users[j].email@ != email
}

/// Emails are unique across users.
pub open spec fn unique_emails(users: Seq<User>) -> bool {
    forall|i: int, j: int|
        #![trigger users[i].email, users[j].email]
        0 <= i < j < users.len() ==> users[i].email@ != users[j].email@
}

/// The rows the authentication core works over: users, pre-seeded
/// roles, and one session row per issued token.
pub struct AuthDb {
    pub users: Vec<User>,
    pub roles: Vec<Role>,
    pub sessions: Vec<Session>,
}

impl AuthDb {
    /// Well-formedness: emails identify users and claim identifiers
    /// identify session rows.
    pub open spec fn wf(self) -> bool {
        unique_emails(self.users@) && unique_session_ids(self.sessions@)
    }

    pub open spec fn has_email(self, email: Seq<char>) -> bool {
        has_user_email(self.users@, email)
    }

    pub open spec fn has_role(self, name: Seq<char>) -> bool {
        exists|i: int| 0 <= i < self.roles@.len() && self.roles@[i].name@ == name
    }

    /// An empty store, trivially well-formed.
    pub fn new() -> (r: AuthDb)
        ensures
            r.users@ == Seq::<User>::empty(),
            r.roles@ == Seq::<Role>::empty(),
            r.sessions@ == Seq::<Session>::empty(),
            r.wf(),
    {
        AuthDb { users: Vec::new(), roles: Vec::new(), sessions: Vec::new() }
    }

    /// Seeds a role; the store places no constraint on roles.
    pub fn add_role(&mut self, id: &String, name: &String)
        ensures
            final(self).roles@ == old(self).roles@.push(Role { id: *id, name: *name }),
            final(self).users@ == old(self).users@,
            final(self).sessions@ == old(self).sessions@,
            old(self).wf() ==> final(self).wf(),
    {
        self.roles.push(Role { id: id.clone(), name: name.clone() });
    }

    /// The position of the first user registered with `email`, if any.
    pub fn find_user_by_email(&self, email: &String) -> (r: Option<usize>)
        ensures
            match r {
                Some(i) => i < self.users@.len() && self.users@[i as int].email@ == email@
                    && (forall|j: int| 0 <= j < i ==> self.users@[j].email@ != email@),
                None => !self.has_email(email@),
            },
    {
        let n = self.users.len();
        let mut i: usize = 0;
        while i < n
            invariant
                i <= n,
                n == self.users@.len(),
                forall|j: int| 0 <= j < i ==> self.users@[j].email@ != email@,
            decreases n - i,
        {
            if self.users[i].email == *email {
                return Some(i);
            }
            i += 1;
        }
        None
    }

    /// The email gate both flows start with: for a sign-up the email
    /// must be free, for a sign-in it must resolve to a user.
    pub fn check_user(&self, email: &String, for_sign_up: bool) -> (r: Result<
        Option<usize>,
        AuthError,
    >)
        ensures
            for_sign_up && self.has_email(email@) ==> r == Err::<Option<usize>, AuthError>(
                AuthError::EmailTaken,
            ),
            for_sign_up && !self.has_email(email@) ==> r == Ok::<Option<usize>, AuthError>(
                None,
            ),
            !for_sign_up && !self.has_email(email@) ==> r == Err::<Option<usize>, AuthError>(
                AuthError::EmailUnknown,
            ),
            !for_sign_up && self.has_email(email@) ==> (r matches Ok(o) && o matches Some(i)
                && i < self.users@.len() && self.users@[i as int].email@ == email@ && (
            forall|j: int| 0 <= j < i ==> self.users@[j].email@ != email@)),
    {
        let found = self.find_user_by_email(email);
        if for_sign_up {
            match found {
                Some(_) => Err(AuthError::EmailTaken),
                None => Ok(None),
            }
        } else {
            match found {
                Some(i) => Ok(Some(i)),
                None => Err(AuthError::EmailUnknown),
            }
        }
    }

    /// The position of the first role named `admin`, the default role
    /// every sign-up is given.
    pub fn get_admin(&self) -> (r: Option<usize>)
        ensures
            match r {
                Some(i) => i < self.roles@.len() && self.roles@[i as int].name@ == "admin"@
                    && (forall|j: int| 0 <= j < i ==> self.roles@[j].name@ != "admin"@),
                None => !self.has_role("admin"@),
            },
    {
        let admin: String = String::from_str("admin");
        let n = self.roles.len();
        let mut i: usize = 0;
        while i < n
            invariant
                i <= n,
                n == self.roles@.len(),
                admin@ == "admin"@,
                forall|j: int| 0 <= j < i ==> self.roles@[j].name@ != "admin"@,
            decreases n - i,
        {
            if self.roles[i].name == admin {
                return Some(i);
            }
            i += 1;
        }
        None
    }

    /// Creates a user row with a fresh random id and the given role,
    /// email and password hash, and hands a copy of the row back.
    pub fn add_user(&mut self, role_id: &String, email: &String, password_hash: &String) -> (r:
        User)
        requires
            old(self).wf(),
            !old(self).has_email(email@),
        ensures
            final(self).wf(),
            final(self).users@ == old(self).users@.push(r),
            r.role_id == *role_id,
            r.email == *email,
            r.password == *password_hash,
            final(self).sessions@ == old(self).sessions@,
            final(self).roles@ == old(self).roles@,
    {
        let user = User {
            id: fresh_user_id(),
            role_id: role_id.clone(),
            email: email.clone(),
            password: password_hash.clone(),
        };
        let ret = user.clone();
        self.users.push(user);
        proof {
            assert forall|i: int, j: int|
                0 <= i < j < self.users@.len() implies self.users@[i].email@
                != self.users@[j].email@ by {
                if j == self.users@.len() - 1 {
                    assert(!has_user_email(old(self).users@, email@));
                    assert(self.users@[i] == old(self).users@[i]);
                }
            }
        }
        ret
    }

    /// A copy of the session row keyed by `claim_id`, if one exists.
    pub fn find_by_claim(&self, claim_id: u64) -> (r: Option<Session>)
        ensures
            match r {
                Some(s) => s.id == claim_id && (exists|i: int|
                    0 <= i < self.sessions@.len() && self.sessions@[i] == s),
                None => !has_session_id(self.sessions@, claim_id),
            },
    {
        let n = self.sessions.len();
        let mut i: usize = 0;
        while i < n
            invariant
                i <= n,
                n == self.sessions@.len(),
                forall|j: int| 0 <= j < i ==> self.sessions@[j].id != claim_id,
            decreases n - i,
        {
            if self.sessions[i].id == claim_id {
                return Some(self.sessions[i].clone());
            }
            i += 1;
        }
        None
    }

    /// Deletes the session rows of `user_id` whose expiry has passed.
    /// Idempotent; rows of other users and live rows are untouched. By
    /// design the sweep uses the same strict boundary as token
    /// verification: a row whose `expires_at` equals `now` is already
    /// expired and is removed, so one expiry rule governs tokens and
    /// session rows alike.
    pub fn prune_expired(&mut self, user_id: &String, now: u64)
        ensures
            final(self).users@ == old(self).users@,
            final(self).roles@ == old(self).roles@,
            final(self).sessions@ == prune_spec(old(self).sessions@, user_id@, now),
    {
        let mut kept: Vec<Session> = Vec::new();
        let n = self.sessions.len();
        let mut i: usize = 0;
        while i < n
            invariant
                i <= n,
                n == self.sessions@.len(),
                *self == *old(self),
                kept@ == prune_spec(self.sessions@.subrange(0, i as int), user_id@, now),
            decreases n - i,
        {
            let s = &self.sessions[i];
            if !(s.user_id == *user_id && s.expires_at <= now) {
                kept.push(s.clone());
            }
            proof {
                assert(self.sessions@.subrange(0, i + 1) =~= self.sessions@.subrange(
                    0,
                    i as int,
                ).push(self.sessions@[i as int]));
                lemma_prune_one_more(
                    self.sessions@.subrange(0, i as int),
                    self.sessions@[i as int],
                    user_id@,
                    now,
                );
            }
            i += 1;
        }
        proof {
            assert(self.sessions@.subrange(0, n as int) =~= self.sessions@);
        }
        self.sessions = kept;
    }

    /// Records a freshly issued token: sweeps the user's expired rows,
    /// then inserts a row expiring at `now + ttl` under `claim_id` —
    /// unless that claim identifier is already taken, which is reported
    /// as `DuplicateClaim` and leaves only the sweep behind.
    pub fn create(
        &mut self,
        claim_id: u64,
        user_id: &String,
        role_id: &String,
        token: &String,
        now: u64,
        ttl: u64,
    ) -> (r: Result<(), AuthError>)
        requires
            old(self).wf(),
            now + ttl <= u64::MAX,
        ensures
            final(self).wf(),
            final(self).users@ == old(self).users@,
            final(self).roles@ == old(self).roles@,
            ({
                let pruned = prune_spec(old(self).sessions@, user_id@, now);
                if has_session_id(pruned, claim_id) {
                    r == Err::<(), AuthError>(AuthError::DuplicateClaim)
                        && final(self).sessions@ == pruned
                } else {
                    r == Ok::<(), AuthError>(()) && final(self).sessions@ == pruned.push(
                        Session {
                            id: claim_id,
                            user_id: *user_id,
                            role_id: *role_id,
                            access_token: *token,
                            expires_at: (now + ttl) as u64,
                        },
                    )
                }
            }),
    {
        proof {
            lemma_prune_preserves_ids(old(self).sessions@, user_id@, now);
        }
        self.prune_expired(user_id, now);
        match self.find_by_claim(claim_id) {
            Some(_) => Err(AuthError::DuplicateClaim),
            None => {
                let row = Session {
                    id: claim_id,
                    user_id: user_id.clone(),
                    role_id: role_id.clone(),
                    access_token: token.clone(),
                    expires_at: now + ttl,
                };
                self.sessions.push(row);
                proof {
                    assert forall|i: int, j: int|
                        0 <= i < j < self.sessions@.len() implies self.sessions@[i].id
                        != self.sessions@[j].id by {}
                }
                Ok(())
            },
        }
    }
}

/// Extending the rows by one: the sweep keeps the new row iff it is
/// retained, and leaves the rest of the sweep unchanged.
proof fn lemma_prune_one_more(s: Seq<Session>, x: Session, user_id: Seq<char>, now: u64)
    ensures
        prune_spec(s.push(x), user_id, now) == if session_retained(x, user_id, now) {
            prune_spec(s, user_id, now).push(x)
        } else {
            prune_spec(s, user_id, now)
        },
{
    reveal(Seq::filter);
    assert(s.push(x).drop_last() =~= s);
    assert(s.push(x).last() == x);
}

/// Same step lemma for the live rows of a user.
proof fn lemma_live_one_more(s: Seq<Session>, x: Session, user_id: Seq<char>, now: u64)
    ensures
        live_for_user(s.push(x), user_id, now) == if x.user_id@ == user_id && session_live(
            x,
            now,
        ) {
            live_for_user(s, user_id, now).push(x)
        } else {
            live_for_user(s, user_id, now)
        },
{
    reveal(Seq::filter);
    assert(s.push(x).drop_last() =~= s);
    assert(s.push(x).last() == x);
}

/// The sweep only removes rows: every claim identifier left was already
/// present, and distinct identifiers stay distinct.
proof fn lemma_prune_preserves_ids(s: Seq<Session>, user_id: Seq<char>, now: u64)
    ensures
        forall|c: u64|
            has_session_id(prune_spec(s, user_id, now), c) ==> has_session_id(s, c),
        unique_session_ids(s) ==> unique_session_ids(prune_spec(s, user_id, now)),
    decreases s.len(),
{
    reveal(Seq::filter);
    if s.len() == 0 {
    } else {
        let s0 = s.drop_last();
        let x = s.last();
        lemma_prune_preserves_ids(s0, user_id, now);
        assert(s0.push(x) =~= s);
        lemma_prune_one_more(s0, x, user_id, now);
        let p0 = prune_spec(s0, user_id, now);
        let p = prune_spec(s, user_id, now);
        assert forall|c: u64| has_session_id(p, c) implies has_session_id(s, c) by {
            let i = choose|i: int| 0 <= i < p.len() && p[i].id == c;
            if session_retained(x, user_id, now) && i == p.len() - 1 {
                assert(p[i] == x);
                assert(s[s.len() - 1].id == c);
            } else {
                assert(p[i] == p0[i]);
                assert(has_session_id(p0, c));
                assert(has_session_id(s0, c));
                let k = choose|k: int| 0 <= k < s0.len() && s0[k].id == c;
                assert(s[k].id == c);
            }
        }
        if unique_session_ids(s) {
            assert forall|i: int, j: int|
                0 <= i < j < s0.len() implies s0[i].id != s0[j].id by {
                assert(s[i].id != s[j].id);
            }
            if session_retained(x, user_id, now) {
                assert forall|i: int, j: int|
                    0 <= i < j < p.len() implies p[i].id != p[j].id by {
                    if j == p.len() - 1 {
                        assert(p[j] == x);
                        assert(p[i] == p0[i]);
                        assert(has_session_id(p0, p0[i].id));
                        assert(has_session_id(s0, p0[i].id));
                        let k = choose|k: int| 0 <= k < s0.len() && s0[k].id == p0[i].id;
                        assert(s[k].id != s[s.len() - 1].id);
                    } else {
                        assert(p[i] == p0[i] && p[j] == p0[j]);
                    }
                }
            }
        }
    }
}

/// A user's live rows pass the expiry sweep untouched.
proof fn lemma_live_of_prune(sessions: Seq<Session>, user_id: Seq<char>, now: u64)
    ensures
        live_for_user(prune_spec(sessions, user_id, now), user_id, now) == live_for_user(
            sessions,
            user_id,
            now,
        ),
    decreases sessions.len(),
{
    reveal(Seq::filter);
    if sessions.len() == 0 {
    } else {
        let s0 = sessions.drop_last();
        let x = sessions.last();
        lemma_live_of_prune(s0, user_id, now);
        assert(s0.push(x) =~= sessions);
        lemma_prune_one_more(s0, x, user_id, now);
        lemma_live_one_more(s0, x, user_id, now);
        if session_retained(x, user_id, now) {
            lemma_live_one_more(prune_spec(s0, user_id, now), x, user_id, now);
        }
    }
}

/// Recording a new live session for a user removes none of that user's
/// live rows: right after the insert the user has exactly one live row
/// more than before — in particular, one prior live session makes two.
/// The expiry sweep built into session creation deletes expired rows
/// only, so it never revokes a live session.
pub proof fn lemma_create_keeps_live_sessions(
    sessions: Seq<Session>,
    user_id: Seq<char>,
    s: Session,
    now: u64,
)
    requires
        s.user_id@ == user_id,
        session_live(s, now),
    ensures
        live_for_user(prune_spec(sessions, user_id, now).push(s), user_id, now).len()
            == live_for_user(sessions, user_id, now).len() + 1,
{
    lemma_live_of_prune(sessions, user_id, now);
    lemma_live_one_more(prune_spec(sessions, user_id, now), s, user_id, now);
}

/// Once a user with `email` is added, that email is taken: a sign-up
/// for it can succeed at most once.
pub proof fn lemma_email_taken_after_sign_up(users: Seq<User>, u: User)
    ensures
        has_user_email(users.push(u), u.email@),
{
    assert(users.push(u)[users.len() as int] == u);
}

} // verus!
