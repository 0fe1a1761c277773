//! In-memory user, role and session stores. Each keeps its records in
//! insertion order; a lookup returns the first record that matches.
use crate::errors::RepositoryError;
use crate::models::{Role, RoleAssignment, Session, UserBase};
use vstd::prelude::*;
use vstd::string::*;

verus! {

/// A character folded for case-insensitive comparison: ASCII capitals
/// compare as their lowercase letters.
pub open spec fn fold_char(c: char) -> u32 {
    if 'A' <= c && c <= 'Z' {
        (c as u32 + 32) as u32
    } else {
        c as u32
    }
}

/// Two usernames that are equal up to ASCII case.
pub open spec fn same_name(a: Seq<char>, b: Seq<char>) -> bool {
    a.len() == b.len() && forall|i: int| 0 <= i < a.len() ==> fold_char(#[trigger] a[i]) == fold_char(
        b[i],
    )
}

fn fold(c: char) -> (r: u32)
    ensures
        r == fold_char(c),
{
    if 'A' <= c && c <= 'Z' {
        c as u32 + 32
    } else {
        c as u32
    }
}

/// Compares two usernames up to ASCII case.
pub fn names_match(a: &str, b: &str) -> (r: bool)
    ensures
        r == same_name(a@, b@),
{
    let n = a.unicode_len();
    if n != b.unicode_len() {
        return false;
    }
    let mut i: usize = 0;
    while i < n
        invariant
            n == a@.len(),
            n == b@.len(),
            i <= n,
            forall|j: int| 0 <= j < i ==> fold_char(#[trigger] a@[j]) == fold_char(b@[j]),
        decreases n - i,
    {
        if fold(a.get_char(i)) != fold(b.get_char(i)) {
            return false;
        }
        i = i + 1;
    }
    true
}

/// Filtering a prefix one element longer.
pub proof fn lemma_filter_step<A>(s: Seq<A>, i: int, p: spec_fn(A) -> bool)
    requires
        0 <= i < s.len(),
    ensures
        s.take(i + 1).filter(p) == (if p(s[i]) {
            s.take(i).filter(p).push(s[i])
        } else {
            s.take(i).filter(p)
        }),
{
    reveal(Seq::filter);
    assert(s.take(i + 1).drop_last() =~= s.take(i));
}

/// `i` is the first position of a user with identifier `id`.
pub open spec fn first_user_with_id(users: Seq<UserBase>, id: u128, i: int) -> bool {
    0 <= i < users.len() && users[i].id == id && forall|j: int| 0 <= j < i ==> users[j].id != id
}

/// `i` is the first position of a user named `name`, up to ASCII case.
pub open spec fn first_user_named(users: Seq<UserBase>, name: Seq<char>, i: int) -> bool {
    0 <= i < users.len() && same_name(users[i].username@, name) && forall|j: int|
        0 <= j < i ==> !same_name(users[j].username@, name)
}

/// The user with identifier `id`, if any.
pub open spec fn user_by_id(users: Seq<UserBase>, id: u128) -> Option<UserBase> {
    if exists|i: int| first_user_with_id(users, id, i) {
        Some(users[choose|i: int| first_user_with_id(users, id, i)])
    } else {
        None
    }
}

/// The first user named `name` up to ASCII case, if any.
pub open spec fn user_by_name(users: Seq<UserBase>, name: Seq<char>) -> Option<UserBase> {
    if exists|i: int| first_user_named(users, name, i) {
        Some(users[choose|i: int| first_user_named(users, name, i)])
    } else {
        None
    }
}

/// The user records after `user` replaced the record with its identifier.
pub open spec fn users_updated(users: Seq<UserBase>, user: UserBase) -> Seq<UserBase> {
    users.map_values(|u: UserBase| if u.id == user.id { user } else { u })
}

/// The user store.
pub struct UserStore {
    users: Vec<UserBase>,
}

impl View for UserStore {
    type V = Seq<UserBase>;

    closed spec fn view(&self) -> Seq<UserBase> {
        self.users@
    }
}

/// The invariant of the user records: identifiers are unique and every
/// record is well formed.
pub open spec fn users_wf(users: Seq<UserBase>) -> bool {
    &&& forall|i: int, j: int|
        0 <= i < users.len() && 0 <= j < users.len() && i != j ==> users[i].id != users[j].id
    &&& forall|i: int| 0 <= i < users.len() ==> (#[trigger] users[i]).wf()
}

pub proof fn lemma_user_at(users: Seq<UserBase>, i: int)
    requires
        users_wf(users),
        0 <= i < users.len(),
    ensures
        user_by_id(users, users[i].id) == Some(users[i]),
{
    assert(first_user_with_id(users, users[i].id, i));
    let k = choose|k: int| first_user_with_id(users, users[i].id, k);
    assert(k == i);
}

impl UserStore {
    pub open spec fn wf(&self) -> bool {
        users_wf(self@)
    }

    pub fn new() -> (r: UserStore)
        ensures
            r@ == Seq::<UserBase>::empty(),
            r.wf(),
    {
        UserStore { users: Vec::new() }
    }

    fn position_of_id(&self, id: u128) -> (r: Option<usize>)
        ensures
            match r {
                Some(i) => first_user_with_id(self@, id, i as int),
                None => forall|j: int| 0 <= j < self@.len() ==> self@[j].id != id,
            },
    {
        let mut i: usize = 0;
        while i < self.users.len()
            invariant
                i <= self.users@.len(),
                forall|j: int| 0 <= j < i ==> self.users@[j].id != id,
            decreases self.users@.len() - i,
        {
            if self.users[i].id == id {
                return Some(i);
            }
            i = i + 1;
        }
        None
    }

    /// Adds a record. A duplicate identifier or a record that breaks the
    /// lockout invariant is refused and the store is unchanged.
    pub fn insert(&mut self, user: UserBase) -> (r: Result<(), RepositoryError>)
        requires
            old(self).wf(),
        ensures
            final(self).wf(),
            user_by_id(old(self)@, user.id) is None && user.wf() ==> r is Ok && final(self)@ == old(
                self,
            )@.push(user),
            !(user_by_id(old(self)@, user.id) is None && user.wf()) ==> r is Err && final(self)@
                == old(self)@,
    {
        if !user.is_consistent() {
            proof {
                if user_by_id(self@, user.id) is None {
                }
            }
            return Err(
                RepositoryError::ArgumentOutOfRange {
                    field: String::from_str("failed_login_attempts"),
                    value: String::from_str("inconsistent with is_disabled"),
                },
            );
        }
        match self.position_of_id(user.id) {
            Some(_) => Err(RepositoryError::Database(String::from_str("duplicate user id"))),
            None => {
                proof {
                    assert(!exists|i: int| first_user_with_id(self@, user.id, i));
                }
                self.users.push(user);
                Ok(())
            },
        }
    }

    /// The record with identifier `id`.
    pub fn get_by_id(&self, id: u128) -> (r: Result<UserBase, RepositoryError>)
        ensures
            match user_by_id(self@, id) {
                Some(u) => r == Ok::<UserBase, RepositoryError>(u),
                None => r matches Err(e) && e is NotFound,
            },
    {
        match self.position_of_id(id) {
            Some(i) => {
                proof {
                    let k = choose|k: int| first_user_with_id(self@, id, k);
                    assert(k == i as int);
                }
                Ok(self.users[i].clone())
            },
            None => {
                proof {
                    assert(!exists|k: int| first_user_with_id(self@, id, k));
                }
                Err(
                    RepositoryError::NotFound {
                        entity: String::from_str("user"),
                        property: String::from_str("id"),
                        value: String::from_str("unknown"),
                    },
                )
            },
        }
    }

    /// The first record whose username equals `username` up to ASCII case.
    pub fn get_by_username(&self, username: &str) -> (r: Result<UserBase, RepositoryError>)
        ensures
            match user_by_name(self@, username@) {
                Some(u) => r == Ok::<UserBase, RepositoryError>(u),
                None => r matches Err(e) && e is NotFound,
            },
    {
        let mut i: usize = 0;
        while i < self.users.len()
            invariant
                i <= self.users@.len(),
                forall|j: int| 0 <= j < i ==> !same_name(self.users@[j].username@, username@),
            decreases self.users@.len() - i,
        {
            if names_match(self.users[i].username.as_str(), username) {
                proof {
                    assert(first_user_named(self@, username@, i as int));
                    let k = choose|k: int| first_user_named(self@, username@, k);
                    assert(k == i as int) by {
                        if k < i as int {
                        } else if k > i as int {
                        }
                    }
                }
                return Ok(self.users[i].clone());
            }
            i = i + 1;
        }
        proof {
            assert(!exists|k: int| first_user_named(self@, username@, k));
        }
        Err(
            RepositoryError::NotFound {
                entity: String::from_str("user"),
                property: String::from_str("username"),
                value: String::from_str(username),
            },
        )
    }

    /// Replaces the record that has the identifier of `user`. An unknown
    /// identifier changes nothing; a record that breaks the lockout invariant
    /// is refused.
    pub fn update_base(&mut self, user: &UserBase) -> (r: Result<(), RepositoryError>)
        requires
            old(self).wf(),
        ensures
            final(self).wf(),
            user.wf() ==> r is Ok && final(self)@ == users_updated(old(self)@, *user),
            !user.wf() ==> r is Err && final(self)@ == old(self)@,
    {
        if !user.is_consistent() {
            return Err(
                RepositoryError::ArgumentOutOfRange {
                    field: String::from_str("failed_login_attempts"),
                    value: String::from_str("inconsistent with is_disabled"),
                },
            );
        }
        let ghost before = self@;
        let mut i: usize = 0;
        while i < self.users.len()
            invariant
                i <= self.users@.len(),
                self.users@.len() == before.len(),
                users_wf(before),
                user.wf(),
                forall|j: int|
                    0 <= j < i ==> self.users@[j] == (if before[j].id == user.id {
                        *user
                    } else {
                        before[j]
                    }),
                forall|j: int| i <= j < before.len() ==> self.users@[j] == before[j],
            decreases self.users@.len() - i,
        {
            if self.users[i].id == user.id {
                self.users.set(i, user.clone());
            }
            i = i + 1;
        }
        assert(self@ =~= users_updated(before, *user));
        proof {
            assert forall|a: int, b: int|
                0 <= a < self@.len() && 0 <= b < self@.len() && a != b implies self@[a].id
                != self@[b].id by {
                assert(self@[a].id == before[a].id);
                assert(self@[b].id == before[b].id);
            }
            assert forall|a: int| 0 <= a < self@.len() implies (#[trigger] self@[a]).wf() by {
                assert(before[a].wf());
            }
        }
        Ok(())
    }
}

/// The roles that `user_id` holds, in the order they were assigned.
pub open spec fn roles_of(assignments: Seq<RoleAssignment>, user_id: u128) -> Seq<Role> {
    assignments.filter(|a: RoleAssignment| a.user_id == user_id).map_values(
        |a: RoleAssignment| a.role,
    )
}

/// The role store: which user holds which role.
pub struct RoleStore {
    assignments: Vec<RoleAssignment>,
}

impl View for RoleStore {
    type V = Seq<RoleAssignment>;

    closed spec fn view(&self) -> Seq<RoleAssignment> {
        self.assignments@
    }
}

impl RoleStore {
    pub fn new() -> (r: RoleStore)
        ensures
            r@ == Seq::<RoleAssignment>::empty(),
    {
        RoleStore { assignments: Vec::new() }
    }

    /// Gives a role to a user.
    pub fn assign(&mut self, user_id: u128, role: Role)
        ensures
            final(self)@ == old(self)@.push(RoleAssignment { user_id, role }),
    {
        self.assignments.push(RoleAssignment { user_id, role });
    }

    /// The roles of a user.
    pub fn get_by_user_id(&self, user_id: u128) -> (r: Vec<Role>)
        ensures
            r@ == roles_of(self@, user_id),
    {
        let mut roles: Vec<Role> = Vec::new();
        let mut i: usize = 0;
        while i < self.assignments.len()
            invariant
                i <= self.assignments@.len(),
                roles@ == roles_of(self.assignments@.take(i as int), user_id),
            decreases self.assignments@.len() - i,
        {
            let a = self.assignments[i];
            proof {
                let pre = self.assignments@.take(i as int);
                let f = |x: RoleAssignment| x.role;
                let p = |x: RoleAssignment| x.user_id == user_id;
                lemma_filter_step(self.assignments@, i as int, p);
                assert(pre.filter(p).push(a).map_values(f) =~= pre.filter(p).map_values(f).push(
                    a.role,
                ));
            }
            if a.user_id == user_id {
                roles.push(a.role);
            }
            i = i + 1;
        }
        assert(self.assignments@.take(self.assignments@.len() as int) =~= self.assignments@);
        roles
    }
}

/// `i` is the first position of a session with identifier `id`.
pub open spec fn first_session_with_id(sessions: Seq<Session>, id: u128, i: int) -> bool {
    0 <= i < sessions.len() && sessions[i].id == id && forall|j: int|
        0 <= j < i ==> sessions[j].id != id
}

/// The session with identifier `id`, if any.
pub open spec fn session_by_id(sessions: Seq<Session>, id: u128) -> Option<Session> {
    if exists|i: int| first_session_with_id(sessions, id, i) {
        Some(sessions[choose|i: int| first_session_with_id(sessions, id, i)])
    } else {
        None
    }
}

/// Which sessions a bulk deletion keeps.
pub enum SessionFilter {
    /// Keeps all but the sessions with this identifier.
    OtherThan(u128),
    /// Keeps all but the sessions of this user.
    NotOfUser(u128),
    /// Keeps the sessions that have not expired at this time.
    UnexpiredAt(i64),
}

pub open spec fn keeps(f: SessionFilter) -> spec_fn(Session) -> bool {
    |s: Session|
        match f {
            SessionFilter::OtherThan(id) => s.id != id,
            SessionFilter::NotOfUser(user_id) => s.user_id != user_id,
            SessionFilter::UnexpiredAt(now) => !(s.expires_at < now),
        }
}

/// The sessions after `session` set the expiry of the session with its
/// identifier.
pub open spec fn sessions_extended(sessions: Seq<Session>, session: Session) -> Seq<Session> {
    sessions.map_values(
        |s: Session|
            if s.id == session.id {
                Session { expires_at: session.expires_at, ..s }
            } else {
                s
            },
    )
}

/// The session store.
pub struct SessionStore {
    sessions: Vec<Session>,
}

impl View for SessionStore {
    type V = Seq<Session>;

    closed spec fn view(&self) -> Seq<Session> {
        self.sessions@
    }
}

fn kept(f: &SessionFilter, s: &Session) -> (r: bool)
    ensures
        r == keeps(*f)(*s),
{
    match f {
        SessionFilter::OtherThan(id) => s.id != *id,
        SessionFilter::NotOfUser(user_id) => s.user_id != *user_id,
        SessionFilter::UnexpiredAt(now) => !(s.expires_at < *now),
    }
}

impl SessionStore {
    pub fn new() -> (r: SessionStore)
        ensures
            r@ == Seq::<Session>::empty(),
    {
        SessionStore { sessions: Vec::new() }
    }

    fn position_of_id(&self, id: u128) -> (r: Option<usize>)
        ensures
            match r {
                Some(i) => first_session_with_id(self@, id, i as int),
                None => forall|j: int| 0 <= j < self@.len() ==> self@[j].id != id,
            },
    {
        let mut i: usize = 0;
        while i < self.sessions.len()
            invariant
                i <= self.sessions@.len(),
                forall|j: int| 0 <= j < i ==> self.sessions@[j].id != id,
            decreases self.sessions@.len() - i,
        {
            if self.sessions[i].id == id {
                return Some(i);
            }
            i = i + 1;
        }
        None
    }

    /// Stores a new session; an identifier already in use is refused and
    /// the store is unchanged.
    pub fn create(&mut self, session: Session) -> (r: Result<(), RepositoryError>)
        ensures
            session_by_id(old(self)@, session.id) is None ==> r is Ok && final(self)@ == old(
                self,
            )@.push(session),
            session_by_id(old(self)@, session.id) is Some ==> (r matches Err(e) && e is Database)
                && final(self)@ == old(self)@,
    {
        match self.position_of_id(session.id) {
            Some(_) => Err(RepositoryError::Database(String::from_str("duplicate session id"))),
            None => {
                proof {
                    assert(!exists|i: int| first_session_with_id(self@, session.id, i));
                }
                self.sessions.push(session);
                Ok(())
            },
        }
    }

    /// The session with identifier `id`.
    pub fn get_by_id(&self, id: u128) -> (r: Result<Session, RepositoryError>)
        ensures
            match session_by_id(self@, id) {
                Some(s) => r == Ok::<Session, RepositoryError>(s),
                None => r matches Err(e) && e is NotFound,
            },
    {
        match self.position_of_id(id) {
            Some(i) => {
                proof {
                    let k = choose|k: int| first_session_with_id(self@, id, k);
                    assert(k == i as int);
                }
                Ok(self.sessions[i].clone())
            },
            None => {
                proof {
                    assert(!exists|k: int| first_session_with_id(self@, id, k));
                }
                Err(
                    RepositoryError::NotFound {
                        entity: String::from_str("session"),
                        property: String::from_str("id"),
                        value: String::from_str("unknown"),
                    },
                )
            },
        }
    }

    /// Sets the expiry of the session with the identifier of `session`.
    pub fn update(&mut self, session: &Session) -> (r: Result<(), RepositoryError>)
        ensures
            r is Ok,
            final(self)@ == sessions_extended(old(self)@, *session),
    {
        let ghost before = self@;
        let mut i: usize = 0;
        while i < self.sessions.len()
            invariant
                i <= self.sessions@.len(),
                self.sessions@.len() == before.len(),
                forall|j: int|
                    0 <= j < i ==> self.sessions@[j] == (if before[j].id == session.id {
                        Session { expires_at: session.expires_at, ..before[j] }
                    } else {
                        before[j]
                    }),
                forall|j: int| i <= j < before.len() ==> self.sessions@[j] == before[j],
            decreases self.sessions@.len() - i,
        {
            if self.sessions[i].id == session.id {
                let old_session = &self.sessions[i];
                let updated = Session {
                    id: old_session.id,
                    user_id: old_session.user_id,
                    token: old_session.token.clone(),
                    expires_at: session.expires_at,
                };
                self.sessions.set(i, updated);
            }
            i = i + 1;
        }
        assert(self@ =~= sessions_extended(before, *session));
        Ok(())
    }

    fn retain(&mut self, f: SessionFilter)
        ensures
            final(self)@ == old(self)@.filter(keeps(f)),
    {
        let mut remaining: Vec<Session> = Vec::new();
        let mut i: usize = 0;
        while i < self.sessions.len()
            invariant
                i <= self.sessions@.len(),
                remaining@ == self.sessions@.take(i as int).filter(keeps(f)),
            decreases self.sessions@.len() - i,
        {
            proof {
                lemma_filter_step(self.sessions@, i as int, keeps(f));
            }
            if kept(&f, &self.sessions[i]) {
                remaining.push(self.sessions[i].clone());
            }
            i = i + 1;
        }
        assert(self.sessions@.take(self.sessions@.len() as int) =~= self.sessions@);
        self.sessions = remaining;
    }

    /// Deletes the session with identifier `id`; deleting an absent session
    /// is no error.
    pub fn delete(&mut self, id: u128) -> (r: Result<(), RepositoryError>)
        ensures
            r is Ok,
            final(self)@ == old(self)@.filter(keeps(SessionFilter::OtherThan(id))),
    {
        self.retain(SessionFilter::OtherThan(id));
        Ok(())
    }

    /// Deletes every session of a user.
    pub fn delete_all_for_user(&mut self, user_id: u128) -> (r: Result<(), RepositoryError>)
        ensures
            r is Ok,
            final(self)@ == old(self)@.filter(keeps(SessionFilter::NotOfUser(user_id))),
    {
        self.retain(SessionFilter::NotOfUser(user_id));
        Ok(())
    }

    /// Deletes every session whose expiry lies before `now` and returns how
    /// many were deleted.
    pub fn delete_expired(&mut self, now: i64) -> (r: Result<u64, RepositoryError>)
        ensures
            final(self)@ == old(self)@.filter(keeps(SessionFilter::UnexpiredAt(now))),
            r matches Ok(n) && n == old(self)@.len() - final(self)@.len(),
    {
        let before = self.sessions.len();
        self.retain(SessionFilter::UnexpiredAt(now));
        proof {
            old(self)@.lemma_filter_len(keeps(SessionFilter::UnexpiredAt(now)));
        }
        Ok((before - self.sessions.len()) as u64)
    }

    /// The number of stored sessions of a user, expired or not.
    pub fn count_for_user(&self, user_id: u128) -> (r: usize)
        ensures
            r == self@.filter(|s: Session| s.user_id == user_id).len(),
    {
        let mut n: usize = 0;
        let mut i: usize = 0;
        while i < self.sessions.len()
            invariant
                i <= self.sessions@.len(),
                n == self.sessions@.take(i as int).filter(|s: Session| s.user_id == user_id).len(),
                n <= i,
            decreases self.sessions@.len() - i,
        {
            proof {
                lemma_filter_step(self.sessions@, i as int, |s: Session| s.user_id == user_id);
            }
            if self.sessions[i].user_id == user_id {
                n = n + 1;
            }
            i = i + 1;
        }
        assert(self.sessions@.take(self.sessions@.len() as int) =~= self.sessions@);
        n
    }
}

} // verus!
