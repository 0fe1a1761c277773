//! Properties that relate several operations of the service and the codec.
use crate::errors::{ApiError, ServiceError};
use crate::models::{expiry_after, AuthenticatedUser, Session, UserBase, MAX_FAILED_LOGIN_ATTEMPTS};
use crate::service::{
    after_failure, lemma_named_user, login_effect, logout_effect, refresh_effect, refresh_failure,
    AuthState,
};
use crate::store::{
    first_session_with_id, first_user_named, keeps, lemma_user_at, session_by_id, user_by_id,
    user_by_name, users_updated, users_wf, SessionFilter,
};
use crate::text::hex_of;
use crate::token::{is_generated_secret, parse_outcome, token_digest, SessionToken, TOKEN_BYTES};
use vstd::prelude::*;

verus! {

proof fn lemma_first_session(sessions: Seq<Session>, id: u128, j: int)
    requires
        0 <= j < sessions.len(),
        sessions[j].id == id,
    ensures
        session_by_id(sessions, id) is Some,
    decreases j,
{
    if forall|k: int| 0 <= k < j ==> sessions[k].id != id {
        assert(first_session_with_id(sessions, id, j));
    } else {
        let k = choose|k: int| 0 <= k < j && sessions[k].id == id;
        lemma_first_session(sessions, id, k);
    }
}

proof fn lemma_session_pushed(sessions: Seq<Session>, x: Session)
    requires
        session_by_id(sessions, x.id) is None,
    ensures
        session_by_id(sessions.push(x), x.id) == Some(x),
{
    let s = sessions.push(x);
    assert forall|j: int| 0 <= j < sessions.len() implies sessions[j].id != x.id by {
        if sessions[j].id == x.id {
            lemma_first_session(sessions, x.id, j);
        }
    }
    assert(first_session_with_id(s, x.id, sessions.len() as int));
    let k = choose|k: int| first_session_with_id(s, x.id, k);
    assert(k == sessions.len()) by {
        if k < sessions.len() {
            assert(s[k] == sessions[k]);
        }
    }
}

proof fn lemma_updated(users: Seq<UserBase>, v: UserBase)
    requires
        users_wf(users),
        v.wf(),
    ensures
        users_wf(users_updated(users, v)),
        users_updated(users, v).len() == users.len(),
        forall|i: int|
            0 <= i < users.len() ==> #[trigger] users_updated(users, v)[i] == (if users[i].id
                == v.id {
                v
            } else {
                users[i]
            }),
{
    let w = users_updated(users, v);
    assert forall|a: int, b: int| 0 <= a < w.len() && 0 <= b < w.len() && a != b implies w[a].id
        != w[b].id by {
        assert(w[a].id == users[a].id);
        assert(w[b].id == users[b].id);
    }
    assert forall|a: int| 0 <= a < w.len() implies (#[trigger] w[a]).wf() by {
        assert(users[a].wf());
    }
}

/// After replacing the record of the first user named `name` by one with the
/// same identifier and username, the lookups find the new record.
proof fn lemma_updated_lookups(users: Seq<UserBase>, name: Seq<char>, v: UserBase)
    requires
        users_wf(users),
        user_by_name(users, name) is Some,
        v.id == user_by_name(users, name)->0.id,
        v.username == user_by_name(users, name)->0.username,
        v.wf(),
    ensures
        users_wf(users_updated(users, v)),
        user_by_name(users_updated(users, v), name) == Some(v),
        user_by_id(users_updated(users, v), v.id) == Some(v),
{
    let k = lemma_named_user(users, name);
    lemma_updated(users, v);
    let w = users_updated(users, v);
    assert forall|i: int| 0 <= i < users.len() implies #[trigger] w[i].username
        == users[i].username by {
        if users[i].id == v.id {
            assert(i == k);
        }
    }
    assert(w[k] == v);
    assert(first_user_named(w, name, k));
    let k2 = choose|i: int| first_user_named(w, name, i);
    assert(k2 == k) by {
        if k2 < k {
            assert(w[k2].username == users[k2].username);
        } else if k2 > k {
        }
    }
    lemma_user_at(w, k);
}

/// After a successful login, a refresh of the token it handed out is
/// accepted at any time up to the new session's expiry.
pub proof fn lemma_login_token_refreshable(
    pre: AuthState,
    username: Seq<char>,
    password: Seq<char>,
    now: i64,
    sid: u128,
    secret: Seq<char>,
    post: AuthState,
    r: Result<AuthenticatedUser, ServiceError>,
)
    requires
        users_wf(pre.users),
        login_effect(pre, username, password, now, sid, secret, post, r),
        r is Ok,
    ensures
        forall|t: i64| t <= expiry_after(now) ==> #[trigger] refresh_failure(post, sid, secret, t) is None,
{
    let u = user_by_name(pre.users, username)->0;
    let k = lemma_named_user(pre.users, username);
    let v = crate::service::after_success(u, now);
    let ns = post.sessions.last();
    lemma_session_pushed(pre.sessions, ns);
    lemma_updated_lookups(pre.users, username, v);
    assert(session_by_id(post.sessions, sid) == Some(ns));
}

/// A login followed by a refresh of the token it handed out, before that
/// session expires, succeeds and identifies the same user and session.
pub proof fn lemma_login_then_refresh(
    pre: AuthState,
    username: Seq<char>,
    password: Seq<char>,
    now: i64,
    sid: u128,
    secret: Seq<char>,
    mid: AuthState,
    r1: Result<AuthenticatedUser, ServiceError>,
    parsed: Result<SessionToken, ApiError>,
    later: i64,
    post: AuthState,
    r2: Result<AuthenticatedUser, ServiceError>,
)
    requires
        users_wf(pre.users),
        is_generated_secret(secret),
        login_effect(pre, username, password, now, sid, secret, mid, r1),
        r1 is Ok,
        parse_outcome(r1->Ok_0.session.token@, parsed),
        refresh_effect(
            mid,
            parsed->Ok_0.session_id,
            parsed->Ok_0.raw_token@,
            later,
            post,
            r2,
        ),
        later <= expiry_after(now),
    ensures
        parsed is Ok,
        r2 matches Ok(a) && a.user.id == r1->Ok_0.user.id && a.user.username
            == r1->Ok_0.user.username && a.session.id == r1->Ok_0.session.id,
{
    lemma_generated_secret_not_empty(secret);
    lemma_login_token_refreshable(pre, username, password, now, sid, secret, mid, r1);
    let u = user_by_name(pre.users, username)->0;
    let k = lemma_named_user(pre.users, username);
    lemma_updated_lookups(pre.users, username, crate::service::after_success(u, now));
    lemma_session_pushed(pre.sessions, mid.sessions.last());
    assert(refresh_failure(mid, sid, secret, later) is None);
}

/// A generated secret is not empty.
pub proof fn lemma_generated_secret_not_empty(secret: Seq<char>)
    requires
        is_generated_secret(secret),
    ensures
        secret.len() == 2 * TOKEN_BYTES,
{
    let bytes = choose|b: Seq<u8>| b.len() == TOKEN_BYTES && secret == #[trigger] hex_of(b);
}

proof fn lemma_filter_twice<A>(s: Seq<A>, p: spec_fn(A) -> bool)
    ensures
        s.filter(p).filter(p) == s.filter(p),
    decreases s.len(),
{
    reveal(Seq::filter);
    if s.len() > 0 {
        lemma_filter_twice(s.drop_last(), p);
        let sub = s.drop_last().filter(p);
        assert(sub.push(s.last()).drop_last() =~= sub);
    }
}

/// Logging out twice with the same session identifier leaves the state the
/// first logout left.
pub proof fn lemma_logout_twice(pre: AuthState, id: u128, mid: AuthState, post: AuthState)
    requires
        logout_effect(pre, id, mid),
        logout_effect(mid, id, post),
    ensures
        post == mid,
{
    lemma_filter_twice(pre.sessions, keeps(SessionFilter::OtherThan(id)));
}

/// A successful login leaves the user's failure counter at zero and its last
/// failure unset.
pub proof fn lemma_login_resets_failures(
    pre: AuthState,
    username: Seq<char>,
    password: Seq<char>,
    now: i64,
    sid: u128,
    secret: Seq<char>,
    post: AuthState,
    r: Result<AuthenticatedUser, ServiceError>,
)
    requires
        users_wf(pre.users),
        login_effect(pre, username, password, now, sid, secret, post, r),
        r is Ok,
    ensures
        user_by_id(post.users, r->Ok_0.user.id) matches Some(u) && u.failed_login_attempts == 0
            && u.last_failed_login_attempt is None,
{
    let u = user_by_name(pre.users, username)->0;
    let k = lemma_named_user(pre.users, username);
    let v = crate::service::after_success(u, now);
    lemma_updated_lookups(pre.users, username, v);
}

/// A login failure on a well-formed store: the credentials were refused or
/// the account is locked.
pub open spec fn is_credential_failure(r: Result<AuthenticatedUser, ServiceError>) -> bool {
    r == Err::<AuthenticatedUser, ServiceError>(ServiceError::InvalidUsernameOrPassword) || r
        == Err::<AuthenticatedUser, ServiceError>(ServiceError::AccountLocked)
}

/// How far the lockout of user `id`, named `name`, has come after `n`
/// failures: either the account is disabled and has no session left, or its
/// counter is at least `n`.
pub open spec fn lockout_progress(st: AuthState, name: Seq<char>, id: u128, n: int) -> bool {
    &&& users_wf(st.users)
    &&& user_by_name(st.users, name) is Some
    &&& user_by_name(st.users, name)->0.id == id
    &&& if user_by_name(st.users, name)->0.is_disabled {
        forall|j: int| 0 <= j < st.sessions.len() ==> (#[trigger] st.sessions[j]).user_id != id
    } else {
        user_by_name(st.users, name)->0.failed_login_attempts >= n
    }
}

proof fn lemma_lockout_step(
    pre: AuthState,
    name: Seq<char>,
    id: u128,
    n: int,
    password: Seq<char>,
    now: i64,
    sid: u128,
    secret: Seq<char>,
    post: AuthState,
    r: Result<AuthenticatedUser, ServiceError>,
)
    requires
        lockout_progress(pre, name, id, n),
        login_effect(pre, name, password, now, sid, secret, post, r),
        is_credential_failure(r) || user_by_name(pre.users, name)->0.is_disabled,
        n < MAX_FAILED_LOGIN_ATTEMPTS,
    ensures
        lockout_progress(post, name, id, n + 1),
        user_by_name(pre.users, name)->0.is_disabled ==> r == Err::<
            AuthenticatedUser,
            ServiceError,
        >(ServiceError::AccountLocked),
{
    let v = user_by_name(pre.users, name)->0;
    let k = lemma_named_user(pre.users, name);
    if !crate::models::password_accepts(v.password_hash, password) {
        let w = after_failure(v, now);
        lemma_updated_lookups(pre.users, name, w);
        if w.failed_login_attempts >= MAX_FAILED_LOGIN_ATTEMPTS {
            let p = keeps(SessionFilter::NotOfUser(id));
            assert forall|j: int| 0 <= j < post.sessions.len() implies (
            #[trigger] post.sessions[j]).user_id != id by {
                pre.sessions.lemma_filter_pred(p, j);
            }
        }
    }
}

/// Five consecutive refused logins for one username disable the account and
/// leave it no session; a sixth attempt, even with the right password, is
/// refused as `AccountLocked`.
pub proof fn lemma_five_failures_lock(
    states: Seq<AuthState>,
    username: Seq<char>,
    passwords: Seq<Seq<char>>,
    nows: Seq<i64>,
    sids: Seq<u128>,
    secrets: Seq<Seq<char>>,
    results: Seq<Result<AuthenticatedUser, ServiceError>>,
    password: Seq<char>,
    now: i64,
    sid: u128,
    secret: Seq<char>,
    post: AuthState,
    r: Result<AuthenticatedUser, ServiceError>,
)
    requires
        states.len() == 6,
        passwords.len() == 5,
        nows.len() == 5,
        sids.len() == 5,
        secrets.len() == 5,
        results.len() == 5,
        users_wf(states[0].users),
        user_by_name(states[0].users, username) matches Some(u) && !u.is_disabled,
        forall|i: int|
            #![trigger sids[i]]
            0 <= i < 5 ==> login_effect(
                states[i],
                username,
                passwords[i],
                nows[i],
                sids[i],
                secrets[i],
                states[i + 1],
                results[i],
            ),
        forall|i: int| 0 <= i < 5 ==> is_credential_failure(#[trigger] results[i]),
        login_effect(states[5], username, password, now, sid, secret, post, r),
    ensures
        user_by_name(states[5].users, username) matches Some(u) && u.is_disabled,
        forall|j: int|
            0 <= j < states[5].sessions.len() ==> (#[trigger] states[5].sessions[j]).user_id
                != user_by_name(states[0].users, username)->0.id,
        r == Err::<AuthenticatedUser, ServiceError>(ServiceError::AccountLocked),
{
    let id = user_by_name(states[0].users, username)->0.id;
    let k = lemma_named_user(states[0].users, username);
    assert(lockout_progress(states[0], username, id, 0));
    assert(login_effect(states[0], username, passwords[0], nows[0], sids[0], secrets[0], states[1], results[0]));
    assert(is_credential_failure(results[0]));
    lemma_lockout_step(states[0], username, id, 0, passwords[0], nows[0], sids[0], secrets[0], states[1], results[0]);
    assert(login_effect(states[1], username, passwords[1], nows[1], sids[1], secrets[1], states[2], results[1]));
    assert(is_credential_failure(results[1]));
    lemma_lockout_step(states[1], username, id, 1, passwords[1], nows[1], sids[1], secrets[1], states[2], results[1]);
    assert(login_effect(states[2], username, passwords[2], nows[2], sids[2], secrets[2], states[3], results[2]));
    assert(is_credential_failure(results[2]));
    lemma_lockout_step(states[2], username, id, 2, passwords[2], nows[2], sids[2], secrets[2], states[3], results[2]);
    assert(login_effect(states[3], username, passwords[3], nows[3], sids[3], secrets[3], states[4], results[3]));
    assert(is_credential_failure(results[3]));
    lemma_lockout_step(states[3], username, id, 3, passwords[3], nows[3], sids[3], secrets[3], states[4], results[3]);
    assert(login_effect(states[4], username, passwords[4], nows[4], sids[4], secrets[4], states[5], results[4]));
    assert(is_credential_failure(results[4]));
    lemma_lockout_step(states[4], username, id, 4, passwords[4], nows[4], sids[4], secrets[4], states[5], results[4]);
    let k5 = lemma_named_user(states[5].users, username);
    lemma_lockout_step(states[5], username, id, 4, password, now, sid, secret, post, r);
}

/// A secret verifies against the digest stored for it: `hash_token` gives
/// `token_digest(key, secret)`, and `verify_token` answers whether the
/// recomputed digest equals the stored one.
pub proof fn lemma_hash_then_verify(key: Seq<u8>, secret: Seq<char>, stored: Seq<char>, verdict: bool)
    requires
        stored == token_digest(key, secret),
        verdict == (token_digest(key, secret) == stored),
    ensures
        verdict,
{
}

} // verus!
