//! The authentication service: login, logout and refresh over the user,
//! role and session stores, with a process-wide HMAC key.
use crate::crypto::{new_session_id, unix_now};
use crate::errors::{RepositoryError, ServiceError};
use crate::models::{
    expiry_after, is_profile_of, password_accepts, session_expiry, AuthenticatedUser,
    LoginRequest, Password, RoleAssignment, Session, UserBase, UserResponse,
    MAX_FAILED_LOGIN_ATTEMPTS,
};
use crate::store::{
    first_user_named, keeps, roles_of, session_by_id, sessions_extended, user_by_id, user_by_name,
    users_updated, users_wf, RoleStore, SessionFilter, SessionStore, UserStore,
};
use crate::text::{bytes_of_hex, hex_decode, is_hex_text};
use crate::token::{
    encoded_token, generate_session_token, is_generated_secret, token_digest, SessionToken,
};
use vstd::prelude::*;
use vstd::string::*;

verus! {

/// The key of the session-token HMAC, fixed for the life of the process.
pub struct HmacKey {
    bytes: Vec<u8>,
}

impl View for HmacKey {
    type V = Seq<u8>;

    closed spec fn view(&self) -> Seq<u8> {
        self.bytes@
    }
}

impl HmacKey {
    /// Reads the key from its hexadecimal configuration value. Text that is
    /// not hexadecimal is a fatal configuration error: `Internal`.
    pub fn from_hex(text: &str) -> (r: Result<HmacKey, ServiceError>)
        ensures
            is_hex_text(text@) ==> (r matches Ok(k) && k@ == bytes_of_hex(text@)),
            !is_hex_text(text@) ==> (r matches Err(e) && e is Internal),
    {
        match hex_decode(text) {
            Ok(bytes) => Ok(HmacKey { bytes }),
            Err(_) => Err(ServiceError::Internal(String::from_str("Invalid HMAC key format"))),
        }
    }

    pub fn from_bytes(bytes: Vec<u8>) -> (r: HmacKey)
        ensures
            r@ == bytes@,
    {
        HmacKey { bytes }
    }

    pub fn as_bytes(&self) -> (r: &[u8])
        ensures
            r@ == self@,
    {
        self.bytes.as_slice()
    }
}

/// What the service holds, as values.
pub struct AuthState {
    pub users: Seq<UserBase>,
    pub roles: Seq<RoleAssignment>,
    pub sessions: Seq<Session>,
    pub key: Seq<u8>,
}

/// The user record after a successful login at `now`.
pub open spec fn after_success(u: UserBase, now: i64) -> UserBase {
    UserBase {
        last_login: Some(now),
        failed_login_attempts: 0,
        last_failed_login_attempt: None,
        updated_at: now,
        ..u
    }
}

/// The user record after a failed login at `now`: the counter goes up by
/// one (saturating) and reaching the threshold disables the account.
pub open spec fn after_failure(u: UserBase, now: i64) -> UserBase {
    let count = if u.failed_login_attempts < i64::MAX {
        (u.failed_login_attempts + 1) as i64
    } else {
        u.failed_login_attempts
    };
    UserBase {
        failed_login_attempts: count,
        last_failed_login_attempt: Some(now),
        updated_at: now,
        is_disabled: u.is_disabled || count >= MAX_FAILED_LOGIN_ATTEMPTS,
        ..u
    }
}

/// A successful login of `u` at `now` with the fresh session identifier
/// `sid` and secret `secret`: the user record is stamped, one session is
/// added that keeps only the keyed hash of the secret, and the caller gets
/// the profile and the encoded token.
pub open spec fn login_accepted(
    pre: AuthState,
    u: UserBase,
    now: i64,
    sid: u128,
    secret: Seq<char>,
    post: AuthState,
    r: Result<AuthenticatedUser, ServiceError>,
) -> bool {
    let v = after_success(u, now);
    &&& post.users == users_updated(pre.users, v)
    &&& post.roles == pre.roles
    &&& post.key == pre.key
    &&& post.sessions.len() == pre.sessions.len() + 1
    &&& post.sessions == pre.sessions.push(post.sessions.last())
    &&& post.sessions.last().id == sid
    &&& post.sessions.last().user_id == u.id
    &&& post.sessions.last().token@ == token_digest(pre.key, secret)
    &&& post.sessions.last().expires_at == expiry_after(now)
    &&& r matches Ok(a) && is_profile_of(a.user, v, roles_of(pre.roles, u.id)) && a.session.id
        == sid && a.session.user_id == u.id && a.session.expires_at == expiry_after(now)
        && a.session.token@ == encoded_token(sid, secret)
}

/// A login attempt at `now` with the fresh session identifier `sid` and
/// secret `secret`. An unknown username and a wrong password give the same
/// error. A wrong password counts as a failure; the fifth one disables the
/// account and deletes its sessions. A disabled account is refused with the
/// right password too. A session identifier already in use is a store error.
pub open spec fn login_effect(
    pre: AuthState,
    username: Seq<char>,
    password: Seq<char>,
    now: i64,
    sid: u128,
    secret: Seq<char>,
    post: AuthState,
    r: Result<AuthenticatedUser, ServiceError>,
) -> bool {
    match user_by_name(pre.users, username) {
        None => r == Err::<AuthenticatedUser, ServiceError>(ServiceError::InvalidUsernameOrPassword)
            && post == pre,
        Some(u) => if password_accepts(u.password_hash, password) {
            if u.is_disabled {
                r == Err::<AuthenticatedUser, ServiceError>(ServiceError::AccountLocked) && post
                    == pre
            } else if session_by_id(pre.sessions, sid) is Some {
                (r matches Err(ServiceError::Repository(e)) && e is Database) && post == pre
            } else {
                login_accepted(pre, u, now, sid, secret, post, r)
            }
        } else {
            let v = after_failure(u, now);
            &&& post.users == users_updated(pre.users, v)
            &&& post.roles == pre.roles
            &&& post.key == pre.key
            &&& post.sessions == if v.failed_login_attempts >= MAX_FAILED_LOGIN_ATTEMPTS {
                pre.sessions.filter(keeps(SessionFilter::NotOfUser(u.id)))
            } else {
                pre.sessions
            }
            &&& r == Err::<AuthenticatedUser, ServiceError>(
                if v.is_disabled {
                    ServiceError::AccountLocked
                } else {
                    ServiceError::InvalidUsernameOrPassword
                },
            )
        },
    }
}

/// Why a refresh is refused.
pub enum RefreshFailure {
    Unauthorized,
    AccountLocked,
}

/// Whether and why a refresh at `now` of the token made of `sid` and
/// `secret` is refused: no such session, a secret that does not match the
/// stored hash, an expired session or a missing owner all look alike; a
/// disabled owner is `AccountLocked`.
pub open spec fn refresh_failure(st: AuthState, sid: u128, secret: Seq<char>, now: i64) -> Option<
    RefreshFailure,
> {
    match session_by_id(st.sessions, sid) {
        None => Some(RefreshFailure::Unauthorized),
        Some(s) => if token_digest(st.key, secret) != s.token@ {
            Some(RefreshFailure::Unauthorized)
        } else if s.expires_at < now {
            Some(RefreshFailure::Unauthorized)
        } else {
            match user_by_id(st.users, s.user_id) {
                None => Some(RefreshFailure::Unauthorized),
                Some(u) => if u.is_disabled {
                    Some(RefreshFailure::AccountLocked)
                } else {
                    None
                },
            }
        },
    }
}

/// The state after an accepted refresh at `now`: the session's expiry moves
/// to `now` plus the session lifetime.
pub open spec fn refreshed(st: AuthState, sid: u128, now: i64) -> AuthState {
    let s = session_by_id(st.sessions, sid)->0;
    AuthState {
        sessions: sessions_extended(st.sessions, Session { expires_at: expiry_after(now), ..s }),
        ..st
    }
}

/// The identity an accepted refresh returns: the owner's profile and the
/// session with its new expiry, carrying the unchanged encoded token.
pub open spec fn refresh_identity(
    st: AuthState,
    sid: u128,
    secret: Seq<char>,
    now: i64,
    a: AuthenticatedUser,
) -> bool {
    let s = session_by_id(st.sessions, sid)->0;
    let u = user_by_id(st.users, s.user_id)->0;
    &&& is_profile_of(a.user, u, roles_of(st.roles, u.id))
    &&& a.session.id == s.id
    &&& a.session.user_id == s.user_id
    &&& a.session.expires_at == expiry_after(now)
    &&& a.session.token@ == encoded_token(sid, secret)
}

/// A refresh at `now` of the token made of `sid` and `secret`.
pub open spec fn refresh_effect(
    pre: AuthState,
    sid: u128,
    secret: Seq<char>,
    now: i64,
    post: AuthState,
    r: Result<AuthenticatedUser, ServiceError>,
) -> bool {
    match refresh_failure(pre, sid, secret, now) {
        Some(RefreshFailure::Unauthorized) => (r matches Err(e) && e is Unauthorized) && post
            == pre,
        Some(RefreshFailure::AccountLocked) => r == Err::<AuthenticatedUser, ServiceError>(
            ServiceError::AccountLocked,
        ) && post == pre,
        None => post == refreshed(pre, sid, now) && (r matches Ok(a) && refresh_identity(
            pre,
            sid,
            secret,
            now,
            a,
        )),
    }
}

/// A logout of session `id`.
pub open spec fn logout_effect(pre: AuthState, id: u128, post: AuthState) -> bool {
    post == AuthState { sessions: pre.sessions.filter(keeps(SessionFilter::OtherThan(id))), ..pre }
}

/// The first user named `name` sits at a position of the store and is well
/// formed.
pub proof fn lemma_named_user(users: Seq<UserBase>, name: Seq<char>) -> (k: int)
    requires
        users_wf(users),
        user_by_name(users, name) is Some,
    ensures
        first_user_named(users, name, k),
        users[k] == user_by_name(users, name)->0,
        users[k].wf(),
{
    choose|i: int| first_user_named(users, name, i)
}

/// How often expired sessions are swept from the session store, in seconds.
pub const CLEANUP_INTERVAL_SECS: u64 = 300;

/// The authentication service.
pub struct AuthenticationService {
    pub users: UserStore,
    pub roles: RoleStore,
    pub sessions: SessionStore,
    pub hmac_key: HmacKey,
}

impl View for AuthenticationService {
    type V = AuthState;

    open spec fn view(&self) -> AuthState {
        AuthState {
            users: self.users@,
            roles: self.roles@,
            sessions: self.sessions@,
            key: self.hmac_key@,
        }
    }
}

impl AuthenticationService {
    pub open spec fn wf(&self) -> bool {
        self.users.wf()
    }

    pub fn new(users: UserStore, roles: RoleStore, sessions: SessionStore, hmac_key: HmacKey) -> (r:
        AuthenticationService)
        ensures
            r.users == users,
            r.roles == roles,
            r.sessions == sessions,
            r@.key == hmac_key@,
    {
        AuthenticationService { users, roles, sessions, hmac_key }
    }

    /// The login attempt itself; `login_at` adds what follows from it.
    fn login_attempt(&mut self, request: &LoginRequest, now: i64, session_token: &SessionToken) -> (r:
        Result<AuthenticatedUser, ServiceError>)
        requires
            old(self).wf(),
        ensures
            final(self).wf(),
            login_effect(
                old(self)@,
                request.username@,
                request.password@,
                now,
                session_token.session_id,
                session_token.raw_token@,
                final(self)@,
                r,
            ),
    {
        let user = match self.users.get_by_username(request.username.as_str()) {
            Ok(u) => u,
            Err(_) => {
                // A throwaway hash and check, so that an unknown username costs
                // about as much time as a wrong password.
                if let Ok(decoy) = Password::new("fake password") {
                    let _ = decoy.verify(request.password.as_str().as_bytes());
                }
                return Err(ServiceError::InvalidUsernameOrPassword);
            },
        };
        let ghost k = lemma_named_user(self.users@, request.username@);
        let is_valid = user.password_hash.verify(request.password.as_str().as_bytes());
        if is_valid {
            if user.is_disabled {
                return Err(ServiceError::AccountLocked);
            }
            if let Ok(_) = self.sessions.get_by_id(session_token.session_id) {
                return Err(
                    ServiceError::Repository(
                        RepositoryError::Database(String::from_str("duplicate session id")),
                    ),
                );
            }
            let token_hash = match session_token.hash_token(self.hmac_key.as_bytes()) {
                Ok(h) => h,
                Err(_) => {
                    return Err(ServiceError::Internal(String::from_str("Failed to hash token")));
                },
            };
            let updated = UserBase {
                last_login: Some(now),
                failed_login_attempts: 0,
                last_failed_login_attempt: None,
                updated_at: now,
                ..user
            };
            let session = Session::new(session_token.session_id, updated.id, token_hash, now);
            let expires_at = session.expires_at;
            if let Err(e) = self.users.update_base(&updated) {
                return Err(ServiceError::Repository(e));
            }
            if let Err(e) = self.sessions.create(session) {
                return Err(ServiceError::Repository(e));
            }
            let roles = self.roles.get_by_user_id(updated.id);
            let profile = UserResponse::from_user(&updated, roles);
            return Ok(
                AuthenticatedUser {
                    user: profile,
                    session: Session {
                        id: session_token.session_id,
                        user_id: updated.id,
                        token: session_token.encode(),
                        expires_at,
                    },
                },
            );
        }
        let count = if user.failed_login_attempts < i64::MAX {
            user.failed_login_attempts + 1
        } else {
            user.failed_login_attempts
        };
        let locked = count >= MAX_FAILED_LOGIN_ATTEMPTS;
        let is_disabled = user.is_disabled || locked;
        let updated = UserBase {
            failed_login_attempts: count,
            last_failed_login_attempt: Some(now),
            updated_at: now,
            is_disabled,
            ..user
        };
        if locked {
            if let Err(e) = self.sessions.delete_all_for_user(updated.id) {
                return Err(ServiceError::Repository(e));
            }
        }
        if let Err(e) = self.users.update_base(&updated) {
            return Err(ServiceError::Repository(e));
        }
        if is_disabled {
            Err(ServiceError::AccountLocked)
        } else {
            Err(ServiceError::InvalidUsernameOrPassword)
        }
    }

    /// A login attempt at `now`; `session_token` holds the identifier and
    /// secret that a new session gets if the attempt succeeds. After a
    /// success the failure counter is zero, and the handed-out token is
    /// accepted by a refresh at any time up to the session's expiry.
    pub fn login_at(&mut self, request: &LoginRequest, now: i64, session_token: &SessionToken) -> (r:
        Result<AuthenticatedUser, ServiceError>)
        requires
            old(self).wf(),
        ensures
            final(self).wf(),
            login_effect(
                old(self)@,
                request.username@,
                request.password@,
                now,
                session_token.session_id,
                session_token.raw_token@,
                final(self)@,
                r,
            ),
            r matches Ok(a) ==> (user_by_id(final(self)@.users, a.user.id) matches Some(u)
                && u.failed_login_attempts == 0 && u.last_failed_login_attempt is None),
            r matches Ok(a) ==> forall|t: i64|
                t <= a.session.expires_at ==> #[trigger] refresh_failure(
                    final(self)@,
                    session_token.session_id,
                    session_token.raw_token@,
                    t,
                ) is None,
    {
        let r = self.login_attempt(request, now, session_token);
        proof {
            if r is Ok {
                crate::laws::lemma_login_resets_failures(
                    old(self)@,
                    request.username@,
                    request.password@,
                    now,
                    session_token.session_id,
                    session_token.raw_token@,
                    self@,
                    r,
                );
                crate::laws::lemma_login_token_refreshable(
                    old(self)@,
                    request.username@,
                    request.password@,
                    now,
                    session_token.session_id,
                    session_token.raw_token@,
                    self@,
                    r,
                );
            }
        }
        r
    }

    /// A login attempt now, with a fresh session identifier and secret.
    /// Besides the outcomes of `login_at`, a failure of the random source is
    /// `Internal` and changes nothing.
    pub fn login(&mut self, request: &LoginRequest) -> (r: Result<AuthenticatedUser, ServiceError>)
        requires
            old(self).wf(),
        ensures
            final(self).wf(),
            (r matches Err(e) && e is Internal && final(self)@ == old(self)@) || exists|
                now: i64,
                sid: u128,
                secret: Seq<char>,
            |
                is_generated_secret(secret) && #[trigger] login_effect(
                    old(self)@,
                    request.username@,
                    request.password@,
                    now,
                    sid,
                    secret,
                    final(self)@,
                    r,
                ),
            r matches Ok(a) ==> (user_by_id(final(self)@.users, a.user.id) matches Some(u)
                && u.failed_login_attempts == 0 && u.last_failed_login_attempt is None),
            r matches Ok(a) ==> exists|sid: u128, secret: Seq<char>|
                #[trigger] encoded_token(sid, secret) == a.session.token@ && secret.len() > 0
                    && forall|t: i64|
                    t <= a.session.expires_at ==> #[trigger] refresh_failure(
                        final(self)@,
                        sid,
                        secret,
                        t,
                    ) is None,
    {
        let now = unix_now();
        let session_token = match generate_session_token(new_session_id()) {
            Ok(t) => t,
            Err(_) => {
                return Err(ServiceError::Internal(String::from_str("random source failed")));
            },
        };
        let r = self.login_at(request, now, &session_token);
        proof {
            crate::laws::lemma_generated_secret_not_empty(session_token.raw_token@);
            if r is Ok {
                assert(encoded_token(session_token.session_id, session_token.raw_token@)
                    == r->Ok_0.session.token@);
            }
        }
        r
    }

    /// Deletes a session; an absent session is no error.
    pub fn logout(&mut self, session_id: u128) -> (r: Result<(), ServiceError>)
        requires
            old(self).wf(),
        ensures
            final(self).wf(),
            r is Ok,
            logout_effect(old(self)@, session_id, final(self)@),
    {
        if let Err(e) = self.sessions.delete(session_id) {
            return Err(ServiceError::Repository(e));
        }
        Ok(())
    }

    /// Checks a token at `now` and, if it is accepted, extends its session.
    pub fn refresh_at(&mut self, session_token: &SessionToken, now: i64) -> (r: Result<
        AuthenticatedUser,
        ServiceError,
    >)
        requires
            old(self).wf(),
        ensures
            final(self).wf(),
            refresh_effect(
                old(self)@,
                session_token.session_id,
                session_token.raw_token@,
                now,
                final(self)@,
                r,
            ),
            session_by_id(old(self)@.sessions, session_token.session_id) matches Some(s)
                && s.expires_at < now ==> (r matches Err(e) && e is Unauthorized) && final(self)@
                == old(self)@,
    {
        let session = match self.sessions.get_by_id(session_token.session_id) {
            Ok(s) => s,
            Err(_) => {
                return Err(ServiceError::Unauthorized(String::from_str("no valid session")));
            },
        };
        let is_valid = match crate::token::verify_token(
            session_token.raw_token.as_str(),
            session.token.as_str(),
            self.hmac_key.as_bytes(),
        ) {
            Ok(b) => b,
            Err(_) => {
                return Err(
                    ServiceError::Unauthorized(String::from_str("token verification failed")),
                );
            },
        };
        if !is_valid {
            return Err(ServiceError::Unauthorized(String::from_str("invalid session token")));
        }
        if session.expires_at < now {
            return Err(ServiceError::Unauthorized(String::from_str("session is expired")));
        }
        let user = match self.users.get_by_id(session.user_id) {
            Ok(u) => u,
            Err(_) => {
                return Err(
                    ServiceError::Unauthorized(
                        String::from_str("user id from session token was not found"),
                    ),
                );
            },
        };
        if user.is_disabled {
            return Err(ServiceError::AccountLocked);
        }
        let expires_at = session_expiry(now);
        let extended = Session {
            id: session.id,
            user_id: session.user_id,
            token: session.token.clone(),
            expires_at,
        };
        if let Err(e) = self.sessions.update(&extended) {
            return Err(ServiceError::Repository(e));
        }
        let roles = self.roles.get_by_user_id(user.id);
        let profile = UserResponse::from_user(&user, roles);
        Ok(
            AuthenticatedUser {
                user: profile,
                session: Session {
                    id: session.id,
                    user_id: session.user_id,
                    token: session_token.encode(),
                    expires_at,
                },
            },
        )
    }

    /// Checks a token now and, if it is accepted, extends its session.
    pub fn refresh(&mut self, session_token: &SessionToken) -> (r: Result<
        AuthenticatedUser,
        ServiceError,
    >)
        requires
            old(self).wf(),
        ensures
            final(self).wf(),
            exists|now: i64|
                #[trigger] refresh_effect(
                    old(self)@,
                    session_token.session_id,
                    session_token.raw_token@,
                    now,
                    final(self)@,
                    r,
                ),
    {
        let now = unix_now();
        self.refresh_at(session_token, now)
    }

    /// Deletes the sessions that expired before `now` and returns their number.
    pub fn delete_expired_sessions(&mut self, now: i64) -> (r: Result<u64, ServiceError>)
        requires
            old(self).wf(),
        ensures
            final(self).wf(),
            final(self)@ == (AuthState {
                sessions: old(self)@.sessions.filter(keeps(SessionFilter::UnexpiredAt(now))),
                ..old(self)@
            }),
            r matches Ok(n) && n == old(self)@.sessions.len() - final(self)@.sessions.len(),
    {
        match self.sessions.delete_expired(now) {
            Ok(n) => Ok(n),
            Err(e) => Err(ServiceError::Repository(e)),
        }
    }
}

} // verus!
