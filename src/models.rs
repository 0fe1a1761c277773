//! The records that the stores hold and the values handed to request
//! handlers.
use crate::crypto::{argon2_accepts, argon2_hash, argon2_verify, argon2id_prefix};
use crate::errors::ServiceError;
use vstd::prelude::*;
use vstd::string::*;
use vstd::utf8::encode_utf8;

verus! {

/// The number of consecutive failed logins after which an account is disabled.
pub const MAX_FAILED_LOGIN_ATTEMPTS: i64 = 5;

/// How long a session lives after its creation or its last refresh, in seconds.
pub const SESSION_LIFETIME_SECS: i64 = 7200;

/// The closed set of role names.
#[derive(Clone, Copy, Debug, PartialEq, Eq, Structural)]
pub enum RoleName {
    Administrator,
    RecipeUser,
    Unknown,
}

impl RoleName {
    /// The name as the role store writes it.
    pub fn label(&self) -> (r: String)
        ensures
            r@ == match *self {
                RoleName::Administrator => "Administrator"@,
                RoleName::RecipeUser => "Recipe User"@,
                RoleName::Unknown => "Unknown"@,
            },
    {
        match self {
            RoleName::Administrator => String::from_str("Administrator"),
            RoleName::RecipeUser => String::from_str("Recipe User"),
            RoleName::Unknown => String::from_str("Unknown"),
        }
    }

    /// Reads a stored role name; any other text is `Unknown`.
    pub fn from_label(value: &str) -> (r: RoleName)
        ensures
            r == (if value@ == "Administrator"@ {
                RoleName::Administrator
            } else if value@ == "Recipe User"@ {
                RoleName::RecipeUser
            } else {
                RoleName::Unknown
            }),
    {
        let v = String::from_str(value);
        if v == String::from_str("Administrator") {
            RoleName::Administrator
        } else if v == String::from_str("Recipe User") {
            RoleName::RecipeUser
        } else {
            RoleName::Unknown
        }
    }
}

#[derive(Clone, Copy, Debug, PartialEq, Eq, Structural)]
pub struct Role {
    pub id: u128,
    pub name: RoleName,
}

/// One role held by one user.
#[derive(Clone, Copy, Debug, PartialEq, Eq, Structural)]
pub struct RoleAssignment {
    pub user_id: u128,
    pub role: Role,
}

/// A salted password hash in PHC string form; never the raw password.
#[derive(Debug)]
pub struct Password(String);

impl Clone for Password {
    fn clone(&self) -> (r: Self)
        ensures
            r == *self,
    {
        Password(self.0.clone())
    }
}

impl Password {
    pub closed spec fn phc(&self) -> Seq<char> {
        self.0@
    }

    /// Hashes a raw password with a fresh random salt. The hash accepts the
    /// password it was made from, and is an Argon2id PHC string, so it is
    /// never a raw password that does not itself open like one.
    pub fn new(raw_password: &str) -> (r: Result<Password, ServiceError>)
        ensures
            r matches Err(e) ==> e is Internal,
            r matches Ok(p) ==> argon2_accepts(p.phc(), encode_utf8(raw_password@)),
            r matches Ok(p) ==> argon2id_prefix().is_prefix_of(p.phc()),
            r matches Ok(p) ==> (argon2id_prefix().is_prefix_of(raw_password@) || p.phc()
                != raw_password@),
    {
        match argon2_hash(raw_password.as_bytes()) {
            Ok(phc) => Ok(Password(phc)),
            Err(_) => Err(ServiceError::Internal(String::from_str("password hashing failed"))),
        }
    }

    /// Wraps a stored PHC string.
    pub fn from_hash(hash: String) -> (r: Password)
        ensures
            r.phc() == hash@,
    {
        Password(hash)
    }

    /// The PHC string.
    pub fn as_str(&self) -> (r: &str)
        ensures
            r@ == self.phc(),
    {
        self.0.as_str()
    }

    /// Whether `candidate` is the password this hash was made from. A stored
    /// value that is no valid hash accepts nothing.
    pub fn verify(&self, candidate: &[u8]) -> (r: bool)
        ensures
            r == argon2_accepts(self.phc(), candidate@),
    {
        argon2_verify(self.0.as_str(), candidate)
    }
}

/// Whether `password` is accepted by the stored hash.
///
/// A hash made by `Password::new(raw)` accepts `raw`: see its contract.
pub open spec fn password_accepts(hash: Password, password: Seq<char>) -> bool {
    argon2_accepts(hash.phc(), encode_utf8(password))
}

/// A user record as the user store keeps it. Times are Unix seconds.
#[derive(Debug)]
pub struct UserBase {
    pub id: u128,
    pub first_name: String,
    pub last_name: String,
    pub email: String,
    pub username: String,
    pub password_hash: Password,
    pub last_login: Option<i64>,
    pub failed_login_attempts: i64,
    pub last_failed_login_attempt: Option<i64>,
    pub created_at: i64,
    pub updated_at: i64,
    pub is_disabled: bool,
}

impl Clone for UserBase {
    fn clone(&self) -> (r: Self)
        ensures
            r == *self,
    {
        UserBase {
            id: self.id,
            first_name: self.first_name.clone(),
            last_name: self.last_name.clone(),
            email: self.email.clone(),
            username: self.username.clone(),
            password_hash: self.password_hash.clone(),
            last_login: self.last_login,
            failed_login_attempts: self.failed_login_attempts,
            last_failed_login_attempt: self.last_failed_login_attempt,
            created_at: self.created_at,
            updated_at: self.updated_at,
            is_disabled: self.is_disabled,
        }
    }
}

impl UserBase {
    /// The record's invariant: the failure counter is never negative, and an
    /// account that has reached the lockout threshold is disabled.
    pub open spec fn wf(&self) -> bool {
        &&& self.failed_login_attempts >= 0
        &&& self.failed_login_attempts >= MAX_FAILED_LOGIN_ATTEMPTS ==> self.is_disabled
    }

    pub fn is_consistent(&self) -> (r: bool)
        ensures
            r == self.wf(),
    {
        self.failed_login_attempts >= 0 && (self.failed_login_attempts < MAX_FAILED_LOGIN_ATTEMPTS
            || self.is_disabled)
    }
}

/// A session record. `token` is the keyed hash of the secret, except in a
/// value handed back to a client, where it is the encoded token.
#[derive(Debug)]
pub struct Session {
    pub id: u128,
    pub user_id: u128,
    pub token: String,
    pub expires_at: i64,
}

impl Clone for Session {
    fn clone(&self) -> (r: Self)
        ensures
            r == *self,
    {
        Session {
            id: self.id,
            user_id: self.user_id,
            token: self.token.clone(),
            expires_at: self.expires_at,
        }
    }
}

/// `t` moved by `secs` seconds, saturating at the ends of the `i64` range.
pub open spec fn shifted(t: i64, secs: i64) -> i64 {
    let x = t + secs;
    if x > i64::MAX {
        i64::MAX
    } else if x < i64::MIN {
        i64::MIN
    } else {
        x as i64
    }
}

/// The expiry of a session created or refreshed at `now`.
pub open spec fn expiry_after(now: i64) -> i64 {
    shifted(now, SESSION_LIFETIME_SECS)
}

/// Moves a time by a number of seconds, saturating.
pub fn add_seconds(t: i64, secs: i64) -> (r: i64)
    ensures
        r == shifted(t, secs),
{
    if secs >= 0 {
        if t <= i64::MAX - secs {
            t + secs
        } else {
            i64::MAX
        }
    } else {
        if t >= i64::MIN - secs {
            t + secs
        } else {
            i64::MIN
        }
    }
}

/// The expiry of a session created or refreshed at `now`.
pub fn session_expiry(now: i64) -> (r: i64)
    ensures
        r == expiry_after(now),
        r >= now,
{
    add_seconds(now, SESSION_LIFETIME_SECS)
}

impl Session {
    /// A session created at `now` that lives for the session lifetime.
    pub fn new(id: u128, user_id: u128, token: String, now: i64) -> (r: Session)
        ensures
            r == (Session { id, user_id, token, expires_at: expiry_after(now) }),
    {
        Self::new_with_duration(id, user_id, SESSION_LIFETIME_SECS, token, now)
    }

    /// A session created at `now` that lives for `duration_secs` seconds.
    pub fn new_with_duration(id: u128, user_id: u128, duration_secs: i64, token: String, now: i64) -> (r:
        Session)
        ensures
            r == (Session { id, user_id, token, expires_at: shifted(now, duration_secs) }),
    {
        Session { id, user_id, token, expires_at: add_seconds(now, duration_secs) }
    }
}

/// A user's public profile with its resolved roles.
#[derive(Debug)]
pub struct UserResponse {
    pub id: u128,
    pub first_name: String,
    pub last_name: String,
    pub email: String,
    pub username: String,
    pub last_login: Option<i64>,
    pub roles: Vec<Role>,
}

/// `r` is the public profile of `u` with the roles `roles`.
pub open spec fn is_profile_of(r: UserResponse, u: UserBase, roles: Seq<Role>) -> bool {
    &&& r.id == u.id
    &&& r.first_name == u.first_name
    &&& r.last_name == u.last_name
    &&& r.email == u.email
    &&& r.username == u.username
    &&& r.last_login == u.last_login
    &&& r.roles@ == roles
}

/// Whether a role list includes the administrator role.
pub open spec fn has_admin_role(roles: Seq<Role>) -> bool {
    exists|i: int| 0 <= i < roles.len() && (#[trigger] roles[i]).name == RoleName::Administrator
}

impl Clone for UserResponse {
    fn clone(&self) -> (r: Self)
        ensures
            r.id == self.id,
            r.first_name == self.first_name,
            r.last_name == self.last_name,
            r.email == self.email,
            r.username == self.username,
            r.last_login == self.last_login,
            r.roles@ == self.roles@,
    {
        let roles = self.roles.clone();
        assert(roles@ =~= self.roles@);
        UserResponse {
            id: self.id,
            first_name: self.first_name.clone(),
            last_name: self.last_name.clone(),
            email: self.email.clone(),
            username: self.username.clone(),
            last_login: self.last_login,
            roles,
        }
    }
}

impl UserResponse {
    /// The public profile of a user record with the given roles.
    pub fn from_user(user: &UserBase, roles: Vec<Role>) -> (r: UserResponse)
        ensures
            is_profile_of(r, *user, roles@),
    {
        UserResponse {
            id: user.id,
            first_name: user.first_name.clone(),
            last_name: user.last_name.clone(),
            email: user.email.clone(),
            username: user.username.clone(),
            last_login: user.last_login,
            roles,
        }
    }

    /// Whether the user holds the administrator role.
    pub fn is_admin(&self) -> (r: bool)
        ensures
            r == has_admin_role(self.roles@),
    {
        let mut i: usize = 0;
        while i < self.roles.len()
            invariant
                i <= self.roles@.len(),
                forall|j: int| 0 <= j < i ==> (#[trigger] self.roles@[j]).name
                    != RoleName::Administrator,
            decreases self.roles@.len() - i,
        {
            if self.roles[i].name == RoleName::Administrator {
                return true;
            }
            i = i + 1;
        }
        false
    }
}

/// The identity of an authenticated request: a profile and its session.
#[derive(Debug)]
pub struct AuthenticatedUser {
    pub user: UserResponse,
    pub session: Session,
}

/// Two identities that agree in every field.
pub open spec fn same_identity(a: AuthenticatedUser, b: AuthenticatedUser) -> bool {
    &&& a.session == b.session
    &&& a.user.id == b.user.id
    &&& a.user.first_name == b.user.first_name
    &&& a.user.last_name == b.user.last_name
    &&& a.user.email == b.user.email
    &&& a.user.username == b.user.username
    &&& a.user.last_login == b.user.last_login
    &&& a.user.roles@ == b.user.roles@
}

impl Clone for AuthenticatedUser {
    fn clone(&self) -> (r: Self)
        ensures
            same_identity(r, *self),
    {
        AuthenticatedUser { user: self.user.clone(), session: self.session.clone() }
    }
}

/// An identity that holds the administrator role.
#[derive(Debug)]
pub struct AdminUser {
    pub user: UserResponse,
    pub session: Session,
}

/// The body of a login request.
#[derive(Debug)]
pub struct LoginRequest {
    pub username: String,
    pub password: String,
}

/// Marks a response whose handler set or cleared the session cookie itself.
#[derive(Debug, Clone, Copy)]
pub struct SessionCookieHandled;

/// The body of a request that creates a user.
#[derive(Debug)]
pub struct CreateUserRequest {
    pub first_name: String,
    pub last_name: String,
    pub email: String,
    pub username: String,
    pub raw_password: String,
    pub is_admin: bool,
}

/// The body of a request that updates a user's profile.
#[derive(Debug)]
pub struct UpdateUserRequest {
    pub first_name: String,
    pub last_name: String,
    pub email: String,
    pub username: String,
    pub is_admin: bool,
}

/// Paging and name filter of a recipe listing.
#[derive(Debug)]
pub struct RecipeFilters {
    pub page: i64,
    pub page_size: i64,
    pub q: Option<String>,
}

/// The page a listing starts at when none is asked for.
pub fn default_page() -> (r: i64)
    ensures
        r == 1,
{
    1
}

/// The page size of a listing when none is asked for.
pub fn default_page_size() -> (r: i64)
    ensures
        r == 20,
{
    20
}

/// One page of a listing.
#[derive(Debug)]
pub struct PaginatedResponse<T> {
    pub data: Vec<T>,
    pub page: i64,
    pub page_size: i64,
    pub total: i64,
    pub total_pages: i64,
}

} // verus!
