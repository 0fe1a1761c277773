//! The session cookie: its fixed attributes, the cookie that carries a
//! token and the one that clears it, and the change a response makes to it.
use vstd::prelude::*;
use vstd::string::*;

verus! {

/// The `SameSite` attribute of a cookie.
#[derive(Clone, Copy, Debug, PartialEq, Eq, Structural)]
pub enum SameSite {
    Strict,
    Lax,
}

/// A `Set-Cookie` instruction for the session cookie. `expires_at` is in
/// Unix seconds.
#[derive(Debug)]
pub struct SessionCookie {
    pub name: String,
    pub value: String,
    pub path: String,
    pub http_only: bool,
    pub secure: bool,
    pub same_site: SameSite,
    pub expires_at: i64,
}

/// The fixed attributes of the session cookie: named `session_id`, for the
/// whole site, not readable by scripts, sent over TLS only, same site only.
pub open spec fn is_session_cookie(c: SessionCookie) -> bool {
    &&& c.name@ == "session_id"@
    &&& c.path@ == "/"@
    &&& c.http_only
    &&& c.secure
    &&& c.same_site == SameSite::Strict
}

/// A cookie that makes the client drop its session cookie: empty, and
/// expired since the Unix epoch.
pub open spec fn is_clearing_cookie(c: SessionCookie) -> bool {
    is_session_cookie(c) && c.value@ == Seq::<char>::empty() && c.expires_at == 0
}

/// The session cookie carrying an encoded token until `expires_at`.
pub fn build_session_cookie(token: String, expires_at: i64) -> (r: SessionCookie)
    ensures
        is_session_cookie(r),
        r.value == token,
        r.expires_at == expires_at,
{
    SessionCookie {
        name: String::from_str("session_id"),
        value: token,
        path: String::from_str("/"),
        http_only: true,
        secure: true,
        same_site: SameSite::Strict,
        expires_at,
    }
}

/// The cookie that clears the session cookie.
pub fn build_expired_session_cookie() -> (r: SessionCookie)
    ensures
        is_clearing_cookie(r),
{
    let r = build_session_cookie(String::new(), 0);
    r
}

/// What happens to the session cookie of a response.
#[derive(Debug)]
pub enum CookieMutation {
    Unchanged,
    Refresh(SessionCookie),
    Clear(SessionCookie),
}

/// The cookie change staged for a response. A handler that managed the
/// cookie itself has the last word; otherwise a refreshed cookie is set, or a
/// rejected one cleared.
pub fn staged_cookie_mutation(
    cookie: Option<SessionCookie>,
    clear_cookie: bool,
    handled: bool,
) -> (r: CookieMutation)
    ensures
        handled ==> r is Unchanged,
        !handled ==> match cookie {
            Some(c) => r == CookieMutation::Refresh(c),
            None => if clear_cookie {
                r matches CookieMutation::Clear(c) && is_clearing_cookie(c)
            } else {
                r is Unchanged
            },
        },
{
    if handled {
        return CookieMutation::Unchanged;
    }
    match cookie {
        Some(c) => CookieMutation::Refresh(c),
        None => if clear_cookie {
            CookieMutation::Clear(build_expired_session_cookie())
        } else {
            CookieMutation::Unchanged
        },
    }
}

} // verus!
