//! The per-request session handling: read the session cookie, refresh the
//! session it names, hand the identity to the handler, and afterwards set or
//! clear the cookie unless the handler did so itself.
use crate::cookies::{build_session_cookie, is_session_cookie, SessionCookie};
use crate::models::AuthenticatedUser;
use crate::service::{refresh_failure, refresh_identity, refreshed, AuthenticationService};
use crate::token::{encoded_token, token_fields, SessionToken};
use vstd::prelude::*;

verus! {

/// What the middleware found out before the handler runs.
#[derive(Debug)]
pub struct SessionEvaluation {
    pub auth_user: Option<AuthenticatedUser>,
    pub cookie: Option<SessionCookie>,
    pub clear_cookie: bool,
}

/// No identity and no cookie to set; `clear` tells whether the cookie is to
/// be cleared.
pub open spec fn unauthenticated(r: SessionEvaluation, clear: bool) -> bool {
    r.auth_user is None && r.cookie is None && r.clear_cookie == clear
}

/// Resolves the session cookie of a request at `now`. No cookie: the request
/// goes on unauthenticated and the cookie is left alone. A cookie that is no
/// token, or whose refresh is refused: unauthenticated, and the cookie is to
/// be cleared. Otherwise the refreshed identity, and a cookie with the same
/// token and the new expiry.
pub fn evaluate_session(
    service: &mut AuthenticationService,
    cookie_value: Option<&str>,
    now: i64,
) -> (r: SessionEvaluation)
    requires
        old(service).wf(),
    ensures
        final(service).wf(),
        match cookie_value {
            None => unauthenticated(r, false) && final(service)@ == old(service)@,
            Some(text) => match token_fields(text@) {
                None => unauthenticated(r, true) && final(service)@ == old(service)@,
                Some((sid, secret)) => match refresh_failure(old(service)@, sid, secret, now) {
                    Some(_) => unauthenticated(r, true) && final(service)@ == old(service)@,
                    None => {
                        &&& final(service)@ == refreshed(old(service)@, sid, now)
                        &&& r.auth_user matches Some(a) && refresh_identity(
                            old(service)@,
                            sid,
                            secret,
                            now,
                            a,
                        )
                        &&& r.cookie matches Some(c) && is_session_cookie(c) && c.value@
                            == encoded_token(sid, secret) && c.expires_at
                            == r.auth_user->0.session.expires_at
                        &&& !r.clear_cookie
                    },
                },
            },
        },
{
    let text = match cookie_value {
        None => {
            return SessionEvaluation { auth_user: None, cookie: None, clear_cookie: false };
        },
        Some(t) => t,
    };
    let token = match SessionToken::parse(text) {
        Ok(t) => t,
        Err(_) => {
            return SessionEvaluation { auth_user: None, cookie: None, clear_cookie: true };
        },
    };
    match service.refresh_at(&token, now) {
        Ok(auth_user) => {
            let cookie = build_session_cookie(
                auth_user.session.token.clone(),
                auth_user.session.expires_at,
            );
            SessionEvaluation { auth_user: Some(auth_user), cookie: Some(cookie), clear_cookie: false }
        },
        Err(_) => SessionEvaluation { auth_user: None, cookie: None, clear_cookie: true },
    }
}

} // verus!
