//! The authentication endpoints, without their HTTP plumbing.
use crate::cookies::{
    build_expired_session_cookie, build_session_cookie, is_clearing_cookie, is_session_cookie,
    SessionCookie,
};
use crate::errors::{ApiError, ServiceError};
use crate::models::{AuthenticatedUser, LoginRequest, UserResponse};
use crate::service::{login_effect, logout_effect, AuthenticationService};
use crate::token::SessionToken;
use vstd::prelude::*;

verus! {

/// `POST /login` at `now` with a fresh identifier and secret: on success the
/// session cookie with the encoded token and the profile; a failure maps to
/// the HTTP error.
pub fn login(
    service: &mut AuthenticationService,
    request: &LoginRequest,
    now: i64,
    session_token: &SessionToken,
) -> (r: Result<(SessionCookie, UserResponse), ApiError>)
    requires
        old(service).wf(),
    ensures
        final(service).wf(),
        exists|res: Result<AuthenticatedUser, ServiceError>|
            #[trigger] login_effect(
                old(service)@,
                request.username@,
                request.password@,
                now,
                session_token.session_id,
                session_token.raw_token@,
                final(service)@,
                res,
            ) && match res {
                Ok(a) => r matches Ok((c, u)) && is_session_cookie(c) && c.value == a.session.token
                    && c.expires_at == a.session.expires_at && u == a.user,
                Err(_) => r matches Err(e) && (e is Unauthorized || e is Internal),
            },
{
    match service.login_at(request, now, session_token) {
        Ok(auth) => {
            let AuthenticatedUser { user, session } = auth;
            let cookie = build_session_cookie(session.token, session.expires_at);
            Ok((cookie, user))
        },
        Err(e) => Err(ApiError::from_service_error(e)),
    }
}

/// `POST /logout`: deletes the request's session and clears the cookie.
pub fn logout(service: &mut AuthenticationService, auth: &AuthenticatedUser) -> (r: Result<
    SessionCookie,
    ApiError,
>)
    requires
        old(service).wf(),
    ensures
        final(service).wf(),
        logout_effect(old(service)@, auth.session.id, final(service)@),
        r matches Ok(c) && is_clearing_cookie(c),
{
    match service.logout(auth.session.id) {
        Ok(()) => Ok(build_expired_session_cookie()),
        Err(e) => Err(ApiError::from_service_error(e)),
    }
}

/// `GET /me`: the profile of the request's identity. The middleware has
/// already refreshed its session and staged the cookie.
pub fn refresh(auth: &AuthenticatedUser) -> (r: UserResponse)
    ensures
        r.id == auth.user.id,
        r.first_name == auth.user.first_name,
        r.last_name == auth.user.last_name,
        r.email == auth.user.email,
        r.username == auth.user.username,
        r.last_login == auth.user.last_login,
        r.roles@ == auth.user.roles@,
{
    auth.user.clone()
}

} // verus!
