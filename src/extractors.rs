//! Typed views of the identity the middleware attached to a request.
use crate::errors::ApiError;
use crate::models::{has_admin_role, same_identity, AdminUser, AuthenticatedUser};
use vstd::prelude::*;
use vstd::string::*;

verus! {

impl AuthenticatedUser {
    /// The identity the middleware attached to a request; none is
    /// `Unauthorized`.
    pub fn from_request_context(context: Option<&AuthenticatedUser>) -> (r: Result<
        AuthenticatedUser,
        ApiError,
    >)
        ensures
            match context {
                None => r matches Err(e) && e is Unauthorized,
                Some(a) => r matches Ok(b) && same_identity(b, *a),
            },
    {
        match context {
            None => Err(
                ApiError::Unauthorized { reason: String::from_str("authentication required") },
            ),
            Some(a) => Ok(a.clone()),
        }
    }
}

impl AdminUser {
    /// An identity that holds the administrator role; any other is `Forbidden`.
    pub fn from_authenticated(auth: AuthenticatedUser) -> (r: Result<AdminUser, ApiError>)
        ensures
            has_admin_role(auth.user.roles@) ==> (r matches Ok(x) && x.user == auth.user
                && x.session == auth.session),
            !has_admin_role(auth.user.roles@) ==> (r matches Err(e) && e is Forbidden),
    {
        if !auth.user.is_admin() {
            return Err(
                ApiError::Forbidden { reason: String::from_str("user is not an administrator") },
            );
        }
        let AuthenticatedUser { user, session } = auth;
        Ok(AdminUser { user, session })
    }

    /// The administrator identity of a request: no identity is
    /// `Unauthorized`, one without the administrator role `Forbidden`.
    pub fn from_request_context(context: Option<&AuthenticatedUser>) -> (r: Result<
        AdminUser,
        ApiError,
    >)
        ensures
            match context {
                None => r matches Err(e) && e is Unauthorized,
                Some(a) => if has_admin_role(a.user.roles@) {
                    r matches Ok(x) && same_identity(
                        (AuthenticatedUser { user: x.user, session: x.session }),
                        *a,
                    )
                } else {
                    r matches Err(e) && e is Forbidden
                },
            },
    {
        let auth = AuthenticatedUser::from_request_context(context)?;
        Self::from_authenticated(auth)
    }
}

} // verus!
