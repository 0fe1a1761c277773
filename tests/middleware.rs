use session_auth::errors::ApiError;
use session_auth::cookies::{
    build_expired_session_cookie, build_session_cookie, staged_cookie_mutation, CookieMutation,
    SameSite,
};
use session_auth::middleware::evaluate_session;
use session_auth::router::{login, logout, refresh};
use session_auth::models::{
    AdminUser, AuthenticatedUser, LoginRequest, Password, Role, RoleName, Session, UserBase,
    UserResponse,
};
use session_auth::service::{AuthenticationService, HmacKey};
use session_auth::store::{RoleStore, SessionStore, UserStore};
use session_auth::token::generate_session_token;

const USER_ID: u128 = 0x0190_0000_0000_7000_8000_0000_0000_00aa;

fn service_for_alice() -> AuthenticationService {
    let mut users = UserStore::new();
    users
        .insert(UserBase {
            id: USER_ID,
            first_name: "Alice".to_string(),
            last_name: "Liddell".to_string(),
            email: "alice@example.com".to_string(),
            username: "alice".to_string(),
            password_hash: Password::new("correct-pw").unwrap(),
            last_login: None,
            failed_login_attempts: 0,
            last_failed_login_attempt: None,
            created_at: 0,
            updated_at: 0,
            is_disabled: false,
        })
        .unwrap();
    AuthenticationService::new(
        users,
        RoleStore::new(),
        SessionStore::new(),
        HmacKey::from_hex("00112233445566778899aabbccddeeff").unwrap(),
    )
}

fn identity_with_roles(roles: Vec<Role>) -> AuthenticatedUser {
    AuthenticatedUser {
        user: UserResponse {
            id: 5,
            first_name: "A".to_string(),
            last_name: "B".to_string(),
            email: "a@b.c".to_string(),
            username: "ab".to_string(),
            last_login: None,
            roles,
        },
        session: Session { id: 9, user_id: 5, token: "t".to_string(), expires_at: 100 },
    }
}

#[test]
fn end_to_end_login_me_and_tampered_cookie() {
    let mut svc = service_for_alice();
    let body = LoginRequest { username: "alice".to_string(), password: "correct-pw".to_string() };
    let (cookie_a, profile) =
        login(&mut svc, &body, 1_000, &generate_session_token(0x77).unwrap()).unwrap();
    assert_eq!(profile.username, "alice");
    assert_eq!(cookie_a.name, "session_id");
    assert_eq!(cookie_a.expires_at, 8_200);
    assert!(cookie_a.value.starts_with("00000000-0000-0000-0000-000000000077:"));

    let eval = evaluate_session(&mut svc, Some(&cookie_a.value), 2_000);
    let auth = eval.auth_user.clone().unwrap();
    let me = refresh(&auth);
    assert_eq!(me.id, profile.id);
    assert_eq!(me.username, profile.username);
    match staged_cookie_mutation(eval.cookie, eval.clear_cookie, false) {
        CookieMutation::Refresh(c) => {
            assert_eq!(c.value, cookie_a.value);
            assert_eq!(c.expires_at, 9_200);
            assert!(c.expires_at > cookie_a.expires_at);
        }
        other => panic!("expected a refreshed cookie, got {:?}", other),
    }

    let mut tampered = cookie_a.value.clone();
    let last = tampered.pop().unwrap();
    tampered.push(if last == '0' { '1' } else { '0' });
    let eval = evaluate_session(&mut svc, Some(&tampered), 3_000);
    assert!(eval.auth_user.is_none());
    assert!(eval.clear_cookie);
    let err = AuthenticatedUser::from_request_context(eval.auth_user.as_ref()).unwrap_err();
    assert_eq!(err.status_code(), 401);
    match staged_cookie_mutation(eval.cookie, eval.clear_cookie, false) {
        CookieMutation::Clear(c) => {
            assert_eq!(c.value, "");
            assert_eq!(c.expires_at, 0);
        }
        other => panic!("expected a cleared cookie, got {:?}", other),
    }
    assert_eq!(svc.sessions.get_by_id(0x77).unwrap().expires_at, 9_200);
}

#[test]
fn no_cookie_leaves_everything_alone() {
    let mut svc = service_for_alice();
    let eval = evaluate_session(&mut svc, None, 0);
    assert!(eval.auth_user.is_none() && eval.cookie.is_none() && !eval.clear_cookie);
    assert!(matches!(
        staged_cookie_mutation(eval.cookie, eval.clear_cookie, false),
        CookieMutation::Unchanged
    ));
}

#[test]
fn garbage_cookie_is_cleared() {
    let mut svc = service_for_alice();
    let eval = evaluate_session(&mut svc, Some("garbage"), 0);
    assert!(eval.auth_user.is_none() && eval.cookie.is_none() && eval.clear_cookie);
}

#[test]
fn handled_responses_keep_their_cookie() {
    let c = build_session_cookie("x".to_string(), 5);
    assert!(matches!(staged_cookie_mutation(Some(c), false, true), CookieMutation::Unchanged));
    assert!(matches!(staged_cookie_mutation(None, true, true), CookieMutation::Unchanged));
}

#[test]
fn session_cookie_attributes() {
    let c = build_session_cookie("tok".to_string(), 42);
    assert_eq!(c.name, "session_id");
    assert_eq!(c.value, "tok");
    assert_eq!(c.path, "/");
    assert!(c.http_only && c.secure);
    assert_eq!(c.same_site, SameSite::Strict);
    assert_eq!(c.expires_at, 42);
    let e = build_expired_session_cookie();
    assert_eq!(e.value, "");
    assert_eq!(e.expires_at, 0);
    assert!(e.http_only && e.secure);
}

#[test]
fn failed_login_endpoint_is_unauthorized() {
    let mut svc = service_for_alice();
    let body = LoginRequest { username: "alice".to_string(), password: "nope".to_string() };
    let err =
        login(&mut svc, &body, 0, &generate_session_token(1).unwrap()).unwrap_err();
    assert_eq!(err.status_code(), 401);
    assert_eq!(err.public_message(), "Unauthorized");
}

#[test]
fn logout_endpoint_deletes_and_clears() {
    let mut svc = service_for_alice();
    let body = LoginRequest { username: "alice".to_string(), password: "correct-pw".to_string() };
    let (cookie, _) =
        login(&mut svc, &body, 0, &generate_session_token(3).unwrap()).unwrap();
    let auth = evaluate_session(&mut svc, Some(&cookie.value), 1).auth_user.unwrap();
    let cleared = logout(&mut svc, &auth).unwrap();
    assert_eq!(cleared.value, "");
    assert_eq!(cleared.expires_at, 0);
    assert!(svc.sessions.get_by_id(3).is_err());
    let eval = evaluate_session(&mut svc, Some(&cookie.value), 2);
    assert!(eval.auth_user.is_none() && eval.clear_cookie);
}

#[test]
fn missing_identity_is_unauthorized() {
    assert!(matches!(
        AuthenticatedUser::from_request_context(None),
        Err(ApiError::Unauthorized { .. })
    ));
    assert!(matches!(AdminUser::from_request_context(None), Err(ApiError::Unauthorized { .. })));
}

#[test]
fn non_admin_is_forbidden() {
    let auth = identity_with_roles(vec![Role { id: 1, name: RoleName::RecipeUser }]);
    assert!(!auth.user.is_admin());
    let r = AdminUser::from_request_context(Some(&auth));
    assert!(matches!(r, Err(ApiError::Forbidden { .. })));
    assert_eq!(r.unwrap_err().status_code(), 403);
}

#[test]
fn admin_is_admitted() {
    let auth = identity_with_roles(vec![
        Role { id: 1, name: RoleName::RecipeUser },
        Role { id: 2, name: RoleName::Administrator },
    ]);
    assert!(auth.user.is_admin());
    let admin = AdminUser::from_request_context(Some(&auth)).unwrap();
    assert_eq!(admin.user.id, 5);
    assert_eq!(admin.session.id, 9);
}
