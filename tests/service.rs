use session_auth::errors::ServiceError;
use session_auth::models::{
    AuthenticatedUser, LoginRequest, Password, Role, RoleName, UserBase, MAX_FAILED_LOGIN_ATTEMPTS,
};
use session_auth::service::{AuthenticationService, HmacKey};
use session_auth::store::{RoleStore, SessionStore, UserStore};
use session_auth::token::{generate_session_token, SessionToken};

const ALICE: u128 = 0x0190_0000_0000_7000_8000_0000_0000_0001;

fn alice_record(password: &str) -> UserBase {
    UserBase {
        id: ALICE,
        first_name: "Alice".to_string(),
        last_name: "Liddell".to_string(),
        email: "alice@example.com".to_string(),
        username: "alice".to_string(),
        password_hash: Password::new(password).unwrap(),
        last_login: None,
        failed_login_attempts: 0,
        last_failed_login_attempt: None,
        created_at: 10,
        updated_at: 10,
        is_disabled: false,
    }
}

fn service_with_alice() -> AuthenticationService {
    let mut users = UserStore::new();
    users.insert(alice_record("correct-pw")).unwrap();
    let mut roles = RoleStore::new();
    roles.assign(ALICE, Role { id: 7, name: RoleName::RecipeUser });
    AuthenticationService::new(
        users,
        roles,
        SessionStore::new(),
        HmacKey::from_bytes(b"test_key_32_bytes_long_exactly!!".to_vec()),
    )
}

fn request(username: &str, password: &str) -> LoginRequest {
    LoginRequest { username: username.to_string(), password: password.to_string() }
}

fn fresh_token(id: u128) -> SessionToken {
    generate_session_token(id).unwrap()
}

fn log_in(svc: &mut AuthenticationService, password: &str, id: u128, now: i64)
    -> Result<AuthenticatedUser, ServiceError> {
    svc.login_at(&request("alice", password), now, &fresh_token(id))
}

#[test]
fn login_then_refresh_returns_the_same_user() {
    let mut svc = service_with_alice();
    let auth = log_in(&mut svc, "correct-pw", 11, 1_000).unwrap();
    assert_eq!(auth.user.id, ALICE);
    assert_eq!(auth.user.username, "alice");
    assert_eq!(auth.user.last_login, Some(1_000));
    assert_eq!(auth.user.roles.len(), 1);
    assert_eq!(auth.session.id, 11);
    assert_eq!(auth.session.expires_at, 8_200);

    let token = SessionToken::parse(&auth.session.token).unwrap();
    let again = svc.refresh_at(&token, 1_000).unwrap();
    assert_eq!(again.user.id, auth.user.id);
    assert_eq!(again.user.email, "alice@example.com");
    assert_eq!(again.session.id, 11);
    assert_eq!(again.session.token, auth.session.token);
}

#[test]
fn login_stores_only_the_keyed_hash() {
    let mut svc = service_with_alice();
    let tok = fresh_token(12);
    let auth = svc.login_at(&request("alice", "correct-pw"), 0, &tok).unwrap();
    let stored = svc.sessions.get_by_id(12).unwrap();
    assert_eq!(stored.user_id, ALICE);
    assert_ne!(stored.token, tok.raw_token);
    assert_eq!(stored.token, tok.hash_token(b"test_key_32_bytes_long_exactly!!").unwrap());
    assert_eq!(auth.session.token, tok.encode());
}

#[test]
fn username_lookup_ignores_ascii_case() {
    let mut svc = service_with_alice();
    let auth = svc.login_at(&request("ALICE", "correct-pw"), 0, &fresh_token(13)).unwrap();
    assert_eq!(auth.user.id, ALICE);
}

#[test]
fn unknown_user_and_wrong_password_give_the_same_error() {
    let mut svc = service_with_alice();
    let r = svc.login_at(&request("bob", "correct-pw"), 0, &fresh_token(14));
    assert!(matches!(r, Err(ServiceError::InvalidUsernameOrPassword)));
    let r = log_in(&mut svc, "wrong", 15, 0);
    assert!(matches!(r, Err(ServiceError::InvalidUsernameOrPassword)));
    let user = svc.users.get_by_id(ALICE).unwrap();
    assert_eq!(user.failed_login_attempts, 1);
    assert_eq!(user.last_failed_login_attempt, Some(0));
}

#[test]
fn five_failures_lock_the_account() {
    let mut svc = service_with_alice();
    log_in(&mut svc, "correct-pw", 21, 100).unwrap();
    log_in(&mut svc, "correct-pw", 22, 100).unwrap();
    assert_eq!(svc.sessions.count_for_user(ALICE), 2);
    for attempt in 1..=4 {
        let r = log_in(&mut svc, "bad", 30 + attempt, 200);
        assert!(matches!(r, Err(ServiceError::InvalidUsernameOrPassword)));
    }
    assert_eq!(svc.sessions.count_for_user(ALICE), 2);
    let r = log_in(&mut svc, "bad", 35, 200);
    assert!(matches!(r, Err(ServiceError::AccountLocked)));
    let user = svc.users.get_by_id(ALICE).unwrap();
    assert!(user.is_disabled);
    assert_eq!(user.failed_login_attempts, MAX_FAILED_LOGIN_ATTEMPTS);
    assert_eq!(svc.sessions.count_for_user(ALICE), 0);
    let r = log_in(&mut svc, "correct-pw", 36, 300);
    assert!(matches!(r, Err(ServiceError::AccountLocked)));
    assert_eq!(svc.sessions.count_for_user(ALICE), 0);
}

#[test]
fn success_resets_the_failure_counter() {
    let mut svc = service_with_alice();
    log_in(&mut svc, "nope", 41, 50).unwrap_err();
    log_in(&mut svc, "nope", 42, 60).unwrap_err();
    assert_eq!(svc.users.get_by_id(ALICE).unwrap().failed_login_attempts, 2);
    log_in(&mut svc, "correct-pw", 43, 70).unwrap();
    let user = svc.users.get_by_id(ALICE).unwrap();
    assert_eq!(user.failed_login_attempts, 0);
    assert_eq!(user.last_failed_login_attempt, None);
    assert_eq!(user.last_login, Some(70));
}

#[test]
fn refresh_extends_a_live_session() {
    let mut svc = service_with_alice();
    let auth = log_in(&mut svc, "correct-pw", 51, 1_000).unwrap();
    let token = SessionToken::parse(&auth.session.token).unwrap();
    let later = svc.refresh_at(&token, 5_000).unwrap();
    assert_eq!(later.session.expires_at, 12_200);
    assert_eq!(svc.sessions.get_by_id(51).unwrap().expires_at, 12_200);
}

#[test]
fn refresh_at_the_expiry_instant_still_succeeds() {
    let mut svc = service_with_alice();
    let auth = log_in(&mut svc, "correct-pw", 52, 1_000).unwrap();
    let token = SessionToken::parse(&auth.session.token).unwrap();
    assert!(svc.refresh_at(&token, 8_200).is_ok());
}

#[test]
fn refresh_after_expiry_fails_and_does_not_extend() {
    let mut svc = service_with_alice();
    let auth = log_in(&mut svc, "correct-pw", 53, 1_000).unwrap();
    let token = SessionToken::parse(&auth.session.token).unwrap();
    let r = svc.refresh_at(&token, 8_201);
    assert!(matches!(r, Err(ServiceError::Unauthorized(_))));
    assert_eq!(svc.sessions.get_by_id(53).unwrap().expires_at, 8_200);
}

#[test]
fn refresh_rejects_a_wrong_secret_and_an_unknown_session() {
    let mut svc = service_with_alice();
    log_in(&mut svc, "correct-pw", 54, 1_000).unwrap();
    let wrong = SessionToken { session_id: 54, raw_token: "00".repeat(32) };
    assert!(matches!(svc.refresh_at(&wrong, 1_000), Err(ServiceError::Unauthorized(_))));
    let unknown = fresh_token(99);
    assert!(matches!(svc.refresh_at(&unknown, 1_000), Err(ServiceError::Unauthorized(_))));
    assert_eq!(svc.sessions.get_by_id(54).unwrap().expires_at, 8_200);
}

#[test]
fn refresh_of_a_disabled_account_is_account_locked() {
    let mut svc = service_with_alice();
    let auth = log_in(&mut svc, "correct-pw", 55, 1_000).unwrap();
    let mut user = svc.users.get_by_id(ALICE).unwrap();
    user.is_disabled = true;
    svc.users.update_base(&user).unwrap();
    let token = SessionToken::parse(&auth.session.token).unwrap();
    assert!(matches!(svc.refresh_at(&token, 1_000), Err(ServiceError::AccountLocked)));
}

#[test]
fn logout_twice_is_the_same_as_once() {
    let mut svc = service_with_alice();
    log_in(&mut svc, "correct-pw", 61, 0).unwrap();
    log_in(&mut svc, "correct-pw", 62, 0).unwrap();
    svc.logout(61).unwrap();
    assert!(svc.sessions.get_by_id(61).is_err());
    assert_eq!(svc.sessions.count_for_user(ALICE), 1);
    svc.logout(61).unwrap();
    assert_eq!(svc.sessions.count_for_user(ALICE), 1);
    assert!(svc.sessions.get_by_id(62).is_ok());
}

#[test]
fn a_session_identifier_in_use_is_refused() {
    let mut svc = service_with_alice();
    log_in(&mut svc, "correct-pw", 71, 0).unwrap();
    let r = log_in(&mut svc, "correct-pw", 71, 0);
    assert!(matches!(r, Err(ServiceError::Repository(_))));
    assert_eq!(svc.sessions.count_for_user(ALICE), 1);
}

#[test]
fn sweeping_deletes_only_expired_sessions() {
    let mut svc = service_with_alice();
    log_in(&mut svc, "correct-pw", 81, 0).unwrap();
    log_in(&mut svc, "correct-pw", 82, 10_000).unwrap();
    assert_eq!(svc.delete_expired_sessions(7_200).unwrap(), 0);
    assert_eq!(svc.delete_expired_sessions(7_201).unwrap(), 1);
    assert!(svc.sessions.get_by_id(81).is_err());
    assert!(svc.sessions.get_by_id(82).is_ok());
}

#[test]
fn login_with_clock_and_random_source() {
    let mut svc = service_with_alice();
    let auth = svc.login(&request("alice", "correct-pw")).unwrap();
    let token = SessionToken::parse(&auth.session.token).unwrap();
    let again = svc.refresh(&token).unwrap();
    assert_eq!(again.user.id, ALICE);
}

#[test]
fn user_store_refuses_duplicates_and_inconsistent_records() {
    let mut users = UserStore::new();
    users.insert(alice_record("pw")).unwrap();
    assert!(users.insert(alice_record("pw")).is_err());
    let mut locked_but_enabled = alice_record("pw");
    locked_but_enabled.id = 2;
    locked_but_enabled.failed_login_attempts = MAX_FAILED_LOGIN_ATTEMPTS;
    assert!(users.insert(locked_but_enabled).is_err());
    let mut negative = alice_record("pw");
    negative.id = 3;
    negative.failed_login_attempts = -1;
    assert!(users.insert(negative).is_err());
    assert!(users.get_by_id(2).is_err());
    assert_eq!(users.get_by_username("Alice").unwrap().id, ALICE);
}

#[test]
fn roles_come_back_in_assignment_order() {
    let mut roles = RoleStore::new();
    roles.assign(1, Role { id: 10, name: RoleName::RecipeUser });
    roles.assign(2, Role { id: 11, name: RoleName::RecipeUser });
    roles.assign(1, Role { id: 12, name: RoleName::Administrator });
    let r = roles.get_by_user_id(1);
    assert_eq!(r, vec![
        Role { id: 10, name: RoleName::RecipeUser },
        Role { id: 12, name: RoleName::Administrator },
    ]);
    assert!(roles.get_by_user_id(3).is_empty());
}
