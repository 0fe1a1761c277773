use session_auth::models::Password;

#[test]
pub fn test_creating_password_not_raw_string() {
    let raw_pw = "hunter2";
    let pw = Password::new(raw_pw).unwrap();
    assert_ne!(pw.as_str(), raw_pw);
}

#[test]
pub fn password_verification_succeeds_when_same() {
    let raw_pw = "hunter2";
    let pw = Password::new(raw_pw).unwrap();
    let valid = pw.verify(b"hunter2");
    assert!(valid);
}

#[test]
pub fn password_verification_fails_when_different() {
    let raw_pw = "hunter2";
    let pw = Password::new(raw_pw).unwrap();
    let valid = pw.verify(b"hunter123");
    assert!(!valid);
}

#[test]
fn generate_admin_password_hash() {
    let password_hash = Password::new("admin").unwrap();

    println!("Admin password hash: {}", password_hash.as_str());
    assert!(password_hash.as_str().starts_with("$argon2"));
}

#[test]
fn equal_passwords_hash_differently() {
    let a = Password::new("same").unwrap();
    let b = Password::new("same").unwrap();
    assert_ne!(a.as_str(), b.as_str());
    assert!(a.verify(b"same") && b.verify(b"same"));
}

#[test]
fn malformed_hash_accepts_nothing() {
    let pw = Password::from_hash("not a phc string".to_string());
    assert!(!pw.verify(b"not a phc string"));
    assert!(!pw.verify(b""));
}

#[test]
fn hash_is_an_argon2id_phc_string() {
    let pw = Password::new("hunter2").unwrap();
    assert!(pw.as_str().starts_with("$argon2id$"));
}
