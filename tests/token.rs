use session_auth::errors::ApiError;
use session_auth::service::HmacKey;
use session_auth::token::{
    generate_session_token, get_token_bytes, verify_token, SessionToken,
};
use uuid::Uuid;

#[test]
fn test_parse_valid_token() {
    let uuid = Uuid::new_v4();
    let cookie_value = format!("{}:abc123def456", uuid);

    let token = SessionToken::parse(&cookie_value).unwrap();
    assert_eq!(token.session_id, uuid.as_u128());
    assert_eq!(token.raw_token, "abc123def456");
}

#[test]
fn test_encode_token() {
    let uuid = Uuid::new_v4();
    let token = SessionToken {
        session_id: uuid.as_u128(),
        raw_token: "abc123def456".to_string(),
    };

    let encoded = token.encode();
    assert_eq!(encoded, format!("{}:abc123def456", uuid));
}

#[test]
fn test_hash_and_verify() {
    let hmac_key = b"test_key_32_bytes_long_exactly!!";
    let uuid = Uuid::new_v4();
    let token = SessionToken {
        session_id: uuid.as_u128(),
        raw_token: "test_token".to_string(),
    };

    let hash = token.hash_token(hmac_key).unwrap();
    let is_valid = verify_token("test_token", &hash, hmac_key).unwrap();
    assert!(is_valid);

    let is_invalid = verify_token("wrong_token", &hash, hmac_key).unwrap();
    assert!(!is_invalid);
}

#[test]
fn encode_writes_the_hyphenated_lowercase_identifier() {
    let token = SessionToken {
        session_id: 0x67e5504410b1426f9247bb680e5fe0c8,
        raw_token: "s3cr3t".to_string(),
    };
    assert_eq!(token.encode(), "67e55044-10b1-426f-9247-bb680e5fe0c8:s3cr3t");
}

#[test]
fn parse_reads_the_identifier_value() {
    let token = SessionToken::parse("67e55044-10b1-426f-9247-bb680e5fe0c8:xyz").unwrap();
    assert_eq!(token.session_id, 0x67e5504410b1426f9247bb680e5fe0c8);
    assert_eq!(token.raw_token, "xyz");
}

#[test]
fn parse_accepts_uppercase_identifier() {
    let token = SessionToken::parse("67E55044-10B1-426F-9247-BB680E5FE0C8:xyz").unwrap();
    assert_eq!(token.session_id, 0x67e5504410b1426f9247bb680e5fe0c8);
}

#[test]
fn parse_splits_at_the_first_colon() {
    let token = SessionToken::parse("67e55044-10b1-426f-9247-bb680e5fe0c8:ab:cd").unwrap();
    assert_eq!(token.raw_token, "ab:cd");
}

#[test]
fn parse_rejects_missing_colon() {
    let r = SessionToken::parse("67e55044-10b1-426f-9247-bb680e5fe0c8");
    assert!(matches!(r, Err(ApiError::Unauthorized { .. })));
}

#[test]
fn parse_rejects_non_identifier_prefix() {
    let r = SessionToken::parse("not-a-uuid:abc123");
    assert!(matches!(r, Err(ApiError::Unauthorized { .. })));
    let r = SessionToken::parse(":abc123");
    assert!(matches!(r, Err(ApiError::Unauthorized { .. })));
}

#[test]
fn parse_rejects_empty_secret() {
    let r = SessionToken::parse("67e55044-10b1-426f-9247-bb680e5fe0c8:");
    assert!(matches!(r, Err(ApiError::Unauthorized { .. })));
}

#[test]
fn parse_rejects_empty_value() {
    assert!(matches!(SessionToken::parse(""), Err(ApiError::Unauthorized { .. })));
}

#[test]
fn encode_then_parse_round_trips() {
    let token = generate_session_token(Uuid::new_v4().as_u128()).unwrap();
    let back = SessionToken::parse(&token.encode()).unwrap();
    assert_eq!(back.session_id, token.session_id);
    assert_eq!(back.raw_token, token.raw_token);
}

#[test]
fn hash_token_is_hex_hmac_sha256() {
    let token = SessionToken {
        session_id: 1,
        raw_token: "The quick brown fox jumps over the lazy dog".to_string(),
    };
    assert_eq!(
        token.hash_token(b"key").unwrap(),
        "f7bc83f430538424b13298e6aa6fb143ef4d59a14946175997479dbc2d1a3cd8"
    );
}

#[test]
fn hash_depends_on_the_key() {
    let token = SessionToken { session_id: 1, raw_token: "secret".to_string() };
    let a = token.hash_token(b"key-one").unwrap();
    let b = token.hash_token(b"key-two").unwrap();
    assert_ne!(a, b);
    assert!(!verify_token("secret", &a, b"key-two").unwrap());
}

#[test]
fn generated_secrets_verify_against_their_own_hash_only() {
    let key = b"another key";
    let a = get_token_bytes().unwrap();
    let b = get_token_bytes().unwrap();
    assert_ne!(a, b);
    let ta = SessionToken { session_id: 1, raw_token: a.clone() };
    let tb = SessionToken { session_id: 2, raw_token: b.clone() };
    let ha = ta.hash_token(key).unwrap();
    let hb = tb.hash_token(key).unwrap();
    assert!(verify_token(&a, &ha, key).unwrap());
    assert!(verify_token(&b, &hb, key).unwrap());
    assert!(!verify_token(&a, &hb, key).unwrap());
    assert!(!verify_token(&b, &ha, key).unwrap());
}

#[test]
fn generated_secret_is_64_lowercase_hex_digits() {
    let s = get_token_bytes().unwrap();
    assert_eq!(s.len(), 64);
    assert!(s.chars().all(|c| c.is_ascii_digit() || ('a'..='f').contains(&c)));
}

#[test]
fn hmac_key_reads_hex_of_either_case() {
    let key = HmacKey::from_hex("0a0B ff".replace(' ', "").as_str()).unwrap();
    assert_eq!(key.as_bytes(), &[0x0a, 0x0b, 0xff]);
}

#[test]
fn hmac_key_rejects_bad_hex() {
    assert!(HmacKey::from_hex("zz").is_err());
    assert!(HmacKey::from_hex("abc").is_err());
}

#[test]
fn stored_digest_is_64_hex_digits() {
    let token = SessionToken { session_id: 3, raw_token: "abc".to_string() };
    let h = token.hash_token(b"k").unwrap();
    assert_eq!(h.len(), 64);
}
