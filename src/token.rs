//! Session tokens: `"<session-id>:<raw-secret>"` in a cookie, of which only a
//! keyed hash of the secret is ever stored.
use crate::crypto::{fill_random, hmac_sha256, hmac_sha256_of};
use crate::errors::ApiError;
use crate::text::{
    hex_encode, hex_of, lemma_uuid_text_has_no_colon, uuid_from_text, uuid_parse, uuid_text,
    uuid_to_text,
};
use vstd::prelude::*;
use vstd::string::*;
use vstd::utf8::encode_utf8;

verus! {

/// The number of random bytes in a fresh secret.
pub const TOKEN_BYTES: usize = 32;

/// A parsed session token.
#[derive(Debug)]
pub struct SessionToken {
    pub session_id: u128,
    pub raw_token: String,
}

impl Clone for SessionToken {
    fn clone(&self) -> (r: Self)
        ensures
            r == *self,
    {
        SessionToken { session_id: self.session_id, raw_token: self.raw_token.clone() }
    }
}

/// The transport form of a token.
pub open spec fn encoded_token(id: u128, secret: Seq<char>) -> Seq<char> {
    uuid_text(id) + seq![':'] + secret
}

/// Position `i` holds the first colon of `s`.
pub open spec fn is_first_colon(s: Seq<char>, i: int) -> bool {
    0 <= i < s.len() && s[i] == ':' && forall|j: int| 0 <= j < i ==> s[j] != ':'
}

/// The text before and after the first colon, if there is one.
pub open spec fn split_at_first_colon(s: Seq<char>) -> Option<(Seq<char>, Seq<char>)> {
    if exists|i: int| is_first_colon(s, i) {
        let i = choose|i: int| is_first_colon(s, i);
        Some((s.take(i), s.skip(i + 1)))
    } else {
        None
    }
}

/// The session identifier and secret that a cookie value holds: the text
/// before the first colon must read as an identifier, and the secret after
/// it must not be empty.
pub open spec fn token_fields(s: Seq<char>) -> Option<(u128, Seq<char>)> {
    match split_at_first_colon(s) {
        None => None,
        Some((prefix, secret)) => if secret.len() == 0 {
            None
        } else {
            match uuid_from_text(prefix) {
                Some(id) => Some((id, secret)),
                None => None,
            }
        },
    }
}

/// The stored verifier of a secret: the hexadecimal HMAC-SHA-256 tag of its
/// UTF-8 bytes.
pub open spec fn token_digest(key: Seq<u8>, secret: Seq<char>) -> Seq<char> {
    hex_of(hmac_sha256_of(key, encode_utf8(secret)))
}

/// The shape of a freshly generated secret: random bytes in hexadecimal.
pub open spec fn is_generated_secret(secret: Seq<char>) -> bool {
    exists|bytes: Seq<u8>| bytes.len() == TOKEN_BYTES && secret == #[trigger] hex_of(bytes)
}

/// What parsing a cookie value yields.
pub open spec fn parsed_as(text: Seq<char>, r: Result<SessionToken, ApiError>) -> bool {
    match token_fields(text) {
        Some((id, secret)) => r matches Ok(t) && t.session_id == id && t.raw_token@ == secret,
        None => r matches Err(e) && e is Unauthorized,
    }
}

/// What `SessionToken::parse` guarantees of its result: the fields the text
/// holds, and that an encoded token with a non-empty secret reads back as
/// the identifier and secret it was made of.
pub open spec fn parse_outcome(text: Seq<char>, r: Result<SessionToken, ApiError>) -> bool {
    &&& parsed_as(text, r)
    &&& forall|id: u128, secret: Seq<char>|
        #![trigger encoded_token(id, secret)]
        text == encoded_token(id, secret) && secret.len() > 0 ==> (r matches Ok(t) && t.session_id
            == id && t.raw_token@ == secret)
}

/// The first colon of an encoded token follows the identifier.
pub proof fn lemma_encoded_split(id: u128, secret: Seq<char>)
    ensures
        split_at_first_colon(encoded_token(id, secret)) == Some((uuid_text(id), secret)),
{
    let s = encoded_token(id, secret);
    lemma_uuid_text_has_no_colon(id);
    assert(is_first_colon(s, 36));
    let i = choose|i: int| is_first_colon(s, i);
    assert(i == 36) by {
        if i < 36 {
            assert(s[i] == uuid_text(id)[i]);
        } else if i > 36 {
            assert(s[36] == ':');
        }
    }
    assert(s.take(36) =~= uuid_text(id));
    assert(s.skip(37) =~= secret);
}

fn unauthorized(reason: &str) -> (r: ApiError)
    ensures
        r is Unauthorized,
{
    ApiError::Unauthorized { reason: String::from_str(reason) }
}

impl SessionToken {
    /// Parses a cookie value: it splits at the first colon; the part before
    /// must be a session identifier and the part after must not be empty.
    /// Any other value is `Unauthorized`. An encoded token parses back to the
    /// identifier and secret it was made of.
    pub fn parse(cookie_value: &str) -> (r: Result<Self, ApiError>)
        ensures
            parse_outcome(cookie_value@, r),
    {
        let n = cookie_value.unicode_len();
        let mut i: usize = 0;
        let mut found = false;
        while i < n && !found
            invariant
                n == cookie_value@.len(),
                i <= n,
                found ==> i < n && cookie_value@[i as int] == ':',
                forall|j: int| 0 <= j < i ==> cookie_value@[j] != ':',
            decreases n - i + (if found { 0int } else { 1int }),
        {
            if cookie_value.get_char(i) == ':' {
                found = true;
            } else {
                i = i + 1;
            }
        }
        proof {
            if !found {
                assert forall|k: int| !is_first_colon(cookie_value@, k) by {}
            } else {
                assert(is_first_colon(cookie_value@, i as int));
                let k = choose|k: int| is_first_colon(cookie_value@, k);
                assert(k == i as int) by {
                    if k < i {
                        assert(cookie_value@[k] != ':');
                    } else if k > i {
                        assert(cookie_value@[i as int] == ':');
                    }
                }
            }
            assert forall|id: u128, secret: Seq<char>|
                #![trigger encoded_token(id, secret)]
                cookie_value@ == encoded_token(id, secret) implies found && i == 36
                && cookie_value@.take(36) == uuid_text(id) && cookie_value@.skip(37) == secret by {
                lemma_encoded_split(id, secret);
            }
        }
        if !found {
            return Err(unauthorized("invalid session token format"));
        }
        let prefix = cookie_value.substring_char(0, i);
        let secret = cookie_value.substring_char(i + 1, n);
        assert(prefix@ =~= cookie_value@.take(i as int));
        assert(secret@ =~= cookie_value@.skip(i + 1));
        match uuid_parse(prefix) {
            Err(_) => Err(unauthorized("invalid session id in token")),
            Ok(session_id) => {
                if secret.unicode_len() == 0 {
                    return Err(unauthorized("empty token in session"));
                }
                Ok(SessionToken { session_id, raw_token: String::from_str(secret) })
            },
        }
    }

    /// The transport form `"<session-id>:<raw-secret>"`.
    pub fn encode(&self) -> (r: String)
        ensures
            r@ == encoded_token(self.session_id, self.raw_token@),
    {
        let mut r = uuid_to_text(self.session_id);
        r.append(":");
        r.append(self.raw_token.as_str());
        proof {
            reveal_strlit(":");
        }
        assert(r@ =~= encoded_token(self.session_id, self.raw_token@));
        r
    }

    /// The keyed hash of the secret that the session store keeps.
    pub fn hash_token(&self, hmac_key: &[u8]) -> (r: Result<String, ApiError>)
        ensures
            r matches Ok(h) && h@ == token_digest(hmac_key@, self.raw_token@),
            r matches Ok(h) ==> h@.len() == 64,
    {
        hash_secret(self.raw_token.as_str(), hmac_key)
    }
}

fn hash_secret(raw_token: &str, hmac_key: &[u8]) -> (r: Result<String, ApiError>)
    ensures
        r matches Ok(h) && h@ == token_digest(hmac_key@, raw_token@),
        r matches Ok(h) ==> h@.len() == 64,
{
    let bytes = raw_token.as_bytes();
    match hmac_sha256(hmac_key, bytes) {
        Ok(tag) => Ok(hex_encode(tag.as_slice())),
        Err(_) => Err(ApiError::Internal(String::from_str("invalid HMAC key"))),
    }
}

/// Draws a fresh secret: random bytes from the operating system, in
/// hexadecimal.
pub fn get_token_bytes() -> (r: Result<String, ApiError>)
    ensures
        r matches Ok(s) ==> is_generated_secret(s@),
        r matches Err(e) ==> e is Internal,
{
    let mut bytes: Vec<u8> = vec![0u8; TOKEN_BYTES];
    match fill_random(&mut bytes) {
        Ok(()) => {
            let s = hex_encode(bytes.as_slice());
            assert(bytes@.len() == TOKEN_BYTES);
            Ok(s)
        },
        Err(_) => Err(ApiError::Internal(String::from_str("random source failed"))),
    }
}

/// A token for the given session with a freshly drawn secret.
pub fn generate_session_token(session_id: u128) -> (r: Result<SessionToken, ApiError>)
    ensures
        r matches Ok(t) ==> t.session_id == session_id && is_generated_secret(t.raw_token@),
        r matches Err(e) ==> e is Internal,
{
    let raw_token = get_token_bytes()?;
    Ok(SessionToken { session_id, raw_token })
}

/// Whether `raw_token` is the secret whose keyed hash is `stored_hash`.
pub fn verify_token(raw_token: &str, stored_hash: &str, hmac_key: &[u8]) -> (r: Result<
    bool,
    ApiError,
>)
    ensures
        r matches Ok(b) && b == (token_digest(hmac_key@, raw_token@) == stored_hash@),
{
    let computed = hash_secret(raw_token, hmac_key)?;
    let stored = String::from_str(stored_hash);
    Ok(computed == stored)
}

} // verus!
