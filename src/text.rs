//! Textual encodings used by session tokens and configuration: lowercase
//! hexadecimal and the hyphenated form of a 128-bit session identifier.
use vstd::prelude::*;

verus! {

/// The lowercase hexadecimal digit for a value below sixteen.
pub open spec fn hex_digit(n: int) -> char {
    seq!['0', '1', '2', '3', '4', '5', '6', '7', '8', '9', 'a', 'b', 'c', 'd', 'e', 'f'][n]
}

/// Two lowercase hexadecimal digits per byte, high nibble first.
pub open spec fn hex_of(bytes: Seq<u8>) -> Seq<char> {
    Seq::new(
        2 * bytes.len(),
        |p: int|
            {
                let b = bytes[p / 2] as int;
                if p % 2 == 0 {
                    hex_digit(b / 16)
                } else {
                    hex_digit(b % 16)
                }
            },
    )
}

/// A digit that hexadecimal text may hold, in either case.
pub open spec fn is_hex_char(c: char) -> bool {
    ('0' <= c && c <= '9') || ('a' <= c && c <= 'f') || ('A' <= c && c <= 'F')
}

/// The value of a hexadecimal digit.
pub open spec fn hex_value(c: char) -> int {
    if '0' <= c && c <= '9' {
        c as int - '0' as int
    } else if 'a' <= c && c <= 'f' {
        c as int - 'a' as int + 10
    } else {
        c as int - 'A' as int + 10
    }
}

/// Text that decodes as hexadecimal: an even number of hexadecimal digits.
pub open spec fn is_hex_text(s: Seq<char>) -> bool {
    s.len() % 2 == 0 && forall|i: int| 0 <= i < s.len() ==> is_hex_char(#[trigger] s[i])
}

/// The bytes that hexadecimal text stands for, two digits per byte.
pub open spec fn bytes_of_hex(s: Seq<char>) -> Seq<u8> {
    Seq::new(s.len() / 2, |i: int| (hex_value(s[2 * i]) * 16 + hex_value(s[2 * i + 1])) as u8)
}

/// Whether text position `p` of a hyphenated identifier holds a hyphen.
pub open spec fn is_uuid_hyphen(p: int) -> bool {
    p == 8 || p == 13 || p == 18 || p == 23
}

/// The index among the 32 hexadecimal digits for text position `p`.
pub open spec fn uuid_digit_index(p: int) -> int {
    if p < 8 {
        p
    } else if p < 13 {
        p - 1
    } else if p < 18 {
        p - 2
    } else if p < 23 {
        p - 3
    } else {
        p - 4
    }
}

/// The `k`-th four-bit group of `id`, counted from the most significant end.
pub open spec fn uuid_nibble(id: u128, k: int) -> int {
    ((id >> ((124 - 4 * k) as u128)) % 16) as int
}

/// The hyphenated lowercase form of an identifier: 32 hexadecimal digits,
/// most significant first, in groups of 8, 4, 4, 4 and 12.
pub open spec fn uuid_text(id: u128) -> Seq<char> {
    Seq::new(
        36,
        |p: int|
            if is_uuid_hyphen(p) {
                '-'
            } else {
                hex_digit(uuid_nibble(id, uuid_digit_index(p)))
            },
    )
}

/// What `uuid::Uuid::parse_str` makes of a text, as a 128-bit value.
pub uninterp spec fn uuid_from_text(s: Seq<char>) -> Option<u128>;

pub proof fn lemma_hex_digit_not_colon(n: int)
    requires
        0 <= n < 16,
    ensures
        hex_digit(n) != ':',
        hex_digit(n) != '-',
{
    let d = seq!['0', '1', '2', '3', '4', '5', '6', '7', '8', '9', 'a', 'b', 'c', 'd', 'e', 'f'];
    assert(d[n] != ':' && d[n] != '-');
}

/// The hyphenated form of an identifier holds no colon.
pub proof fn lemma_uuid_text_has_no_colon(id: u128)
    ensures
        uuid_text(id).len() == 36,
        forall|p: int| 0 <= p < 36 ==> #[trigger] uuid_text(id)[p] != ':',
{
    assert forall|p: int| 0 <= p < 36 implies #[trigger] uuid_text(id)[p] != ':' by {
        if !is_uuid_hyphen(p) {
            lemma_hex_digit_not_colon(uuid_nibble(id, uuid_digit_index(p)));
        }
    }
}

#[verifier::external_type_specification]
#[verifier::external_body]
pub struct ExUuidError(uuid::Error);

#[verifier::external_type_specification]
#[verifier::external_body]
pub struct ExFromHexError(hex::FromHexError);

/// Relies on hex::encode: two lowercase hexadecimal digits for each byte, in order.
#[verifier::external_body]
pub(crate) fn hex_encode(bytes: &[u8]) -> (r: String)
    ensures
        r@ == hex_of(bytes@),
{
    hex::encode(bytes)
}

/// Relies on hex::decode: it accepts an even number of digits of either case
/// and yields one byte per pair, high digit first; anything else is an error.
#[verifier::external_body]
pub(crate) fn hex_decode(text: &str) -> (r: Result<Vec<u8>, hex::FromHexError>)
    ensures
        r is Ok <==> is_hex_text(text@),
        r is Ok ==> r->Ok_0@ == bytes_of_hex(text@),
{
    hex::decode(text)
}

/// Relies on the `Display` impl of `uuid::Uuid` (lowercase, hyphenated) for
/// the identifier built by `Uuid::from_u128`, which reads the value big-endian.
#[verifier::external_body]
pub(crate) fn uuid_to_text(id: u128) -> (r: String)
    ensures
        r@ == uuid_text(id),
{
    uuid::Uuid::from_u128(id).to_string()
}

/// Relies on uuid::Uuid::parse_str, read back with `as_u128`; the parser
/// accepts the hyphenated lowercase form and returns the identifier it shows.
#[verifier::external_body]
pub(crate) fn uuid_parse(text: &str) -> (r: Result<u128, uuid::Error>)
    ensures
        r is Ok <==> uuid_from_text(text@) is Some,
        r is Ok ==> r->Ok_0 == uuid_from_text(text@)->0,
        forall|id: u128| text@ == uuid_text(id) ==> (r is Ok && r->Ok_0 == id),
{
    match uuid::Uuid::parse_str(text) {
        Ok(u) => Ok(u.as_u128()),
        Err(e) => Err(e),
    }
}

} // verus!
