use vstd::prelude::*;
use mongodb::bson::oid::ObjectId;

verus! {

/// The store's native key: the twelve raw bytes of a document identifier.
#[derive(Clone, Copy, Debug, PartialEq, Eq)]
pub struct StoreKey {
    pub bytes: [u8; 12],
}

pub open spec fn is_hex_digit(c: char) -> bool {
    ('0' <= c && c <= '9') || ('a' <= c && c <= 'f') || ('A' <= c && c <= 'F')
}

pub open spec fn hex_value(c: char) -> int {
    if '0' <= c && c <= '9' {
        c as int - '0' as int
    } else if 'a' <= c && c <= 'f' {
        c as int - 'a' as int + 10
    } else {
        c as int - 'A' as int + 10
    }
}

/// The lowercase hex digit for a value below sixteen.
pub open spec fn hex_digit(v: int) -> char {
    if v < 10 {
        ('0' as int + v) as char
    } else {
        ('a' as int + v - 10) as char
    }
}

/// Text that names a store key: exactly twenty-four hex digits, in either case.
pub open spec fn is_key_text(s: Seq<char>) -> bool {
    s.len() == 24 && forall|i: int| 0 <= i < 24 ==> #[trigger] is_hex_digit(s[i])
}

/// The bytes that key text stands for, two digits per byte, high digit first.
pub open spec fn key_bytes_of(s: Seq<char>) -> Seq<u8> {
    Seq::new(12, |i: int| (hex_value(s[2 * i]) * 16 + hex_value(s[2 * i + 1])) as u8)
}

/// Lowercase hex text of a byte string, two digits per byte, high digit first.
pub open spec fn hex_text(b: Seq<u8>) -> Seq<char> {
    Seq::new(
        2 * b.len(),
        |i: int|
            if i % 2 == 0 {
                hex_digit(b[i / 2] as int / 16)
            } else {
                hex_digit(b[i / 2] as int % 16)
            },
    )
}

/// Relies on bson's `ObjectId::parse_str`: it decodes the text with `hex::decode`,
/// which takes upper and lower case digits, and accepts it only when that gives
/// twelve bytes; `bytes` hands those bytes back.
#[verifier::external_body]
fn parse_key_text(s: &str) -> (r: Option<[u8; 12]>)
    ensures
        r.is_some() <==> is_key_text(s@),
        r matches Some(b) ==> b@ == key_bytes_of(s@),
{
    ObjectId::parse_str(s).ok().map(|o| o.bytes())
}

/// Relies on bson's `ObjectId::to_hex`, which is `hex::encode` of the twelve
/// bytes: lowercase digits, high digit first.
#[verifier::external_body]
fn key_hex(bytes: [u8; 12]) -> (r: String)
    ensures
        r@ == hex_text(bytes@),
{
    ObjectId::from_bytes(bytes).to_hex()
}

/// Decodes an identifier; `None` when the text is not twenty-four hex digits.
pub fn decode_key(raw: &str) -> (r: Option<StoreKey>)
    ensures
        r.is_some() <==> is_key_text(raw@),
        r matches Some(k) ==> k.bytes@ == key_bytes_of(raw@),
{
    match parse_key_text(raw) {
        Some(bytes) => Some(StoreKey { bytes }),
        None => None,
    }
}

/// The identifier text of a key, as handed out to callers.
pub fn encode_key(key: &StoreKey) -> (r: String)
    ensures
        r@ == hex_text(key.bytes@),
{
    key_hex(key.bytes)
}

proof fn lemma_digit_round_trip(v: int)
    requires
        0 <= v < 16,
    ensures
        is_hex_digit(hex_digit(v)),
        hex_value(hex_digit(v)) == v,
{
}

/// Every identifier the library hands out decodes back to the key it came from.
pub proof fn lemma_key_round_trip(b: Seq<u8>)
    requires
        b.len() == 12,
    ensures
        is_key_text(hex_text(b)),
        key_bytes_of(hex_text(b)) == b,
{
    let t = hex_text(b);
    assert forall|i: int| 0 <= i < 24 implies #[trigger] is_hex_digit(t[i]) by {
        lemma_digit_round_trip(b[i / 2] as int / 16);
        lemma_digit_round_trip(b[i / 2] as int % 16);
    }
    assert forall|i: int| 0 <= i < 12 implies #[trigger] key_bytes_of(t)[i] == b[i] by {
        assert((2 * i) / 2 == i && (2 * i) % 2 == 0);
        assert((2 * i + 1) / 2 == i && (2 * i + 1) % 2 == 1);
        lemma_digit_round_trip(b[i] as int / 16);
        lemma_digit_round_trip(b[i] as int % 16);
        assert(b[i] as int / 16 * 16 + b[i] as int % 16 == b[i] as int);
    }
    assert(key_bytes_of(t) =~= b);
}

} // verus!
