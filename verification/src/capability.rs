//! Trusted capabilities: the few places where the library relies on outside
//! crates. Each item wraps exactly one outside call; Verus believes the
//! stated contract and everything else in the library is proved against it.

use vstd::prelude::*;

use ring::rand::SecureRandom;

verus! {

/// Whether a string parses as an absolute URL. The result of `url::Url::parse`
/// depends on the input string alone.
pub uninterp spec fn parses_as_url(s: Seq<char>) -> bool;

/// Relies on `url::Url::parse`, to validate URL-typed parameter values.
#[verifier::external_body]
pub(crate) fn is_valid_url(s: &str) -> (r: bool)
    ensures
        r == parses_as_url(s@),
{
    url::Url::parse(s).is_ok()
}

/// Relies on `time::OffsetDateTime::now_utc` and `unix_timestamp` for the
/// current time. The `time` crate represents years -9999..=9999 only, so the
/// returned timestamp is far from the edges of `i64`.
#[verifier::external_body]
pub(crate) fn now_unix() -> (r: i64)
    ensures
        -400_000_000_000 <= r <= 400_000_000_000,
{
    time::OffsetDateTime::now_utc().unix_timestamp()
}

/// Relies on `ring::rand::SystemRandom::fill` for cryptographically secure
/// random bytes. Nothing can be promised of the bytes themselves.
#[verifier::external_body]
pub(crate) fn random_32_bytes() -> (r: Option<Vec<u8>>)
    ensures
        r matches Some(v) ==> v@.len() == 32,
{
    let mut buf = [0u8; 32];
    let rng = ring::rand::SystemRandom::new();
    match rng.fill(&mut buf) {
        Ok(()) => Some(buf.to_vec()),
        Err(_) => None,
    }
}

/// The SHA-256 digest of a byte sequence, which depends on the bytes alone.
pub uninterp spec fn sha256_of(data: Seq<u8>) -> Seq<u8>;

/// Relies on `ring::digest::digest` with SHA-256; the digest is 32 bytes.
#[verifier::external_body]
pub(crate) fn sha256_digest(data: &[u8]) -> (r: Vec<u8>)
    ensures
        r@ == sha256_of(data@),
        r@.len() == 32,
{
    ring::digest::digest(&ring::digest::SHA256, data).as_ref().to_vec()
}

/// The URL-safe unpadded base64 encoding of a byte sequence, which depends on
/// the bytes alone.
pub uninterp spec fn b64url_of(data: Seq<u8>) -> Seq<char>;

/// Relies on base64's `URL_SAFE_NO_PAD` engine; without padding, `n` input
/// bytes yield exactly `ceil(4n/3)` characters.
#[verifier::external_body]
pub(crate) fn b64url_encode(data: &[u8]) -> (r: String)
    ensures
        r@ == b64url_of(data@),
        r@.len() == (data@.len() * 4 + 2) / 3,
{
    base64::Engine::encode(&base64::engine::general_purpose::URL_SAFE_NO_PAD, data)
}

/// Relies on `String::from_utf8`: bytes below 128 are valid UTF-8 and decode
/// one byte to one character.
#[verifier::external_body]
pub(crate) fn ascii_to_string(bytes: Vec<u8>) -> (r: String)
    requires
        forall|i: int| 0 <= i < bytes@.len() ==> bytes@[i] < 128,
    ensures
        r@ == crate::encode::chars_of(bytes@),
{
    String::from_utf8(bytes).unwrap_or_default()
}

/// Relies on `String::push`: appends one character to a string.
#[verifier::external_body]
pub(crate) fn push_char(s: &mut String, c: char)
    ensures
        final(s)@ == old(s)@.push(c),
{
    s.push(c);
}

/// Whether some text has the given bytes as its UTF-8 representation.
pub open spec fn utf8_decodable(bytes: Seq<u8>) -> bool {
    exists|t: Seq<char>| vstd::utf8::encode_utf8(t) == bytes
}

/// Relies on `String::from_utf8`: on success the returned string's UTF-8
/// representation is exactly the input bytes, and it fails exactly on byte
/// sequences that are not valid UTF-8.
#[verifier::external_body]
pub(crate) fn utf8_to_string(bytes: Vec<u8>) -> (r: Option<String>)
    ensures
        r matches Some(t) ==> vstd::utf8::encode_utf8(t@) == bytes@,
        r is None ==> !utf8_decodable(bytes@),
{
    String::from_utf8(bytes).ok()
}

/// The string member `key` of the JSON document `s`: present exactly when
/// the document parses and its top level holds a member of that name whose
/// value is a string. A function of the text and the key alone.
pub uninterp spec fn json_member_text(s: Seq<char>, key: Seq<char>) -> Option<Seq<char>>;

/// Relies on serde_json (`from_str::<Value>`, `Value::get`, `Value::as_str`):
/// parses the document and reads one string member.
#[verifier::external_body]
pub(crate) fn json_member_str(s: &str, key: &str) -> (r: Option<String>)
    ensures
        r.deep_view() == json_member_text(s@, key@),
{
    serde_json::from_str::<serde_json::Value>(s)
        .ok()
        .and_then(|v| v.get(key).and_then(|m| m.as_str().map(|t| t.to_owned())))
}

/// The integer member `key` of the JSON document `s`: present exactly when
/// the document parses and its top level holds a member of that name whose
/// value is an integer that fits in an `i64`. A function of the text and
/// the key alone.
pub uninterp spec fn json_member_int(s: Seq<char>, key: Seq<char>) -> Option<i64>;

/// Relies on serde_json (`from_str::<Value>`, `Value::get`, `Value::as_i64`):
/// parses the document and reads one integer member.
#[verifier::external_body]
pub(crate) fn json_member_i64(s: &str, key: &str) -> (r: Option<i64>)
    ensures
        r == json_member_int(s@, key@),
{
    serde_json::from_str::<serde_json::Value>(s)
        .ok()
        .and_then(|v| v.get(key).and_then(|m| m.as_i64()))
}

/// Every member of the JSON document's top-level object, in order, the
/// value rendered back to JSON text; nothing when the document does not
/// parse as an object. A function of the text alone.
pub uninterp spec fn json_members(s: Seq<char>) -> Seq<(Seq<char>, Seq<char>)>;

/// Relies on serde_json (`from_str::<Value>`, `Value::as_object`, and the
/// JSON rendering of `Value`): hands out every top-level member.
#[verifier::external_body]
pub(crate) fn json_object_entries(s: &str) -> (r: Vec<(String, String)>)
    ensures
        crate::encode::pair_views(r@) == json_members(s@),
{
    match serde_json::from_str::<serde_json::Value>(s).ok().as_ref().and_then(|v| v.as_object()) {
        Some(m) => m.iter().map(|(k, val)| (k.clone(), val.to_string())).collect(),
        None => Vec::new(),
    }
}

} // verus!
