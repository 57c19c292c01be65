//! The calls into other crates, each with what is relied on of it.
use hmac::Mac;
use rand::Rng;
use serde_json::Value;
use vstd::prelude::*;
use vstd::utf8::encode_utf8;

use crate::json::{JsonModel, JsonValue};
use crate::text::integer_text;
use crate::time::Timestamp;

verus! {

// ---------------------------------------------------------------------
// serde_json
// ---------------------------------------------------------------------

/// `serde_json::Value`, carried between the two conversions and the calls.
#[verifier::external_type_specification]
#[verifier::external_body]
pub struct ExSerdeValue(Value);

/// The document as a `serde_json::Value`. Nothing is claimed of the result.
#[verifier::external_body]
fn to_serde(v: &JsonValue) -> Value {
    match v {
        JsonValue::Null => Value::Null,
        JsonValue::Bool(b) => Value::from(*b),
        JsonValue::Int(n) => Value::from(*n),
        JsonValue::Large(n) => Value::from(*n),
        JsonValue::Float { text, .. } => text.parse().ok()
            .and_then(serde_json::Number::from_f64).map_or(Value::Null, Value::Number),
        JsonValue::Text(t) => Value::from(t.as_str()),
        JsonValue::Array(a) => a.iter().map(to_serde).collect(),
        JsonValue::Object(o) => o.iter().map(|(k, x)| (k.clone(), to_serde(x))).collect(),
    }
}

/// A `Value` as a document. Nothing is claimed of the result.
#[verifier::external_body]
fn from_serde(v: Value) -> JsonValue {
    match v {
        Value::Null => JsonValue::Null,
        Value::Bool(b) => JsonValue::Bool(b),
        Value::Number(n) => match (n.as_i64(), n.as_u64()) {
            (Some(i), _) => JsonValue::Int(i),
            (None, Some(u)) => JsonValue::Large(u),
            _ => JsonValue::Float { text: n.to_string(), whole: n.as_f64().map_or(0, |x| x as i64) },
        },
        Value::String(s) => JsonValue::Text(s),
        Value::Array(a) => JsonValue::Array(a.into_iter().map(from_serde).collect()),
        Value::Object(o) => JsonValue::Object(
            o.into_iter().map(|(k, x)| (k, from_serde(x))).collect()),
    }
}

/// What `serde_json` writes for a document in its compact form.
pub uninterp spec fn json_compact(document: JsonModel) -> Seq<char>;

/// `Display` of `serde_json::Value`: the compact JSON text of the document,
/// which depends on the document alone. Null and the booleans are written as
/// their keywords, an integer in decimal notation.
#[verifier::external_body]
pub(crate) fn json_text(v: &JsonValue) -> (r: String)
    ensures
        r@ == json_compact(v@),
        v@ is Null ==> r@ == "null"@,
        v@ == JsonModel::Bool(true) ==> r@ == "true"@,
        v@ == JsonModel::Bool(false) ==> r@ == "false"@,
        v@ matches JsonModel::Int(n) ==> r@ == integer_text(n as int),
{
    to_serde(v).to_string()
}

/// The document that a JSON text in UTF-8 holds; nothing where it is not one.
pub uninterp spec fn json_document(bytes: Seq<u8>) -> Option<JsonModel>;

/// `serde_json::from_slice` for a `serde_json::Value`: the document that the
/// bytes hold, which depends on the bytes alone, or an error.
#[verifier::external_body]
pub(crate) fn parse_json(bytes: &[u8]) -> (r: Option<JsonValue>)
    ensures
        match r {
            Some(v) => json_document(bytes@) == Some(v@),
            None => json_document(bytes@) is None,
        },
{
    serde_json::from_slice::<Value>(bytes).ok().map(from_serde)
}

// ---------------------------------------------------------------------
// chrono
// ---------------------------------------------------------------------

/// `chrono::Utc::now`: an instant of the calendar, from 1970 on, that does not
/// lie within a leap second. Which one it is depends on the machine's clock.
#[verifier::external_body]
pub(crate) fn now() -> (r: Timestamp)
    ensures
        r.in_calendar(),
        r.is_plain(),
        r.secs >= 0,
{
    let t = chrono::Utc::now();
    Timestamp { secs: t.timestamp(), nanos: t.timestamp_subsec_nanos() }
}

/// The instant that a text in the format of RFC 3339 names, or what `chrono`
/// says of a text that is not in that format.
pub uninterp spec fn rfc3339_instant(text: Seq<char>) -> Result<Timestamp, Seq<char>>;

/// `chrono::DateTime::parse_from_rfc3339`: the instant that the text names, or
/// the text of an error. Either depends on the text alone.
#[verifier::external_body]
pub(crate) fn parse_rfc3339(text: &str) -> (r: Result<Timestamp, String>)
    ensures
        match r {
            Ok(t) => rfc3339_instant(text@) == Ok::<Timestamp, Seq<char>>(t),
            Err(m) => rfc3339_instant(text@) == Err::<Timestamp, Seq<char>>(m@),
        },
{
    match chrono::DateTime::parse_from_rfc3339(text) {
        Ok(t) => Ok(Timestamp { secs: t.timestamp(), nanos: t.timestamp_subsec_nanos() }),
        Err(e) => Err(e.to_string()),
    }
}

/// The text in the format of RFC 3339 that names an instant.
pub uninterp spec fn rfc3339_text(instant: Timestamp) -> Seq<char>;

/// `chrono::DateTime::to_rfc3339` on an instant of the calendar, in UTC: its
/// text, which depends on the instant alone.
#[verifier::external_body]
pub(crate) fn to_rfc3339(instant: Timestamp) -> (r: String)
    requires
        instant.in_calendar(),
    ensures
        r@ == rfc3339_text(instant),
{
    let t = chrono::DateTime::<chrono::Utc>::from_timestamp(instant.secs, instant.nanos);
    t.unwrap().to_rfc3339()
}

// ---------------------------------------------------------------------
// hmac, sha2, hex
// ---------------------------------------------------------------------

/// The HMAC of a message under a key, with SHA-256 as its hash.
pub uninterp spec fn hmac_sha256_tag(key: Seq<u8>, message: Seq<u8>) -> Seq<u8>;

/// `hmac::Hmac` over `sha2::Sha256`: the authentication code of the message
/// under the key, which may have any length. It depends on the two alone and
/// is 32 bytes long.
#[verifier::external_body]
pub(crate) fn hmac_sha256(key: &[u8], message: &[u8]) -> (r: Vec<u8>)
    ensures
        r@ == hmac_sha256_tag(key@, message@),
        r@.len() == 32,
{
    let mut mac = hmac::Hmac::<sha2::Sha256>::new_from_slice(key)
        .expect("HMAC can take key of any size");
    mac.update(message);
    mac.finalize().into_bytes().to_vec()
}

/// The hexadecimal digit of a value below sixteen, in lower case.
pub open spec fn hex_digit(d: int) -> char {
    "0123456789abcdef"@[d]
}

/// Two hexadecimal digits for each byte, the higher half first.
pub open spec fn hex_lower(bytes: Seq<u8>) -> Seq<char>
    decreases bytes.len(),
{
    if bytes.len() == 0 {
        Seq::empty()
    } else {
        hex_lower(bytes.drop_last()) + seq![
            hex_digit(bytes.last() as int / 16),
            hex_digit(bytes.last() as int % 16),
        ]
    }
}

/// `hex::encode`: two hexadecimal digits in lower case for each byte.
#[verifier::external_body]
pub(crate) fn hex_encode(bytes: &[u8]) -> (r: String)
    ensures
        r@ == hex_lower(bytes@),
{
    hex::encode(bytes)
}

// ---------------------------------------------------------------------
// urlencoding
// ---------------------------------------------------------------------

/// The bytes that stand for themselves in an encoded text: ASCII letters and
/// digits, and `-`, `_`, `.`, `~`.
pub open spec fn is_unreserved(b: u8) -> bool {
    ||| 0x30 <= b <= 0x39
    ||| 0x41 <= b <= 0x5a
    ||| 0x61 <= b <= 0x7a
    ||| b == 0x2d
    ||| b == 0x5f
    ||| b == 0x2e
    ||| b == 0x7e
}

/// The hexadecimal digit of a value below sixteen, in upper case.
pub open spec fn hex_digit_upper(d: int) -> char {
    "0123456789ABCDEF"@[d]
}

/// Each byte as its character where it stands for itself, else as a percent
/// sign and two hexadecimal digits in upper case.
pub open spec fn percent_encoded(bytes: Seq<u8>) -> Seq<char>
    decreases bytes.len(),
{
    if bytes.len() == 0 {
        Seq::empty()
    } else {
        let b = bytes.last();
        percent_encoded(bytes.drop_last()) + if is_unreserved(b) {
            seq![b as char]
        } else {
            seq!['%', hex_digit_upper(b as int / 16), hex_digit_upper(b as int % 16)]
        }
    }
}

/// `urlencoding::encode`: the percent-encoding of the text's UTF-8 bytes.
#[verifier::external_body]
pub(crate) fn percent_encode(text: &str) -> (r: String)
    ensures
        r@ == percent_encoded(encode_utf8(text@)),
{
    urlencoding::encode(text).into_owned()
}

// ---------------------------------------------------------------------
// rand
// ---------------------------------------------------------------------

/// `rand::Rng::gen_range` of the thread's generator, over the numbers below
/// `limit`: one of them. Which one is left to chance.
#[verifier::external_body]
pub(crate) fn random_below(limit: u8) -> (r: u8)
    requires
        limit > 0,
    ensures
        r < limit,
{
    rand::thread_rng().gen_range(0..limit)
}

} // verus!
