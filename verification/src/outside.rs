//! The library's calls into outside crates, each behind a trusted wrapper
//! whose contract Verus believes. Every claim below is backed by the named
//! function of the outside crate; results that have no short description
//! (JSON quoting, query-string lookup, password verification) are given
//! uninterpreted names instead.

use vstd::prelude::*;

verus! {

/// What `serde_json::to_string` returns for a string slice: the quoted,
/// escaped JSON text of the string.
pub uninterp spec fn json_quoted(s: Seq<char>) -> Seq<char>;

/// What `qstring`'s parse-then-lookup returns for a query string and a
/// parameter name: the (percent-decoded) value of the first such parameter,
/// or `None` when the query string has none.
pub uninterp spec fn query_param_of(query: Seq<char>, key: Seq<char>) -> Option<Seq<char>>;

/// How `serde_json::from_slice` fails on a byte string, or `None` when the
/// bytes parse as a JSON document. A function of the bytes alone.
pub uninterp spec fn parse_fault_of(bytes: Seq<u8>) -> Option<ParseFault>;

/// What one field of the JSON document in a byte string holds, reduced to a
/// `FieldValueV`. A function of the bytes and the key alone; meaningful
/// only where `parse_fault_of` reports no fault.
pub uninterp spec fn field_of(bytes: Seq<u8>, key: Seq<char>) -> FieldValueV;

/// Whether `bcrypt::verify(password, hash)` returns `Ok(true)`: the hash
/// was produced from this password. Deterministic in its two arguments.
pub uninterp spec fn bcrypt_matches(password: Seq<char>, hash: Seq<char>) -> bool;

/// Whether a string is a well-formed bcrypt hash with an admissible cost,
/// so that `bcrypt::verify` on it cannot fail. Every hash that
/// `bcrypt::hash` returns is of this form.
pub uninterp spec fn bcrypt_hash_wf(hash: Seq<char>) -> bool;

/// Relies on `str`'s `PartialEq`: two string slices are equal exactly when
/// their character sequences are.
#[verifier::external_body]
pub(crate) fn str_eq(a: &str, b: &str) -> (r: bool)
    ensures
        r == (a@ == b@),
{
    a == b
}

/// Relies on `serde_json::to_string`, which cannot fail for a string slice:
/// the quoted, escaped JSON text of the string.
#[verifier::external_body]
pub(crate) fn json_quote(s: &str) -> (r: String)
    ensures
        r@ == json_quoted(s@),
{
    serde_json::to_string(s).expect("serializing a string slice cannot fail")
}

/// Relies on `uuid::Uuid::new_v4` and its `Display` impl: a freshly drawn
/// random identifier in the hyphenated form, which is always 36 characters.
#[verifier::external_body]
pub(crate) fn fresh_uuid() -> (r: String)
    ensures
        r@.len() == 36,
{
    uuid::Uuid::new_v4().to_string()
}

/// Relies on `qstring::QString::from` and `QString::get`: looks a parameter
/// up in a query string. The parse is a pure function of the two strings.
/// The parser slices single bytes off the front of the remaining text, so a
/// query in which a `&`-separated segment starts with a multi-byte
/// character makes it panic: callers must hand it ASCII, which is all an
/// HTTP request target can carry.
#[verifier::external_body]
pub(crate) fn query_param(query: &str, key: &str) -> (r: Option<String>)
    requires
        query.is_ascii(),
    ensures
        r matches Some(v) ==> query_param_of(query@, key@) == Some(v@),
        r is None ==> query_param_of(query@, key@) is None,
{
    qstring::QString::from(query).get(key).map(|v| v.to_owned())
}

/// Relies on `bcrypt::hash` with the crate's default cost: on success the
/// result is a 60-character well-formed hash that verifies against the
/// password that was hashed; the call fails only when the operating system
/// yields no randomness for the salt.
#[verifier::external_body]
pub(crate) fn hash_password(password: &str) -> (r: Option<String>)
    ensures
        r matches Some(h) ==> h@.len() == 60 && bcrypt_hash_wf(h@) && bcrypt_matches(
            password@,
            h@,
        ),
{
    bcrypt::hash(password, bcrypt::DEFAULT_COST).ok()
}

/// Relies on `bcrypt::verify`: `Some(b)` reports whether the password
/// produced the hash; the call fails (`None`) only on a hash that is not
/// well formed, and such a hash matches no password.
#[verifier::external_body]
pub(crate) fn check_password(password: &str, hash: &str) -> (r: Option<bool>)
    ensures
        r matches Some(b) ==> b == bcrypt_matches(password@, hash@),
        r is None ==> !bcrypt_matches(password@, hash@),
        bcrypt_hash_wf(hash@) ==> r is Some,
{
    bcrypt::verify(password, hash).ok()
}

/// How a request body failed to parse: not JSON at all, or JSON of the
/// wrong shape.
pub enum ParseFault {
    NotJson,
    BadJson,
}

/// Relies on `serde_json::from_slice`: whether a request body parses, and
/// how it fails. A syntax, end-of-input or read fault means the body is not
/// JSON; a data fault means it is JSON of the wrong shape.
#[verifier::external_body]
pub(crate) fn json_parse_fault(bytes: &[u8]) -> (r: Option<ParseFault>)
    ensures
        r == parse_fault_of(bytes@),
{
    match serde_json::from_slice::<serde_json::Value>(bytes) {
        Ok(_) => None,
        Err(e) => Some(match e.classify() {
            serde_json::error::Category::Data => ParseFault::BadJson,
            _ => ParseFault::NotJson,
        }),
    }
}

/// One field of a JSON object, reduced to what the endpoints read: absent,
/// null, a string, an object, or anything else; objects and other values
/// carry their JSON text.
pub enum FieldValue {
    Absent,
    Null,
    Str(String),
    Obj(String),
    Other(String),
}

pub ghost enum FieldValueV {
    Absent,
    Null,
    Str(Seq<char>),
    Obj(Seq<char>),
    Other(Seq<char>),
}

impl View for FieldValue {
    type V = FieldValueV;

    open spec fn view(&self) -> FieldValueV {
        match self {
            FieldValue::Absent => FieldValueV::Absent,
            FieldValue::Null => FieldValueV::Null,
            FieldValue::Str(s) => FieldValueV::Str(s@),
            FieldValue::Obj(s) => FieldValueV::Obj(s@),
            FieldValue::Other(s) => FieldValueV::Other(s@),
        }
    }
}

/// Relies on `serde_json::from_slice`, `Value::get` and the `Display` of
/// `Value`: reads one field of the JSON document in `bytes` and reduces it
/// to a `FieldValue`. Deterministic in the bytes and the key; on a document
/// that is not an object every field is absent, and on bytes that do not
/// parse the result is unspecified.
#[verifier::external_body]
pub(crate) fn json_field(bytes: &[u8], key: &str) -> (r: FieldValue)
    ensures
        parse_fault_of(bytes@) is None ==> r@ == field_of(bytes@, key@),
{
    let v: serde_json::Value = match serde_json::from_slice(bytes) {
        Ok(v) => v,
        Err(_) => return FieldValue::Absent,
    };
    match v.get(key) {
        None => FieldValue::Absent,
        Some(serde_json::Value::Null) => FieldValue::Null,
        Some(serde_json::Value::String(s)) => FieldValue::Str(s.clone()),
        Some(o @ serde_json::Value::Object(_)) => FieldValue::Obj(o.to_string()),
        Some(other) => FieldValue::Other(other.to_string()),
    }
}

} // verus!
