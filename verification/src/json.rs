//! JSON documents: a mathematical model of their content, and the calls into
//! `serde_json` that read, build, parse and print them.

use serde_json::Value;
use vstd::prelude::*;

verus! {

/// The content of a JSON document.
pub enum JsonDoc {
    Null,
    Bool(bool),
    /// A number held as a 64-bit integer, signed or unsigned.
    Integer(int),
    /// Any other number, told apart by the bits of its double-precision form.
    Real(u64),
    Text(Seq<char>),
    Array(Seq<JsonDoc>),
    Object(Map<Seq<char>, JsonDoc>),
}

impl JsonDoc {
    /// The members of an object without members.
    pub open spec fn no_members() -> Map<Seq<char>, JsonDoc> {
        Map::empty()
    }

    /// The member stored under `key`, if this is an object that has one.
    pub open spec fn field(self, key: Seq<char>) -> Option<JsonDoc> {
        match self {
            JsonDoc::Object(members) => if members.contains_key(key) {
                Some(members[key])
            } else {
                None
            },
            _ => None,
        }
    }

    /// The characters of the string stored under `key`.
    pub open spec fn text_field(self, key: Seq<char>) -> Option<Seq<char>> {
        match self.field(key) {
            Some(found) => found.as_text(),
            None => None,
        }
    }

    /// The non-negative integer stored under `key`.
    pub open spec fn unsigned_field(self, key: Seq<char>) -> Option<u64> {
        match self.field(key) {
            Some(found) => found.as_unsigned(),
            None => None,
        }
    }

    /// The signed integer stored under `key`.
    pub open spec fn signed_field(self, key: Seq<char>) -> Option<i64> {
        match self.field(key) {
            Some(found) => found.as_signed(),
            None => None,
        }
    }

    /// The characters of a string document.
    pub open spec fn as_text(self) -> Option<Seq<char>> {
        match self {
            JsonDoc::Text(chars) => Some(chars),
            _ => None,
        }
    }

    /// The value of an integer document that is not negative.
    pub open spec fn as_unsigned(self) -> Option<u64> {
        match self {
            JsonDoc::Integer(n) => if 0 <= n <= u64::MAX {
                Some(n as u64)
            } else {
                None
            },
            _ => None,
        }
    }

    /// The value of an integer document that fits a signed 64-bit integer.
    pub open spec fn as_signed(self) -> Option<i64> {
        match self {
            JsonDoc::Integer(n) => if i64::MIN <= n <= i64::MAX {
                Some(n as i64)
            } else {
                None
            },
            _ => None,
        }
    }

    /// The elements of an array document.
    pub open spec fn items(self) -> Option<Seq<JsonDoc>> {
        match self {
            JsonDoc::Array(elements) => Some(elements),
            _ => None,
        }
    }
}

/// `serde_json::Value`, carried through as an opaque value.
#[verifier::external_type_specification]
#[verifier::external_body]
pub struct ExValue(serde_json::Value);

/// `serde_json::Error`, carried through as an opaque value.
#[verifier::external_type_specification]
#[verifier::external_body]
pub struct ExJsonError(serde_json::Error);

/// `serde_json::Map`, carried through as an opaque value.
#[verifier::external_type_specification]
#[verifier::external_body]
#[verifier::reject_recursive_types(K)]
#[verifier::reject_recursive_types(V)]
pub struct ExJsonMap<K, V>(serde_json::Map<K, V>);

/// The members of a JSON object, as `serde_json` holds them.
pub type Members = serde_json::Map<String, Value>;

/// The document that a `Value` holds. A number that `serde_json` keeps as an
/// unsigned or a negative integer is an `Integer`, one that it keeps as a
/// double is a `Real`; the other variants stand for themselves.
pub uninterp spec fn doc_of(value: Value) -> JsonDoc;

/// The document that `serde_json::from_str` reads from a text, or `None` where
/// it rejects the text.
pub uninterp spec fn json_parsed(text: Seq<char>) -> Option<JsonDoc>;

/// The text that `serde_json::to_string_pretty` prints for a document, or
/// `None` where it fails.
pub uninterp spec fn json_text(doc: JsonDoc) -> Option<Seq<char>>;

/// The members that a `serde_json::Map` holds, each as a document under its key.
pub uninterp spec fn members_of(members: Members) -> Map<Seq<char>, JsonDoc>;

/// The documents held by a sequence of values, in order.
pub open spec fn docs_of(values: Seq<Value>) -> Seq<JsonDoc> {
    values.map_values(|v: Value| doc_of(v))
}

/// `serde_json::from_str`, read as a `Value`. The result is a function of the
/// text alone: the contract names it and claims nothing more.
#[verifier::external_body]
pub(crate) fn parse(text: &str) -> (r: Result<Value, serde_json::Error>)
    ensures
        match r {
            Ok(value) => json_parsed(text@) == Some(doc_of(value)),
            Err(_) => json_parsed(text@) is None,
        },
{
    serde_json::from_str::<Value>(text)
}

/// `serde_json::to_string_pretty` on a `Value`. With the crate's default
/// features an object keeps its members sorted by key, so the text printed is a
/// function of the document: the contract names it and claims nothing more.
#[verifier::external_body]
pub(crate) fn render(value: &Value) -> (r: Result<String, serde_json::Error>)
    ensures
        match r {
            Ok(text) => json_text(doc_of(*value)) == Some(text@),
            Err(_) => json_text(doc_of(*value)) is None,
        },
{
    serde_json::to_string_pretty(value)
}

/// `Value::get` with a string key: the member of an object under that key, and
/// `None` for a missing key or a value that is no object.
#[verifier::external_body]
pub(crate) fn member<'a>(value: &'a Value, key: &str) -> (r: Option<&'a Value>)
    ensures
        match r {
            Some(found) => doc_of(*value).field(key@) == Some(doc_of(*found)),
            None => doc_of(*value).field(key@) is None,
        },
{
    value.get(key)
}

/// `Value::as_str`: the characters of a string value, `None` for any other.
#[verifier::external_body]
pub(crate) fn text_of<'a>(value: &'a Value) -> (r: Option<&'a str>)
    ensures
        match r {
            Some(chars) => doc_of(*value).as_text() == Some(chars@),
            None => doc_of(*value).as_text() is None,
        },
{
    value.as_str()
}

/// `Value::as_u64`: the value of a number held as a non-negative integer,
/// `None` for a negative or fractional number and for any other value.
#[verifier::external_body]
pub(crate) fn unsigned_of(value: &Value) -> (r: Option<u64>)
    ensures
        r == doc_of(*value).as_unsigned(),
{
    value.as_u64()
}

/// `Value::as_i64`: the value of a number held as an integer that fits `i64`,
/// `None` for a larger or fractional number and for any other value.
#[verifier::external_body]
pub(crate) fn signed_of(value: &Value) -> (r: Option<i64>)
    ensures
        r == doc_of(*value).as_signed(),
{
    value.as_i64()
}

/// `Value::as_array`: the elements of an array value, `None` for any other.
#[verifier::external_body]
pub(crate) fn items_of<'a>(value: &'a Value) -> (r: Option<&'a Vec<Value>>)
    ensures
        match r {
            Some(elements) => doc_of(*value).items() == Some(docs_of(elements@)),
            None => doc_of(*value).items() is None,
        },
{
    value.as_array()
}

/// The variant `Value::String`: a string value with the given characters.
#[verifier::external_body]
pub(crate) fn text_value(chars: String) -> (r: Value)
    ensures
        doc_of(r) == JsonDoc::Text(chars@),
{
    Value::String(chars)
}

/// `Value::from` on a `u64`: a number value held as that integer.
#[verifier::external_body]
pub(crate) fn unsigned_value(n: u64) -> (r: Value)
    ensures
        doc_of(r) == JsonDoc::Integer(n as int),
{
    Value::from(n)
}

/// The variant `Value::Array`: an array value with the given elements.
#[verifier::external_body]
pub(crate) fn array_value(elements: Vec<Value>) -> (r: Value)
    ensures
        doc_of(r) == JsonDoc::Array(docs_of(elements@)),
{
    Value::Array(elements)
}

/// `Map::new`: a map without members.
#[verifier::external_body]
pub(crate) fn no_members() -> (r: Members)
    ensures
        members_of(r) == JsonDoc::no_members(),
{
    serde_json::Map::new()
}

/// `Map::insert`: the value is stored under the key, in place of what the key
/// held before.
#[verifier::external_body]
pub(crate) fn put_member(members: &mut Members, key: String, value: Value)
    ensures
        members_of(*final(members)) == members_of(*old(members)).insert(key@, doc_of(value)),
{
    members.insert(key, value);
}

/// The variant `Value::Object`: an object value with the given members.
#[verifier::external_body]
pub(crate) fn object_value(members: Members) -> (r: Value)
    ensures
        doc_of(r) == JsonDoc::Object(members_of(members)),
{
    Value::Object(members)
}

/// The detail of the error for a text that is JSON of another shape.
pub open spec fn shape_detail() -> Seq<char> {
    "document does not have the expected shape"@
}

/// The detail of the error for a text that is JSON of another shape, as a
/// string.
pub(crate) fn shape_mismatch() -> (detail: String)
    ensures
        detail@ == shape_detail(),
{
    "document does not have the expected shape".to_owned()
}

/// The string that an object value holds under `key`, copied out.
pub(crate) fn text_field(value: &Value, key: &str) -> (r: Option<String>)
    ensures
        match r {
            Some(chars) => doc_of(*value).text_field(key@) == Some(chars@),
            None => doc_of(*value).text_field(key@) is None,
        },
{
    match member(value, key) {
        Some(found) => match text_of(found) {
            Some(chars) => Some(chars.to_owned()),
            None => None,
        },
        None => None,
    }
}

/// The non-negative integer that an object value holds under `key`.
pub(crate) fn unsigned_field(value: &Value, key: &str) -> (r: Option<u64>)
    ensures
        r == doc_of(*value).unsigned_field(key@),
{
    match member(value, key) {
        Some(found) => unsigned_of(found),
        None => None,
    }
}

/// The signed integer that an object value holds under `key`.
pub(crate) fn signed_field(value: &Value, key: &str) -> (r: Option<i64>)
    ensures
        r == doc_of(*value).signed_field(key@),
{
    match member(value, key) {
        Some(found) => signed_of(found),
        None => None,
    }
}

/// Stores a string under `key`.
pub(crate) fn put_text(members: &mut Members, key: &str, chars: &String)
    ensures
        members_of(*final(members)) == members_of(*old(members)).insert(
            key@,
            JsonDoc::Text(chars@),
        ),
{
    put_member(members, key.to_owned(), text_value(chars.clone()));
}

/// Stores a non-negative integer under `key`.
pub(crate) fn put_unsigned(members: &mut Members, key: &str, n: u64)
    ensures
        members_of(*final(members)) == members_of(*old(members)).insert(
            key@,
            JsonDoc::Integer(n as int),
        ),
{
    put_member(members, key.to_owned(), unsigned_value(n));
}

} // verus!
