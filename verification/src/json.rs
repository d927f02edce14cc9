//! JSON documents. A document is kept as the `serde_json::Value` that the
//! parser returned; contracts speak of its mathematical model, `Json`.

use vstd::prelude::*;
use vstd::string::*;

verus! {

#[verifier::external_type_specification]
#[verifier::external_body]
pub struct ExValue(serde_json::Value);

#[verifier::external_type_specification]
#[verifier::external_body]
pub struct ExError(serde_json::Error);

/// A JSON number: an integer between `i64::MIN` and `u64::MAX`, or any
/// other number, told apart by the bits of its double.
pub enum Number {
    Integer(int),
    Real(u64),
}

/// A JSON value as a tree. An object maps each member's name to its value.
pub enum Json {
    Null,
    Bool(bool),
    Number(Number),
    Str(Seq<char>),
    Array(Seq<Json>),
    Object(Map<Seq<char>, Json>),
}

impl Json {
    /// The member under `key`, where this is an object that has one.
    pub open spec fn member(self, key: Seq<char>) -> Option<Json> {
        match self {
            Json::Object(members) => if members.contains_key(key) {
                Some(members[key])
            } else {
                None
            },
            _ => None,
        }
    }

    /// The text of a string value.
    pub open spec fn as_str(self) -> Option<Seq<char>> {
        match self {
            Json::Str(s) => Some(s),
            _ => None,
        }
    }

    /// The truth value of a boolean.
    pub open spec fn as_bool(self) -> Option<bool> {
        match self {
            Json::Bool(b) => Some(b),
            _ => None,
        }
    }

    /// The value of an integer that fits in 64 signed bits.
    pub open spec fn as_i64(self) -> Option<i64> {
        match self {
            Json::Number(Number::Integer(i)) => if i64::MIN <= i <= i64::MAX {
                Some(i as i64)
            } else {
                None
            },
            _ => None,
        }
    }

    /// An object with the member `key` set to the string `value`; any other
    /// value unchanged.
    pub open spec fn with_text(self, key: Seq<char>, value: Seq<char>) -> Json {
        match self {
            Json::Object(members) => Json::Object(members.insert(key, Json::Str(value))),
            other => other,
        }
    }
}

/// The tree that a `serde_json::Value` holds. The members of an object
/// have no order of their own here: `serde_json` keeps them sorted by
/// name, as long as its feature `preserve_order` is off.
pub uninterp spec fn json_view(value: serde_json::Value) -> Json;

/// What `serde_json::from_str` makes of a text: the document that the
/// text denotes, or nothing where the text is no JSON.
pub uninterp spec fn parsed(text: Seq<char>) -> Option<Json>;

/// What `to_string` makes of a `serde_json::Value` that holds this tree:
/// its serialization without white space.
pub uninterp spec fn compact_text(value: Json) -> Seq<char>;

/// Calls `serde_json::from_str` for a `serde_json::Value`. Trusted: whether
/// it succeeds, and the tree of the value it returns, depend on the text
/// alone. Which texts are JSON is not stated here.
#[verifier::external_body]
fn from_str(text: &str) -> (r: Result<serde_json::Value, serde_json::Error>)
    ensures
        match r {
            Ok(value) => parsed(text@) == Some(json_view(value)),
            Err(_) => parsed(text@) is None,
        },
{
    serde_json::from_str(text)
}

/// Calls `to_string` on a `serde_json::Error`. Nothing is claimed of the
/// message.
#[verifier::external_body]
fn error_text(error: &serde_json::Error) -> (message: String) {
    error.to_string()
}

/// Calls `serde_json::Value::get` with a string index. Trusted: an object
/// hands out the member of that name, if it has one; any other value has
/// no members.
#[verifier::external_body]
fn get<'a>(value: &'a serde_json::Value, key: &str) -> (r: Option<&'a serde_json::Value>)
    ensures
        match r {
            Some(found) => json_view(*value).member(key@) == Some(json_view(*found)),
            None => json_view(*value).member(key@) is None,
        },
{
    value.get(key)
}

/// Calls `serde_json::Value::as_str`. Trusted: a string value hands out
/// its text, any other value nothing.
#[verifier::external_body]
fn as_str<'a>(value: &'a serde_json::Value) -> (r: Option<&'a str>)
    ensures
        match r {
            Some(s) => json_view(*value).as_str() == Some(s@),
            None => json_view(*value).as_str() is None,
        },
{
    value.as_str()
}

/// Calls `serde_json::Value::as_bool`. Trusted: a boolean hands out its
/// truth value, any other value nothing.
#[verifier::external_body]
fn as_bool(value: &serde_json::Value) -> (r: Option<bool>)
    ensures
        r == json_view(*value).as_bool(),
{
    value.as_bool()
}

/// Calls `serde_json::Value::as_i64`. Trusted: an integer that fits in 64
/// signed bits is handed out, any other value is not.
#[verifier::external_body]
fn as_i64(value: &serde_json::Value) -> (r: Option<i64>)
    ensures
        r == json_view(*value).as_i64(),
{
    value.as_i64()
}

/// Calls `to_string` on a `serde_json::Value`. Trusted: the result depends
/// on the tree of the value alone. How a tree is written is not stated
/// here.
#[verifier::external_body]
fn to_text(value: &serde_json::Value) -> (text: String)
    ensures
        text@ == compact_text(json_view(*value)),
{
    value.to_string()
}

/// Calls `serde_json::Map::insert` on the members of an object, with a
/// string value. Trusted: an object gets or replaces that member; any
/// other value is left as it is.
#[verifier::external_body]
fn insert_text(value: &mut serde_json::Value, key: String, text: String)
    ensures
        json_view(*final(value)) == json_view(*old(value)).with_text(key@, text@),
{
    if let serde_json::Value::Object(members) = value {
        members.insert(key, serde_json::Value::String(text));
    }
}

/// Why a text is no document.
#[derive(Debug)]
pub struct ParseFailure {
    /// The parser's own words.
    pub message: String,
}

/// A parsed JSON document.
#[derive(Debug)]
pub struct Document {
    value: serde_json::Value,
}

impl View for Document {
    type V = Json;

    closed spec fn view(&self) -> Json {
        json_view(self.value)
    }
}

impl Document {
    /// Parses a text. Succeeds exactly on the texts that are JSON.
    pub fn parse(text: &str) -> (r: Result<Document, ParseFailure>)
        ensures
            match r {
                Ok(document) => parsed(text@) == Some(document@),
                Err(_) => parsed(text@) is None,
            },
    {
        match from_str(text) {
            Ok(value) => Ok(Document { value }),
            Err(error) => Err(ParseFailure { message: error_text(&error) }),
        }
    }

    /// Sets the member `key` of an object to a string; leaves any other
    /// document as it is.
    pub fn set_text(&mut self, key: &str, text: &str)
        ensures
            final(self)@ == old(self)@.with_text(key@, text@),
    {
        insert_text(&mut self.value, key.to_owned(), text.to_owned());
    }

    /// The compact serialization of the whole document.
    pub fn text(&self) -> (text: String)
        ensures
            text@ == compact_text(self@),
    {
        to_text(&self.value)
    }

    /// The text of the string member `key`.
    pub fn member_str(&self, key: &str) -> (r: Option<String>)
        ensures
            match r {
                Some(s) => member_str(self@, key@) == Some(s@),
                None => member_str(self@, key@) is None,
            },
    {
        match get(&self.value, key) {
            Some(found) => match as_str(found) {
                Some(s) => Some(s.to_owned()),
                None => None,
            },
            None => None,
        }
    }

    /// The truth value of the boolean member `key`.
    pub fn member_bool(&self, key: &str) -> (r: Option<bool>)
        ensures
            r == member_bool(self@, key@),
    {
        match get(&self.value, key) {
            Some(found) => as_bool(found),
            None => None,
        }
    }

    /// The value of the integer member `key`, if it fits in 64 signed bits.
    pub fn member_i64(&self, key: &str) -> (r: Option<i64>)
        ensures
            r == member_i64(self@, key@),
    {
        match get(&self.value, key) {
            Some(found) => as_i64(found),
            None => None,
        }
    }

    /// The compact serialization of the member `key`, whatever its shape.
    pub fn member_text(&self, key: &str) -> (r: Option<String>)
        ensures
            match r {
                Some(s) => member_text(self@, key@) == Some(s@),
                None => member_text(self@, key@) is None,
            },
    {
        match get(&self.value, key) {
            Some(found) => Some(to_text(found)),
            None => None,
        }
    }
}

/// The text of the string member `key` of a document.
pub open spec fn member_str(document: Json, key: Seq<char>) -> Option<Seq<char>> {
    match document.member(key) {
        Some(found) => found.as_str(),
        None => None,
    }
}

/// The truth value of the boolean member `key` of a document.
pub open spec fn member_bool(document: Json, key: Seq<char>) -> Option<bool> {
    match document.member(key) {
        Some(found) => found.as_bool(),
        None => None,
    }
}

/// The value of the 64-bit integer member `key` of a document.
pub open spec fn member_i64(document: Json, key: Seq<char>) -> Option<i64> {
    match document.member(key) {
        Some(found) => found.as_i64(),
        None => None,
    }
}

/// The serialization of the member `key` of a document.
pub open spec fn member_text(document: Json, key: Seq<char>) -> Option<Seq<char>> {
    match document.member(key) {
        Some(found) => Some(compact_text(found)),
        None => None,
    }
}

} // verus!
