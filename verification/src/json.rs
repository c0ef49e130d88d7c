//! JSON values, as `serde_json` parses, holds and prints them.
//!
//! A `serde_json::Value` is opaque to the proofs. What it holds is named by
//! [`json_of`], and each function of `serde_json` that the library calls is
//! stated over that name.
//!
//! What is stated holds of `serde_json` with its default features. `raw_value`
//! in particular has to stay off: with it the parser starts anew inside certain
//! objects, and its limit on nesting no longer bounds the stack it takes. The
//! default features of axum turn it on, so axum is used without them.
use vstd::prelude::*;

verus! {

/// What a JSON value holds.
pub enum Json {
    Null,
    Bool(bool),
    /// A number that is held as an integer: one from `i64::MIN` to `u64::MAX`.
    Integer(int),
    /// A number that is held as a double, by the bits of that double.
    Float(u64),
    Text(Seq<char>),
    Array(Seq<Json>),
    Object(Map<Seq<char>, Json>),
}

impl Json {
    /// The member of an object under `key`, if this is an object that has one.
    pub open spec fn member(self, key: Seq<char>) -> Option<Json> {
        match self {
            Json::Object(members) => if members.contains_key(key) {
                Some(members[key])
            } else {
                None
            },
            _ => None,
        }
    }

    /// The characters of a JSON string.
    pub open spec fn text(self) -> Option<Seq<char>> {
        match self {
            Json::Text(text) => Some(text),
            _ => None,
        }
    }

    /// The value of an integer that fits in an `i64`.
    pub open spec fn integer(self) -> Option<i64> {
        match self {
            Json::Integer(n) => if i64::MIN <= n <= i64::MAX {
                Some(n as i64)
            } else {
                None
            },
            _ => None,
        }
    }

    /// Whether this holds no double and no reserved key, and nests at most
    /// `depth` arrays and objects in one another.
    pub open spec fn plain_within(self, depth: nat) -> bool
        decreases depth,
    {
        match self {
            Json::Float(_) => false,
            Json::Array(items) => depth > 0 && forall|i: int|
                0 <= i < items.len() ==> (#[trigger] items[i]).plain_within((depth - 1) as nat),
            Json::Object(members) => depth > 0 && forall|key: Seq<char>|
                members.contains_key(key) ==> !is_reserved_key(key) && (
                #[trigger] members[key]).plain_within((depth - 1) as nat),
            _ => true,
        }
    }
}

/// Whether `serde_json` keeps a key for itself: with some of its features on, it
/// reads an object under such a key as something else than an object.
pub open spec fn is_reserved_key(key: Seq<char>) -> bool {
    key == "$serde_json::private::RawValue"@ || key == "$serde_json::private::Number"@
}

/// How many arrays and objects the parser of `serde_json` lets nest.
pub const MAX_NESTING: u8 = 127;

/// The JSON value type of `serde_json`.
#[verifier::external_type_specification]
#[verifier::external_body]
pub struct ExValue(serde_json::Value);

/// The map type in which `serde_json` holds the members of an object.
#[verifier::external_type_specification]
#[verifier::external_body]
#[verifier::reject_recursive_types(K)]
#[verifier::reject_recursive_types(V)]
pub struct ExJsonMap<K, V>(serde_json::Map<K, V>);

/// The error type of `serde_json`.
#[verifier::external_type_specification]
#[verifier::external_body]
pub struct ExJsonError(serde_json::Error);

/// What a `serde_json::Value` holds.
pub uninterp spec fn json_of(value: serde_json::Value) -> Json;

/// What a `serde_json::Map` holds.
pub uninterp spec fn members_of(map: serde_json::Map<String, serde_json::Value>) -> Map<
    Seq<char>,
    Json,
>;

/// What `serde_json::from_slice` reads from some bytes, or `None` where it
/// refuses them.
pub uninterp spec fn parsed_bytes(bytes: Seq<u8>) -> Option<Json>;

/// What `serde_json::from_str` reads from some text, or `None` where it
/// refuses it.
pub uninterp spec fn parsed_text(text: Seq<char>) -> Option<Json>;

/// The compact text in which a `serde_json::Value` is displayed.
pub uninterp spec fn json_text(json: Json) -> Seq<char>;

/// Calls `serde_json::from_slice`, for a `serde_json::Value`.
///
/// Claimed of it: whether it succeeds, and what the value then holds, is a
/// function of the bytes. Bytes that nest deeper than [`MAX_NESTING`] are
/// refused, so that the call returns on every input.
#[verifier::external_body]
pub(crate) fn parse_bytes(bytes: &[u8]) -> (result: Result<serde_json::Value, serde_json::Error>)
    ensures
        match result {
            Ok(value) => parsed_bytes(bytes@) == Some(json_of(value)),
            Err(_) => parsed_bytes(bytes@) is None,
        },
{
    serde_json::from_slice(bytes)
}

/// Calls `serde_json::from_str`, for a `serde_json::Value`.
///
/// Claimed of it: whether it succeeds, and what the value then holds, is a
/// function of the text. Text that nests deeper than [`MAX_NESTING`] is refused,
/// so that the call returns on every input.
#[verifier::external_body]
pub(crate) fn parse_text(text: &str) -> (result: Result<serde_json::Value, serde_json::Error>)
    ensures
        match result {
            Ok(value) => parsed_text(text@) == Some(json_of(value)),
            Err(_) => parsed_text(text@) is None,
        },
{
    serde_json::from_str(text)
}

/// Calls `serde_json::Value::get` with a string index.
///
/// Claimed of it: it gives the member under that key where the value is an
/// object that has one, and nothing for any other value.
#[verifier::external_body]
pub(crate) fn value_member<'a>(value: &'a serde_json::Value, key: &str) -> (result: Option<
    &'a serde_json::Value,
>)
    ensures
        match result {
            Some(member) => json_of(*value).member(key@) == Some(json_of(*member)),
            None => json_of(*value).member(key@) is None,
        },
{
    value.get(key)
}

/// Calls `serde_json::Value::as_str`.
///
/// Claimed of it: it gives the characters of a string, and nothing for any
/// other value.
#[verifier::external_body]
pub(crate) fn value_text(value: &serde_json::Value) -> (result: Option<&str>)
    ensures
        match result {
            Some(text) => json_of(*value).text() == Some(text@),
            None => json_of(*value).text() is None,
        },
{
    value.as_str()
}

/// Calls `serde_json::Value::as_i64`.
///
/// Claimed of it: it gives the value of a number that is held as an integer and
/// fits, and nothing for a double, a larger integer or any other value.
#[verifier::external_body]
pub(crate) fn value_integer(value: &serde_json::Value) -> (result: Option<i64>)
    ensures
        result == json_of(*value).integer(),
{
    value.as_i64()
}

/// Calls `<serde_json::Value as From<&str>>::from`.
///
/// Claimed of it: it gives a JSON string of the same characters.
#[verifier::external_body]
pub(crate) fn text_value(text: &str) -> (value: serde_json::Value)
    ensures
        json_of(value) == Json::Text(text@),
{
    serde_json::Value::from(text)
}

/// Calls `<serde_json::Value as From<u16>>::from`.
///
/// Claimed of it: it gives the same number, held as an integer.
#[verifier::external_body]
pub(crate) fn integer_value(number: u16) -> (value: serde_json::Value)
    ensures
        json_of(value) == Json::Integer(number as int),
{
    serde_json::Value::from(number)
}

/// Calls `<serde_json::Value as From<serde_json::Map<String, Value>>>::from`.
///
/// Claimed of it: it gives an object with the members of the map.
#[verifier::external_body]
pub(crate) fn object_value(map: serde_json::Map<String, serde_json::Value>) -> (value:
    serde_json::Value)
    ensures
        json_of(value) == Json::Object(members_of(map)),
{
    serde_json::Value::from(map)
}

/// Calls `serde_json::Map::new`.
///
/// Claimed of it: the map has no members.
#[verifier::external_body]
pub(crate) fn new_map() -> (map: serde_json::Map<String, serde_json::Value>)
    ensures
        (members_of(map) == Map::<Seq<char>, Json>::empty()),
{
    serde_json::Map::new()
}

/// Calls `serde_json::Map::insert`.
///
/// Claimed of it: afterwards the map holds the value under the key, and its
/// other members are those it had; the member that was under the key, if any,
/// is given back.
#[verifier::external_body]
pub(crate) fn map_insert(
    map: &mut serde_json::Map<String, serde_json::Value>,
    key: String,
    value: serde_json::Value,
) -> (previous: Option<serde_json::Value>)
    ensures
        members_of(*final(map)) == members_of(*old(map)).insert(key@, json_of(value)),
        match previous {
            Some(member) => members_of(*old(map)).contains_key(key@) && members_of(
                *old(map),
            )[key@] == json_of(member),
            None => !members_of(*old(map)).contains_key(key@),
        },
{
    map.insert(key, value)
}

/// Calls `to_string` on a `serde_json::Value`, which displays it.
///
/// Claimed of it, of a value without doubles and reserved keys that nests no
/// deeper than the parser allows: the text is a function of what the value holds (the members
/// of an object are printed in the order of their keys), and
/// `serde_json::from_str` reads the same value back from it.
#[verifier::external_body]
pub(crate) fn value_to_text(value: &serde_json::Value) -> (text: String)
    requires
        json_of(*value).plain_within(MAX_NESTING as nat),
    ensures
        text@ == json_text(json_of(*value)),
        parsed_text(text@) == Some(json_of(*value)),
{
    value.to_string()
}

/// Only an object has members: under each of its keys what the key is mapped to,
/// and under no other key anything.
pub proof fn members_are_those_of_an_object(json: Json, key: Seq<char>, value: Json)
    ensures
        json.member(key) == Some(value) <==> (json matches Json::Object(members)
            && members.contains_key(key) && members[key] == value),
{
}

/// Only a string has characters: all of its own, in order.
pub proof fn characters_are_those_of_a_string(json: Json, text: Seq<char>)
    ensures
        json.text() == Some(text) <==> json == Json::Text(text),
{
}

/// Only a number that is held as an integer has a value: its own.
pub proof fn integers_are_read_exactly(json: Json, value: i64)
    ensures
        json.integer() == Some(value) <==> json == Json::Integer(value as int),
{
}

} // verus!
