//! JSON values: what they hold, and the calls into `serde_json` that build, read, print and
//! parse them.

use serde_json::Value;
use vstd::prelude::*;

verus! {

/// A JSON object, as `serde_json` keeps it.
pub type JsonObject = serde_json::Map<String, Value>;

/// `serde_json::Value`, opaque here; [`json_view`] says what a value holds.
#[verifier::external_type_specification]
#[verifier::external_body]
pub struct ExValue(Value);

/// `serde_json::Map`, opaque here; [`object_view`] says what a map holds.
#[verifier::external_type_specification]
#[verifier::external_body]
#[verifier::reject_recursive_types(K)]
#[verifier::reject_recursive_types(V)]
pub struct ExMap<K, V>(serde_json::Map<K, V>);

/// What a JSON value holds. A number is an integer, or else a fraction given by its digits.
pub enum JsonView {
    Null,
    Bool(bool),
    Integer(int),
    Fraction(Seq<char>),
    Text(Seq<char>),
    Array(Seq<JsonView>),
    Object(Map<Seq<char>, JsonView>),
}

/// The contents of a `serde_json::Value`.
pub uninterp spec fn json_view(value: Value) -> JsonView;

/// The contents of a `serde_json::Map`: the members of a JSON object by their keys.
pub uninterp spec fn object_view(object: JsonObject) -> Map<Seq<char>, JsonView>;

/// The compact text that `serde_json` prints for a value with these contents. The members of an
/// object are printed in the order of their keys, as the feature `preserve_order` is off.
pub uninterp spec fn json_text(json: JsonView) -> Seq<char>;

/// What `serde_json` reads from a text that begins as a JSON text can, `None` if it is malformed.
pub uninterp spec fn parsed_json(text: Seq<char>) -> Option<JsonView>;

/// The contents of the elements of an array.
pub open spec fn array_view(items: Seq<Value>) -> Seq<JsonView> {
    items.map_values(|item: Value| json_view(item))
}

/// The contents of an object without members.
pub open spec fn no_members() -> Map<Seq<char>, JsonView> {
    Map::empty()
}

/// The contents of an optional value.
pub open spec fn optional_view(value: Option<Value>) -> Option<JsonView> {
    match value {
        Some(value) => Some(json_view(value)),
        None => None,
    }
}

/// The first character of `text` is white space or opens a JSON value.
pub open spec fn begins_as_json(text: Seq<char>) -> bool {
    text.len() > 0 && {
        let first = text[0];
        ||| first == ' ' || first == '\n' || first == '\t' || first == '\r'
        ||| first == '{' || first == '[' || first == '"' || first == '-'
        ||| first == 'n' || first == 't' || first == 'f'
        ||| '0' <= first <= '9'
    }
}

/// What `text` holds when it is read as JSON, `None` if it is not JSON.
pub open spec fn json_parse(text: Seq<char>) -> Option<JsonView> {
    if begins_as_json(text) {
        parsed_json(text)
    } else {
        None
    }
}

/// How deep `serde_json` follows nested arrays and objects when it parses.
pub open spec fn parse_depth() -> nat {
    127
}

/// No fraction occurs in `json`, and arrays and objects are nested at most `depth` deep.
pub open spec fn is_plain(json: JsonView, depth: nat) -> bool
    decreases depth,
{
    match json {
        JsonView::Fraction(_) => false,
        JsonView::Array(items) => depth > 0 && forall|i: int|
            0 <= i < items.len() ==> is_plain(#[trigger] items[i], (depth - 1) as nat),
        JsonView::Object(members) => depth > 0 && forall|key: Seq<char>| #[trigger]
            members.dom().contains(key) ==> is_plain(members[key], (depth - 1) as nat),
        _ => true,
    }
}

/// The parts of a JSON value.
pub enum JsonRef<'a> {
    Null,
    Bool(bool),
    Number,
    Text(&'a String),
    Array(&'a Vec<Value>),
    Object(&'a JsonObject),
}

/// Tells the variants of `serde_json::Value` apart, and lends what the variant holds.
#[verifier::external_body]
pub(crate) fn inspect(value: &Value) -> (parts: JsonRef<'_>)
    ensures
        match parts {
            JsonRef::Null => json_view(*value) == JsonView::Null,
            JsonRef::Bool(flag) => json_view(*value) == JsonView::Bool(flag),
            JsonRef::Number => json_view(*value) is Integer || json_view(*value) is Fraction,
            JsonRef::Text(text) => json_view(*value) == JsonView::Text(text@),
            JsonRef::Array(items) => json_view(*value) == JsonView::Array(array_view(items@)),
            JsonRef::Object(object) => json_view(*value) == JsonView::Object(object_view(*object)),
        },
{
    match value {
        Value::Null => JsonRef::Null,
        Value::Bool(flag) => JsonRef::Bool(*flag),
        Value::Number(_) => JsonRef::Number,
        Value::String(text) => JsonRef::Text(text),
        Value::Array(items) => JsonRef::Array(items),
        Value::Object(object) => JsonRef::Object(object),
    }
}

/// `serde_json::Value::Null`: the null value.
#[verifier::external_body]
pub(crate) fn json_null() -> (value: Value)
    ensures
        json_view(value) == JsonView::Null,
{
    Value::Null
}

/// `serde_json::Value::Bool`: a JSON boolean.
#[verifier::external_body]
pub(crate) fn json_bool(flag: bool) -> (value: Value)
    ensures
        json_view(value) == JsonView::Bool(flag),
{
    Value::Bool(flag)
}

/// `<serde_json::Value as From<i64>>::from`: the integer as a JSON number.
#[verifier::external_body]
pub(crate) fn json_integer(number: i64) -> (value: Value)
    ensures
        json_view(value) == JsonView::Integer(number as int),
{
    Value::from(number)
}

/// `serde_json::Value::String`: a JSON string.
#[verifier::external_body]
pub(crate) fn json_string(text: String) -> (value: Value)
    ensures
        json_view(value) == JsonView::Text(text@),
{
    Value::String(text)
}

/// `serde_json::Value::Array`: a JSON array of the given elements.
#[verifier::external_body]
pub(crate) fn json_array(items: Vec<Value>) -> (value: Value)
    ensures
        json_view(value) == JsonView::Array(array_view(items@)),
{
    Value::Array(items)
}

/// `serde_json::Value::Object`: a JSON object with the given members.
#[verifier::external_body]
pub(crate) fn json_object(object: JsonObject) -> (value: Value)
    ensures
        json_view(value) == JsonView::Object(object_view(object)),
{
    Value::Object(object)
}

/// `<serde_json::Value as Clone>::clone`: a value with the same contents.
pub assume_specification[ <Value as Clone>::clone ](value: &Value) -> (copy: Value)
    ensures
        json_view(copy) == json_view(*value),
;

/// `serde_json::Map::new`: an object without members.
#[verifier::external_body]
pub(crate) fn new_object() -> (object: JsonObject)
    ensures
        object_view(object) == no_members(),
{
    JsonObject::new()
}

/// `serde_json::Map::insert`: the key now has this value, and no other key changes.
#[verifier::external_body]
pub(crate) fn insert_member(object: &mut JsonObject, key: &str, value: Value)
    ensures
        object_view(*final(object)) == object_view(*old(object)).insert(key@, json_view(value)),
{
    object.insert(key.to_string(), value);
}

/// `serde_json::Map::get`: the value of the key, if the object has the key.
#[verifier::external_body]
pub(crate) fn get_member<'a>(object: &'a JsonObject, key: &str) -> (value: Option<&'a Value>)
    ensures
        match value {
            Some(value) => object_view(*object).dom().contains(key@) && json_view(*value)
                == object_view(*object)[key@],
            None => !object_view(*object).dom().contains(key@),
        },
{
    object.get(key)
}

/// The text holds no line break.
pub open spec fn is_one_line(text: Seq<char>) -> bool {
    forall|i: int| 0 <= i < text.len() ==> text[i] != '\n'
}

/// `<serde_json::Value as ToString>::to_string`: the compact JSON text of the value, on one line,
/// as the line breaks within strings are escaped and none is put between the members. A value
/// without fractions, nested no deeper than the parser goes, is read back as it was. Of a
/// fraction that is left unsaid: the parser may round it differently in the last digit.
#[verifier::external_body]
pub(crate) fn print_json(value: &Value) -> (text: String)
    ensures
        text@ == json_text(json_view(*value)),
        is_one_line(text@),
        is_plain(json_view(*value), parse_depth()) ==> json_parse(text@) == Some(
            json_view(*value),
        ),
{
    value.to_string()
}

/// `serde_json::from_str`: the value that the text holds, `None` where it reports an error. It
/// reports one for every text whose first character neither is white space nor opens a value.
#[verifier::external_body]
pub(crate) fn parse_json(text: &str) -> (value: Option<Value>)
    ensures
        begins_as_json(text@) ==> optional_view(value) == parsed_json(text@),
        !begins_as_json(text@) ==> value is None,
{
    serde_json::from_str(text).ok()
}

/// A value that may be missing has contents exactly if it is there, and then its own.
pub proof fn law_optional_contents(value: Option<Value>)
    ensures
        optional_view(value) is Some <==> value is Some,
        value is Some ==> optional_view(value)->0 == json_view(value->0),
{
}

} // verus!
