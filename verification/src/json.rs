//! JSON values of the `serde_json` crate.

use crate::alike::Alike;
use serde_json::Value;
use vstd::prelude::*;

verus! {

/// A JSON value.
#[verifier::external_type_specification]
#[verifier::external_body]
pub struct ExValue(serde_json::Value);

/// The error of the JSON parser.
#[verifier::external_type_specification]
#[verifier::external_body]
pub struct ExJsonError(serde_json::Error);

/// What a JSON value holds.
pub enum JsonTree {
    Null,
    Bool(bool),
    /// An integer that is not negative and has at most 64 bits.
    Unsigned(u64),
    /// Any other number, as it is written.
    Number(Seq<char>),
    Text(Seq<char>),
    Array(Seq<JsonTree>),
    /// The members by name. They are kept and written in the order of their
    /// names.
    Object(Map<Seq<char>, JsonTree>),
}

/// What `value` holds.
pub uninterp spec fn json_of(value: serde_json::Value) -> JsonTree;

/// What parsing `text` as JSON gives, where it is JSON.
pub uninterp spec fn parsed_json(text: Seq<char>) -> Option<JsonTree>;

/// How `tree` is written as JSON, without any space.
pub uninterp spec fn json_text(tree: JsonTree) -> Seq<char>;

/// The member `key` of `tree`: null where there is none, and where `tree` is
/// no object.
pub open spec fn member_of(tree: JsonTree, key: Seq<char>) -> JsonTree {
    match tree {
        JsonTree::Object(members) => if members.contains_key(key) {
            members[key]
        } else {
            JsonTree::Null
        },
        _ => JsonTree::Null,
    }
}

/// The tree of a text that may be missing: null where it is.
pub open spec fn text_or_null(text: Option<Seq<char>>) -> JsonTree {
    match text {
        Some(text) => JsonTree::Text(text),
        None => JsonTree::Null,
    }
}

/// The tree of a list of texts.
pub open spec fn texts(items: Seq<Seq<char>>) -> JsonTree {
    JsonTree::Array(Seq::new(items.len(), |i: int| JsonTree::Text(items[i])))
}

/// The number that `tree` is, where it is not negative and has at most 64
/// bits.
pub open spec fn unsigned_of(tree: JsonTree) -> Option<u64> {
    match tree {
        JsonTree::Unsigned(n) => Some(n),
        _ => None,
    }
}

/// Whether `text` can stand between quotes in JSON as it is.
pub open spec fn is_plain(text: Seq<char>) -> bool {
    forall|i: int|
        0 <= i < text.len() ==> (#[trigger] text[i]) != '"' && text[i] != '\\' && text[i] as u32
            >= 0x20
}

/// Whether `text` writes `tree` as it should where that is null or a plain
/// text: null as `null`, and a plain text as it is, between quotes.
pub open spec fn writes_plainly(text: Seq<char>, tree: JsonTree) -> bool {
    &&& tree is Null ==> text == "null"@
    &&& match tree {
        JsonTree::Text(inner) => is_plain(inner) ==> text == seq!['"'] + inner + seq!['"'],
        _ => true,
    }
}

/// Whether `text` is how `tree` is written as JSON.
pub open spec fn writes(text: Seq<char>, tree: JsonTree) -> bool {
    text == json_text(tree) && writes_plainly(text, tree)
}

/// Calls `serde_json::from_str` for a `Value`. Whether the text is JSON, and
/// what it then holds, is a function of the text.
#[verifier::external_body]
pub(crate) fn parse_json(text: &str) -> (value: Result<Value, serde_json::Error>)
    ensures
        match value {
            Ok(value) => parsed_json(text@) == Some(json_of(value)),
            Err(_) => parsed_json(text@) is None,
        },
{
    serde_json::from_str(text)
}

/// Calls `Value::index` with a name, which gives that member of an object, and
/// null where there is none.
#[verifier::external_body]
pub(crate) fn member<'a>(value: &'a Value, key: &str) -> (member: &'a Value)
    ensures
        json_of(*member) == member_of(json_of(*value), key@),
{
    &value[key]
}

/// Calls `Value::as_u64`, which gives an integer that is not negative and has
/// at most 64 bits.
#[verifier::external_body]
pub(crate) fn as_u64(value: &Value) -> (number: Option<u64>)
    ensures
        number == unsigned_of(json_of(*value)),
{
    value.as_u64()
}

/// Calls `Value::as_array`, which gives the items of an array, in order.
#[verifier::external_body]
pub(crate) fn as_array(value: &Value) -> (items: Option<&Vec<Value>>)
    ensures
        match items {
            Some(items) => json_of(*value) == JsonTree::Array(
                Seq::new(items@.len(), |i: int| json_of(items@[i])),
            ),
            None => !(json_of(*value) is Array),
        },
{
    value.as_array()
}

/// Calls `Value::to_string`, which writes the value as JSON without any space.
/// Null is written as `null`, and a text that holds no quote, no backslash and
/// no control character is written as it is, between quotes.
#[verifier::external_body]
pub(crate) fn to_text(value: &Value) -> (text: String)
    ensures
        text@ == json_text(json_of(*value)),
        writes_plainly(text@, json_of(*value)),
{
    value.to_string()
}

/// Makes a `Value::Null`.
#[verifier::external_body]
pub(crate) fn null() -> (value: Value)
    ensures
        json_of(value) == JsonTree::Null,
{
    Value::Null
}

/// Calls `Value::from` with a truth value.
#[verifier::external_body]
pub(crate) fn from_bool(truth: bool) -> (value: Value)
    ensures
        json_of(value) == JsonTree::Bool(truth),
{
    Value::from(truth)
}

/// Calls `Value::from` with an integer.
#[verifier::external_body]
pub(crate) fn from_unsigned(number: u64) -> (value: Value)
    ensures
        json_of(value) == JsonTree::Unsigned(number),
{
    Value::from(number)
}

/// Calls `Value::from` with a text.
#[verifier::external_body]
pub(crate) fn from_text(text: &str) -> (value: Value)
    ensures
        json_of(value) == JsonTree::Text(text@),
{
    Value::from(text)
}

/// Calls `Value::from` with the items of an array, which keeps their order.
#[verifier::external_body]
pub(crate) fn from_items(items: Vec<Value>) -> (value: Value)
    ensures
        json_of(value) == JsonTree::Array(Seq::new(items@.len(), |i: int| json_of(items@[i]))),
{
    Value::from(items)
}

/// Makes a `Value::Object` that has no members.
#[verifier::external_body]
pub(crate) fn empty_object() -> (value: Value)
    ensures
        json_of(value) == JsonTree::Object(Map::empty()),
{
    Value::Object(Default::default())
}

/// Assigns to a member through `Value::index_mut`, which adds the member where
/// the object has none of that name.
#[verifier::external_body]
pub(crate) fn with_member(object: Value, key: &str, value: Value) -> (extended: Value)
    requires
        json_of(object) is Object,
    ensures
        json_of(extended) == JsonTree::Object(
            json_of(object)->Object_0.insert(key@, json_of(value)),
        ),
{
    let mut extended = object;
    extended[key] = value;
    extended
}

/// The JSON value of a text that may be missing.
pub(crate) fn from_text_or_null(text: &Option<String>) -> (value: Value)
    ensures
        json_of(value) == text_or_null(text.model()),
{
    match text {
        Some(text) => from_text(text.as_str()),
        None => null(),
    }
}

/// The JSON value of a list of texts.
pub(crate) fn from_texts(items: &Vec<String>) -> (value: Value)
    ensures
        json_of(value) == texts(items.model()),
{
    let mut values: Vec<Value> = Vec::new();
    let mut i: usize = 0;
    while i < items.len()
        invariant
            i <= items@.len(),
            values@.len() == i,
            forall|j: int|
                0 <= j < i ==> json_of(#[trigger] values@[j]) == JsonTree::Text(items@[j]@),
        decreases items@.len() - i,
    {
        values.push(from_text(items[i].as_str()));
        i += 1;
    }
    proof {
        assert(Seq::new(values@.len(), |j: int| json_of(values@[j])) =~= Seq::new(
            items.model().len(),
            |j: int| JsonTree::Text(items.model()[j]),
        ));
    }
    from_items(values)
}

} // verus!
