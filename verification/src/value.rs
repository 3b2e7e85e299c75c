//! The structured value that flows through the engine.
//!
//! Events, function arguments and operator configurations are all
//! `serde_json::Value`s. The verifier does not look inside one: contracts speak
//! of what a value holds through `content_of`, and the functions at the end of
//! this file are the only places where the engine touches `serde_json`. Their
//! contracts are taken on trust from the behaviour of that crate.
use serde_json::Value;
use vstd::prelude::*;

verus! {

/// Trusted: `serde_json::Value`, declared so that it can stand in signatures and
/// fields. Nothing of its inside is visible to the verifier.
#[verifier::external_type_specification]
#[verifier::external_body]
pub struct ExValue(serde_json::Value);

/// The runtime shape of a value: one for each variant of `serde_json::Value`.
#[derive(Debug, Clone, Copy, PartialEq, Eq, Structural)]
pub enum ValueKind {
    Null,
    Bool,
    Number,
    String,
    Array,
    Object,
}

/// What a value holds, shape by shape. A string holds its characters, an array
/// its elements in order, an object its members by key. What a boolean or a
/// number holds plays no part in the engine's logic and is left out.
pub enum Content {
    Null,
    Bool,
    Number,
    String(Seq<char>),
    Array(Seq<Value>),
    Object(Map<Seq<char>, Value>),
}

/// What `v` holds. This is a name without a definition: all that is known of it
/// is what the trusted functions below say.
pub uninterp spec fn content_of(v: Value) -> Content;

/// Which of the six shapes a value has.
pub open spec fn kind_of(v: Value) -> ValueKind {
    match content_of(v) {
        Content::Null => ValueKind::Null,
        Content::Bool => ValueKind::Bool,
        Content::Number => ValueKind::Number,
        Content::String(_) => ValueKind::String,
        Content::Array(_) => ValueKind::Array,
        Content::Object(_) => ValueKind::Object,
    }
}

/// The characters of a string value.
pub open spec fn text_of(v: Value) -> Seq<char>
    recommends
        kind_of(v) == ValueKind::String,
{
    content_of(v)->String_0
}

/// The elements of an array value, in order.
pub open spec fn items_of(v: Value) -> Seq<Value>
    recommends
        kind_of(v) == ValueKind::Array,
{
    content_of(v)->Array_0
}

/// The members of an object value, by key.
pub open spec fn fields_of(v: Value) -> Map<Seq<char>, Value>
    recommends
        kind_of(v) == ValueKind::Object,
{
    content_of(v)->Object_0
}

/// The member `key` of `v`, where `v` is an object that has one.
pub open spec fn member(v: Value, key: Seq<char>) -> Option<Value> {
    if kind_of(v) == ValueKind::Object && fields_of(v).contains_key(key) {
        Some(fields_of(v)[key])
    } else {
        None
    }
}

/// Trusted: tells the variants of `serde_json::Value` apart. The variant found is
/// the shape of what the value holds.
#[verifier::external_body]
pub(crate) fn kind(v: &Value) -> (k: ValueKind)
    ensures
        k == kind_of(*v),
{
    match v {
        Value::Null => ValueKind::Null,
        Value::Bool(_) => ValueKind::Bool,
        Value::Number(_) => ValueKind::Number,
        Value::String(_) => ValueKind::String,
        Value::Array(_) => ValueKind::Array,
        Value::Object(_) => ValueKind::Object,
    }
}

/// Trusted: `<serde_json::Value as Clone>::clone`, a derived deep copy. The copy
/// is the same value as the one it was made from.
#[verifier::external_body]
pub(crate) fn duplicate(v: &Value) -> (r: Value)
    ensures
        r == *v,
{
    v.clone()
}

/// Trusted: `serde_json::Value::get` with a string index. It finds a member only
/// in an object, and then the one stored under exactly that key.
#[verifier::external_body]
pub(crate) fn field<'a>(v: &'a Value, key: &str) -> (r: Option<&'a Value>)
    ensures
        match r {
            Some(m) => member(*v, key@) == Some(*m),
            None => member(*v, key@) is None,
        },
{
    v.get(key)
}

/// Trusted: `serde_json::Value::as_str`. It hands out the text of a string value
/// and nothing for any other shape.
#[verifier::external_body]
pub(crate) fn text<'a>(v: &'a Value) -> (r: Option<&'a str>)
    ensures
        match r {
            Some(s) => content_of(*v) == Content::String(s@),
            None => kind_of(*v) != ValueKind::String,
        },
{
    v.as_str()
}

/// Trusted: `serde_json::Value::as_array`. It hands out the elements of an array
/// value and nothing for any other shape.
#[verifier::external_body]
pub(crate) fn items<'a>(v: &'a Value) -> (r: Option<&'a Vec<Value>>)
    ensures
        match r {
            Some(a) => content_of(*v) == Content::Array(a@),
            None => kind_of(*v) != ValueKind::Array,
        },
{
    v.as_array()
}

/// Trusted: assignment through `serde_json::Value`'s `IndexMut` with a string
/// index. On an object it stores `val` under `key`, replacing what was there, and
/// leaves every other member alone. It panics on anything but an object or null,
/// so only objects are admitted.
#[verifier::external_body]
pub(crate) fn with_field(v: Value, key: &str, val: Value) -> (r: Value)
    requires
        kind_of(v) == ValueKind::Object,
    ensures
        content_of(r) == Content::Object(fields_of(v).insert(key@, val)),
{
    let mut r = v;
    r[key] = val;
    r
}

/// Trusted: `serde_json::Value::from` on a `String`, which wraps it as a string
/// value holding exactly those characters.
#[verifier::external_body]
pub(crate) fn from_text(s: String) -> (r: Value)
    ensures
        content_of(r) == Content::String(s@),
{
    Value::from(s)
}

/// Trusted: `serde_json::Map::new` inside `serde_json::Value::Object`, an object
/// without members.
#[verifier::external_body]
pub(crate) fn empty_object() -> (r: Value)
    ensures
        content_of(r) == Content::Object(Map::empty()),
{
    Value::Object(serde_json::Map::new())
}

} // verus!
