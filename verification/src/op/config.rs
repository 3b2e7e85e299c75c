//! Reading an operator's configuration.
//!
//! A configuration is an object whose members are the operator's settings. These
//! functions fetch one setting and insist on its shape, so that a construction
//! can fail on the first member that is missing or malformed.
use crate::value::{field, items, items_of, kind_of, member, text, text_of, ValueKind};
use serde_json::Value;
use vstd::prelude::*;

verus! {

/// The character sequences that a list of strings holds, in order.
pub open spec fn texts(strings: Seq<String>) -> Seq<Seq<char>> {
    Seq::new(strings.len(), |i: int| strings[i]@)
}

/// The text of member `key` of `v`, where `v` is an object whose member `key`
/// is a string.
pub open spec fn text_member(v: Value, key: Seq<char>) -> Option<Seq<char>> {
    match member(v, key) {
        Some(m) => if kind_of(m) == ValueKind::String {
            Some(text_of(m))
        } else {
            None
        },
        None => None,
    }
}

/// Every element of `elements` is a string.
pub open spec fn all_text(elements: Seq<Value>) -> bool {
    forall|i: int|
        0 <= i < elements.len() ==> kind_of(#[trigger] elements[i]) == ValueKind::String
}

/// The texts of member `key` of `v`, where `v` is an object whose member `key`
/// is an array of strings and of nothing else.
pub open spec fn texts_member(v: Value, key: Seq<char>) -> Option<Seq<Seq<char>>> {
    match member(v, key) {
        Some(m) => if kind_of(m) == ValueKind::Array && all_text(items_of(m)) {
            Some(Seq::new(items_of(m).len(), |i: int| text_of(items_of(m)[i])))
        } else {
            None
        },
        None => None,
    }
}

/// Whether two strings hold the same characters.
pub fn same_text(a: &str, b: &str) -> (same: bool)
    ensures
        same == (a@ == b@),
{
    a.to_owned() == b.to_owned()
}

/// Fetches a setting that has to be a string.
pub fn text_setting(opts: &Value, key: &str) -> (r: Option<String>)
    ensures
        match r {
            Some(s) => text_member(*opts, key@) == Some(s@),
            None => text_member(*opts, key@) is None,
        },
{
    match field(opts, key) {
        Some(m) => match text(m) {
            Some(s) => Some(s.to_owned()),
            None => None,
        },
        None => None,
    }
}

/// Fetches a setting that has to be an array of strings.
pub fn texts_setting(opts: &Value, key: &str) -> (r: Option<Vec<String>>)
    ensures
        match r {
            Some(list) => texts_member(*opts, key@) == Some(texts(list@)),
            None => texts_member(*opts, key@) is None,
        },
{
    let elements = match field(opts, key) {
        Some(m) => match items(m) {
            Some(elements) => elements,
            None => {
                return None;
            },
        },
        None => {
            return None;
        },
    };
    let ghost array = member(*opts, key@)->Some_0;
    let mut list: Vec<String> = Vec::new();
    let mut i: usize = 0;
    while i < elements.len()
        invariant
            i <= elements.len(),
            member(*opts, key@) == Some(array),
            kind_of(array) == ValueKind::Array,
            elements@ == items_of(array),
            list@.len() == i,
            forall|j: int| 0 <= j < i ==> kind_of(#[trigger] elements@[j]) == ValueKind::String,
            forall|j: int| 0 <= j < i ==> (#[trigger] list@[j])@ == text_of(elements@[j]),
        decreases elements.len() - i,
    {
        match text(&elements[i]) {
            Some(s) => {
                list.push(s.to_owned());
            },
            None => {
                assert(kind_of(elements@[i as int]) != ValueKind::String);
                return None;
            },
        }
        i += 1;
    }
    assert(texts(list@) =~= Seq::new(elements@.len(), |i: int| text_of(elements@[i])));
    Some(list)
}

} // verus!
