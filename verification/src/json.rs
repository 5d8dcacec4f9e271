//! JSON as `serde_json` reads and writes it.
//!
//! Parsing a line and writing a string literal are left to `serde_json`. Its
//! values are opaque here: the contracts speak of the tree that a value
//! holds, and the few functions below are all that the crate believes of
//! `serde_json` without proof.

use vstd::prelude::*;

verus! {

/// The content of a JSON value.
pub ghost enum JsonTree {
    Null,
    Bool(bool),
    /// A number that `serde_json` holds as an integer, signed or unsigned.
    Integer(int),
    /// A number that `serde_json` holds as a floating-point value.
    Fraction,
    Text(Seq<char>),
    List(Seq<JsonTree>),
    /// An object: its members by key.
    Record(Map<Seq<char>, JsonTree>),
}

impl JsonTree {
    /// The member under `key`, where this is an object that has one.
    pub open spec fn member(self, key: Seq<char>) -> Option<JsonTree> {
        match self {
            JsonTree::Record(members) => if members.contains_key(key) {
                Some(members[key])
            } else {
                None
            },
            _ => None,
        }
    }
}

/// `serde_json::Value`, taken as it is.
#[verifier::external_type_specification]
#[verifier::external_body]
pub struct ExValue(serde_json::Value);

/// `serde_json::Error`, taken as it is.
#[verifier::external_type_specification]
#[verifier::external_body]
pub struct ExError(serde_json::Error);

/// The tree that a `serde_json::Value` holds: `Null`, `Bool`, `String`,
/// `Array` and `Object` as the variants of the same kind, a `Number` as
/// `Integer` where it is stored as `u64` or `i64` and as `Fraction` where it
/// is stored as `f64`.
pub uninterp spec fn tree_of(value: serde_json::Value) -> JsonTree;

/// The trees that a sequence of values holds, each at its place.
pub open spec fn trees_of(values: Seq<serde_json::Value>) -> Seq<JsonTree> {
    Seq::new(values.len(), |i: int| tree_of(values[i]))
}

/// The tree that `serde_json::from_str` reads from a text, `None` where it
/// rejects the text.
pub uninterp spec fn document(text: Seq<char>) -> Option<JsonTree>;

/// Whether a text stays on one line: no line end stands in it.
pub open spec fn one_line(text: Seq<char>) -> bool {
    forall|i: int| 0 <= i < text.len() ==> text[i] != '\n'
}

/// The JSON string literal that `serde_json::to_string` writes for a text:
/// the text in double quotes, with the characters escaped that JSON does not
/// take as they are.
pub uninterp spec fn json_string(text: Seq<char>) -> Seq<char>;

/// `serde_json::from_str` at `serde_json::Value`: the text parses to a value
/// exactly when `document` gives a tree, and then the value holds that tree.
#[verifier::external_body]
pub(crate) fn parse(text: &str) -> (r: Result<serde_json::Value, serde_json::Error>)
    ensures
        match r {
            Ok(value) => document(text@) == Some(tree_of(value)),
            Err(_) => document(text@) is None,
        },
{
    serde_json::from_str(text)
}

/// `serde_json::to_string` on a string slice: it gives the JSON string literal
/// of the text. It does not fail: a string slice always serializes, and the
/// bytes are written to a vector in memory. No line end stands in the
/// literal: one in the text is written as a backslash and the letter n.
#[verifier::external_body]
pub(crate) fn quote(text: &str) -> (r: Result<String, serde_json::Error>)
    ensures
        r is Ok,
        r->Ok_0@ == json_string(text@),
        one_line(r->Ok_0@),
{
    serde_json::to_string(text)
}

/// `serde_json::Value::get` with a string key: the member of that name where
/// the value is an object that has one, nothing otherwise.
#[verifier::external_body]
pub(crate) fn get<'a>(value: &'a serde_json::Value, key: &str) -> (r: Option<
    &'a serde_json::Value,
>)
    ensures
        match r {
            Some(found) => tree_of(*value).member(key@) == Some(tree_of(*found)),
            None => tree_of(*value).member(key@) is None,
        },
{
    value.get(key)
}

/// `serde_json::Value::as_str`: the text of a string, nothing for any other
/// value.
pub assume_specification[ serde_json::Value::as_str ](value: &serde_json::Value) -> (r: Option<
    &str,
>)
    ensures
        match r {
            Some(text) => tree_of(*value) == JsonTree::Text(text@),
            None => !(tree_of(*value) is Text),
        },
;

/// `serde_json::Value::as_bool`: the flag of a boolean, nothing for any other
/// value.
pub assume_specification[ serde_json::Value::as_bool ](value: &serde_json::Value) -> (r: Option<
    bool,
>)
    ensures
        match r {
            Some(flag) => tree_of(*value) == JsonTree::Bool(flag),
            None => !(tree_of(*value) is Bool),
        },
;

/// `serde_json::Value::as_i64`: the number, where it is an integer that fits
/// in `i64`; nothing for a larger integer, a fraction or any other value.
pub assume_specification[ serde_json::Value::as_i64 ](value: &serde_json::Value) -> (r: Option<
    i64,
>)
    ensures
        match r {
            Some(n) => tree_of(*value) == JsonTree::Integer(n as int),
            None => !(tree_of(*value) matches JsonTree::Integer(n) && i64::MIN <= n <= i64::MAX),
        },
;

/// `serde_json::Value::as_array`: the items of an array, each holding the
/// tree at its place; nothing for any other value.
pub assume_specification[ serde_json::Value::as_array ](value: &serde_json::Value) -> (r: Option<
    &Vec<serde_json::Value>,
>)
    ensures
        match r {
            Some(items) => tree_of(*value) == JsonTree::List(trees_of(items@)),
            None => !(tree_of(*value) is List),
        },
;

/// `serde_json::Value::is_object`: whether the value is an object.
pub assume_specification[ serde_json::Value::is_object ](value: &serde_json::Value) -> (r: bool)
    ensures
        r == (tree_of(*value) is Record),
;

} // verus!
