//! Reading JSON documents through `serde_json`.
//!
//! A parsed document stays a `serde_json::Value`. What it holds is the
//! [`JsonTree`] that `json_tree` names, and each accessor says over that tree
//! what it hands out.

use vstd::prelude::*;

verus! {

/// What a JSON value holds.
pub enum JsonTree {
    /// `null`.
    Null,
    /// `true` or `false`.
    Bool(bool),
    /// Any number.
    Number,
    /// A string.
    Text(Seq<char>),
    /// An array, in order.
    Array(Seq<JsonTree>),
    /// An object, by key.
    Object(Map<Seq<char>, JsonTree>),
}

/// The value type of `serde_json`. Verus sees nothing inside it.
#[verifier::external_type_specification]
#[verifier::external_body]
pub struct ExValue(serde_json::Value);

/// What a `serde_json::Value` holds.
pub uninterp spec fn json_tree(value: serde_json::Value) -> JsonTree;

/// What `serde_json::from_slice` makes of a document: the tree, or the text of
/// the error.
pub uninterp spec fn json_document(bytes: Seq<u8>) -> Result<JsonTree, Seq<char>>;

/// The member of `tree` under `key`: `null` where there is none.
pub open spec fn member(tree: JsonTree, key: Seq<char>) -> JsonTree {
    match tree {
        JsonTree::Object(members) if members.contains_key(key) => members[key],
        _ => JsonTree::Null,
    }
}

/// The text of `tree`, when it is a string.
pub open spec fn text(tree: JsonTree) -> Option<Seq<char>> {
    match tree {
        JsonTree::Text(s) => Some(s),
        _ => None,
    }
}

/// The items of `tree`, when it is an array.
pub open spec fn items(tree: JsonTree) -> Option<Seq<JsonTree>> {
    match tree {
        JsonTree::Array(s) => Some(s),
        _ => None,
    }
}

/// `serde_json::from_slice` into a `Value`: the document's value, or the error
/// in its displayed form, each determined by the bytes alone.
#[verifier::external_body]
pub(crate) fn parse_json(bytes: &[u8]) -> (r: Result<serde_json::Value, String>)
    ensures
        match r {
            Ok(value) => json_document(bytes@) == Ok::<JsonTree, Seq<char>>(json_tree(value)),
            Err(e) => json_document(bytes@) == Err::<JsonTree, Seq<char>>(e@),
        },
{
    serde_json::from_slice(bytes).map_err(|e| e.to_string())
}

/// Indexing a `serde_json::Value` by a string: the member under that key, and
/// `null` where the value is no object or has no such key.
#[verifier::external_body]
pub(crate) fn json_member<'a>(value: &'a serde_json::Value, key: &str) -> (r: &'a serde_json::Value)
    ensures
        json_tree(*r) == member(json_tree(*value), key@),
{
    &value[key]
}

/// `serde_json::Value::as_str`: the text of a string value, and nothing for any
/// other value.
pub assume_specification[ serde_json::Value::as_str ](value: &serde_json::Value) -> (r: Option<&str>)
    ensures
        match r {
            Some(s) => text(json_tree(*value)) == Some(s@),
            None => text(json_tree(*value)) is None,
        },
;

/// `serde_json::Value::as_array`: the items of an array value, in order, and
/// nothing for any other value.
pub assume_specification[ serde_json::Value::as_array ](value: &serde_json::Value) -> (r: Option<
    &Vec<serde_json::Value>,
>)
    ensures
        match r {
            Some(v) => items(json_tree(*value)) == Some(
                v@.map_values(|x: serde_json::Value| json_tree(x)),
            ),
            None => items(json_tree(*value)) is None,
        },
;

/// What is read of a document: a member of an object under its key, the text of a
/// string and the items of an array, and nothing of anything else.
pub proof fn law_only_what_is_there_is_read(
    members: Map<Seq<char>, JsonTree>,
    key: Seq<char>,
    tree: JsonTree,
    s: Seq<char>,
    list: Seq<JsonTree>,
)
    ensures
        members.contains_key(key) ==> member(JsonTree::Object(members), key) == members[key],
        !members.contains_key(key) ==> member(JsonTree::Object(members), key) is Null,
        !(tree is Object) ==> member(tree, key) is Null,
        text(JsonTree::Text(s)) == Some(s),
        !(tree is Text) ==> text(tree) is None,
        items(JsonTree::Array(list)) == Some(list),
        !(tree is Array) ==> items(tree) is None,
{
}

} // verus!
