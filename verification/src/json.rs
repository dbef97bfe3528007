//! JSON as the `serde_json` crate reads and writes it.
//!
//! Nothing here is proved. Each function below hands its work to
//! `serde_json`, and its contract says what that crate is trusted to do.

use vstd::prelude::*;

verus! {

/// `serde_json::Value`, a parsed JSON value. Nothing inside it is visible
/// to proofs: it is read through the functions below only.
#[verifier::external_type_specification]
#[verifier::external_body]
pub struct ExJsonValue(serde_json::Value);

/// `serde_json::Error`, the error of a failed parse. It is only told
/// apart from success.
#[verifier::external_type_specification]
#[verifier::external_body]
pub struct ExJsonError(serde_json::Error);

/// What a JSON value holds, as far as this crate reads it. The value of a
/// number is left out.
pub enum JsonTree {
    Null,
    Bool(bool),
    Number,
    Text(Seq<char>),
    Array(Seq<JsonTree>),
    Object(Map<Seq<char>, JsonTree>),
}

/// What the value `value` holds.
pub uninterp spec fn json_tree(value: serde_json::Value) -> JsonTree;

/// What `serde_json::from_slice` makes of `bytes`: the document that they
/// spell, or `None` where it reports an error.
pub uninterp spec fn parsed_json(bytes: Seq<u8>) -> Option<JsonTree>;

/// The text that `serde_json` writes for the JSON string `text`: the
/// characters between double quotes, escaped where JSON asks for it.
pub uninterp spec fn json_string_literal(text: Seq<char>) -> Seq<char>;

/// `serde_json::from_slice`, reading a `serde_json::Value`. The outcome is
/// a function of the bytes alone: `Ok` with the document where they are
/// well-formed JSON, an error where they are not.
#[verifier::external_body]
pub(crate) fn parse_json(bytes: &[u8]) -> (outcome: Result<serde_json::Value, serde_json::Error>)
    ensures
        match outcome {
            Ok(value) => parsed_json(bytes@) == Some(json_tree(value)),
            Err(_) => parsed_json(bytes@) is None,
        },
{
    serde_json::from_slice::<serde_json::Value>(bytes)
}

/// `serde_json::Value::get` with a string index: the member `key` of an
/// object, `None` where the value is no object or has no such member.
#[verifier::external_body]
pub(crate) fn value_member<'a>(value: &'a serde_json::Value, key: &str) -> (member: Option<
    &'a serde_json::Value,
>)
    ensures
        match member {
            Some(found) => json_tree(*value) matches JsonTree::Object(fields) && fields.contains_key(
                key@,
            ) && fields[key@] == json_tree(*found),
            None => !(json_tree(*value) matches JsonTree::Object(fields) && fields.contains_key(
                key@,
            )),
        },
{
    value.get(key)
}

/// `serde_json::Value::as_array`: the items of an array, in order, `None`
/// where the value is no array.
#[verifier::external_body]
pub(crate) fn value_items(value: &serde_json::Value) -> (items: Option<&Vec<serde_json::Value>>)
    ensures
        match items {
            Some(list) => json_tree(*value) matches JsonTree::Array(trees) && trees.len()
                == list@.len() && forall|i: int|
                0 <= i < list@.len() ==> trees[i] == json_tree(#[trigger] list@[i]),
            None => !(json_tree(*value) is Array),
        },
{
    value.as_array()
}

/// `serde_json::Value::as_str`: the text of a string, `None` where the
/// value is no string.
#[verifier::external_body]
pub(crate) fn value_text(value: &serde_json::Value) -> (text: Option<&str>)
    ensures
        match text {
            Some(s) => json_tree(*value) == JsonTree::Text(s@),
            None => !(json_tree(*value) is Text),
        },
{
    value.as_str()
}

/// The `Display` of a `serde_json::Value::String`: `text` written as a
/// JSON string literal.
#[verifier::external_body]
pub(crate) fn quote_json_string(text: &str) -> (literal: String)
    ensures
        literal@ == json_string_literal(text@),
{
    serde_json::Value::String(text.to_owned()).to_string()
}

} // verus!
