//! JSON documents, as `serde_json` reads them.
//!
//! A document is modelled by its nodes: a map from a path of object keys to
//! what stands there. The document itself stands under the empty path, and
//! each member of an object under the object's path followed by the member's
//! key. What stands inside an array has no path.

use vstd::prelude::*;

verus! {

/// `serde_json::Value`, a parsed document. Nothing of its inside is known
/// but what `json_nodes` says.
#[verifier::external_type_specification]
#[verifier::external_body]
pub struct ExValue(serde_json::Value);

/// `serde_json::Error`, why a text is no document. It is only passed on.
#[verifier::external_type_specification]
#[verifier::external_body]
pub struct ExJsonError(serde_json::Error);

/// What stands at one place of a document.
pub enum JsonNode {
    Null,
    Bool(bool),
    /// A number that is an integer in the range of `i64`.
    Int(i64),
    /// Any other number.
    Number,
    Text(Seq<char>),
    Array,
    Object,
}

/// A path of object keys.
pub type JsonPath = Seq<Seq<char>>;

/// The nodes of a document by their paths.
pub type JsonNodes = Map<JsonPath, JsonNode>;

/// The nodes of a parsed document.
pub uninterp spec fn json_nodes(v: serde_json::Value) -> JsonNodes;

/// The nodes of the document that a text is read as, where it is JSON.
pub uninterp spec fn json_parsed(text: Seq<char>) -> Option<JsonNodes>;

/// The nodes below the member `key`, by their paths from there.
pub open spec fn below(nodes: JsonNodes, key: Seq<char>) -> JsonNodes {
    Map::new(
        |p: JsonPath| nodes.contains_key(seq![key] + p),
        |p: JsonPath| nodes[seq![key] + p],
    )
}

/// Whether a node stands at `path` and at each path that leads there.
pub open spec fn present_along(nodes: JsonNodes, path: JsonPath) -> bool
    decreases path.len(),
{
    path.len() == 0 || (present_along(nodes, path.drop_last()) && nodes.contains_key(path))
}

/// The integer at `path`, where one stands there.
pub open spec fn int_at(nodes: JsonNodes, path: JsonPath) -> Option<i64> {
    if nodes.contains_key(path) {
        match nodes[path] {
            JsonNode::Int(i) => Some(i),
            _ => None,
        }
    } else {
        None
    }
}

/// The string at `path`, where one stands there.
pub open spec fn text_at(nodes: JsonNodes, path: JsonPath) -> Option<Seq<char>> {
    if nodes.contains_key(path) {
        match nodes[path] {
            JsonNode::Text(s) => Some(s),
            _ => None,
        }
    } else {
        None
    }
}

/// `serde_json::from_str` for a `Value`: whether a text is read as a
/// document, and which, depends on the text alone.
#[verifier::external_body]
pub(crate) fn parse(text: &str) -> (r: Result<serde_json::Value, serde_json::Error>)
    ensures
        match r {
            Ok(v) => json_parsed(text@) == Some(json_nodes(v)),
            Err(_) => json_parsed(text@) is None,
        },
{
    serde_json::from_str(text)
}

/// `serde_json::Value::get` with a string key: the member of that name,
/// where the value is an object that has one. The member's nodes are the
/// value's nodes below the key.
#[verifier::external_body]
pub(crate) fn member<'a>(v: &'a serde_json::Value, key: &str) -> (r: Option<&'a serde_json::Value>)
    ensures
        match r {
            Some(m) => json_nodes(*v).contains_key(seq![key@]) && json_nodes(*m) == below(
                json_nodes(*v),
                key@,
            ),
            None => !json_nodes(*v).contains_key(seq![key@]),
        },
{
    v.get(key)
}

/// `serde_json::Value::as_i64`: the value as an integer, where it is a
/// number that is an integer in the range of `i64`.
#[verifier::external_body]
pub(crate) fn as_int(v: &serde_json::Value) -> (r: Option<i64>)
    ensures
        r == int_at(json_nodes(*v), Seq::empty()),
{
    v.as_i64()
}

/// `serde_json::Value::as_str`: the value as a string, where it is one.
#[verifier::external_body]
pub(crate) fn as_text<'a>(v: &'a serde_json::Value) -> (r: Option<&'a str>)
    ensures
        match r {
            Some(s) => text_at(json_nodes(*v), Seq::empty()) == Some(s@),
            None => text_at(json_nodes(*v), Seq::empty()) is None,
        },
{
    v.as_str()
}

} // verus!
