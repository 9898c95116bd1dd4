//! The JSON reader the layout is parsed with: serde_json's document model,
//! taken one level at a time.

use vstd::prelude::*;

verus! {

#[verifier::external_type_specification]
#[verifier::external_body]
pub struct ExValue(serde_json::Value);

#[verifier::external_type_specification]
#[verifier::external_body]
pub struct ExNumber(serde_json::Number);

#[verifier::external_type_specification]
#[verifier::external_body]
pub struct ExJsonError(serde_json::Error);

/// A JSON document as a mathematical value. Numbers stay serde_json numbers;
/// the members of an object are listed in the order the object gives them.
pub enum JsonView {
    Null,
    Bool(bool),
    Number(serde_json::Number),
    Text(Seq<char>),
    Array(Seq<JsonView>),
    Object(Seq<(Seq<char>, JsonView)>),
}

/// The document that serde_json reads from `text`, or none when the text is
/// not JSON.
pub uninterp spec fn json_of(text: Seq<char>) -> Option<JsonView>;

/// What a serde_json value holds.
pub uninterp spec fn json_value(v: serde_json::Value) -> JsonView;

/// The value a serde_json number has as a `u64`: present when it is a
/// non-negative integer that fits.
pub uninterp spec fn u64_of(n: serde_json::Number) -> Option<u64>;

pub open spec fn values_view(vs: Seq<serde_json::Value>) -> Seq<JsonView> {
    vs.map_values(|v: serde_json::Value| json_value(v))
}

pub open spec fn members_view(ms: Seq<(String, serde_json::Value)>) -> Seq<(Seq<char>, JsonView)> {
    ms.map_values(|m: (String, serde_json::Value)| (m.0@, json_value(m.1)))
}

/// One JSON value, with its children left as serde_json values.
pub enum JsonNode {
    Null,
    Bool(bool),
    Number(serde_json::Number),
    Text(String),
    Array(Vec<serde_json::Value>),
    /// The members of an object, each key once.
    Object(Vec<(String, serde_json::Value)>),
}

/// Relies on serde_json::from_str to read a JSON document into a Value: it
/// fails exactly on text that is not JSON.
#[verifier::external_body]
pub(crate) fn parse_json(text: &str) -> (r: Result<serde_json::Value, serde_json::Error>)
    ensures
        match r {
            Ok(v) => json_of(text@) == Some(json_value(v)),
            Err(_) => json_of(text@) is None,
        },
{
    serde_json::from_str(text)
}

/// Relies on serde_json::Value's variants, and on Map::iter to list an
/// object's members.
#[verifier::external_body]
pub(crate) fn json_node(v: &serde_json::Value) -> (r: JsonNode)
    ensures
        match r {
            JsonNode::Null => json_value(*v) == JsonView::Null,
            JsonNode::Bool(b) => json_value(*v) == JsonView::Bool(b),
            JsonNode::Number(n) => json_value(*v) == JsonView::Number(n),
            JsonNode::Text(s) => json_value(*v) == JsonView::Text(s@),
            JsonNode::Array(a) => json_value(*v) == JsonView::Array(values_view(a@)),
            JsonNode::Object(m) => json_value(*v) == JsonView::Object(members_view(m@)),
        },
{
    match v {
        serde_json::Value::Null => JsonNode::Null,
        serde_json::Value::Bool(b) => JsonNode::Bool(*b),
        serde_json::Value::Number(n) => JsonNode::Number(n.clone()),
        serde_json::Value::String(s) => JsonNode::Text(s.clone()),
        serde_json::Value::Array(a) => JsonNode::Array(a.clone()),
        serde_json::Value::Object(m) => JsonNode::Object(
            m.iter().map(|(k, x)| (k.clone(), x.clone())).collect(),
        ),
    }
}

/// serde_json::Number::as_u64: the number as a `u64`, when it is a
/// non-negative integer.
pub assume_specification[ serde_json::Number::as_u64 ](n: &serde_json::Number) -> (r: Option<u64>)
    ensures
        r == u64_of(*n),
;

/// serde_json::Number's derived `Clone`: the copy is equal to the number copied.
pub assume_specification[ <serde_json::Number as Clone>::clone ](n: &serde_json::Number) -> (r:
    serde_json::Number)
    ensures
        r == *n,
;

} // verus!
