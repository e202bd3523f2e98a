//! JSON values, built and written through `serde_json`.

use vstd::prelude::*;

verus! {

/// A JSON value, of the `serde_json` crate.
#[verifier::external_type_specification]
#[verifier::external_body]
pub struct ExJsonValue(serde_json::Value);

/// A failure to write JSON, of the `serde_json` crate.
#[verifier::external_type_specification]
#[verifier::external_body]
pub struct ExJsonError(serde_json::Error);

/// The tree that a JSON value stands for.
pub enum JsonModel {
    Null,
    Bool(bool),
    /// A number, by its digits as they are written.
    Number(Seq<char>),
    Text(Seq<char>),
    List(Seq<JsonModel>),
    Object(Map<Seq<char>, JsonModel>),
}

/// The tree that a `serde_json::Value` holds.
pub uninterp spec fn json_model(v: serde_json::Value) -> JsonModel;

/// The bytes that `serde_json::to_vec` writes for a tree, if it can write
/// them. The members of an object are written in the order of their names,
/// as `serde_json::Map` keeps them where it is built without the feature
/// that keeps the order of insertion, as it is here.
pub uninterp spec fn json_encoding(m: JsonModel) -> Option<Seq<u8>>;

/// The models of a list of values, in order.
pub open spec fn json_models(items: Seq<serde_json::Value>) -> Seq<JsonModel> {
    Seq::new(items.len(), |i: int| json_model(items[i]))
}

/// The members of an object as they stand after each has been put in, in
/// order: a later member replaces an earlier one of the same name.
pub open spec fn json_members(members: Seq<(String, serde_json::Value)>) -> Map<
    Seq<char>,
    JsonModel,
>
    decreases members.len(),
{
    if members.len() == 0 {
        Map::empty()
    } else {
        json_members(members.drop_last()).insert(members.last().0@, json_model(members.last().1))
    }
}

/// Builds `serde_json::Value::String` from a string.
#[verifier::external_body]
pub(crate) fn json_string(s: &str) -> (r: serde_json::Value)
    ensures
        json_model(r) == JsonModel::Text(s@),
{
    serde_json::Value::String(s.to_string())
}

/// Builds `serde_json::Value::Array` from its items.
#[verifier::external_body]
pub(crate) fn json_array(items: Vec<serde_json::Value>) -> (r: serde_json::Value)
    ensures
        json_model(r) == JsonModel::List(json_models(items@)),
{
    serde_json::Value::Array(items)
}

/// Builds `serde_json::Value::Object` by collecting the members into a
/// `serde_json::Map`, which keeps one value per name.
#[verifier::external_body]
pub(crate) fn json_object(members: Vec<(String, serde_json::Value)>) -> (r: serde_json::Value)
    ensures
        json_model(r) == JsonModel::Object(json_members(members@)),
{
    serde_json::Value::Object(members.into_iter().collect())
}

/// Calls `serde_json::to_vec`. The contract names the bytes written as a
/// function of the tree that the value holds.
#[verifier::external_body]
pub(crate) fn json_to_vec(v: &serde_json::Value) -> (r: Result<Vec<u8>, serde_json::Error>)
    ensures
        match r {
            Ok(bytes) => json_encoding(json_model(*v)) == Some(bytes@),
            Err(_) => json_encoding(json_model(*v)) is None,
        },
{
    serde_json::to_vec(v)
}

/// Renders a `serde_json::Error` with its `Debug` form.
#[verifier::external_body]
pub(crate) fn json_error_text(e: &serde_json::Error) -> (r: String) {
    format!("{:?}", e)
}

} // verus!
