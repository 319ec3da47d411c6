//! The data that templates read, as a tree of JSON values.
//!
//! Templates look fields up by name at render time, so the data handed to the
//! template engine is a `serde_json::Value`. The library builds such values
//! through the constructors below and reasons about them through [`Json`],
//! the mathematical tree that a value stands for.

use vstd::prelude::*;

verus! {

/// The opaque JSON value of `serde_json`.
#[verifier::external_type_specification]
#[verifier::external_body]
pub struct ExJsonValue(serde_json::Value);

/// The opaque map of `serde_json`, which holds the members of an object.
#[verifier::external_type_specification]
#[verifier::external_body]
#[verifier::reject_recursive_types(K)]
#[verifier::reject_recursive_types(V)]
pub struct ExJsonMembers<K, V>(serde_json::Map<K, V>);

/// The members of a JSON object under construction.
pub type JsonMembers = serde_json::Map<String, serde_json::Value>;

/// A JSON tree as a mathematical value. Objects are maps: a member's position
/// carries no meaning, and a name occurs at most once. Numbers and `null`
/// have no variant: template data is built by the constructors of this
/// module alone, and none of them makes one.
pub ghost enum Json {
    Flag(bool),
    Text(Seq<char>),
    List(Seq<Json>),
    Object(Map<Seq<char>, Json>),
}

/// The tree that a `serde_json::Value` holds. The constructors below say
/// what it is for each value that they build; of other values nothing is
/// said, and none reaches a template: see [`TemplateData`].
pub uninterp spec fn json_of(value: serde_json::Value) -> Json;

/// The members that a `serde_json::Map` holds, by name. This is all that
/// such a map holds in the build that the library is made with, where the
/// map keeps its members sorted by name and an order of insertion is not
/// kept.
pub uninterp spec fn members_in(members: JsonMembers) -> Map<Seq<char>, Json>;

/// The members of an object that has none.
pub open spec fn no_members() -> Map<Seq<char>, Json> {
    Map::empty()
}

/// The trees held by a sequence of values, in order.
pub open spec fn jsons_of(values: Seq<serde_json::Value>) -> Seq<Json> {
    Seq::new(values.len(), |i: int| json_of(values[i]))
}

/// A JSON string. Trusted: `serde_json::Value::String` holds exactly the
/// characters of the text that it is given.
#[verifier::external_body]
pub(crate) fn json_text(text: &str) -> (out: serde_json::Value)
    ensures
        json_of(out) == Json::Text(text@),
{
    serde_json::Value::String(text.to_owned())
}

/// A JSON boolean. Trusted: `serde_json::Value::Bool` holds the boolean that
/// it is given.
#[verifier::external_body]
pub(crate) fn json_flag(flag: bool) -> (out: serde_json::Value)
    ensures
        json_of(out) == Json::Flag(flag),
{
    serde_json::Value::Bool(flag)
}

/// A JSON array. Trusted: `serde_json::Value::Array` holds the values that
/// it is given, in the same order.
#[verifier::external_body]
pub(crate) fn json_list(items: Vec<serde_json::Value>) -> (out: serde_json::Value)
    ensures
        json_of(out) == Json::List(jsons_of(items@)),
{
    serde_json::Value::Array(items)
}

/// No members. Trusted: `serde_json::Map::new` makes an empty map.
#[verifier::external_body]
pub(crate) fn json_members() -> (out: JsonMembers)
    ensures
        members_in(out) == no_members(),
{
    serde_json::Map::new()
}

/// Binds a name to a value among the members. Trusted:
/// `serde_json::Map::insert` adds the pair where the name is new and
/// replaces the value where the name is bound already; the other members
/// stay as they are.
#[verifier::external_body]
pub(crate) fn json_insert(members: &mut JsonMembers, name: String, value: serde_json::Value)
    ensures
        members_in(*final(members)) == members_in(*old(members)).insert(name@, json_of(value)),
{
    members.insert(name, value);
}

/// A JSON object. Trusted: `serde_json::Value::Object` holds the members
/// that it is given.
#[verifier::external_body]
pub(crate) fn json_object(members: JsonMembers) -> (out: serde_json::Value)
    ensures
        json_of(out) == Json::Object(members_in(members)),
{
    serde_json::Value::Object(members)
}

/// The data that a template is rendered over. Only the builders of this
/// library make one, so the tree of every such value is known: it holds
/// texts, booleans, arrays and objects, and nothing else.
#[derive(Debug, PartialEq)]
pub struct TemplateData {
    value: serde_json::Value,
}

impl View for TemplateData {
    type V = Json;

    closed spec fn view(&self) -> Json {
        json_of(self.value)
    }
}

impl TemplateData {
    pub(crate) fn new(value: serde_json::Value) -> (out: TemplateData)
        ensures
            out@ == json_of(value),
    {
        TemplateData { value }
    }

    /// The JSON value that the template engine is handed.
    pub fn as_json(&self) -> (out: &serde_json::Value)
        ensures
            json_of(*out) == self@,
    {
        &self.value
    }
}

} // verus!
