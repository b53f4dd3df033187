//! JSON documents as the `serde_json` crate holds them.
use vstd::prelude::*;
use serde_json::Value;

verus! {

/// `serde_json::Value`, a JSON value.
#[verifier::external_type_specification]
#[verifier::external_body]
pub struct ExValue(serde_json::Value);

/// A JSON value as a tree. Of a number it holds what it is as a `u64`, `None` where it is
/// negative, too great or written with a fraction or an exponent, such as `30.0`.
pub enum JsonTree {
    Null,
    Bool(bool),
    Number(Option<u64>),
    Text(Seq<char>),
    Array(Seq<JsonTree>),
    Object(Map<Seq<char>, JsonTree>),
}

impl JsonTree {
    /// The member of an object under a key.
    pub open spec fn field(self, key: Seq<char>) -> Option<JsonTree> {
        match self {
            JsonTree::Object(members) => if members.contains_key(key) {
                Some(members[key])
            } else {
                None
            },
            _ => None,
        }
    }

    /// The text of a string.
    pub open spec fn text(self) -> Option<Seq<char>> {
        match self {
            JsonTree::Text(t) => Some(t),
            _ => None,
        }
    }

    /// The value of a whole number that is not negative.
    pub open spec fn number(self) -> Option<u64> {
        match self {
            JsonTree::Number(n) => n,
            _ => None,
        }
    }

    /// The items of an array.
    pub open spec fn items(self) -> Option<Seq<JsonTree>> {
        match self {
            JsonTree::Array(items) => Some(items),
            _ => None,
        }
    }

    /// The text of the string under a key of an object.
    pub open spec fn text_at(self, key: Seq<char>) -> Option<Seq<char>> {
        match self.field(key) {
            Some(member) => member.text(),
            None => None,
        }
    }

    /// The items of the array under a key of an object.
    pub open spec fn items_at(self, key: Seq<char>) -> Option<Seq<JsonTree>> {
        match self.field(key) {
            Some(member) => member.items(),
            None => None,
        }
    }
}

/// The tree that a value holds.
pub uninterp spec fn json_tree(v: Value) -> JsonTree;

/// The trees that a row of values holds.
pub open spec fn json_trees(values: Seq<Value>) -> Seq<JsonTree> {
    values.map_values(|v: Value| json_tree(v))
}

/// What `serde_json::from_str` reads from a text: a value, or the message of its error.
pub uninterp spec fn json_document(text: Seq<char>) -> Result<JsonTree, Seq<char>>;

/// `serde_json::from_str` reads the text as one JSON value. What it reads, and the message of
/// the error if it cannot, depend on the text alone.
#[verifier::external_body]
pub(crate) fn parse_json(text: &str) -> (r: Result<Value, String>)
    ensures
        json_document(text@) == (match r {
            Ok(v) => Ok::<JsonTree, Seq<char>>(json_tree(v)),
            Err(message) => Err(message@),
        }),
{
    serde_json::from_str::<Value>(text).map_err(|e| e.to_string())
}

/// `serde_json::Value::get` with a string finds the member under that key, if the value is an
/// object and has one.
#[verifier::external_body]
pub(crate) fn json_get<'a>(v: &'a Value, key: &str) -> (r: Option<&'a Value>)
    ensures
        json_tree(*v).field(key@) == (match r {
            Some(member) => Some(json_tree(*member)),
            None => None,
        }),
{
    v.get(key)
}

/// `serde_json::Value::as_str` gives the text of a string, and nothing of another value.
#[verifier::external_body]
pub(crate) fn json_str(v: &Value) -> (r: Option<&str>)
    ensures
        r.deep_view() == json_tree(*v).text(),
{
    v.as_str()
}

/// `serde_json::Value::as_u64` gives a number that is held as a whole one, is not negative and
/// fits, and nothing of another value.
#[verifier::external_body]
pub(crate) fn json_u64(v: &Value) -> (r: Option<u64>)
    ensures
        r == json_tree(*v).number(),
{
    v.as_u64()
}

/// `serde_json::Value::as_array` gives the items of an array, and nothing of another value.
#[verifier::external_body]
pub(crate) fn json_array(v: &Value) -> (r: Option<&Vec<Value>>)
    ensures
        json_tree(*v).items() == (match r {
            Some(items) => Some(json_trees(items@)),
            None => None,
        }),
{
    v.as_array()
}

/// The text of the string under a key of an object.
pub fn text_at(v: &Value, key: &str) -> (r: Option<String>)
    ensures
        r.deep_view() == json_tree(*v).text_at(key@),
{
    match json_get(v, key) {
        Some(member) => match json_str(member) {
            Some(t) => Some(String::from_str(t)),
            None => None,
        },
        None => None,
    }
}

/// The whole number that a duration holds.
pub fn whole_seconds(duration: &Option<Value>) -> (r: Option<u64>)
    ensures
        r == (match duration {
            Some(v) => json_tree(*v).number(),
            None => None,
        }),
{
    match duration {
        Some(v) => json_u64(v),
        None => None,
    }
}

} // verus!
