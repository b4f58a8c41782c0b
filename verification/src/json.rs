use crate::error::BlockRequestError;
use vstd::prelude::*;

verus! {

/// A JSON value.
///
/// An object keeps its members as a list of pairs; a key is looked up from the
/// front, so the first member of that name is the one that counts. A number is
/// kept as its text: nothing in this crate computes on one.
#[derive(Debug, PartialEq, Eq)]
pub enum Json {
    Null,
    Bool(bool),
    Number(String),
    Text(String),
    List(Vec<Json>),
    Object(Vec<(String, Json)>),
}

/// The value of the first pair in `members` whose key is `key`.
pub open spec fn find_member(members: Seq<(String, Json)>, key: Seq<char>) -> Option<Json>
    decreases members.len(),
{
    if members.len() == 0 {
        None
    } else if members[0].0@ == key {
        Some(members[0].1)
    } else {
        find_member(members.skip(1), key)
    }
}

impl Json {
    /// The member `key` of an object; `None` for a missing member and for a
    /// value that is no object.
    pub open spec fn member(self, key: Seq<char>) -> Option<Json> {
        match self {
            Json::Object(members) => find_member(members@, key),
            _ => None,
        }
    }

    /// The member `key`, with `Null` standing for a member that cannot be had.
    pub open spec fn at(self, key: Seq<char>) -> Json {
        match self.member(key) {
            Some(value) => value,
            None => Json::Null,
        }
    }

    /// Looks up the member `key` of an object.
    pub fn get(&self, key: &str) -> (r: Option<&Json>)
        ensures
            match r {
                Some(value) => self.member(key@) == Some(*value),
                None => self.member(key@) is None,
            },
    {
        match self {
            Json::Object(members) => {
                let wanted = String::from_str(key);
                let mut i: usize = 0;
                assert(members@.skip(0) =~= members@);
                while i < members.len()
                    invariant
                        i <= members.len(),
                        wanted@ == key@,
                        self.member(key@) == find_member(members@, key@),
                        find_member(members@, key@) == find_member(members@.skip(i as int), key@),
                    decreases members.len() - i,
                {
                    assert(members@.skip(i as int)[0] == members@[i as int]);
                    if members[i].0 == wanted {
                        return Some(&members[i].1);
                    }
                    assert(members@.skip(i as int).skip(1) =~= members@.skip(i + 1));
                    i += 1;
                }
                None
            },
            _ => None,
        }
    }
}

/// `serde_json::Value`, of which nothing is seen here but what `json_of`
/// names.
#[verifier::external_type_specification]
#[verifier::external_body]
pub struct ExValue(serde_json::Value);

/// `serde_json::Error`, which is carried and never read.
#[verifier::external_type_specification]
#[verifier::external_body]
pub struct ExError(serde_json::Error);

/// The document that `serde_json` reads from a text, if it reads one.
pub uninterp spec fn parsed_text(text: Seq<char>) -> Option<Json>;

/// What a `serde_json::Value` holds.
pub uninterp spec fn json_of(value: serde_json::Value) -> Json;

/// Calls `serde_json::from_str` for a `serde_json::Value`. The contract gives
/// the outcome a name: the call returns a value exactly where `parsed_text` is
/// `Some`, and that value holds the document named there.
#[verifier::external_body]
fn read_value(text: &str) -> (r: Result<serde_json::Value, serde_json::Error>)
    ensures
        match r {
            Ok(value) => parsed_text(text@) == Some(json_of(value)),
            Err(_) => parsed_text(text@) is None,
        },
{
    serde_json::from_str::<serde_json::Value>(text)
}

/// Copies a `serde_json::Value` into a `Json`, variant for variant: a number
/// by the text that `serde_json::Number` displays, an object's members in the
/// order in which `serde_json::Map` hands them out. The contract names the
/// copy `json_of`.
#[verifier::external_body]
fn copy_value(value: &serde_json::Value) -> (json: Json)
    ensures
        json == json_of(*value),
{
    match value {
        serde_json::Value::Null => Json::Null,
        serde_json::Value::Bool(flag) => Json::Bool(*flag),
        serde_json::Value::Number(number) => Json::Number(number.to_string()),
        serde_json::Value::String(text) => Json::Text(text.clone()),
        serde_json::Value::Array(items) => Json::List(items.iter().map(copy_value).collect()),
        serde_json::Value::Object(members) => Json::Object(
            members.iter().map(|(key, item)| (key.clone(), copy_value(item))).collect(),
        ),
    }
}

/// What `parse_document` returns for a text.
pub open spec fn document_of(text: Seq<char>) -> Result<Json, BlockRequestError> {
    match parsed_text(text) {
        Some(json) => Ok(json),
        None => Err(BlockRequestError::JsonDecodeError),
    }
}

/// Reads a JSON document from its text.
pub fn parse_document(text: &str) -> (r: Result<Json, BlockRequestError>)
    ensures
        r == document_of(text@),
{
    match read_value(text) {
        Ok(value) => Ok(copy_value(&value)),
        Err(_) => Err(BlockRequestError::JsonDecodeError),
    }
}

} // verus!
