//! A JSON document as plain data, and the lookups the extraction rules use.

use vstd::prelude::*;
use vstd::string::*;

verus! {

/// A JSON value. A number keeps no payload: no rule of this library reads one.
/// An object is its members in the order the reader hands them out.
#[derive(Debug, PartialEq, Eq)]
pub enum Json {
    Null,
    Bool(bool),
    Number,
    Str(String),
    Array(Vec<Json>),
    Object(Vec<(String, Json)>),
}

/// The value of the first member named `key`, if there is one.
pub open spec fn lookup(entries: Seq<(String, Json)>, key: Seq<char>) -> Option<Json>
    decreases entries.len(),
{
    if entries.len() == 0 {
        None
    } else if entries[0].0@ == key {
        Some(entries[0].1)
    } else {
        lookup(entries.drop_first(), key)
    }
}

impl Json {
    /// The member `key` of an object; nothing for any other value.
    pub open spec fn field(self, key: Seq<char>) -> Option<Json> {
        match self {
            Json::Object(entries) => lookup(entries@, key),
            _ => None,
        }
    }

    /// The text of a string value; nothing for any other value.
    pub open spec fn text(self) -> Option<Seq<char>> {
        match self {
            Json::Str(s) => Some(s@),
            _ => None,
        }
    }

    /// The elements of an array; nothing for any other value.
    pub open spec fn items(self) -> Option<Seq<Json>> {
        match self {
            Json::Array(v) => Some(v@),
            _ => None,
        }
    }

    /// The text of the member `key`, if that member is a string.
    pub open spec fn field_text(self, key: Seq<char>) -> Option<Seq<char>> {
        match self.field(key) {
            Some(j) => j.text(),
            None => None,
        }
    }

    /// The elements of the member `key`, if that member is an array.
    pub open spec fn field_items(self, key: Seq<char>) -> Option<Seq<Json>> {
        match self.field(key) {
            Some(j) => j.items(),
            None => None,
        }
    }

    /// Looks up the member `key`.
    pub fn get(&self, key: &str) -> (r: Option<&Json>)
        ensures
            match r {
                Some(j) => self.field(key@) == Some(*j),
                None => self.field(key@) is None,
            },
    {
        match self {
            Json::Object(entries) => {
                let wanted = String::from_str(key);
                let mut i: usize = 0;
                proof {
                    assert(entries@.skip(0) =~= entries@);
                }
                while i < entries.len()
                    invariant
                        i <= entries.len(),
                        wanted@ == key@,
                        self.field(key@) == lookup(entries@, key@),
                        lookup(entries@, key@) == lookup(entries@.skip(i as int), key@),
                    decreases entries.len() - i,
                {
                    assert(entries@.skip(i as int)[0] == entries@[i as int]);
                    assert(entries@.skip(i as int).len() > 0);
                    if entries[i].0 == wanted {
                        assert(entries@[i as int].0@ == key@);
                        assert(lookup(entries@.skip(i as int), key@) == Some(entries@[i as int].1));
                        return Some(&entries[i].1);
                    }
                    proof {
                        assert(entries@.skip(i as int).drop_first() =~= entries@.skip(i + 1));
                    }
                    i += 1;
                }
                None
            },
            _ => None,
        }
    }

    /// The text of a string value.
    pub fn as_str(&self) -> (r: Option<&str>)
        ensures
            match r {
                Some(s) => self.text() == Some(s@),
                None => self.text() is None,
            },
    {
        match self {
            Json::Str(s) => Some(s.as_str()),
            _ => None,
        }
    }

    /// The elements of an array.
    pub fn as_array(&self) -> (r: Option<&Vec<Json>>)
        ensures
            match r {
                Some(v) => self.items() == Some(v@),
                None => self.items() is None,
            },
    {
        match self {
            Json::Array(v) => Some(v),
            _ => None,
        }
    }

    /// The text of the member `key`, if that member is a string.
    pub fn get_str(&self, key: &str) -> (r: Option<&str>)
        ensures
            match r {
                Some(s) => self.field_text(key@) == Some(s@),
                None => self.field_text(key@) is None,
            },
    {
        match self.get(key) {
            Some(j) => j.as_str(),
            None => None,
        }
    }

    /// The elements of the member `key`, if that member is an array.
    pub fn get_array(&self, key: &str) -> (r: Option<&Vec<Json>>)
        ensures
            match r {
                Some(v) => self.field_items(key@) == Some(v@),
                None => self.field_items(key@) is None,
            },
    {
        match self.get(key) {
            Some(j) => j.as_array(),
            None => None,
        }
    }
}

/// The reader's document type, carried through unopened.
#[verifier::external_type_specification]
#[verifier::external_body]
pub struct ExValue(serde_json::Value);

/// The reader's error type, carried through unopened.
#[verifier::external_type_specification]
#[verifier::external_body]
pub struct ExReadError(serde_json::Error);

/// What a `serde_json::Value` holds, as a [`Json`]: the same variant; the
/// elements of an array in their order; the members of an object in the
/// order in which its `Map` hands them out; a number without its value.
pub uninterp spec fn value_json(value: serde_json::Value) -> Json;

/// The document that `serde_json::from_str` reads from a text, as a [`Json`];
/// nothing where it rejects the text.
pub uninterp spec fn json_document(text: Seq<char>) -> Option<Json>;

/// Moves a `serde_json::Value` into a [`Json`], variant by variant, with
/// `Vec::into_iter` and `Map::into_iter` for the two containers. The claim:
/// the result is what `value_json` names, which says nothing beyond that the
/// same value always converts alike.
#[verifier::external_body]
fn from_value(value: serde_json::Value) -> (r: Json)
    ensures
        r == value_json(value),
{
    match value {
        serde_json::Value::Null => Json::Null,
        serde_json::Value::Bool(b) => Json::Bool(b),
        serde_json::Value::Number(_) => Json::Number,
        serde_json::Value::String(s) => Json::Str(s),
        serde_json::Value::Array(a) => Json::Array(a.into_iter().map(from_value).collect()),
        serde_json::Value::Object(m) => Json::Object(
            m.into_iter().map(|(k, v)| (k, from_value(v))).collect(),
        ),
    }
}

/// Calls `serde_json::from_str` for a `serde_json::Value`. The claim: what it
/// returns depends on the text alone, so the value read holds
/// `json_document` of the text, and an error comes exactly where that is
/// nothing.
#[verifier::external_body]
fn read_value(text: &str) -> (r: Result<serde_json::Value, serde_json::Error>)
    ensures
        match r {
            Ok(value) => json_document(text@) == Some(value_json(value)),
            Err(_) => json_document(text@) is None,
        },
{
    serde_json::from_str::<serde_json::Value>(text)
}

/// Reads a text as a JSON document; nothing where the text is no JSON.
pub fn parse(text: &str) -> (r: Option<Json>)
    ensures
        r == json_document(text@),
{
    match read_value(text) {
        Ok(value) => Some(from_value(value)),
        Err(_) => None,
    }
}

} // verus!
