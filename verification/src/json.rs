//! JSON documents as a tree of plain values.

use serde_json::Value;
use vstd::prelude::*;

verus! {

/// A JSON document.
#[derive(Debug)]
pub enum Json {
    Null,
    Bool(bool),
    /// A number, with the integer it denotes where that is an `i64`.
    Number(Option<i64>),
    String(String),
    Array(Vec<Json>),
    /// An object: its members, each key once.
    Object(Vec<(String, Json)>),
}

/// The mathematical tree that a [`Json`] value stands for.
pub enum JsonTree {
    Null,
    Bool(bool),
    Number(Option<i64>),
    String(Seq<char>),
    Array(Seq<JsonTree>),
    Object(Seq<(Seq<char>, JsonTree)>),
}

impl View for Json {
    type V = JsonTree;

    open spec fn view(&self) -> JsonTree
        decreases self,
    {
        match self {
            Json::Null => JsonTree::Null,
            Json::Bool(b) => JsonTree::Bool(*b),
            Json::Number(n) => JsonTree::Number(*n),
            Json::String(s) => JsonTree::String(s@),
            Json::Array(items) => JsonTree::Array(
                Seq::new(
                    items@.len(),
                    |i: int|
                        if 0 <= i < items@.len() {
                            items@[i].view()
                        } else {
                            JsonTree::Null
                        },
                ),
            ),
            Json::Object(members) => JsonTree::Object(
                Seq::new(
                    members@.len(),
                    |i: int|
                        if 0 <= i < members@.len() {
                            (members@[i].0@, members@[i].1.view())
                        } else {
                            (Seq::empty(), JsonTree::Null)
                        },
                ),
            ),
        }
    }
}


/// The JSON type of `serde_json`, carried from the parser to the
/// conversion and never looked into.
#[verifier::external_type_specification]
#[verifier::external_body]
pub struct ExValue(Value);

/// The document that `text` denotes, or `None` where `text` is not one JSON
/// document.
pub uninterp spec fn json_of_text(text: Seq<char>) -> Option<JsonTree>;

/// The tree that a parsed value holds.
pub uninterp spec fn value_tree(value: Value) -> JsonTree;

/// Calls `serde_json::from_str::<Value>`.  Trusted: the outcome (a value,
/// or rejection) is a function of `text` alone.
#[verifier::external_body]
fn parse_value(text: &str) -> (r: Option<Value>)
    ensures
        match r {
            Some(value) => json_of_text(text@) == Some(value_tree(value)),
            None => json_of_text(text@) is None,
        },
{
    serde_json::from_str::<Value>(text).ok()
}

/// Copies a `serde_json::Value` into a [`Json`], variant by variant; a
/// number goes through `Number::as_i64`, an object's members come in the
/// order in which its map yields them.  Trusted: the copy holds what the
/// value holds.
#[verifier::external_body]
fn json_from_value(value: &Value) -> (json: Json)
    ensures
        json@ == value_tree(*value),
{
    match value {
        Value::Null => Json::Null,
        Value::Bool(b) => Json::Bool(*b),
        Value::Number(n) => Json::Number(n.as_i64()),
        Value::String(s) => Json::String(s.clone()),
        Value::Array(items) => Json::Array(items.iter().map(json_from_value).collect()),
        Value::Object(members) => Json::Object(
            members.iter().map(|(k, v)| (k.clone(), json_from_value(v))).collect(),
        ),
    }
}

/// The first member of `members` under `key`.
pub open spec fn member(members: Seq<(Seq<char>, JsonTree)>, key: Seq<char>) -> Option<JsonTree>
    decreases members.len(),
{
    if members.len() == 0 {
        None
    } else if members[0].0 == key {
        Some(members[0].1)
    } else {
        member(members.drop_first(), key)
    }
}

impl JsonTree {
    /// The member under `key`, where `self` is an object that has one.
    pub open spec fn get(self, key: Seq<char>) -> Option<JsonTree> {
        match self {
            JsonTree::Object(members) => member(members, key),
            _ => None,
        }
    }

    /// The text under `key`, where `self` is an object with a string there.
    pub open spec fn text_at(self, key: Seq<char>) -> Option<Seq<char>> {
        match self.get(key) {
            Some(JsonTree::String(s)) => Some(s),
            _ => None,
        }
    }

    /// The integer under `key`, where `self` is an object with a number
    /// there that is an `i64`.
    pub open spec fn int_at(self, key: Seq<char>) -> Option<i64> {
        match self.get(key) {
            Some(JsonTree::Number(Some(n))) => Some(n),
            _ => None,
        }
    }

    /// The integer under `key` where one may be left out: `Some(None)` for
    /// a missing member or `null`, `None` for anything that is not an `i64`.
    pub open spec fn optional_int_at(self, key: Seq<char>) -> Option<Option<i64>> {
        match self.get(key) {
            None => Some(None),
            Some(JsonTree::Null) => Some(None),
            Some(JsonTree::Number(Some(n))) => Some(Some(n)),
            _ => None,
        }
    }

    /// The text under `key` where one may be left out: `Some(None)` for a
    /// missing member or `null`, `None` for anything that is not a string.
    pub open spec fn optional_text_at(self, key: Seq<char>) -> Option<Option<Seq<char>>> {
        match self.get(key) {
            None => Some(None),
            Some(JsonTree::Null) => Some(None),
            Some(JsonTree::String(s)) => Some(Some(s)),
            _ => None,
        }
    }
}

/// An object's view holds the views of its members, in order.
proof fn lemma_object_view(members: Vec<(String, Json)>)
    ensures
        Json::Object(members)@ is Object,
        Json::Object(members)@->Object_0.len() == members@.len(),
        forall|j: int|
            0 <= j < members@.len() ==> #[trigger] Json::Object(members)@->Object_0[j] == (
                members@[j].0@,
                members@[j].1@,
            ),
{
    reveal_with_fuel(<Json as View>::view, 2);
}

/// Parses one JSON document.
pub fn parse_json(text: &str) -> (r: Option<Json>)
    ensures
        match r {
            Some(json) => json_of_text(text@) == Some(json@),
            None => json_of_text(text@) is None,
        },
{
    match parse_value(text) {
        Some(value) => Some(json_from_value(&value)),
        None => None,
    }
}

impl Json {
    /// The member under `key`, where `self` is an object that has one.
    pub fn get(&self, key: &str) -> (r: Option<&Json>)
        ensures
            match r {
                Some(json) => self@.get(key@) == Some(json@),
                None => self@.get(key@) is None,
            },
    {
        match self {
            Json::Object(members) => {
                let wanted: String = key.to_owned();
                let ghost all = self@->Object_0;
                proof {
                    lemma_object_view(*members);
                }
                assert(all.subrange(0, all.len() as int) == all);
                let mut i: usize = 0;
                while i < members.len()
                    invariant
                        0 <= i <= members.len(),
                        wanted@ == key@,
                        self@ == JsonTree::Object(all),
                        all.len() == members@.len(),
                        forall|j: int|
                            0 <= j < members@.len() ==> #[trigger] all[j] == (
                                members@[j].0@,
                                members@[j].1@,
                            ),
                        member(all, key@) == member(all.subrange(i as int, all.len() as int), key@),
                    decreases members.len() - i,
                {
                    let ghost rest = all.subrange(i as int, all.len() as int);
                    assert(rest[0] == all[i as int]);
                    assert(rest.drop_first() == all.subrange(i + 1, all.len() as int));
                    if members[i].0 == wanted {
                        return Some(&members[i].1);
                    }
                    i += 1;
                }
                assert(all.subrange(i as int, all.len() as int).len() == 0);
                None
            },
            _ => None,
        }
    }

    /// The text under `key`, where `self` is an object with a string there.
    pub fn text_at(&self, key: &str) -> (r: Option<String>)
        ensures
            match r {
                Some(s) => self@.text_at(key@) == Some(s@),
                None => self@.text_at(key@) is None,
            },
    {
        match self.get(key) {
            Some(Json::String(s)) => Some(s.clone()),
            _ => None,
        }
    }

    /// The integer under `key`, where `self` is an object with a number
    /// there that is an `i64`.
    pub fn int_at(&self, key: &str) -> (r: Option<i64>)
        ensures
            r == self@.int_at(key@),
    {
        match self.get(key) {
            Some(Json::Number(Some(n))) => Some(*n),
            _ => None,
        }
    }

    /// The integer under `key` where one may be left out.
    pub fn optional_int_at(&self, key: &str) -> (r: Option<Option<i64>>)
        ensures
            r == self@.optional_int_at(key@),
    {
        match self.get(key) {
            None => Some(None),
            Some(Json::Null) => Some(None),
            Some(Json::Number(Some(n))) => Some(Some(*n)),
            _ => None,
        }
    }

    /// The text under `key` where one may be left out.
    pub fn optional_text_at(&self, key: &str) -> (r: Option<Option<String>>)
        ensures
            match r {
                Some(Some(s)) => self@.optional_text_at(key@) == Some(Some(s@)),
                Some(None) => self@.optional_text_at(key@) == Some(None::<Seq<char>>),
                None => self@.optional_text_at(key@) is None,
            },
    {
        match self.get(key) {
            None => Some(None),
            Some(Json::Null) => Some(None),
            Some(Json::String(s)) => Some(Some(s.clone())),
            _ => None,
        }
    }
}

} // verus!
