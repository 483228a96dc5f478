//! JSON values, and reading them from text.
use vstd::prelude::*;

use crate::text;

verus! {

/// A JSON value.
#[derive(Debug, PartialEq, Eq)]
pub enum Json {
    Null,
    Bool(bool),
    /// A number by its JSON text, and as an integer where it is one that fits.
    Number { integer: Option<i64>, text: String },
    String(String),
    Array(Vec<Json>),
    /// The members in the order in which they are kept.
    Object(Vec<(String, Json)>),
}

/// What a JSON value holds.
pub enum JsonTree {
    Null,
    Bool(bool),
    Number { integer: Option<i64>, text: Seq<char> },
    String(Seq<char>),
    Array(Seq<JsonTree>),
    Object(Seq<(Seq<char>, JsonTree)>),
}

/// The value of the first member named `key`.
pub open spec fn member(members: Seq<(Seq<char>, JsonTree)>, key: Seq<char>) -> Option<JsonTree>
    decreases members.len(),
{
    if members.len() == 0 {
        None
    } else if members.first().0 == key {
        Some(members.first().1)
    } else {
        member(members.drop_first(), key)
    }
}

impl JsonTree {
    /// The member named `key`, where the value is an object that has one.
    pub open spec fn get(self, key: Seq<char>) -> Option<JsonTree> {
        match self {
            JsonTree::Object(members) => member(members, key),
            _ => None,
        }
    }

    /// The text, where the value is a string.
    pub open spec fn as_str(self) -> Option<Seq<char>> {
        match self {
            JsonTree::String(s) => Some(s),
            _ => None,
        }
    }

    /// The integer, where the value is a number that is one and fits.
    pub open spec fn as_i64(self) -> Option<i64> {
        match self {
            JsonTree::Number { integer, .. } => integer,
            _ => None,
        }
    }

    /// The truth value, where the value is one.
    pub open spec fn as_bool(self) -> Option<bool> {
        match self {
            JsonTree::Bool(b) => Some(b),
            _ => None,
        }
    }

    /// The text of the member named `key`, where it is a string.
    pub open spec fn str_member(self, key: Seq<char>) -> Option<Seq<char>> {
        match self.get(key) {
            Some(value) => value.as_str(),
            None => None,
        }
    }
}

impl Json {
    /// What the value holds.
    pub open spec fn tree(&self) -> JsonTree
        decreases self,
    {
        match self {
            Json::Null => JsonTree::Null,
            Json::Bool(b) => JsonTree::Bool(*b),
            Json::Number { integer, text } => JsonTree::Number { integer: *integer, text: text@ },
            Json::String(s) => JsonTree::String(s@),
            Json::Array(items) => JsonTree::Array(
                Seq::new(
                    items@.len(),
                    |i: int|
                        if 0 <= i < items@.len() {
                            items@[i].tree()
                        } else {
                            JsonTree::Null
                        },
                ),
            ),
            Json::Object(members) => JsonTree::Object(
                Seq::new(
                    members@.len(),
                    |i: int|
                        if 0 <= i < members@.len() {
                            (members@[i].0@, members@[i].1.tree())
                        } else {
                            (seq![], JsonTree::Null)
                        },
                ),
            ),
        }
    }
}

impl View for Json {
    type V = JsonTree;

    open spec fn view(&self) -> JsonTree {
        self.tree()
    }
}

/// `serde_json::Value`: a JSON value as the crate keeps it.
#[verifier::external_type_specification]
#[verifier::external_body]
pub struct ExValue(serde_json::Value);

/// What a `serde_json::Value` holds: its arrays and objects by their elements, in
/// the order in which the crate keeps them, and each number by its JSON text and
/// by what `as_i64` gives for it.
pub uninterp spec fn json_of(value: serde_json::Value) -> JsonTree;

/// The JSON value that a text is, `None` where the text is not one JSON value.
pub uninterp spec fn parsed_json(text: Seq<char>) -> Option<JsonTree>;

/// `serde_json::from_str::<serde_json::Value>`: reads a text as one JSON value.
/// The result is a function of the text alone; how it depends on the text is the
/// JSON grammar, and is left to the crate.
#[verifier::external_body]
fn parse_value(text: &str) -> (value: Option<serde_json::Value>)
    ensures
        parsed_json(text@) == (match value {
            Some(v) => Some(json_of(v)),
            None => None,
        }),
{
    serde_json::from_str::<serde_json::Value>(text).ok()
}

/// A `serde_json::Value` one level deep: the elements of an array and the values of
/// an object are as the crate keeps them.
enum Layer {
    Null,
    Bool(bool),
    Number { integer: Option<i64>, text: String },
    String(String),
    Array(Vec<serde_json::Value>),
    Object(Vec<(String, serde_json::Value)>),
}

/// What a layer holds, given what the values below it hold.
spec fn layer_tree(layer: Layer) -> JsonTree {
    match layer {
        Layer::Null => JsonTree::Null,
        Layer::Bool(b) => JsonTree::Bool(b),
        Layer::Number { integer, text } => JsonTree::Number { integer, text: text@ },
        Layer::String(s) => JsonTree::String(s@),
        Layer::Array(items) => JsonTree::Array(
            items@.map_values(|v: serde_json::Value| json_of(v)),
        ),
        Layer::Object(members) => JsonTree::Object(
            members@.map_values(|m: (String, serde_json::Value)| (m.0@, json_of(m.1))),
        ),
    }
}

/// The variants of `serde_json::Value`, each moved into the variant of `Layer` that
/// stands for it; `Number::as_i64` and `Number::to_string` read a number, and
/// `Map::into_iter` gives the members of an object. What the value holds is what
/// these hold.
#[verifier::external_body]
fn take_apart(value: serde_json::Value) -> (layer: Layer)
    ensures
        json_of(value) == layer_tree(layer),
{
    match value {
        serde_json::Value::Null => Layer::Null,
        serde_json::Value::Bool(b) => Layer::Bool(b),
        serde_json::Value::Number(n) => Layer::Number { integer: n.as_i64(), text: n.to_string() },
        serde_json::Value::String(s) => Layer::String(s),
        serde_json::Value::Array(items) => Layer::Array(items),
        serde_json::Value::Object(members) => Layer::Object(members.into_iter().collect()),
    }
}

/// The view of an optional JSON value.
pub open spec fn view_opt(value: Option<Json>) -> Option<JsonTree> {
    match value {
        Some(value) => Some(value@),
        None => None,
    }
}

/// The view of an optional reference to a JSON value.
pub open spec fn view_opt_ref(value: Option<&Json>) -> Option<JsonTree> {
    match value {
        Some(value) => Some(value@),
        None => None,
    }
}

impl Json {
    /// Reads a text as one JSON value.
    pub fn parse(text: &str) -> (json: Option<Json>)
        ensures
            view_opt(json) == parsed_json(text@),
    {
        match parse_value(text) {
            Some(value) => Some(Json::from_value(value)),
            None => None,
        }
    }

    /// The value that a `serde_json::Value` holds.
    pub fn from_value(value: serde_json::Value) -> (json: Json)
        ensures
            json@ == json_of(value),
        decreases json_of(value),
    {
        let ghost tree = json_of(value);
        match take_apart(value) {
            Layer::Null => Json::Null,
            Layer::Bool(b) => Json::Bool(b),
            Layer::Number { integer, text } => Json::Number { integer, text },
            Layer::String(s) => Json::String(s),
            Layer::Array(items) => {
                let mut converted: Vec<Json> = Vec::new();
                for item in it: items
                    invariant
                        it.seq() == items@,
                        tree == json_of(value),
                        tree == layer_tree(Layer::Array(items)),
                        converted@.len() == it.index(),
                        forall|i: int|
                            0 <= i < it.index() ==> (#[trigger] converted@[i])@
                                == tree->Array_0[i],
                {
                    assert(decreases_to!(tree => tree->Array_0));
                    assert(tree->Array_0[it.index()] == json_of(item));
                    converted.push(Json::from_value(item));
                }
                let json = Json::Array(converted);
                assert(json@->Array_0 =~= tree->Array_0);
                json
            },
            Layer::Object(members) => {
                let mut converted: Vec<(String, Json)> = Vec::new();
                for member in it: members
                    invariant
                        it.seq() == members@,
                        tree == json_of(value),
                        tree == layer_tree(Layer::Object(members)),
                        converted@.len() == it.index(),
                        forall|i: int|
                            0 <= i < it.index() ==> ((#[trigger] converted@[i]).0@, converted@[i].1@)
                                == tree->Object_0[i],
                {
                    assert(decreases_to!(tree => tree->Object_0));
                    let ghost below = tree->Object_0[it.index()];
                    assert(below == (member.0@, json_of(member.1)));
                    assert(decreases_to!(tree->Object_0 => tree->Object_0[it.index()]));
                    assert(decreases_to!(below => below.1));
                    converted.push((member.0, Json::from_value(member.1)));
                }
                let json = Json::Object(converted);
                assert(json@->Object_0 =~= tree->Object_0);
                json
            },
        }
    }

    /// The member named `key`, where the value is an object that has one.
    pub fn get(&self, key: &str) -> (value: Option<&Json>)
        ensures
            view_opt_ref(value) == self@.get(key@),
    {
        match self {
            Json::Object(members) => {
                let ghost all = self@->Object_0;
                assert(all.skip(0) =~= all);
                for i in 0..members.len()
                    invariant
                        self == Json::Object(*members),
                        all == self@->Object_0,
                        all.len() == members@.len(),
                        member(all, key@) == member(all.skip(i as int), key@),
                {
                    if text::same(members[i].0.as_str(), key) {
                        return Some(&members[i].1);
                    }
                    assert(all.skip(i as int).drop_first() =~= all.skip(i + 1));
                }
                None
            },
            _ => None,
        }
    }

    /// The text, where the value is a string.
    pub fn as_str(&self) -> (s: Option<&str>)
        ensures
            text::view_opt_str(s) == self@.as_str(),
    {
        match self {
            Json::String(s) => Some(s.as_str()),
            _ => None,
        }
    }

    /// The integer, where the value is a number that is one and fits.
    pub fn as_i64(&self) -> (n: Option<i64>)
        ensures
            n == self@.as_i64(),
    {
        match self {
            Json::Number { integer, .. } => *integer,
            _ => None,
        }
    }

    /// The truth value, where the value is one.
    pub fn as_bool(&self) -> (b: Option<bool>)
        ensures
            b == self@.as_bool(),
    {
        match self {
            Json::Bool(b) => Some(*b),
            _ => None,
        }
    }

    /// The text of the member named `key`, where it is a string.
    pub fn str_member(&self, key: &str) -> (s: Option<&str>)
        ensures
            text::view_opt_str(s) == self@.str_member(key@),
    {
        match self.get(key) {
            Some(value) => value.as_str(),
            None => None,
        }
    }
}

impl Clone for Json {
    fn clone(&self) -> (copy: Self)
        ensures
            copy@ == self@,
        decreases self,
    {
        match self {
            Json::Null => Json::Null,
            Json::Bool(b) => Json::Bool(*b),
            Json::Number { integer, text } => Json::Number { integer: *integer, text: text.clone() },
            Json::String(s) => Json::String(s.clone()),
            Json::Array(items) => {
                let mut copies: Vec<Json> = Vec::new();
                for i in 0..items.len()
                    invariant
                        self == Json::Array(*items),
                        copies@.len() == i,
                        forall|j: int| 0 <= j < i ==> (#[trigger] copies@[j])@ == items@[j]@,
                {
                    assert(decreases_to!(self => self->Array_0));
                    copies.push(items[i].clone());
                }
                let copy = Json::Array(copies);
                assert(copy@->Array_0 =~= self@->Array_0);
                copy
            },
            Json::Object(members) => {
                let mut copies: Vec<(String, Json)> = Vec::new();
                for i in 0..members.len()
                    invariant
                        self == Json::Object(*members),
                        copies@.len() == i,
                        forall|j: int|
                            0 <= j < i ==> (#[trigger] copies@[j]).0@ == members@[j].0@
                                && copies@[j].1@ == members@[j].1@,
                {
                    assert(decreases_to!(self => self->Object_0));
                    copies.push((members[i].0.clone(), members[i].1.clone()));
                }
                let copy = Json::Object(copies);
                assert(copy@->Object_0 =~= self@->Object_0);
                copy
            },
        }
    }
}

/// A copy of an optional JSON value.
pub fn copy_opt(value: &Option<Json>) -> (copy: Option<Json>)
    ensures
        view_opt(copy) == view_opt(*value),
{
    match value {
        Some(value) => Some(value.clone()),
        None => None,
    }
}

} // verus!
