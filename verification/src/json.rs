//! JSON documents: the tree that the record decoders read, and the parser
//! that produces it.

use vstd::prelude::*;

verus! {

/// A JSON document held in plain values.
#[derive(Debug, PartialEq, Eq)]
pub enum Json {
    Null,
    Bool(bool),
    /// A number: its value where it is an integer that fits in 64 signed
    /// bits, `None` for every other number.
    Number(Option<i64>),
    Text(String),
    Array(Vec<Json>),
    /// The members of an object, in the order in which they are held.
    Object(Vec<(String, Json)>),
}

/// The mathematical value of a [`Json`].
pub enum JsonTree {
    Null,
    Bool(bool),
    Number(Option<i64>),
    Text(Seq<char>),
    Array(Seq<JsonTree>),
    Object(Seq<(Seq<char>, JsonTree)>),
}

/// The mathematical value of a document.
pub open spec fn tree_of(json: Json) -> JsonTree
    decreases json,
{
    match json {
        Json::Null => JsonTree::Null,
        Json::Bool(b) => JsonTree::Bool(b),
        Json::Number(n) => JsonTree::Number(n),
        Json::Text(s) => JsonTree::Text(s@),
        Json::Array(items) => JsonTree::Array(
            Seq::new(
                items@.len(),
                |i: int|
                    if 0 <= i < items@.len() {
                        tree_of(items@[i])
                    } else {
                        JsonTree::Null
                    },
            ),
        ),
        Json::Object(members) => JsonTree::Object(
            Seq::new(
                members@.len(),
                |i: int|
                    if 0 <= i < members@.len() {
                        (members@[i].0@, tree_of(members@[i].1))
                    } else {
                        (Seq::empty(), JsonTree::Null)
                    },
            ),
        ),
    }
}

impl View for Json {
    type V = JsonTree;

    open spec fn view(&self) -> JsonTree {
        tree_of(*self)
    }
}

/// `serde_json::Value`, as the parser returns it. Nothing is read off such a
/// value but through [`value_tree`].
#[verifier::external_type_specification]
#[verifier::external_body]
pub struct ExValue(serde_json::Value);

/// The document that a text denotes, `None` where the text is not JSON.
pub uninterp spec fn document(text: Seq<char>) -> Option<JsonTree>;

/// The document that a parsed `serde_json::Value` holds.
pub uninterp spec fn value_tree(value: serde_json::Value) -> JsonTree;

/// `serde_json::from_str`, read at `serde_json::Value`: the parse succeeds
/// exactly on the texts that denote a document, and the value it returns
/// holds that document.
#[verifier::external_body]
fn read_value(text: &str) -> (r: Option<serde_json::Value>)
    ensures
        match r {
            Some(value) => document(text@) == Some(value_tree(value)),
            None => document(text@) is None,
        },
{
    serde_json::from_str::<serde_json::Value>(text).ok()
}

/// Copies a `serde_json::Value` into a [`Json`], variant by variant; a
/// number is read with `serde_json::Number::as_i64`, and the members of an
/// object are taken in the order of `serde_json::Map::iter`.
#[verifier::external_body]
fn lift(value: &serde_json::Value) -> (json: Json)
    ensures
        json@ == value_tree(*value),
{
    match value {
        serde_json::Value::Null => Json::Null,
        serde_json::Value::Bool(b) => Json::Bool(*b),
        serde_json::Value::Number(n) => Json::Number(n.as_i64()),
        serde_json::Value::String(s) => Json::Text(s.clone()),
        serde_json::Value::Array(items) => Json::Array(items.iter().map(lift).collect()),
        serde_json::Value::Object(members) => Json::Object(
            members.iter().map(|(k, v)| (k.clone(), lift(v))).collect(),
        ),
    }
}

/// The members of an object as the view of [`Json::Object`] holds them.
pub open spec fn members_view(members: Seq<(String, Json)>) -> Seq<(Seq<char>, JsonTree)> {
    Seq::new(members.len(), |i: int| (members[i].0@, members[i].1@))
}

/// The elements of an array as the view of [`Json::Array`] holds them.
pub open spec fn items_view(items: Seq<Json>) -> Seq<JsonTree> {
    Seq::new(items.len(), |i: int| items[i]@)
}

/// The value of the first member of that name, `None` where there is none.
pub open spec fn member(members: Seq<(Seq<char>, JsonTree)>, name: Seq<char>) -> Option<JsonTree>
    decreases members.len(),
{
    if members.len() == 0 {
        None
    } else if members[0].0 == name {
        Some(members[0].1)
    } else {
        member(members.drop_first(), name)
    }
}

/// A member is found at the first position that bears its name.
pub proof fn lemma_member_at(members: Seq<(Seq<char>, JsonTree)>, at: int, name: Seq<char>)
    requires
        0 <= at < members.len(),
        members[at].0 == name,
        forall|k: int| 0 <= k < at ==> members[k].0 != name,
    ensures
        member(members, name) == Some(members[at].1),
    decreases at,
{
    if at > 0 {
        lemma_member_at(members.drop_first(), at - 1, name);
    }
}

/// No member is found where no position bears the name.
pub proof fn lemma_member_none(members: Seq<(Seq<char>, JsonTree)>, name: Seq<char>)
    requires
        forall|k: int| 0 <= k < members.len() ==> members[k].0 != name,
    ensures
        member(members, name) is None,
    decreases members.len(),
{
    if members.len() > 0 {
        lemma_member_none(members.drop_first(), name);
    }
}

/// The view of an object is the view of its members, and likewise for an
/// array.
pub proof fn lemma_view_of_parts(json: Json)
    ensures
        json matches Json::Object(members) ==> json@ == JsonTree::Object(members_view(members@)),
        json matches Json::Array(items) ==> json@ == JsonTree::Array(items_view(items@)),
{
    match json {
        Json::Object(members) => {
            assert(json@->Object_0 =~= members_view(members@));
        },
        Json::Array(items) => {
            assert(json@->Array_0 =~= items_view(items@));
        },
        _ => {},
    }
}

/// Finds the first member of an object that bears a name.
pub fn find_member<'a>(members: &'a Vec<(String, Json)>, name: &str) -> (r: Option<&'a Json>)
    ensures
        match r {
            Some(json) => member(members_view(members@), name@) == Some(json@),
            None => member(members_view(members@), name@) is None,
        },
{
    let key = name.to_owned();
    let mut i: usize = 0;
    while i < members.len()
        invariant
            i <= members.len(),
            key@ == name@,
            forall|k: int| 0 <= k < i ==> members_view(members@)[k].0 != name@,
        decreases members.len() - i,
    {
        if members[i].0 == key {
            proof {
                lemma_member_at(members_view(members@), i as int, name@);
            }
            return Some(&members[i].1);
        }
        i = i + 1;
    }
    proof {
        lemma_member_none(members_view(members@), name@);
    }
    None
}

impl Json {
    /// Reads a text as JSON.
    pub fn parse(text: &str) -> (r: Option<Json>)
        ensures
            match r {
                Some(json) => document(text@) == Some(json@),
                None => document(text@) is None,
            },
    {
        match read_value(text) {
            Some(value) => Some(lift(&value)),
            None => None,
        }
    }
}

} // verus!
