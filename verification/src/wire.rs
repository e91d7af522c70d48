//! The JSON form of the values that replies are made of.

use vstd::prelude::*;
use crate::json::{
    find_member, items_view, lemma_member_at, lemma_view_of_parts, member, members_view, Json,
    JsonTree,
};

verus! {

/// A type with a JSON form: its values can be read from a document and
/// written as one.
pub trait Wire: DeepView + Sized {
    /// The value that a document denotes, `None` where the document has not
    /// the shape of this type.
    spec fn decoded(tree: JsonTree) -> Option<Self::V>;

    /// The document that stands for a value.
    spec fn encoded(value: Self::V) -> JsonTree;

    /// Whether a value is one that a document can denote.
    spec fn sound(value: Self::V) -> bool;

    /// Reads a value from a document.
    fn decode(json: &Json) -> (r: Option<Self>)
        ensures
            r.deep_view() == Self::decoded(json@),
    ;

    /// Writes a value as a document.
    fn encode(&self) -> (json: Json)
        ensures
            json@ == Self::encoded(self.deep_view()),
    ;

    /// What a document denotes is sound.
    proof fn decoded_is_sound(tree: JsonTree)
        ensures
            Self::decoded(tree) matches Some(value) ==> Self::sound(value),
    ;

    /// No value is written as `null`, which stands for an absent one.
    proof fn never_null(value: Self::V)
        ensures
            Self::encoded(value) != JsonTree::Null,
    ;

    /// Reading the document that stands for a sound value gives the value
    /// back.
    proof fn round_trip(value: Self::V)
        requires
            Self::sound(value),
        ensures
            Self::decoded(Self::encoded(value)) == Some(value),
    ;
}

impl Wire for bool {
    open spec fn decoded(tree: JsonTree) -> Option<bool> {
        match tree {
            JsonTree::Bool(b) => Some(b),
            _ => None,
        }
    }

    open spec fn encoded(value: bool) -> JsonTree {
        JsonTree::Bool(value)
    }

    open spec fn sound(value: bool) -> bool {
        true
    }

    fn decode(json: &Json) -> (r: Option<bool>) {
        match json {
            Json::Bool(b) => Some(*b),
            _ => None,
        }
    }

    fn encode(&self) -> (json: Json) {
        Json::Bool(*self)
    }

    proof fn decoded_is_sound(tree: JsonTree) {
    }

    proof fn never_null(value: bool) {
    }

    proof fn round_trip(value: bool) {
    }
}

impl Wire for i32 {
    /// An integer that fits in 32 signed bits.
    open spec fn decoded(tree: JsonTree) -> Option<i32> {
        match tree {
            JsonTree::Number(Some(n)) => if i32::MIN <= n <= i32::MAX {
                Some(n as i32)
            } else {
                None
            },
            _ => None,
        }
    }

    open spec fn encoded(value: i32) -> JsonTree {
        JsonTree::Number(Some(value as i64))
    }

    open spec fn sound(value: i32) -> bool {
        true
    }

    fn decode(json: &Json) -> (r: Option<i32>) {
        match json {
            Json::Number(Some(n)) => {
                if -0x8000_0000 <= *n && *n <= 0x7fff_ffff {
                    Some(*n as i32)
                } else {
                    None
                }
            },
            _ => None,
        }
    }

    fn encode(&self) -> (json: Json) {
        Json::Number(Some(*self as i64))
    }

    proof fn decoded_is_sound(tree: JsonTree) {
    }

    proof fn never_null(value: i32) {
    }

    proof fn round_trip(value: i32) {
    }
}

impl Wire for String {
    open spec fn decoded(tree: JsonTree) -> Option<Seq<char>> {
        match tree {
            JsonTree::Text(s) => Some(s),
            _ => None,
        }
    }

    open spec fn encoded(value: Seq<char>) -> JsonTree {
        JsonTree::Text(value)
    }

    open spec fn sound(value: Seq<char>) -> bool {
        true
    }

    fn decode(json: &Json) -> (r: Option<String>) {
        match json {
            Json::Text(s) => Some(s.clone()),
            _ => None,
        }
    }

    fn encode(&self) -> (json: Json) {
        Json::Text(self.clone())
    }

    proof fn decoded_is_sound(tree: JsonTree) {
    }

    proof fn never_null(value: Seq<char>) {
    }

    proof fn round_trip(value: Seq<char>) {
    }
}

/// An array whose elements all have the shape of `T`, read element by
/// element in order.
impl<T: Wire> Wire for Vec<T> {
    open spec fn decoded(tree: JsonTree) -> Option<Seq<T::V>> {
        match tree {
            JsonTree::Array(items) => if forall|i: int|
                0 <= i < items.len() ==> (#[trigger] T::decoded(items[i])) is Some {
                Some(Seq::new(items.len(), |i: int| T::decoded(items[i])->Some_0))
            } else {
                None
            },
            _ => None,
        }
    }

    open spec fn encoded(value: Seq<T::V>) -> JsonTree {
        JsonTree::Array(Seq::new(value.len(), |i: int| T::encoded(value[i])))
    }

    open spec fn sound(value: Seq<T::V>) -> bool {
        forall|i: int| 0 <= i < value.len() ==> T::sound(#[trigger] value[i])
    }

    fn decode(json: &Json) -> (r: Option<Vec<T>>) {
        proof {
            lemma_view_of_parts(*json);
        }
        match json {
            Json::Array(items) => {
                let mut out: Vec<T> = Vec::new();
                let mut i: usize = 0;
                while i < items.len()
                    invariant
                        i <= items.len(),
                        out.len() == i,
                        json@ == JsonTree::Array(items_view(items@)),
                        forall|k: int|
                            0 <= k < i ==> T::decoded(#[trigger] items_view(items@)[k]) == Some(
                                out@[k].deep_view(),
                            ),
                    decreases items.len() - i,
                {
                    match T::decode(&items[i]) {
                        Some(value) => {
                            out.push(value);
                        },
                        None => {
                            assert(T::decoded(items_view(items@)[i as int]) is None);
                            return None;
                        },
                    }
                    i = i + 1;
                }
                assert(out.deep_view() =~= Self::decoded(json@)->Some_0);
                Some(out)
            },
            _ => None,
        }
    }

    fn encode(&self) -> (json: Json) {
        let mut items: Vec<Json> = Vec::new();
        let mut i: usize = 0;
        while i < self.len()
            invariant
                i <= self.len(),
                items.len() == i,
                forall|k: int|
                    0 <= k < i ==> (#[trigger] items@[k])@ == T::encoded(self@[k].deep_view()),
            decreases self.len() - i,
        {
            items.push(self[i].encode());
            i = i + 1;
        }
        let json = Json::Array(items);
        proof {
            lemma_view_of_parts(json);
            assert(items_view(items@) =~= Self::encoded(self.deep_view())->Array_0);
        }
        json
    }

    proof fn decoded_is_sound(tree: JsonTree) {
        if let Some(value) = Self::decoded(tree) {
            let items = tree->Array_0;
            assert forall|i: int| 0 <= i < value.len() implies T::sound(#[trigger] value[i]) by {
                T::decoded_is_sound(items[i]);
            }
        }
    }

    proof fn never_null(value: Seq<T::V>) {
    }

    proof fn round_trip(value: Seq<T::V>) {
        let items = Self::encoded(value)->Array_0;
        assert forall|i: int| 0 <= i < items.len() implies (#[trigger] T::decoded(
            items[i],
        )) is Some by {
            T::round_trip(value[i]);
        }
        assert forall|i: int| 0 <= i < value.len() implies T::decoded(items[i])->Some_0
            == value[i] by {
            T::round_trip(value[i]);
        }
        assert(Self::decoded(Self::encoded(value))->Some_0 =~= value);
    }
}

/// A member that must be there: the value of the member of that name, read
/// as a `T`; `None` where the member is missing or has not the shape of `T`.
pub open spec fn required<T: Wire>(
    members: Seq<(Seq<char>, JsonTree)>,
    name: Seq<char>,
) -> Option<T::V> {
    match member(members, name) {
        Some(tree) => T::decoded(tree),
        None => None,
    }
}

/// Whether a member is missing or `null`.
pub open spec fn absent(found: Option<JsonTree>) -> bool {
    found is None || found == Some(JsonTree::Null)
}

/// A member that may be left out: no value where the member is missing or
/// `null`, else its value read as a `T`; `None` where it has not the shape
/// of `T`.
pub open spec fn optional<T: Wire>(
    members: Seq<(Seq<char>, JsonTree)>,
    name: Seq<char>,
) -> Option<Option<T::V>> {
    match member(members, name) {
        None => Some(None),
        Some(JsonTree::Null) => Some(None),
        Some(tree) => match T::decoded(tree) {
            Some(value) => Some(Some(value)),
            None => None,
        },
    }
}

/// The document that stands for a value that may be absent: `null` for
/// none.
pub open spec fn encoded_option<T: Wire>(value: Option<T::V>) -> JsonTree {
    match value {
        Some(inner) => T::encoded(inner),
        None => JsonTree::Null,
    }
}

/// Whether a value that may be absent is sound.
pub open spec fn sound_option<T: Wire>(value: Option<T::V>) -> bool {
    value matches Some(inner) ==> T::sound(inner)
}

/// Reads a member that must be there.
pub fn read_required<T: Wire>(members: &Vec<(String, Json)>, name: &str) -> (r: Option<T>)
    ensures
        r.deep_view() == required::<T>(members_view(members@), name@),
{
    match find_member(members, name) {
        Some(json) => T::decode(json),
        None => None,
    }
}

/// Reads a member that may be left out.
pub fn read_optional<T: Wire>(members: &Vec<(String, Json)>, name: &str) -> (r: Option<Option<T>>)
    ensures
        r.deep_view() == optional::<T>(members_view(members@), name@),
{
    match find_member(members, name) {
        None => Some(None),
        Some(Json::Null) => Some(None),
        Some(json) => match T::decode(json) {
            Some(value) => Some(Some(value)),
            None => None,
        },
    }
}

/// Writes a value that may be absent.
pub fn encode_option<T: Wire>(value: &Option<T>) -> (json: Json)
    ensures
        json@ == encoded_option::<T>(value.deep_view()),
{
    match value {
        Some(inner) => inner.encode(),
        None => Json::Null,
    }
}

/// Makes the member of an object.
pub fn entry(name: &str, json: Json) -> (r: (String, Json))
    ensures
        r.0@ == name@,
        r.1 == json,
{
    (name.to_owned(), json)
}

/// A required member is read back from the place where it was written.
pub proof fn lemma_required_at<T: Wire>(
    members: Seq<(Seq<char>, JsonTree)>,
    at: int,
    name: Seq<char>,
    value: T::V,
)
    requires
        0 <= at < members.len(),
        members[at] == (name, T::encoded(value)),
        forall|k: int| 0 <= k < at ==> members[k].0 != name,
        T::sound(value),
    ensures
        required::<T>(members, name) == Some(value),
{
    lemma_member_at(members, at, name);
    T::round_trip(value);
}

/// A member that may be left out is read back from the place where it was
/// written.
pub proof fn lemma_optional_at<T: Wire>(
    members: Seq<(Seq<char>, JsonTree)>,
    at: int,
    name: Seq<char>,
    value: Option<T::V>,
)
    requires
        0 <= at < members.len(),
        members[at] == (name, encoded_option::<T>(value)),
        forall|k: int| 0 <= k < at ==> members[k].0 != name,
        sound_option::<T>(value),
    ensures
        optional::<T>(members, name) == Some(value),
{
    lemma_member_at(members, at, name);
    if let Some(inner) = value {
        T::round_trip(inner);
        T::never_null(inner);
    }
}

/// What a required member is read as is sound.
pub proof fn lemma_required_sound<T: Wire>(members: Seq<(Seq<char>, JsonTree)>, name: Seq<char>)
    ensures
        required::<T>(members, name) matches Some(value) ==> T::sound(value),
{
    if let Some(tree) = member(members, name) {
        T::decoded_is_sound(tree);
    }
}

/// What a member that may be left out is read as is sound.
pub proof fn lemma_optional_sound<T: Wire>(members: Seq<(Seq<char>, JsonTree)>, name: Seq<char>)
    ensures
        optional::<T>(members, name) matches Some(value) ==> sound_option::<T>(value),
{
    if let Some(tree) = member(members, name) {
        T::decoded_is_sound(tree);
    }
}

/// An array whose elements all have the shape of `T` denotes as many
/// values as it has elements: the value of each element, in order.
pub proof fn lemma_array_in_order<T: Wire>(items: Seq<JsonTree>)
    requires
        forall|i: int| 0 <= i < items.len() ==> (#[trigger] T::decoded(items[i])) is Some,
    ensures
        Vec::<T>::decoded(JsonTree::Array(items)) matches Some(values) && values.len()
            == items.len() && forall|i: int|
            0 <= i < items.len() ==> T::decoded(items[i]) == Some(#[trigger] values[i]),
{
}

/// An array with an element that has not the shape of `T` denotes nothing.
pub proof fn lemma_array_all_or_nothing<T: Wire>(items: Seq<JsonTree>, at: int)
    requires
        0 <= at < items.len(),
        T::decoded(items[at]) is None,
    ensures
        Vec::<T>::decoded(JsonTree::Array(items)) is None,
{
}

} // verus!
