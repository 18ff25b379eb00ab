//! A plain model of JSON values.
//!
//! Requests and responses are built and read as values of [`Json`]; the
//! caller turns them into text and back with the JSON library of its
//! choice.

use vstd::prelude::*;
use vstd::string::*;
use crate::text::text_eq;

verus! {

/// A JSON value. A number is held as its decimal text. An object keeps
/// its members in order; where a name occurs twice, the last member
/// counts.
#[derive(Debug, PartialEq, Eq)]
pub enum Json {
    Null,
    Bool(bool),
    Number(String),
    Text(String),
    Array(Vec<Json>),
    Object(Vec<(String, Json)>),
}

/// A member of an object: its name and its value.
pub struct MemberValue {
    pub name: Seq<char>,
    pub value: JsonValue,
}

/// The mathematical value of a [`Json`].
pub enum JsonValue {
    Null,
    Bool(bool),
    Number(Seq<char>),
    Text(Seq<char>),
    Array(Seq<JsonValue>),
    Object(Seq<MemberValue>),
}

/// The value of the last member of `members` named `key`, or `Null`
/// where there is none.
pub open spec fn member_value(members: Seq<MemberValue>, key: Seq<char>) -> JsonValue
    decreases members.len(),
{
    if members.len() == 0 {
        JsonValue::Null
    } else if members.last().name == key {
        members.last().value
    } else {
        member_value(members.drop_last(), key)
    }
}

/// Whether some member of `members` is named `key`.
pub open spec fn has_member(members: Seq<MemberValue>, key: Seq<char>) -> bool {
    exists|i: int| 0 <= i < members.len() && (#[trigger] members[i]).name == key
}

impl JsonValue {
    /// Whether the value is an object with a member named `key`.
    pub open spec fn has(self, key: Seq<char>) -> bool {
        match self {
            JsonValue::Object(members) => has_member(members, key),
            _ => false,
        }
    }

    /// The member named `key` of an object; `Null` where the value is no
    /// object or has no such member.
    pub open spec fn index(self, key: Seq<char>) -> JsonValue {
        match self {
            JsonValue::Object(members) => member_value(members, key),
            _ => JsonValue::Null,
        }
    }

    /// The string that the value holds, if it is a string.
    pub open spec fn as_text(self) -> Option<Seq<char>> {
        match self {
            JsonValue::Text(t) => Some(t),
            _ => None,
        }
    }

    /// The elements that the value holds, if it is an array.
    pub open spec fn as_items(self) -> Option<Seq<JsonValue>> {
        match self {
            JsonValue::Array(items) => Some(items),
            _ => None,
        }
    }
}

/// The views of the elements of an array.
pub open spec fn items_view(items: Seq<Json>) -> Seq<JsonValue> {
    Seq::new(items.len(), |i: int| items[i]@)
}

/// The views of the members of an object.
pub open spec fn members_view(members: Seq<(String, Json)>) -> Seq<MemberValue> {
    Seq::new(members.len(), |i: int| MemberValue { name: members[i].0@, value: members[i].1@ })
}

impl View for Json {
    type V = JsonValue;

    open spec fn view(&self) -> JsonValue
        decreases self,
    {
        match self {
            Json::Null => JsonValue::Null,
            Json::Bool(b) => JsonValue::Bool(*b),
            Json::Number(n) => JsonValue::Number(n@),
            Json::Text(t) => JsonValue::Text(t@),
            Json::Array(items) => JsonValue::Array(
                Seq::new(
                    items@.len(),
                    |i: int|
                        if 0 <= i < items@.len() {
                            items@[i].view()
                        } else {
                            JsonValue::Null
                        },
                ),
            ),
            Json::Object(members) => JsonValue::Object(
                Seq::new(
                    members@.len(),
                    |i: int|
                        if 0 <= i < members@.len() {
                            MemberValue { name: members@[i].0@, value: members@[i].1.view() }
                        } else {
                            MemberValue { name: Seq::empty(), value: JsonValue::Null }
                        },
                ),
            ),
        }
    }
}

/// The view of an array is the array of the views.
pub proof fn lemma_array_view(items: Vec<Json>)
    ensures
        Json::Array(items)@ == JsonValue::Array(items_view(items@)),
{
    assert(Json::Array(items)@->Array_0 =~= items_view(items@));
}

/// The view of an object is the object of the members' views.
pub proof fn lemma_object_view(members: Vec<(String, Json)>)
    ensures
        Json::Object(members)@ == JsonValue::Object(members_view(members@)),
{
    let shown = Json::Object(members)@->Object_0;
    assert(shown =~= members_view(members@));
}

/// The view of an optional value, with `Null` for none.
pub open spec fn or_null(found: Option<&Json>) -> JsonValue {
    match found {
        Some(j) => j@,
        None => JsonValue::Null,
    }
}

impl Json {
    /// A JSON string.
    pub fn text(s: &str) -> (j: Json)
        ensures
            j@ == JsonValue::Text(s@),
    {
        Json::Text(String::from_str(s))
    }

    /// A JSON array of the given elements.
    pub fn array(items: Vec<Json>) -> (j: Json)
        ensures
            j@ == JsonValue::Array(items_view(items@)),
    {
        proof {
            lemma_array_view(items);
        }
        Json::Array(items)
    }

    /// A JSON object of the given members.
    pub fn object(members: Vec<(String, Json)>) -> (j: Json)
        ensures
            j@ == JsonValue::Object(members_view(members@)),
    {
        proof {
            lemma_object_view(members);
        }
        Json::Object(members)
    }

    /// The member named `key`, where the value is an object that has one.
    pub fn get(&self, key: &str) -> (found: Option<&Json>)
        ensures
            or_null(found) == self@.index(key@),
            found is Some <==> self@.has(key@),
    {
        match self {
            Json::Object(members) => {
                proof {
                    lemma_object_view(*members);
                    assert(members_view(members@).take(members@.len() as int) =~= members_view(
                        members@,
                    ));
                }
                let mut i: usize = members.len();
                while i > 0
                    invariant
                        i <= members.len(),
                        self@ == JsonValue::Object(members_view(members@)),
                        forall|j: int|
                            i <= j < members@.len() ==> (#[trigger] members_view(
                                members@,
                            )[j]).name != key@,
                        member_value(members_view(members@), key@) == member_value(
                            members_view(members@).take(i as int),
                            key@,
                        ),
                    decreases i,
                {
                    i -= 1;
                    proof {
                        let prefix = members_view(members@).take(i + 1);
                        assert(prefix.last() == members_view(members@)[i as int]);
                        assert(prefix.drop_last() =~= members_view(members@).take(i as int));
                    }
                    if text_eq(members[i].0.as_str(), key) {
                        proof {
                            assert(members_view(members@)[i as int].name == key@);
                        }
                        return Some(&members[i].1);
                    }
                }
                None
            },
            _ => None,
        }
    }

    /// The string that the value holds, if it is a string.
    pub fn as_str(&self) -> (text: Option<&str>)
        ensures
            match text {
                Some(t) => self@.as_text() == Some(t@),
                None => self@.as_text() is None,
            },
    {
        match self {
            Json::Text(t) => Some(t.as_str()),
            _ => None,
        }
    }

    /// The elements that the value holds, if it is an array.
    pub fn as_array(&self) -> (items: Option<&Vec<Json>>)
        ensures
            match items {
                Some(v) => self@.as_items() == Some(items_view(v@)),
                None => self@.as_items() is None,
            },
    {
        match self {
            Json::Array(items) => {
                proof {
                    lemma_array_view(*items);
                }
                Some(items)
            },
            _ => None,
        }
    }

    /// A copy of the value.
    #[verifier::loop_isolation(false)]
    pub fn duplicate(&self) -> (copy: Json)
        ensures
            copy@ == self@,
        decreases self,
    {
        match self {
            Json::Null => Json::Null,
            Json::Bool(b) => Json::Bool(*b),
            Json::Number(n) => Json::Number(n.clone()),
            Json::Text(t) => Json::Text(t.clone()),
            Json::Array(items) => {
                let mut out: Vec<Json> = Vec::new();
                let mut i: usize = 0;
                while i < items.len()
                    invariant
                        i <= items.len(),
                        out@.len() == i,
                        forall|j: int| 0 <= j < i ==> out@[j]@ == items@[j]@,
                    decreases items.len() - i,
                {
                    out.push(items[i].duplicate());
                    i += 1;
                }
                proof {
                    lemma_array_view(*items);
                    lemma_array_view(out);
                    assert(items_view(out@) =~= items_view(items@));
                }
                Json::Array(out)
            },
            Json::Object(members) => {
                let mut out: Vec<(String, Json)> = Vec::new();
                let mut i: usize = 0;
                while i < members.len()
                    invariant
                        i <= members.len(),
                        out@.len() == i,
                        forall|j: int|
                            0 <= j < i ==> out@[j].0@ == members@[j].0@ && out@[j].1@
                                == members@[j].1@,
                    decreases members.len() - i,
                {
                    out.push((members[i].0.clone(), members[i].1.duplicate()));
                    i += 1;
                }
                proof {
                    lemma_object_view(*members);
                    lemma_object_view(out);
                    assert(members_view(out@) =~= members_view(members@));
                }
                Json::Object(out)
            },
        }
    }
}

} // verus!
