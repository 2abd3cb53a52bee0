//! JSON values as the dispatcher sees them.

use crate::text::{decimal, decimal_text, integer, integer_text};
use vstd::prelude::*;

verus! {

/// A JSON document as a mathematical value: the model that contracts speak of.
pub enum Json {
    Null,
    Boolean(bool),
    /// A number, by its JSON literal.
    Number(Seq<char>),
    String(Seq<char>),
    Array(Seq<Json>),
    /// The members in the order they were written.
    Object(Seq<Member>),
}

/// One member of a JSON object.
pub struct Member {
    pub key: Seq<char>,
    pub value: Json,
}

/// A JSON document held in memory.
///
/// A number is kept as its JSON literal, so that no precision is lost on the
/// way through the dispatcher.
#[derive(Debug, PartialEq, Eq)]
pub enum Value {
    Null,
    Boolean(bool),
    Number(String),
    String(String),
    Array(Vec<Value>),
    Object(Vec<(String, Value)>),
}

impl View for Value {
    type V = Json;

    open spec fn view(&self) -> Json
        decreases self,
    {
        match self {
            Value::Null => Json::Null,
            Value::Boolean(b) => Json::Boolean(*b),
            Value::Number(n) => Json::Number(n@),
            Value::String(s) => Json::String(s@),
            Value::Array(items) => Json::Array(
                Seq::new(
                    items@.len(),
                    |i: int|
                        if 0 <= i < items@.len() {
                            items@[i]@
                        } else {
                            Json::Null
                        },
                ),
            ),
            Value::Object(members) => Json::Object(
                Seq::new(
                    members@.len(),
                    |i: int|
                        if 0 <= i < members@.len() {
                            Member { key: members@[i].0@, value: members@[i].1@ }
                        } else {
                            Member { key: Seq::empty(), value: Json::Null }
                        },
                ),
            ),
        }
    }
}

/// The views of `items`, in order.
pub open spec fn values_view(items: Seq<Value>) -> Seq<Json> {
    Seq::new(items.len(), |i: int| items[i]@)
}

/// The views of an object's members, in order.
pub open spec fn members_view(members: Seq<(String, Value)>) -> Seq<Member> {
    Seq::new(members.len(), |i: int| Member { key: members[i].0@, value: members[i].1@ })
}

/// The place of the first member under `key`; the number of members if there
/// is none.
pub open spec fn key_index(members: Seq<Member>, key: Seq<char>) -> int
    decreases members.len(),
{
    if members.len() == 0 {
        0
    } else if members[0].key == key {
        0
    } else {
        1 + key_index(members.skip(1), key)
    }
}

/// What the first member under `key` holds.
pub open spec fn member_of(members: Seq<Member>, key: Seq<char>) -> Option<Json> {
    if key_index(members, key) < members.len() {
        Some(members[key_index(members, key)].value)
    } else {
        None
    }
}

impl Json {
    /// What an object holds under `key`; `None` for a missing key and for
    /// anything that is no object.
    pub open spec fn member(self, key: Seq<char>) -> Option<Json> {
        match self {
            Json::Object(members) => member_of(members, key),
            _ => None,
        }
    }
}

/// An array's view is the views of its items.
pub proof fn lemma_view_array(items: Vec<Value>)
    ensures
        Value::Array(items)@ == Json::Array(values_view(items@)),
{
    let v = Value::Array(items)@;
    assert(v is Array);
    let s = v->Array_0;
    assert(s.len() == items@.len());
    assert forall|i: int| 0 <= i < s.len() implies s[i] == values_view(items@)[i] by {
        assert(s[i] == items@[i]@);
    }
    assert(s =~= values_view(items@));
}

/// An object's view is the views of its members.
pub proof fn lemma_view_object(members: Vec<(String, Value)>)
    ensures
        Value::Object(members)@ == Json::Object(members_view(members@)),
{
    let v = Value::Object(members)@;
    assert(v is Object);
    let s = v->Object_0;
    assert(s.len() == members@.len());
    assert forall|i: int| 0 <= i < s.len() implies s[i] == members_view(members@)[i] by {
        assert(s[i] == Member { key: members@[i].0@, value: members@[i].1@ });
    }
    assert(s =~= members_view(members@));
}

/// `key_index` is the first place that holds `key`.
pub proof fn lemma_key_index(members: Seq<Member>, key: Seq<char>, i: int)
    requires
        0 <= i <= members.len(),
        forall|j: int| 0 <= j < i ==> members[j].key != key,
        i < members.len() ==> members[i].key == key,
    ensures
        key_index(members, key) == i,
    decreases i,
{
    if i > 0 {
        lemma_key_index(members.skip(1), key, i - 1);
    }
}

/// The place of the first member of `members` under `key`.
pub fn position(members: &Vec<(String, Value)>, key: &str) -> (r: Option<usize>)
    ensures
        match r {
            Some(i) => i < members@.len() && i == key_index(members_view(members@), key@),
            None => key_index(members_view(members@), key@) == members@.len(),
        },
{
    let ghost view = members_view(members@);
    let mut i: usize = 0;
    while i < members.len()
        invariant
            0 <= i <= members@.len(),
            view == members_view(members@),
            forall|j: int| 0 <= j < i ==> view[j].key != key@,
        decreases members@.len() - i,
    {
        if crate::text::text_is(&members[i].0, key) {
            proof {
                lemma_key_index(view, key@, i as int);
            }
            return Some(i);
        }
        i += 1;
    }
    proof {
        lemma_key_index(view, key@, i as int);
    }
    None
}

impl Value {
    /// The JSON number `n`.
    pub fn from_u64(n: u64) -> (r: Value)
        ensures
            r@ == Json::Number(decimal_text(n as nat)),
    {
        Value::Number(decimal(n))
    }

    /// The JSON number `i`.
    pub fn from_i64(i: i64) -> (r: Value)
        ensures
            r@ == Json::Number(integer_text(i as int)),
    {
        Value::Number(integer(i))
    }

    /// Whether this is the JSON literal `false`.
    pub fn is_false(&self) -> (r: bool)
        ensures
            r == (self@ == Json::Boolean(false)),
    {
        match self {
            Value::Boolean(b) => !*b,
            _ => false,
        }
    }

    /// What an object holds under `key`: its first member of that name.
    pub fn get(&self, key: &str) -> (r: Option<&Value>)
        ensures
            match r {
                Some(v) => self@.member(key@) == Some(v@),
                None => self@.member(key@) is None,
            },
    {
        match self {
            Value::Object(members) => {
                proof {
                    lemma_view_object(*members);
                }
                match position(members, key) {
                    Some(i) => Some(&members[i].1),
                    None => None,
                }
            },
            _ => None,
        }
    }

    /// The text of a JSON string; `None` for any other value.
    pub fn as_text(&self) -> (r: Option<&String>)
        ensures
            match r {
                Some(s) => self@ == Json::String(s@),
                None => !(self@ is String),
            },
    {
        match self {
            Value::String(s) => Some(s),
            _ => None,
        }
    }
}

impl Clone for Value {
    fn clone(&self) -> (r: Value)
        ensures
            r@ == self@,
        decreases self,
    {
        match self {
            Value::Null => Value::Null,
            Value::Boolean(b) => Value::Boolean(*b),
            Value::Number(n) => Value::Number(n.clone()),
            Value::String(s) => Value::String(s.clone()),
            Value::Array(items) => {
                let mut copy: Vec<Value> = Vec::new();
                let mut i: usize = 0;
                while i < items.len()
                    invariant
                        self is Array,
                        self->Array_0 == *items,
                        0 <= i <= items@.len(),
                        copy@.len() == i,
                        forall|j: int| 0 <= j < i ==> copy@[j]@ == items@[j]@,
                    decreases items@.len() - i,
                {
                    copy.push(items[i].clone());
                    i += 1;
                }
                proof {
                    lemma_view_array(*items);
                    lemma_view_array(copy);
                    assert(values_view(copy@) =~= values_view(items@));
                }
                Value::Array(copy)
            },
            Value::Object(members) => {
                let mut copy: Vec<(String, Value)> = Vec::new();
                let mut i: usize = 0;
                while i < members.len()
                    invariant
                        self is Object,
                        self->Object_0 == *members,
                        0 <= i <= members@.len(),
                        copy@.len() == i,
                        forall|j: int|
                            0 <= j < i ==> copy@[j].0@ == members@[j].0@ && copy@[j].1@
                                == members@[j].1@,
                    decreases members@.len() - i,
                {
                    copy.push((members[i].0.clone(), members[i].1.clone()));
                    i += 1;
                }
                proof {
                    lemma_view_object(*members);
                    lemma_view_object(copy);
                    assert(members_view(copy@) =~= members_view(members@));
                }
                Value::Object(copy)
            },
        }
    }
}


} // verus!
