//! JSON values as the library reads and builds them.

use crate::names::{find_name, keys_of, lookup, names_of, unique_keys};
use vstd::prelude::*;

verus! {

/// A JSON number: an unsigned integer, a negative integer, or a finite
/// floating-point value held by its IEEE 754 binary64 bit pattern.
#[derive(Clone, Copy, Debug, PartialEq, Eq, Structural)]
pub enum JsonNumber {
    PosInt(u64),
    NegInt(i64),
    Float(u64),
}

impl JsonNumber {
    /// The number as a signed 64-bit integer, where it is one.
    pub open spec fn spec_as_i64(&self) -> Option<i64> {
        match *self {
            JsonNumber::PosInt(n) => if n <= i64::MAX {
                Some(n as i64)
            } else {
                None
            },
            JsonNumber::NegInt(n) => Some(n),
            JsonNumber::Float(_) => None,
        }
    }

    /// The number as an unsigned 64-bit integer, where it is one.
    pub open spec fn spec_as_u64(&self) -> Option<u64> {
        match *self {
            JsonNumber::PosInt(n) => Some(n),
            _ => None,
        }
    }

    /// The number is held in the one form that it has: an integer that is
    /// not below zero is held as unsigned, so a signed integer is negative.
    pub open spec fn canonical(&self) -> bool {
        *self matches JsonNumber::NegInt(i) ==> i < 0
    }

    /// The number is a floating-point value.
    pub open spec fn spec_is_float(&self) -> bool {
        *self is Float
    }

    /// The number that reads as `unsigned` where that is given, else as
    /// `signed` where that is given, else as the float with the bits `bits`.
    pub fn from_parts(unsigned: Option<u64>, signed: Option<i64>, bits: Option<u64>) -> (r:
        JsonNumber)
        ensures
            r == match (unsigned, signed, bits) {
                (Some(u), _, _) => JsonNumber::PosInt(u),
                (None, Some(i), _) => JsonNumber::NegInt(i),
                (None, None, Some(b)) => JsonNumber::Float(b),
                (None, None, None) => JsonNumber::Float(0),
            },
    {
        match (unsigned, signed, bits) {
            (Some(u), _, _) => JsonNumber::PosInt(u),
            (None, Some(i), _) => JsonNumber::NegInt(i),
            (None, None, Some(b)) => JsonNumber::Float(b),
            (None, None, None) => JsonNumber::Float(0),
        }
    }

    #[verifier::when_used_as_spec(spec_as_i64)]
    pub fn as_i64(&self) -> (r: Option<i64>)
        ensures
            r == self.spec_as_i64(),
    {
        match self {
            JsonNumber::PosInt(n) => if *n <= 0x7fff_ffff_ffff_ffffu64 {
                Some(*n as i64)
            } else {
                None
            },
            JsonNumber::NegInt(n) => Some(*n),
            JsonNumber::Float(_) => None,
        }
    }

    #[verifier::when_used_as_spec(spec_as_u64)]
    pub fn as_u64(&self) -> (r: Option<u64>)
        ensures
            r == self.spec_as_u64(),
    {
        match self {
            JsonNumber::PosInt(n) => Some(*n),
            _ => None,
        }
    }

    #[verifier::when_used_as_spec(spec_is_float)]
    pub fn is_float(&self) -> (r: bool)
        ensures
            r == self.spec_is_float(),
    {
        match self {
            JsonNumber::Float(_) => true,
            _ => false,
        }
    }
}

/// A JSON value. An object keeps its members in the order they were written.
#[derive(Debug, PartialEq, Eq)]
pub enum JsonValue {
    Null,
    Bool(bool),
    Number(JsonNumber),
    String(String),
    Array(Vec<JsonValue>),
    Object(Vec<(String, JsonValue)>),
}

/// The mathematical value of a [`JsonValue`].
pub enum JsonView {
    Null,
    Bool(bool),
    Number(JsonNumber),
    String(Seq<char>),
    Array(Seq<JsonView>),
    Object(Seq<(Seq<char>, JsonView)>),
}

impl JsonView {
    /// No object of the value has two members of one name, and every
    /// number is held in its one form.
    pub open spec fn wf(self) -> bool
        decreases self,
    {
        match self {
            JsonView::Number(n) => n.canonical(),
            JsonView::Array(items) => forall|i: int| 0 <= i < items.len() ==> (#[trigger] items[i]).wf(),
            JsonView::Object(members) => unique_keys(members) && forall|i: int|
                0 <= i < members.len() ==> (#[trigger] members[i]).1.wf(),
            _ => true,
        }
    }

    /// The value holds no floating-point number.
    pub open spec fn float_free(self) -> bool
        decreases self,
    {
        match self {
            JsonView::Number(n) => !(n is Float),
            JsonView::Array(items) => forall|i: int|
                0 <= i < items.len() ==> (#[trigger] items[i]).float_free(),
            JsonView::Object(members) => forall|i: int|
                0 <= i < members.len() ==> (#[trigger] members[i]).1.float_free(),
            _ => true,
        }
    }
}

/// The mathematical value of `value`.
pub open spec fn json_view(value: JsonValue) -> JsonView
    decreases value,
{
    match value {
        JsonValue::Null => JsonView::Null,
        JsonValue::Bool(b) => JsonView::Bool(b),
        JsonValue::Number(n) => JsonView::Number(n),
        JsonValue::String(s) => JsonView::String(s@),
        JsonValue::Array(items) => JsonView::Array(json_views(items@)),
        JsonValue::Object(members) => JsonView::Object(member_views(members@)),
    }
}

/// The views of a list of values.
pub open spec fn json_views(items: Seq<JsonValue>) -> Seq<JsonView>
    decreases items,
{
    Seq::new(
        items.len(),
        |i: int|
            if 0 <= i < items.len() {
                json_view(items[i])
            } else {
                JsonView::Null
            },
    )
}

/// The views of the members of an object.
pub open spec fn member_views(members: Seq<(String, JsonValue)>) -> Seq<(Seq<char>, JsonView)>
    decreases members,
{
    Seq::new(
        members.len(),
        |i: int|
            if 0 <= i < members.len() {
                (members[i].0@, json_view(members[i].1))
            } else {
                (Seq::empty(), JsonView::Null)
            },
    )
}

impl View for JsonValue {
    type V = JsonView;

    open spec fn view(&self) -> JsonView {
        json_view(*self)
    }
}

/// The names of the members of an object are the names of its model.
pub proof fn lemma_member_names(members: Seq<(String, JsonValue)>)
    ensures
        keys_of(member_views(members)) == names_of(members),
{
    assert(keys_of(member_views(members)) =~= names_of(members));
}

/// A copy of a JSON value.
pub fn clone_json(value: &JsonValue) -> (r: JsonValue)
    ensures
        r@ == value@,
    decreases value, 1nat,
{
    match value {
        JsonValue::Null => JsonValue::Null,
        JsonValue::Bool(b) => JsonValue::Bool(*b),
        JsonValue::Number(n) => JsonValue::Number(*n),
        JsonValue::String(s) => JsonValue::String(s.clone()),
        JsonValue::Array(items) => JsonValue::Array(clone_json_items(items)),
        JsonValue::Object(members) => JsonValue::Object(clone_json_members(members)),
    }
}

fn clone_json_items(items: &Vec<JsonValue>) -> (r: Vec<JsonValue>)
    ensures
        json_views(r@) == json_views(items@),
    decreases items, 0nat,
{
    let mut copy: Vec<JsonValue> = Vec::new();
    let mut i: usize = 0;
    while i < items.len()
        invariant
            i <= items.len(),
            copy@.len() == i,
            forall|k: int| 0 <= k < i ==> (#[trigger] copy@[k])@ == items@[k]@,
        decreases items.len() - i,
    {
        copy.push(clone_json(&items[i]));
        i += 1;
    }
    assert(json_views(copy@) =~= json_views(items@));
    copy
}

fn clone_json_members(members: &Vec<(String, JsonValue)>) -> (r: Vec<(String, JsonValue)>)
    ensures
        member_views(r@) == member_views(members@),
    decreases members, 0nat,
{
    let mut copy: Vec<(String, JsonValue)> = Vec::new();
    let mut i: usize = 0;
    while i < members.len()
        invariant
            i <= members.len(),
            copy@.len() == i,
            forall|k: int|
                0 <= k < i ==> (#[trigger] copy@[k]).0@ == members@[k].0@ && copy@[k].1@
                    == members@[k].1@,
        decreases members.len() - i,
    {
        copy.push((members[i].0.clone(), clone_json(&members[i].1)));
        i += 1;
    }
    assert(member_views(copy@) =~= member_views(members@));
    copy
}

impl Clone for JsonValue {
    fn clone(&self) -> (r: Self)
        ensures
            r@ == self@,
    {
        clone_json(self)
    }
}

impl JsonValue {
    /// The member called `key`, if the value is an object that has one.
    pub fn get(&self, key: &String) -> (r: Option<&JsonValue>)
        ensures
            match self@ {
                JsonView::Object(members) => match lookup(members, key@) {
                    Some(v) => r is Some && r.unwrap()@ == v,
                    None => r is None,
                },
                _ => r is None,
            },
    {
        match self {
            JsonValue::Object(members) => {
                proof {
                    lemma_member_names(members@);
                }
                match find_name(members, key) {
                    Some(i) => Some(&members[i].1),
                    None => None,
                }
            },
            _ => None,
        }
    }
}

} // verus!
