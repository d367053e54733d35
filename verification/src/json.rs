//! JSON values as plain data, and parsing JSON text into them.
use vstd::prelude::*;

use crate::strings::str_eq;

verus! {

/// A JSON value held as plain data. A number is held as the text that serde_json
/// prints for it; an object keeps its members in the order the text gives them.
#[derive(Debug)]
pub enum JsonValue {
    Null,
    Bool(bool),
    Number(String),
    Str(String),
    Array(Vec<JsonValue>),
    Object(Vec<(String, JsonValue)>),
}

/// The mathematical form of a JSON value, with strings taken by their characters.
pub enum JsonSpec {
    Null,
    Bool(bool),
    Number(Seq<char>),
    Str(Seq<char>),
    Array(Seq<JsonSpec>),
    Object(Seq<(Seq<char>, JsonSpec)>),
}

impl JsonValue {
    /// The mathematical form of this value.
    pub open spec fn spec_of(self) -> JsonSpec
        decreases self,
    {
        match self {
            JsonValue::Null => JsonSpec::Null,
            JsonValue::Bool(b) => JsonSpec::Bool(b),
            JsonValue::Number(n) => JsonSpec::Number(n@),
            JsonValue::Str(s) => JsonSpec::Str(s@),
            JsonValue::Array(items) => JsonSpec::Array(
                Seq::new(
                    items@.len(),
                    |i: int|
                        if 0 <= i < items@.len() {
                            items@[i].spec_of()
                        } else {
                            JsonSpec::Null
                        },
                ),
            ),
            JsonValue::Object(members) => JsonSpec::Object(
                Seq::new(
                    members@.len(),
                    |i: int|
                        if 0 <= i < members@.len() {
                            (members@[i].0@, members@[i].1.spec_of())
                        } else {
                            (Seq::empty(), JsonSpec::Null)
                        },
                ),
            ),
        }
    }
}

impl View for JsonValue {
    type V = JsonSpec;

    open spec fn view(&self) -> JsonSpec {
        self.spec_of()
    }
}

/// The value of the first member named `key`, if there is one.
pub open spec fn member(members: Seq<(Seq<char>, JsonSpec)>, key: Seq<char>) -> Option<JsonSpec>
    decreases members.len(),
{
    if members.len() == 0 {
        None
    } else if members[0].0 == key {
        Some(members[0].1)
    } else {
        member(members.drop_first(), key)
    }
}

/// The member `key` of `v`, where `v` is an object that has one.
pub open spec fn get_spec(v: JsonSpec, key: Seq<char>) -> Option<JsonSpec> {
    match v {
        JsonSpec::Object(members) => member(members, key),
        _ => None,
    }
}

/// The members of an object, with values taken by their mathematical form.
pub open spec fn members_spec(m: Seq<(String, JsonValue)>) -> Seq<(Seq<char>, JsonSpec)> {
    m.map_values(|e: (String, JsonValue)| (e.0@, e.1@))
}

/// The value of the first member of `members` named `key`, if there is one.
pub fn lookup<'a>(members: &'a Vec<(String, JsonValue)>, key: &str) -> (r: Option<&'a JsonValue>)
    ensures
        match r {
            Some(x) => member(members_spec(members@), key@) == Some(x@),
            None => member(members_spec(members@), key@) is None,
        },
{
    let ghost ms = members_spec(members@);
    let mut i: usize = 0;
    assert(ms.subrange(0, ms.len() as int) =~= ms);
    while i < members.len()
        invariant
            0 <= i <= members.len(),
            ms == members_spec(members@),
            member(ms, key@) == member(ms.subrange(i as int, ms.len() as int), key@),
        decreases members.len() - i,
    {
        let ghost rest = ms.subrange(i as int, ms.len() as int);
        assert(rest.drop_first() =~= ms.subrange(i + 1, ms.len() as int));
        assert(rest[0] == ms[i as int]);
        if str_eq(members[i].0.as_str(), key) {
            return Some(&members[i].1);
        }
        i = i + 1;
    }
    None
}

/// The member `key` of `v`, where `v` is an object that has one.
pub fn get<'a>(v: &'a JsonValue, key: &str) -> (r: Option<&'a JsonValue>)
    ensures
        match r {
            Some(x) => get_spec(v@, key@) == Some(x@),
            None => get_spec(v@, key@) is None,
        },
{
    match v {
        JsonValue::Object(members) => {
            assert(v@->Object_0 =~= members_spec(members@));
            lookup(members, key)
        },
        _ => None,
    }
}

/// The string that `v` holds, where it is a JSON string.
pub open spec fn str_spec(v: JsonSpec) -> Option<Seq<char>> {
    match v {
        JsonSpec::Str(s) => Some(s),
        _ => None,
    }
}

/// The string that `v` holds, where it is a JSON string.
pub fn as_str(v: &JsonValue) -> (r: Option<&str>)
    ensures
        match r {
            Some(s) => str_spec(v@) == Some(s@),
            None => str_spec(v@) is None,
        },
{
    match v {
        JsonValue::Str(s) => Some(s.as_str()),
        _ => None,
    }
}

/// The first element of `v`, where it is a JSON array that has one.
pub open spec fn first_spec(v: JsonSpec) -> Option<JsonSpec> {
    match v {
        JsonSpec::Array(items) => if items.len() > 0 {
            Some(items[0])
        } else {
            None
        },
        _ => None,
    }
}

/// The first element of `v`, where it is a JSON array that has one.
pub fn first<'a>(v: &'a JsonValue) -> (r: Option<&'a JsonValue>)
    ensures
        match r {
            Some(x) => first_spec(v@) == Some(x@),
            None => first_spec(v@) is None,
        },
{
    match v {
        JsonValue::Array(items) => if items.len() > 0 {
            Some(&items[0])
        } else {
            None
        },
        _ => None,
    }
}

/// The JSON value that `serde_json::from_str` reads from `text`, if it reads one.
pub uninterp spec fn json_of(text: Seq<char>) -> Option<JsonSpec>;

#[verifier::external_type_specification]
#[verifier::external_body]
pub struct ExSerdeJsonValue(serde_json::Value);

/// A value that serde_json holds, in the library's own form, variant for variant: a
/// number becomes the text serde_json prints for it, an object keeps the order of its
/// members. The wrappers that call it state their results through their names.
#[verifier::external_body]
pub(crate) fn convert(v: &serde_json::Value) -> JsonValue {
    match v {
        serde_json::Value::Null => JsonValue::Null,
        serde_json::Value::Bool(b) => JsonValue::Bool(*b),
        serde_json::Value::Number(n) => JsonValue::Number(n.to_string()),
        serde_json::Value::String(s) => JsonValue::Str(s.clone()),
        serde_json::Value::Array(a) => JsonValue::Array(a.iter().map(convert).collect()),
        serde_json::Value::Object(m) => JsonValue::Object(
            m.iter().map(|(k, x)| (k.clone(), convert(x))).collect(),
        ),
    }
}

/// Reads `text` with `serde_json::from_str` into a `serde_json::Value`. Claimed: the
/// result is the value that `json_of` names for the text, and `None` exactly where
/// serde_json refuses it.
#[verifier::external_body]
pub(crate) fn parse_json(text: &str) -> (r: Option<JsonValue>)
    ensures
        match r {
            Some(v) => json_of(text@) == Some(v@),
            None => json_of(text@) is None,
        },
{
    match serde_json::from_str::<serde_json::Value>(text) {
        Ok(v) => Some(convert(&v)),
        Err(_) => None,
    }
}

} // verus!
