//! A JSON document model: what the service reads from and writes to JSON.
//!
//! Numbers are kept as their decimal text; object members keep their order.

use vstd::prelude::*;

use crate::text::str_eq;

verus! {

#[derive(Debug, PartialEq, Eq)]
pub enum Json {
    Null,
    Bool(bool),
    /// A number, as its JSON text.
    Number(String),
    Str(String),
    Array(Vec<Json>),
    /// An object's members in document order.
    Object(Vec<(String, Json)>),
}

/// The value of the first member named `key`.
pub open spec fn spec_lookup(fields: Seq<(String, Json)>, key: Seq<char>) -> Option<Json>
    decreases fields.len(),
{
    if fields.len() == 0 {
        None
    } else if fields[0].0@ == key {
        Some(fields[0].1)
    } else {
        spec_lookup(fields.drop_first(), key)
    }
}

/// `v[key]` for an object `v`; `None` for a missing member or a non-object.
pub open spec fn spec_get(v: Json, key: Seq<char>) -> Option<Json> {
    match v {
        Json::Object(fields) => spec_lookup(fields@, key),
        _ => None,
    }
}

/// The text of a JSON string; `None` for any other value.
pub open spec fn spec_as_str(v: Json) -> Option<Seq<char>> {
    match v {
        Json::Str(s) => Some(s@),
        _ => None,
    }
}

/// An object with one string member.
pub open spec fn spec_single_member(key: Seq<char>, value: Seq<char>, v: Json) -> bool {
    &&& v is Object
    &&& v->Object_0@.len() == 1
    &&& v->Object_0@[0].0@ == key
    &&& v->Object_0@[0].1 matches Json::Str(s) && s@ == value
}

impl Json {
    /// The member `key` of an object (the first one of that name).
    pub fn get(&self, key: &str) -> (r: Option<&Json>)
        ensures
            match r {
                Some(v) => spec_get(*self, key@) == Some(*v),
                None => spec_get(*self, key@) is None,
            },
    {
        match self {
            Json::Object(fields) => {
                let n = fields.len();
                let mut i: usize = 0;
                assert(fields@.skip(0) =~= fields@);
                while i < n
                    invariant
                        i <= n,
                        n == fields@.len(),
                        *self == Json::Object(*fields),
                        spec_lookup(fields@, key@) == spec_lookup(fields@.skip(i as int), key@),
                    decreases n - i,
                {
                    assert(fields@.skip(i as int).drop_first() =~= fields@.skip(i + 1));
                    assert(fields@.skip(i as int)[0] == fields@[i as int]);
                    if str_eq(fields[i].0.as_str(), key) {
                        return Some(&fields[i].1);
                    }
                    i = i + 1;
                }
                None
            },
            _ => None,
        }
    }

    /// The text of a JSON string.
    pub fn as_str(&self) -> (r: Option<&String>)
        ensures
            match r {
                Some(s) => spec_as_str(*self) == Some(s@),
                None => spec_as_str(*self) is None,
            },
    {
        match self {
            Json::Str(s) => Some(s),
            _ => None,
        }
    }

    /// `{ key: value }`.
    pub fn single_member(key: &str, value: &str) -> (r: Json)
        ensures
            spec_single_member(key@, value@, r),
    {
        Json::Object(vec![(String::from_str(key), Json::Str(String::from_str(value)))])
    }
}

/// The document that a JSON text denotes, or `None` where the bytes are not
/// JSON: what `serde_json::from_slice` reads into a `serde_json::Value`, seen
/// as a `Json` (object members in key order).
pub uninterp spec fn spec_parse_json(bytes: Seq<u8>) -> Option<Json>;

/// Turns a `serde_json::Value` into the document it stands for, member by
/// member. This is the result conversion of `parse_json`, kept apart because
/// it is recursive. Nothing is stated of it: `serde_json::Value` is opaque here.
#[verifier::external_body]
fn json_of_value(v: &serde_json::Value) -> Json {
    match v {
        serde_json::Value::Null => Json::Null,
        serde_json::Value::Bool(b) => Json::Bool(*b),
        serde_json::Value::Number(n) => Json::Number(n.to_string()),
        serde_json::Value::String(s) => Json::Str(s.clone()),
        serde_json::Value::Array(a) => Json::Array(a.iter().map(json_of_value).collect()),
        serde_json::Value::Object(m) => {
            Json::Object(m.iter().map(|(k, v)| (k.clone(), json_of_value(v))).collect())
        },
    }
}

/// Calls `serde_json::from_slice` to read the bytes as a `serde_json::Value`,
/// keeping `None` for the error. Trusted: the outcome is a function of the
/// bytes alone, named `spec_parse_json`. Not stated: which bytes are JSON.
#[verifier::external_body]
pub(crate) fn parse_json(bytes: &Vec<u8>) -> (r: Option<Json>)
    ensures
        r == spec_parse_json(bytes@),
{
    serde_json::from_slice::<serde_json::Value>(bytes).ok().map(|v| json_of_value(&v))
}


/// An object's member `key` is the value of its first member of that name.
pub proof fn lemma_get_first_member(fields: Vec<(String, Json)>, key: Seq<char>, i: int)
    requires
        0 <= i < fields@.len(),
        fields@[i].0@ == key,
        forall|j: int| 0 <= j < i ==> (#[trigger] fields@[j]).0@ != key,
    ensures
        spec_get(Json::Object(fields), key) == Some(fields@[i].1),
{
    lemma_lookup_first(fields@, key, i);
}

/// An object without a member named `key` has no member `key`.
pub proof fn lemma_get_absent(fields: Vec<(String, Json)>, key: Seq<char>)
    requires
        forall|j: int| 0 <= j < fields@.len() ==> (#[trigger] fields@[j]).0@ != key,
    ensures
        spec_get(Json::Object(fields), key) is None,
{
    lemma_lookup_absent(fields@, key);
}

proof fn lemma_lookup_first(fields: Seq<(String, Json)>, key: Seq<char>, i: int)
    requires
        0 <= i < fields.len(),
        fields[i].0@ == key,
        forall|j: int| 0 <= j < i ==> (#[trigger] fields[j]).0@ != key,
    ensures
        spec_lookup(fields, key) == Some(fields[i].1),
    decreases fields.len(),
{
    if i > 0 {
        let rest = fields.drop_first();
        assert(fields[0].0@ != key);
        assert forall|j: int| 0 <= j < i - 1 implies (#[trigger] rest[j]).0@ != key by {
            assert(rest[j] == fields[j + 1]);
        }
        assert(rest[i - 1] == fields[i]);
        lemma_lookup_first(rest, key, i - 1);
    }
}

proof fn lemma_lookup_absent(fields: Seq<(String, Json)>, key: Seq<char>)
    requires
        forall|j: int| 0 <= j < fields.len() ==> (#[trigger] fields[j]).0@ != key,
    ensures
        spec_lookup(fields, key) is None,
    decreases fields.len(),
{
    if fields.len() > 0 {
        let rest = fields.drop_first();
        assert(fields[0].0@ != key);
        assert forall|j: int| 0 <= j < rest.len() implies (#[trigger] rest[j]).0@ != key by {
            assert(rest[j] == fields[j + 1]);
        }
        lemma_lookup_absent(rest, key);
    }
}

} // verus!
