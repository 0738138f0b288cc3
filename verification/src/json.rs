//! Structured JSON values and field lookup.
//!
//! The transport layer around this library parses a response body into a
//! [`JsonValue`]; every decoding rule of the library is then stated and
//! verified over this structure.

use vstd::prelude::*;

verus! {

/// One `key: value` member of a JSON object.
#[derive(Debug)]
pub struct JsonMember {
    pub key: String,
    pub value: JsonValue,
}

/// A decoded JSON document.
///
/// Numbers are carried as `i64`; a JSON number that does not fit (a
/// fraction, or an integer out of `i64` range) is carried as
/// [`JsonValue::OtherNum`], which no field this library decodes accepts —
/// exactly as a strict decoder rejects such a number for an integer field.
#[derive(Debug)]
pub enum JsonValue {
    Null,
    Bool(bool),
    Num(i64),
    Str(String),
    Arr(Vec<JsonValue>),
    Obj(Vec<JsonMember>),
    OtherNum,
}

/// The value of the first member named `key`, if any.
pub open spec fn spec_lookup(fields: Seq<JsonMember>, key: Seq<char>) -> Option<JsonValue>
    decreases fields.len(),
{
    if fields.len() == 0 {
        None
    } else if fields[0].key@ == key {
        Some(fields[0].value)
    } else {
        spec_lookup(fields.drop_first(), key)
    }
}

proof fn lemma_lookup_skip(fields: Seq<JsonMember>, key: Seq<char>, i: int)
    requires
        0 <= i <= fields.len(),
        forall|j: int| 0 <= j < i ==> fields[j].key@ != key,
    ensures
        spec_lookup(fields, key) == spec_lookup(fields.skip(i), key),
    decreases i,
{
    if i > 0 {
        assert(fields[0].key@ != key);
        assert(fields.drop_first().skip(i - 1) =~= fields.skip(i));
        lemma_lookup_skip(fields.drop_first(), key, i - 1);
    } else {
        assert(fields.skip(0) =~= fields);
    }
}

/// Finds the first member named `key` and borrows its value.
pub fn lookup<'a>(fields: &'a Vec<JsonMember>, key: &str) -> (r: Option<&'a JsonValue>)
    ensures
        match spec_lookup(fields@, key@) {
            Some(v) => r matches Some(x) && *x == v,
            None => r is None,
        },
{
    let k: String = key.to_owned();
    let mut i: usize = 0;
    while i < fields.len()
        invariant
            0 <= i <= fields.len(),
            k@ == key@,
            forall|j: int| 0 <= j < i ==> fields@[j].key@ != key@,
        decreases fields.len() - i,
    {
        if fields[i].key == k {
            proof {
                lemma_lookup_skip(fields@, key@, i as int);
                assert(fields@.skip(i as int)[0] == fields@[i as int]);
            }
            return Some(&fields[i].value);
        }
        i = i + 1;
    }
    proof {
        lemma_lookup_skip(fields@, key@, fields@.len() as int);
        assert(fields@.skip(fields@.len() as int) =~= Seq::<JsonMember>::empty());
    }
    None
}

/// The member named `key`, when it is a string.
pub open spec fn spec_str_field(fields: Seq<JsonMember>, key: Seq<char>) -> Option<Seq<char>> {
    match spec_lookup(fields, key) {
        Some(JsonValue::Str(s)) => Some(s@),
        _ => None,
    }
}

pub fn str_field<'a>(fields: &'a Vec<JsonMember>, key: &str) -> (r: Option<&'a String>)
    ensures
        match spec_str_field(fields@, key@) {
            Some(s) => r matches Some(x) && x@ == s,
            None => r is None,
        },
{
    match lookup(fields, key) {
        Some(JsonValue::Str(s)) => Some(s),
        _ => None,
    }
}

/// The member named `key`, when it is an integer that fits in `u32`.
pub open spec fn spec_u32_field(fields: Seq<JsonMember>, key: Seq<char>) -> Option<u32> {
    match spec_lookup(fields, key) {
        Some(JsonValue::Num(n)) => if 0 <= n <= u32::MAX { Some(n as u32) } else { None },
        _ => None,
    }
}

pub fn u32_field(fields: &Vec<JsonMember>, key: &str) -> (r: Option<u32>)
    ensures
        r == spec_u32_field(fields@, key@),
{
    match lookup(fields, key) {
        Some(JsonValue::Num(n)) => {
            if 0 <= *n && *n <= u32::MAX as i64 {
                Some(*n as u32)
            } else {
                None
            }
        },
        _ => None,
    }
}

/// The member named `key`, when it is a boolean.
pub open spec fn spec_bool_field(fields: Seq<JsonMember>, key: Seq<char>) -> Option<bool> {
    match spec_lookup(fields, key) {
        Some(JsonValue::Bool(b)) => Some(b),
        _ => None,
    }
}

pub fn bool_field(fields: &Vec<JsonMember>, key: &str) -> (r: Option<bool>)
    ensures
        r == spec_bool_field(fields@, key@),
{
    match lookup(fields, key) {
        Some(JsonValue::Bool(b)) => Some(*b),
        _ => None,
    }
}

/// A payload type that can be decoded from a [`JsonValue`].
///
/// `spec_from_json` is the type's decoding rule, stated over its view;
/// `from_json` is the decoder and returns exactly what the rule says, or
/// `None` on any value the rule rejects.
pub trait FromJson: View + Sized {
    spec fn spec_from_json(v: JsonValue) -> Option<Self::V>;

    fn from_json(v: &JsonValue) -> (r: Option<Self>)
        ensures
            match Self::spec_from_json(*v) {
                Some(m) => r matches Some(x) && x@ == m,
                None => r is None,
            },
    ;
}

} // verus!
