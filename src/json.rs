//! A self-describing value, as the query layer's structured account encoding
//! carries it: objects of named fields, arrays, texts and scalars.
use vstd::prelude::*;
use crate::text::same_text;

verus! {

/// A structured value. Numbers keep their decimal text.
#[derive(Debug)]
pub enum JsonValue {
    Null,
    Bool(bool),
    Number(String),
    Str(String),
    Array(Vec<JsonValue>),
    Object(Vec<(String, JsonValue)>),
}

/// The value of the first field named `key`.
pub open spec fn field_of(fields: Seq<(String, JsonValue)>, key: Seq<char>) -> Option<JsonValue>
    decreases fields.len(),
{
    if fields.len() == 0 {
        None
    } else if fields[0].0@ == key {
        Some(fields[0].1)
    } else {
        field_of(fields.drop_first(), key)
    }
}

/// The field named `key` of an object; nothing for any other value.
pub open spec fn json_get(v: JsonValue, key: Seq<char>) -> Option<JsonValue> {
    match v {
        JsonValue::Object(fields) => field_of(fields@, key),
        _ => None,
    }
}

/// The text of a text value.
pub open spec fn json_text(v: JsonValue) -> Option<Seq<char>> {
    match v {
        JsonValue::Str(s) => Some(s@),
        _ => None,
    }
}

impl JsonValue {
    /// Looks up the field named `key` of an object.
    pub fn get<'a>(&'a self, key: &str) -> (r: Option<&'a JsonValue>)
        ensures
            r matches Some(v) ==> json_get(*self, key@) == Some(*v),
            r is None ==> json_get(*self, key@) is None,
    {
        match self {
            JsonValue::Object(fields) => {
                let mut i: usize = 0;
                assert(fields@.subrange(0, fields@.len() as int) =~= fields@);
                while i < fields.len()
                    invariant
                        i <= fields@.len(),
                        json_get(*self, key@) == field_of(fields@, key@),
                        field_of(fields@, key@) == field_of(fields@.subrange(i as int, fields@.len() as int), key@),
                    decreases fields.len() - i,
                {
                    let ghost rest = fields@.subrange(i as int, fields@.len() as int);
                    assert(rest[0] == fields@[i as int]);
                    if same_text(fields[i].0.as_str(), key) {
                        return Some(&fields[i].1);
                    }
                    assert(rest.drop_first() =~= fields@.subrange(i + 1, fields@.len() as int));
                    i = i + 1;
                }
                None
            },
            _ => None,
        }
    }

    /// The text of a text value.
    pub fn as_str(&self) -> (r: Option<&str>)
        ensures
            r matches Some(s) ==> json_text(*self) == Some(s@),
            r is None ==> json_text(*self) is None,
    {
        match self {
            JsonValue::Str(s) => Some(s.as_str()),
            _ => None,
        }
    }
}

} // verus!
