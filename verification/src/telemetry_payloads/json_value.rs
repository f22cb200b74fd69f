use vstd::prelude::*;

verus! {

/// A JSON value as the telemetry logic reads it.
#[derive(Debug)]
pub enum JsonValue {
    Null,
    Bool(bool),
    /// A number that fits in an `i64`.
    Int(i64),
    /// Any other number: fractional, or an integer beyond `i64`. Its value is never read
    /// here.
    OtherNumber,
    String(String),
    Array(Vec<JsonValue>),
    /// The members of an object, in order.
    Object(Vec<(String, JsonValue)>),
}

/// The first member of `entries` named `key`.
pub open spec fn member_lookup(entries: Seq<(String, JsonValue)>, key: Seq<char>) -> Option<
    JsonValue,
>
    decreases entries.len(),
{
    if entries.len() == 0 {
        None
    } else if entries[0].0@ == key {
        Some(entries[0].1)
    } else {
        member_lookup(entries.drop_first(), key)
    }
}

/// The member `key` of an object; `None` for a missing member or a value that is not an
/// object.
pub open spec fn json_member(v: JsonValue, key: Seq<char>) -> Option<JsonValue> {
    match v {
        JsonValue::Object(entries) => member_lookup(entries@, key),
        _ => None,
    }
}

impl JsonValue {
    /// The boolean held, if any.
    pub fn as_bool(&self) -> (r: Option<bool>)
        ensures
            r == match *self {
                JsonValue::Bool(b) => Some(b),
                _ => None,
            },
    {
        match self {
            JsonValue::Bool(b) => Some(*b),
            _ => None,
        }
    }

    /// The integer held, if any.
    pub fn as_i64(&self) -> (r: Option<i64>)
        ensures
            r == match *self {
                JsonValue::Int(i) => Some(i),
                _ => None,
            },
    {
        match self {
            JsonValue::Int(i) => Some(*i),
            _ => None,
        }
    }

    /// The string held, if any.
    pub fn as_str(&self) -> (r: Option<&str>)
        ensures
            match *self {
                JsonValue::String(s) => r matches Some(t) && t@ == s@,
                _ => r is None,
            },
    {
        match self {
            JsonValue::String(s) => Some(s.as_str()),
            _ => None,
        }
    }

    /// The items of the array held, if any.
    pub fn as_array(&self) -> (r: Option<&Vec<JsonValue>>)
        ensures
            match *self {
                JsonValue::Array(items) => r == Some(&items),
                _ => r is None,
            },
    {
        match self {
            JsonValue::Array(items) => Some(items),
            _ => None,
        }
    }

    /// The member `key` of the object held.
    pub fn get(&self, key: &str) -> (r: Option<&JsonValue>)
        ensures
            match json_member(*self, key@) {
                Some(m) => r == Some(&m),
                None => r is None,
            },
    {
        match self {
            JsonValue::Object(entries) => {
                let mut i: usize = 0;
                assert(entries@.skip(0) =~= entries@);
                while i < entries.len()
                    invariant
                        i <= entries@.len(),
                        json_member(*self, key@) == member_lookup(entries@, key@),
                        member_lookup(entries@, key@) == member_lookup(
                            entries@.skip(i as int),
                            key@,
                        ),
                    decreases entries@.len() - i,
                {
                    assert(entries@.skip(i as int).drop_first() =~= entries@.skip(i + 1));
                    if entries[i].0 == key.to_owned() {
                        assert(entries@.skip(i as int)[0] == entries@[i as int]);
                        assert(member_lookup(entries@.skip(i as int), key@) == Some(
                            entries@[i as int].1,
                        ));
                        assert(json_member(*self, key@) == Some(entries@[i as int].1));
                        return Some(&entries[i].1);
                    }
                    i = i + 1;
                }
                assert(entries@.skip(i as int).len() == 0);
                None
            },
            _ => None,
        }
    }
}

} // verus!
