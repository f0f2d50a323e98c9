//! A JSON document held as plain values, as exchanged with the remote
//! media-control service.

use vstd::prelude::*;
use crate::text::str_eq;

verus! {

/// One JSON value. Numbers keep their textual form; an object keeps its
/// members in order, and a lookup by key finds the first member with it.
#[derive(Debug)]
pub enum JsonValue {
    Null,
    Bool(bool),
    Number(String),
    String(String),
    Array(Vec<JsonValue>),
    Object(Vec<(String, JsonValue)>),
}

/// `i` is the first position in `members` whose key is `key`.
pub open spec fn is_first_key(members: Seq<(String, JsonValue)>, key: Seq<char>, i: int) -> bool {
    &&& 0 <= i < members.len()
    &&& members[i].0@ == key
    &&& forall|j: int| 0 <= j < i ==> (#[trigger] members[j]).0@ != key
}

/// The value of the first member named `key`, if `v` is an object that has one.
pub open spec fn field(v: JsonValue, key: Seq<char>) -> Option<JsonValue> {
    match v {
        JsonValue::Object(members) => {
            if exists|i: int| is_first_key(members@, key, i) {
                Some(members@[choose|i: int| is_first_key(members@, key, i)].1)
            } else {
                None
            }
        },
        _ => None,
    }
}

/// The text of the member `key`, if `v` has one and it is a string.
pub open spec fn str_field(v: JsonValue, key: Seq<char>) -> Option<Seq<char>> {
    match field(v, key) {
        Some(JsonValue::String(s)) => Some(s@),
        _ => None,
    }
}

/// The items of `v` if it is an array.
pub open spec fn array_items(v: JsonValue) -> Option<Seq<JsonValue>> {
    match v {
        JsonValue::Array(items) => Some(items@),
        _ => None,
    }
}

/// The first position of a key is unique.
proof fn lemma_first_key_unique(members: Seq<(String, JsonValue)>, key: Seq<char>, i: int, k: int)
    requires
        is_first_key(members, key, i),
        is_first_key(members, key, k),
    ensures
        i == k,
{
    if i < k {
        assert(members[i].0@ != key);
    } else if k < i {
        assert(members[k].0@ != key);
    }
}

/// Position of the first member named `key`.
fn find_key(members: &Vec<(String, JsonValue)>, key: &str) -> (r: Option<usize>)
    ensures
        match r {
            Some(i) => is_first_key(members@, key@, i as int),
            None => forall|j: int| 0 <= j < members@.len() ==> (#[trigger] members@[j]).0@ != key@,
        },
{
    let mut i: usize = 0;
    while i < members.len()
        invariant
            i <= members@.len(),
            forall|j: int| 0 <= j < i ==> (#[trigger] members@[j]).0@ != key@,
        decreases members@.len() - i,
    {
        if str_eq(members[i].0.as_str(), key) {
            return Some(i);
        }
        i = i + 1;
    }
    None
}

impl JsonValue {
    /// A string value holding `s`.
    pub fn from_str_value(s: &str) -> (r: JsonValue)
        ensures
            r matches JsonValue::String(t) && t@ == s@,
    {
        JsonValue::String(s.to_owned())
    }

    /// The member named `key`, if this is an object that has one.
    pub fn get(&self, key: &str) -> (r: Option<&JsonValue>)
        ensures
            match r {
                Some(v) => field(*self, key@) == Some(*v),
                None => field(*self, key@) is None,
            },
    {
        match self {
            JsonValue::Object(members) => {
                match find_key(members, key) {
                    Some(i) => {
                        proof {
                            assert(is_first_key(members@, key@, i as int));
                            let k = choose|k: int| is_first_key(members@, key@, k);
                            lemma_first_key_unique(members@, key@, i as int, k);
                        }
                        Some(&members[i].1)
                    },
                    None => {
                        assert(!exists|k: int| is_first_key(members@, key@, k)) by {
                            if exists|k: int| is_first_key(members@, key@, k) {
                                let k = choose|k: int| is_first_key(members@, key@, k);
                                assert(members@[k].0@ != key@);
                            }
                        }
                        None
                    },
                }
            },
            _ => None,
        }
    }

    /// Takes the member named `key` out of this value, if it is an object that
    /// has one.
    pub fn take_field(self, key: &str) -> (r: Option<JsonValue>)
        ensures
            r == field(self, key@),
    {
        let ghost orig = self;
        match self {
            JsonValue::Object(mut members) => {
                match find_key(&members, key) {
                    Some(i) => {
                        proof {
                            let k = choose|k: int| is_first_key(members@, key@, k);
                            lemma_first_key_unique(members@, key@, i as int, k);
                        }
                        let (_, v) = members.remove(i);
                        Some(v)
                    },
                    None => {
                        assert(!exists|k: int| is_first_key(members@, key@, k)) by {
                            if exists|k: int| is_first_key(members@, key@, k) {
                                let k = choose|k: int| is_first_key(members@, key@, k);
                                assert(members@[k].0@ != key@);
                            }
                        }
                        None
                    },
                }
            },
            _ => None,
        }
    }

    /// The text of the member named `key`, if it is a string.
    pub fn get_str(&self, key: &str) -> (r: Option<&str>)
        ensures
            match r {
                Some(s) => str_field(*self, key@) == Some(s@),
                None => str_field(*self, key@) is None,
            },
    {
        match self.get(key) {
            Some(JsonValue::String(s)) => Some(s.as_str()),
            _ => None,
        }
    }

    /// The items, if this is an array.
    pub fn as_array(&self) -> (r: Option<&Vec<JsonValue>>)
        ensures
            match r {
                Some(items) => array_items(*self) == Some(items@),
                None => array_items(*self) is None,
            },
    {
        match self {
            JsonValue::Array(items) => Some(items),
            _ => None,
        }
    }
}

} // verus!
