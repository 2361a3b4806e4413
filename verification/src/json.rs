//! JSON values as the crate reads them.
use crate::text;
use vstd::prelude::*;

verus! {

/// A JSON value. A number is kept in its notation.
pub enum JsonValue {
    Null,
    Bool(bool),
    Number(String),
    Text(String),
    Array(Vec<JsonValue>),
    Object(JsonObject),
}

/// A JSON object: its members in order.
pub struct JsonObject {
    pub members: Vec<(String, JsonValue)>,
}

/// The value of the first member with a key.
pub open spec fn member(members: Seq<(String, JsonValue)>, key: Seq<char>) -> Option<JsonValue>
    decreases members.len(),
{
    if members.len() == 0 {
        None
    } else if members[0].0@ == key {
        Some(members[0].1)
    } else {
        member(members.drop_first(), key)
    }
}

impl JsonObject {
    /// The value of a member.
    pub open spec fn value(self, key: Seq<char>) -> Option<JsonValue> {
        member(self.members@, key)
    }

    /// The text of a member that is a string.
    pub open spec fn string(self, key: Seq<char>) -> Option<Seq<char>> {
        match self.value(key) {
            Some(JsonValue::Text(t)) => Some(t@),
            _ => None,
        }
    }

    /// The value of a member that is a boolean.
    pub open spec fn boolean(self, key: Seq<char>) -> Option<bool> {
        match self.value(key) {
            Some(JsonValue::Bool(b)) => Some(b),
            _ => None,
        }
    }

    /// The value of a member.
    pub fn get(&self, key: &str) -> (r: Option<&JsonValue>)
        ensures
            match r {
                Some(v) => self.value(key@) == Some(*v),
                None => self.value(key@) is None,
            },
    {
        let mut i: usize = 0;
        assert(self.members@.skip(0) == self.members@);
        while i < self.members.len()
            invariant
                i <= self.members@.len(),
                member(self.members@, key@) == member(self.members@.skip(i as int), key@),
            decreases self.members@.len() - i,
        {
            assert(self.members@.skip(i as int).drop_first() == self.members@.skip(i as int + 1));
            if text::same(self.members[i].0.as_str(), key) {
                return Some(&self.members[i].1);
            }
            i += 1;
        }
        None
    }

    /// The text of a member that is a string.
    pub fn get_str(&self, key: &str) -> (r: Option<&str>)
        ensures
            match r {
                Some(t) => self.string(key@) == Some(t@),
                None => self.string(key@) is None,
            },
    {
        match self.get(key) {
            Some(JsonValue::Text(t)) => Some(t.as_str()),
            _ => None,
        }
    }

    /// The value of a member that is a boolean.
    pub fn get_bool(&self, key: &str) -> (r: Option<bool>)
        ensures
            r == self.boolean(key@),
    {
        match self.get(key) {
            Some(JsonValue::Bool(b)) => Some(*b),
            _ => None,
        }
    }
}

} // verus!
