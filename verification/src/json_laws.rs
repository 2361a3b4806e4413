//! What is found in a JSON object.
use crate::json;
use crate::json::{JsonObject, JsonValue};
use vstd::prelude::*;

verus! {

/// What stands under a key is the value of the first member with that key, whatever
/// follows it; without such a member there is nothing.
pub proof fn law_first_member_counts(members: Seq<(String, JsonValue)>, key: Seq<char>, i: int)
    requires
        0 <= i <= members.len(),
        forall|k: int| 0 <= k < i ==> #[trigger] members[k].0@ != key,
        i < members.len() ==> members[i].0@ == key,
    ensures
        i == members.len() ==> json::member(members, key) is None,
        i < members.len() ==> json::member(members, key) == Some(members[i].1),
    decreases members.len(),
{
    if i > 0 {
        let rest = members.drop_first();
        assert(members[0].0@ != key);
        assert forall|k: int| 0 <= k < i - 1 implies #[trigger] rest[k].0@ != key by {
            assert(rest[k] == members[k + 1]);
        }
        law_first_member_counts(rest, key, i - 1);
    }
}

/// The members of an object are what is looked at.
pub proof fn law_values_of_an_object(o: JsonObject, key: Seq<char>)
    ensures
        o.value(key) == json::member(o.members@, key),
{
}

/// A text is found if and only if a text stands under the key.
pub proof fn law_texts_of_an_object(o: JsonObject, key: Seq<char>)
    ensures
        o.string(key) is Some <==> o.value(key) is Some && o.value(key)->0 is Text,
        o.string(key) matches Some(t) ==> o.value(key)->0->Text_0@ == t,
{
}

/// A boolean is found if and only if a boolean stands under the key.
pub proof fn law_booleans_of_an_object(o: JsonObject, key: Seq<char>)
    ensures
        o.boolean(key) is Some <==> o.value(key) is Some && o.value(key)->0 is Bool,
        o.boolean(key) matches Some(b) ==> o.value(key)->0->Bool_0 == b,
{
}

} // verus!
