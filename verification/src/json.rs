//! A JSON document as the page endpoints return it, and the few ways the
//! command layer looks into one.
use vstd::prelude::*;

verus! {

/// A JSON value. An object keeps its members in the order in which the
/// decoder hands them out.
#[derive(Debug)]
pub enum JsonValue {
    Null,
    Bool(bool),
    /// A number, as the decoder writes it back.
    Number(String),
    Str(String),
    Array(Vec<JsonValue>),
    Object(Vec<(String, JsonValue)>),
}

/// The value of the first member named `key`.
pub open spec fn member(members: Seq<(String, JsonValue)>, key: Seq<char>) -> Option<JsonValue>
    decreases members.len(),
{
    if members.len() == 0 {
        None
    } else if members[0].0@ == key {
        Some(members[0].1)
    } else {
        member(members.drop_first(), key)
    }
}

/// The member `key` of `v`, when `v` is an object that has one.
pub open spec fn field(v: JsonValue, key: Seq<char>) -> Option<JsonValue> {
    match v {
        JsonValue::Object(members) => member(members@, key),
        _ => None,
    }
}

/// The elements of `v`, when it is an array.
pub open spec fn elements(v: JsonValue) -> Option<Seq<JsonValue>> {
    match v {
        JsonValue::Array(items) => Some(items@),
        _ => None,
    }
}

/// The text of `v`, when it is a string.
pub open spec fn text_of(v: JsonValue) -> Option<Seq<char>> {
    match v {
        JsonValue::Str(s) => Some(s@),
        _ => None,
    }
}

/// The names of the members of `v` in order; none when it is no object.
pub open spec fn member_names(v: JsonValue) -> Seq<Seq<char>> {
    match v {
        JsonValue::Object(members) => members@.map_values(|m: (String, JsonValue)| m.0@),
        _ => Seq::empty(),
    }
}

/// The member `key` of `v`, then its elements.
pub open spec fn array_field(v: JsonValue, key: Seq<char>) -> Option<Seq<JsonValue>> {
    match field(v, key) {
        Some(x) => elements(x),
        None => None,
    }
}

/// The member `key` of `v`, then its text.
pub open spec fn text_field(v: JsonValue, key: Seq<char>) -> Option<Seq<char>> {
    match field(v, key) {
        Some(x) => text_of(x),
        None => None,
    }
}

impl JsonValue {
    /// The member `key` of this value, when it is an object that has one.
    pub fn get(&self, key: &String) -> (found: Option<&JsonValue>)
        ensures
            found matches Some(x) ==> field(*self, key@) == Some(*x),
            found is None ==> field(*self, key@) is None,
    {
        match self {
            JsonValue::Object(members) => {
                let mut i: usize = 0;
                assert(field(*self, key@) == member(members@, key@));
                assert(members@.skip(0) =~= members@);
                while i < members.len()
                    invariant
                        i <= members@.len(),
                        field(*self, key@) == member(members@, key@),
                        member(members@, key@) == member(members@.skip(i as int), key@),
                    decreases members@.len() - i,
                {
                    assert(members@.skip(i as int).drop_first() =~= members@.skip(i + 1));
                    assert(members@.skip(i as int)[0] == members@[i as int]);
                    if members[i].0 == *key {
                        assert(member(members@.skip(i as int), key@) == Some(members@[i as int].1));
                        return Some(&members[i].1);
                    }
                    i = i + 1;
                }
                assert(members@.skip(i as int).len() == 0);
                None
            },
            _ => None,
        }
    }

    /// The elements of this value, when it is an array.
    pub fn as_array(&self) -> (items: Option<&Vec<JsonValue>>)
        ensures
            items matches Some(v) ==> elements(*self) == Some(v@),
            items is None ==> elements(*self) is None,
    {
        match self {
            JsonValue::Array(items) => Some(items),
            _ => None,
        }
    }

    /// The text of this value, when it is a string.
    pub fn as_str(&self) -> (text: Option<&String>)
        ensures
            text matches Some(s) ==> text_of(*self) == Some(s@),
            text is None ==> text_of(*self) is None,
    {
        match self {
            JsonValue::Str(s) => Some(s),
            _ => None,
        }
    }

    /// The names of the members of this value in order; none when it is no
    /// object.
    pub fn keys(&self) -> (names: Vec<String>)
        ensures
            names@.map_values(|s: String| s@) == member_names(*self),
    {
        let mut names: Vec<String> = Vec::new();
        match self {
            JsonValue::Object(members) => {
                let mut i: usize = 0;
                while i < members.len()
                    invariant
                        i <= members@.len(),
                        names@.len() == i,
                        forall|k: int| 0 <= k < i ==> #[trigger] names@[k]@ == members@[k].0@,
                    decreases members@.len() - i,
                {
                    names.push(members[i].0.clone());
                    i = i + 1;
                }
                assert(names@.map_values(|s: String| s@) =~= members@.map_values(
                    |m: (String, JsonValue)| m.0@,
                ));
            },
            _ => {
                assert(names@.map_values(|s: String| s@) =~= Seq::<Seq<char>>::empty());
            },
        }
        names
    }
}

} // verus!

verus! {

/// Looking a member up finds the first member with that name, and finds
/// nothing exactly when no member has it.
pub proof fn law_member_is_first_match(members: Seq<(String, JsonValue)>, key: Seq<char>)
    ensures
        member(members, key) is None <==> forall|i: int|
            0 <= i < members.len() ==> (#[trigger] members[i]).0@ != key,
        member(members, key) matches Some(v) ==> exists|i: int|
            0 <= i < members.len() && (#[trigger] members[i]).0@ == key && members[i].1 == v
                && forall|j: int| 0 <= j < i ==> (#[trigger] members[j]).0@ != key,
    decreases members.len(),
{
    if members.len() > 0 {
        let rest = members.drop_first();
        law_member_is_first_match(rest, key);
        if members[0].0@ == key {
            assert(member(members, key) == Some(members[0].1));
        } else {
            assert forall|i: int| 1 <= i < members.len() implies members[i] == rest[i - 1] by {}
            if member(members, key) is None {
                assert forall|i: int| 0 <= i < members.len() implies (#[trigger] members[i]).0@
                    != key by {
                    if i > 0 {
                        assert(members[i] == rest[i - 1]);
                    }
                }
            } else {
                let v = member(members, key)->0;
                let i = choose|i: int|
                    0 <= i < rest.len() && (#[trigger] rest[i]).0@ == key && rest[i].1 == v
                        && forall|j: int| 0 <= j < i ==> (#[trigger] rest[j]).0@ != key;
                assert(members[i + 1] == rest[i]);
                assert forall|j: int| 0 <= j < i + 1 implies (#[trigger] members[j]).0@ != key by {
                    if j > 0 {
                        assert(members[j] == rest[j - 1]);
                    }
                }
            }
            if forall|i: int| 0 <= i < members.len() ==> (#[trigger] members[i]).0@ != key {
                assert forall|i: int| 0 <= i < rest.len() implies (#[trigger] rest[i]).0@ != key by {
                    assert(members[i + 1] == rest[i]);
                }
            }
        }
    }
}

/// The names of an object's members are those of its members, one for one
/// and in order; a value that is no object has none.
pub proof fn law_member_names(v: JsonValue)
    ensures
        v matches JsonValue::Object(members) ==> member_names(v).len() == members@.len() && forall|
            i: int,
        |
            0 <= i < members@.len() ==> #[trigger] member_names(v)[i] == members@[i].0@,
        !(v is Object) ==> member_names(v).len() == 0,
{
}

} // verus!

verus! {

/// A member is found only in an object, as its first member of that name;
/// elements only in an array, text only in a string.
pub proof fn law_json_accessors(v: JsonValue, key: Seq<char>)
    ensures
        !(v is Object) ==> field(v, key) is None,
        v matches JsonValue::Object(members) ==> field(v, key) == member(members@, key),
        v matches JsonValue::Array(items) ==> elements(v) == Some(items@),
        !(v is Array) ==> elements(v) is None,
        v matches JsonValue::Str(s) ==> text_of(v) == Some(s@),
        !(v is Str) ==> text_of(v) is None,
{
}

} // verus!
