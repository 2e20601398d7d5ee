//! JSON values as the control plane and the MCP endpoint exchange them.
use vstd::prelude::*;

verus! {

/// A JSON number: non-negative and negative integers exactly, other numbers
/// by their decimal text.
#[derive(PartialEq, Eq, Debug)]
pub enum JsonNumber {
    PosInt(u64),
    NegInt(i64),
    Float(String),
}

/// A JSON value. Object members keep their order; a lookup finds the first
/// member with the key.
#[derive(PartialEq, Eq, Debug)]
pub enum Json {
    Null,
    Bool(bool),
    Number(JsonNumber),
    String(String),
    Array(Vec<Json>),
    Object(Vec<(String, Json)>),
}

/// Member `i` of `members` is the first with key `key`.
pub open spec fn is_first_member(members: Seq<(String, Json)>, key: Seq<char>, i: int) -> bool {
    &&& 0 <= i < members.len()
    &&& members[i].0@ == key
    &&& forall|j: int| 0 <= j < i ==> members[j].0@ != key
}

/// The value of the first member with key `key`.
pub open spec fn member_spec(members: Seq<(String, Json)>, key: Seq<char>) -> Option<Json> {
    if exists|i: int| is_first_member(members, key, i) {
        Some(members[choose|i: int| is_first_member(members, key, i)].1)
    } else {
        None
    }
}

/// `value[key]`: the member of an object, nothing for other values.
pub open spec fn get_spec(value: Json, key: Seq<char>) -> Option<Json> {
    match value {
        Json::Object(members) => member_spec(members@, key),
        _ => None,
    }
}

/// The text of a string value.
pub open spec fn str_spec(value: Json) -> Option<Seq<char>> {
    match value {
        Json::String(s) => Some(s@),
        _ => None,
    }
}

/// The value of a boolean.
pub open spec fn bool_spec(value: Json) -> Option<bool> {
    match value {
        Json::Bool(b) => Some(b),
        _ => None,
    }
}

/// The value of a non-negative integer.
pub open spec fn u64_spec(value: Json) -> Option<u64> {
    match value {
        Json::Number(JsonNumber::PosInt(n)) => Some(n),
        _ => None,
    }
}

/// `value[key]` as text.
pub open spec fn str_member(value: Json, key: Seq<char>) -> Option<Seq<char>> {
    match get_spec(value, key) {
        Some(v) => str_spec(v),
        None => None,
    }
}

/// `value[key]` as a boolean.
pub open spec fn bool_member(value: Json, key: Seq<char>) -> Option<bool> {
    match get_spec(value, key) {
        Some(v) => bool_spec(v),
        None => None,
    }
}

/// `value[key]` as a non-negative integer.
pub open spec fn u64_member(value: Json, key: Seq<char>) -> Option<u64> {
    match get_spec(value, key) {
        Some(v) => u64_spec(v),
        None => None,
    }
}

/// `a` and `b` hold the same text.
pub fn text_is(a: &str, b: &str) -> (r: bool)
    ensures
        r == (a@ == b@),
{
    a.to_owned() == b.to_owned()
}

impl Json {
    /// `self[key]`: the first member of an object with key `key`.
    pub fn get(&self, key: &str) -> (r: Option<&Json>)
        ensures
            match r {
                Some(v) => get_spec(*self, key@) == Some(*v),
                None => get_spec(*self, key@) is None,
            },
    {
        match self {
            Json::Object(members) => {
                let mut i: usize = 0;
                while i < members.len()
                    invariant
                        get_spec(*self, key@) == member_spec(members@, key@),
                        i <= members@.len(),
                        forall|j: int| 0 <= j < i ==> members@[j].0@ != key@,
                    decreases members@.len() - i,
                {
                    if text_is(members[i].0.as_str(), key) {
                        proof {
                            assert(is_first_member(members@, key@, i as int));
                            let c = choose|c: int| is_first_member(members@, key@, c);
                            if c < i {
                                assert(members@[c].0@ != key@);
                            } else if i < c {
                                assert(members@[i as int].0@ != key@);
                            }
                            assert(member_spec(members@, key@) == Some(members@[i as int].1));
                        }
                        return Some(&members[i].1);
                    }
                    i = i + 1;
                }
                proof {
                    if exists|c: int| is_first_member(members@, key@, c) {
                        let c = choose|c: int| is_first_member(members@, key@, c);
                        assert(members@[c].0@ != key@);
                    }
                }
                None
            },
            _ => None,
        }
    }

    /// The text of a string value.
    pub fn as_str(&self) -> (r: Option<&String>)
        ensures
            match r {
                Some(s) => str_spec(*self) == Some(s@),
                None => str_spec(*self) is None,
            },
    {
        match self {
            Json::String(s) => Some(s),
            _ => None,
        }
    }

    /// The value of a boolean.
    pub fn as_bool(&self) -> (r: Option<bool>)
        ensures
            r == bool_spec(*self),
    {
        match self {
            Json::Bool(b) => Some(*b),
            _ => None,
        }
    }

    /// The value of a non-negative integer.
    pub fn as_u64(&self) -> (r: Option<u64>)
        ensures
            r == u64_spec(*self),
    {
        match self {
            Json::Number(JsonNumber::PosInt(n)) => Some(*n),
            _ => None,
        }
    }

    /// `self[key]` as text.
    pub fn str_member(&self, key: &str) -> (r: Option<&String>)
        ensures
            match r {
                Some(s) => str_member(*self, key@) == Some(s@),
                None => str_member(*self, key@) is None,
            },
    {
        match self.get(key) {
            Some(v) => v.as_str(),
            None => None,
        }
    }

    /// `self[key]` as a boolean.
    pub fn bool_member(&self, key: &str) -> (r: Option<bool>)
        ensures
            r == bool_member(*self, key@),
    {
        match self.get(key) {
            Some(v) => v.as_bool(),
            None => None,
        }
    }

    /// `self[key]` as a non-negative integer.
    pub fn u64_member(&self, key: &str) -> (r: Option<u64>)
        ensures
            r == u64_member(*self, key@),
    {
        match self.get(key) {
            Some(v) => v.as_u64(),
            None => None,
        }
    }

    /// Takes `self[key]` out of the value.
    pub fn into_member(self, key: &str) -> (r: Option<Json>)
        ensures
            r == get_spec(self, key@),
    {
        match self {
            Json::Object(mut members) => {
                let ghost all = members@;
                let mut i: usize = 0;
                while i < members.len()
                    invariant
                        members@ == all,
                        get_spec(self, key@) == member_spec(all, key@),
                        i <= members@.len(),
                        forall|j: int| 0 <= j < i ==> members@[j].0@ != key@,
                    decreases members@.len() - i,
                {
                    if text_is(members[i].0.as_str(), key) {
                        proof {
                            assert(is_first_member(members@, key@, i as int));
                            let c = choose|c: int| is_first_member(members@, key@, c);
                            if c < i {
                                assert(members@[c].0@ != key@);
                            } else if i < c {
                                assert(members@[i as int].0@ != key@);
                            }
                            assert(member_spec(all, key@) == Some(all[i as int].1));
                        }
                        let member = members.remove(i);
                        return Some(member.1);
                    }
                    i = i + 1;
                }
                proof {
                    if exists|c: int| is_first_member(members@, key@, c) {
                        let c = choose|c: int| is_first_member(members@, key@, c);
                        assert(members@[c].0@ != key@);
                    }
                }
                None
            },
            _ => None,
        }
    }
}

/// The index of the first member with key `key`.
fn find_member(members: &Vec<(String, Json)>, key: &str) -> (r: Option<usize>)
    ensures
        match r {
            Some(i) => is_first_member(members@, key@, i as int) && member_spec(members@, key@) == Some(
                members@[i as int].1,
            ),
            None => member_spec(members@, key@) is None,
        },
{
    let mut i: usize = 0;
    while i < members.len()
        invariant
            i <= members@.len(),
            forall|j: int| 0 <= j < i ==> members@[j].0@ != key@,
        decreases members@.len() - i,
    {
        if text_is(members[i].0.as_str(), key) {
            proof {
                assert(is_first_member(members@, key@, i as int));
                let c = choose|c: int| is_first_member(members@, key@, c);
                if c < i {
                    assert(members@[c].0@ != key@);
                } else if i < c {
                    assert(members@[i as int].0@ != key@);
                }
            }
            return Some(i);
        }
        i = i + 1;
    }
    proof {
        if exists|c: int| is_first_member(members@, key@, c) {
            let c = choose|c: int| is_first_member(members@, key@, c);
            assert(members@[c].0@ != key@);
        }
    }
    None
}

impl Json {
    /// Takes the members `first` and `second` (distinct keys) out of the
    /// value.
    pub fn into_two_members(self, first: &str, second: &str) -> (r: (Option<Json>, Option<Json>))
        requires
            first@ != second@,
        ensures
            r.0 == get_spec(self, first@),
            r.1 == get_spec(self, second@),
    {
        match self {
            Json::Object(mut members) => {
                let ghost all = members@;
                let a = find_member(&members, first);
                let b = find_member(&members, second);
                match (a, b) {
                    (Some(i), Some(j)) => {
                        if i < j {
                            let y = members.remove(j);
                            let x = members.remove(i);
                            (Some(x.1), Some(y.1))
                        } else {
                            let x = members.remove(i);
                            let y = members.remove(j);
                            (Some(x.1), Some(y.1))
                        }
                    },
                    (Some(i), None) => {
                        let x = members.remove(i);
                        (Some(x.1), None)
                    },
                    (None, Some(j)) => {
                        let y = members.remove(j);
                        (None, Some(y.1))
                    },
                    (None, None) => (None, None),
                }
            },
            _ => (None, None),
        }
    }
}

} // verus!
