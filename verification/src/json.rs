//! A JSON value as plain data.

use vstd::prelude::*;

verus! {

/// A JSON number: a non-negative integer, a negative integer, or a binary64
/// number given by its bit pattern.
#[derive(Debug, Clone, Copy, PartialEq, Eq, Structural)]
pub enum Number {
    PosInt(u64),
    NegInt(i64),
    Real(u64),
}

/// A JSON value.
#[derive(Debug, PartialEq, Eq)]
pub enum Json {
    Null,
    Bool(bool),
    Number(Number),
    Text(String),
    List(Vec<Json>),
    Object(Vec<Member>),
}

/// A member of a JSON object: a key and its value.
#[derive(Debug, PartialEq, Eq)]
pub struct Member {
    pub key: String,
    pub value: Json,
}

/// The value of the first member of `members` whose key is `key`.
pub open spec fn find_member(members: Seq<Member>, key: Seq<char>) -> Option<Json>
    decreases members.len(),
{
    if members.len() == 0 {
        None
    } else if members[0].key@ == key {
        Some(members[0].value)
    } else {
        find_member(members.drop_first(), key)
    }
}

impl Json {
    /// The text of a text value.
    pub open spec fn text(self) -> Option<Seq<char>> {
        match self {
            Json::Text(s) => Some(s@),
            _ => None,
        }
    }

    /// The text of a text value.
    pub fn as_str(&self) -> (text: Option<&String>)
        ensures
            match text {
                Some(s) => self.text() == Some(s@),
                None => self.text().is_none(),
            },
    {
        match self {
            Json::Text(s) => Some(s),
            _ => None,
        }
    }
}

/// Looks up `key` among the members of an object: the value of the first
/// member that carries the key.
pub fn get_member<'a>(members: &'a Vec<Member>, key: &str) -> (found: Option<&'a Json>)
    ensures
        match found {
            Some(value) => find_member(members@, key@) == Some(*value),
            None => find_member(members@, key@).is_none(),
        },
{
    let wanted = key.to_owned();
    let mut i: usize = 0;
    assert(members@.subrange(0, members.len() as int) == members@);
    while i < members.len()
        invariant
            i <= members.len(),
            wanted@ == key@,
            find_member(members@, key@) == find_member(
                members@.subrange(i as int, members.len() as int),
                key@,
            ),
        decreases members.len() - i,
    {
        let ghost rest = members@.subrange(i as int, members.len() as int);
        if members[i].key == wanted {
            return Some(&members[i].value);
        }
        assert(rest.drop_first() == members@.subrange(i + 1, members.len() as int));
        i += 1;
    }
    None
}

} // verus!
