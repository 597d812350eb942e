//! The structured value that frames carry, held as plain data.

use vstd::prelude::*;

verus! {

/// A structured value. Integral numbers that fit in an `i64` are held as
/// `Int`; every other number keeps its decimal text in `Num`. An object
/// keeps its members in order, with unique keys.
#[derive(Debug)]
pub enum Json {
    Null,
    Bool(bool),
    Int(i64),
    Num(String),
    Str(String),
    Arr(Vec<Json>),
    Obj(Vec<(String, Json)>),
}

/// The value bound to `key` among `members` (the last binding wins).
pub open spec fn member(members: Seq<(String, Json)>, key: Seq<char>) -> Option<Json>
    decreases members.len(),
{
    if members.len() == 0 {
        None
    } else if members.last().0@ == key {
        Some(members.last().1)
    } else {
        member(members.drop_last(), key)
    }
}

/// A binding that no later member overrides is the one `member` reports.
pub proof fn lemma_member_at(members: Seq<(String, Json)>, i: int, key: Seq<char>)
    requires
        0 <= i < members.len(),
        members[i].0@ == key,
        forall|j: int| i < j < members.len() ==> (#[trigger] members[j]).0@ != key,
    ensures
        member(members, key) == Some(members[i].1),
    decreases members.len(),
{
    if i < members.len() - 1 {
        assert(members.last() == members[members.len() - 1]);
        lemma_member_at(members.drop_last(), i, key);
    }
}

/// The value bound to `key` when `v` is an object.
pub open spec fn field(v: Json, key: Seq<char>) -> Option<Json> {
    match v {
        Json::Obj(members) => member(members@, key),
        _ => None,
    }
}

/// The keys of an object's members, in order; empty for any other value.
pub open spec fn keys(v: Json) -> Seq<Seq<char>> {
    match v {
        Json::Obj(m) => m@.map_values(|e: (String, Json)| e.0@),
        _ => Seq::empty(),
    }
}

/// `v` is a string whose text is `text`.
pub open spec fn is_str(v: Option<Json>, text: Seq<char>) -> bool {
    v matches Some(Json::Str(s)) && s@ == text
}

/// Finds the position of the binding of `key` among `members` that
/// `member` reports.
pub fn find_member(members: &Vec<(String, Json)>, key: &String) -> (r: Option<usize>)
    ensures
        match r {
            Some(i) => i < members@.len() && members@[i as int].0@ == key@ && member(members@, key@)
                == Some(members@[i as int].1),
            None => member(members@, key@) is None,
        },
{
    let mut n: usize = members.len();
    proof {
        assert(members@.subrange(0, n as int) =~= members@);
    }
    while n > 0
        invariant
            n <= members@.len(),
            member(members@, key@) == member(members@.subrange(0, n as int), key@),
        decreases n,
    {
        let ghost prefix = members@.subrange(0, n as int);
        if members[n - 1].0 == *key {
            return Some(n - 1);
        }
        proof {
            assert(prefix.drop_last() =~= members@.subrange(0, n - 1));
        }
        n = n - 1;
    }
    None
}

} // verus!
