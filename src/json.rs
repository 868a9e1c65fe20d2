//! A structured value model: what a call's payload and result are made of.

use vstd::prelude::*;

verus! {

/// A JSON number. `PosInt` holds the non-negative integers, `NegInt` the
/// negative ones, and `Float` any other number as its decimal text.
#[derive(Clone, Debug)]
pub enum Num {
    PosInt(u64),
    NegInt(i64),
    Float(String),
}

/// A JSON value. An object keeps its entries in order; a key is looked up
/// at its first entry.
#[derive(Debug)]
pub enum Json {
    Null,
    Bool(bool),
    Number(Num),
    Str(String),
    Array(Vec<Json>),
    Object(Vec<(String, Json)>),
}

/// The value that `key` maps to in an object's entries, at its first entry.
pub open spec fn lookup(fields: Seq<(String, Json)>, key: Seq<char>) -> Option<Json>
    decreases fields.len(),
{
    if fields.len() == 0 {
        None
    } else if fields[0].0@ == key {
        Some(fields[0].1)
    } else {
        lookup(fields.drop_first(), key)
    }
}

impl Num {
    pub fn copy(&self) -> (r: Num)
        ensures
            r == *self,
    {
        match self {
            Num::PosInt(n) => Num::PosInt(*n),
            Num::NegInt(n) => Num::NegInt(*n),
            Num::Float(t) => Num::Float(t.clone()),
        }
    }
}

/// The value that `key` is given in an object's entries: an entry that holds
/// `Null` counts as absent.
pub open spec fn given(fields: Seq<(String, Json)>, key: Seq<char>) -> Option<Json> {
    match lookup(fields, key) {
        Some(Json::Null) => None,
        other => other,
    }
}

/// The position of the first entry of `key`, if any.
pub fn find_index(fields: &Vec<(String, Json)>, key: &str) -> (r: Option<usize>)
    ensures
        match r {
            Some(i) => {
                &&& i < fields@.len()
                &&& fields@[i as int].0@ == key@
                &&& forall|j: int| 0 <= j < i ==> fields@[j].0@ != key@
                &&& lookup(fields@, key@) == Some(fields@[i as int].1)
            },
            None => lookup(fields@, key@) is None,
        },
{
    let wanted = key.to_owned();
    let mut i: usize = 0;
    proof {
        assert(fields@.subrange(0, fields@.len() as int) =~= fields@);
    }
    while i < fields.len()
        invariant
            i <= fields@.len(),
            wanted@ == key@,
            lookup(fields@, key@) == lookup(fields@.subrange(i as int, fields@.len() as int), key@),
            forall|j: int| 0 <= j < i ==> fields@[j].0@ != key@,
        decreases fields@.len() - i,
    {
        proof {
            let rest = fields@.subrange(i as int, fields@.len() as int);
            assert(rest.drop_first() =~= fields@.subrange(i + 1, fields@.len() as int));
        }
        if fields[i].0 == wanted {
            return Some(i);
        }
        i = i + 1;
    }
    None
}

/// Finds the value of `key` among an object's entries.
pub fn find_field<'a>(fields: &'a Vec<(String, Json)>, key: &str) -> (r: Option<&'a Json>)
    ensures
        match r {
            Some(v) => lookup(fields@, key@) == Some(*v),
            None => lookup(fields@, key@) is None,
        },
{
    match find_index(fields, key) {
        Some(i) => Some(&fields[i].1),
        None => None,
    }
}

/// Moves the value of `key` out of an object's entries, leaving `Null` in its
/// place; every other key keeps its value.
pub fn take_field(fields: &mut Vec<(String, Json)>, key: &str) -> (r: Option<Json>)
    ensures
        r == lookup(old(fields)@, key@),
        forall|k: Seq<char>| k != key@ ==> lookup(final(fields)@, k) == lookup(old(fields)@, k),
{
    match find_index(fields, key) {
        Some(i) => {
            let ghost start = fields@;
            let mut entry = (String::new(), Json::Null);
            std::mem::swap(&mut fields[i], &mut entry);
            let (name, out) = entry;
            fields[i] = (name, Json::Null);
            proof {
                lemma_lookup_after_set(start, i as int, fields@, key@);
            }
            Some(out)
        },
        None => None,
    }
}

/// Changing the value of the first entry of a key changes no other key's value.
proof fn lemma_lookup_after_set(before: Seq<(String, Json)>, i: int, after: Seq<(String, Json)>, key: Seq<char>)
    requires
        0 <= i < before.len(),
        after.len() == before.len(),
        after[i].0 == before[i].0,
        before[i].0@ == key,
        forall|j: int| 0 <= j < before.len() && j != i ==> after[j] == before[j],
        forall|j: int| 0 <= j < i ==> before[j].0@ != key,
    ensures
        lookup(before, key) == Some(before[i].1),
        forall|k: Seq<char>| k != key ==> lookup(after, k) == lookup(before, k),
    decreases i,
{
    if i > 0 {
        lemma_lookup_after_set(before.drop_first(), i - 1, after.drop_first(), key);
        assert forall|k: Seq<char>| k != key implies lookup(after, k) == lookup(before, k) by {
            assert(after[0] == before[0]);
            assert(after.drop_first()[i - 1] == after[i]);
            if after[0].0@ != k {
                assert(lookup(after, k) == lookup(after.drop_first(), k));
                assert(lookup(before, k) == lookup(before.drop_first(), k));
            }
        }
    } else {
        assert forall|k: Seq<char>| k != key implies lookup(after, k) == lookup(before, k) by {
            assert(after.drop_first() =~= before.drop_first());
        }
    }
}

} // verus!
