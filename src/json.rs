use vstd::prelude::*;

verus! {

/// A JSON value as the ledger node's protocol carries it.
///
/// Numbers that fit a signed 64-bit integer are held as `Int`; every other
/// number is held as its decimal text in `Decimal`, so that amounts are never
/// rounded on their way through the library.
#[derive(Debug, PartialEq, Eq)]
pub enum Json {
    Null,
    Bool(bool),
    Int(i64),
    Decimal(String),
    Str(String),
    Array(Vec<Json>),
    Object(Vec<(String, Json)>),
}

/// The value stored under `key` in an object's entries: the first entry with
/// that key, as JSON parsers that keep duplicates in order report it.
pub open spec fn field_in(entries: Seq<(String, Json)>, key: Seq<char>) -> Option<Json>
    decreases entries.len(),
{
    if entries.len() == 0 {
        None
    } else if entries[0].0@ == key {
        Some(entries[0].1)
    } else {
        field_in(entries.drop_first(), key)
    }
}

/// The value of field `key` of `v`, where `v` is an object that has it.
pub open spec fn field_of(v: Json, key: Seq<char>) -> Option<Json> {
    match v {
        Json::Object(entries) => field_in(entries@, key),
        _ => None,
    }
}

/// A field that is present and not `null`.
pub open spec fn present(f: Option<Json>) -> bool {
    f matches Some(v) && !(v is Null)
}

/// Looks up `key` among the entries of an object.
pub fn lookup<'a>(entries: &'a Vec<(String, Json)>, key: &String) -> (r: Option<&'a Json>)
    ensures
        r is Some == field_in(entries@, key@) is Some,
        r matches Some(x) ==> field_in(entries@, key@) == Some(*x),
{
    let mut i: usize = 0;
    assert(entries@.subrange(0, entries@.len() as int) =~= entries@);
    while i < entries.len()
        invariant
            i <= entries@.len(),
            field_in(entries@, key@) == field_in(entries@.subrange(i as int, entries@.len() as int), key@),
        decreases entries.len() - i,
    {
        let rest = Ghost(entries@.subrange(i as int, entries@.len() as int));
        assert(rest@.drop_first() =~= entries@.subrange(i + 1, entries@.len() as int));
        assert(rest@[0] == entries@[i as int]);
        if entries[i].0 == *key {
            return Some(&entries[i].1);
        }
        i = i + 1;
    }
    assert(entries@.subrange(i as int, entries@.len() as int).len() == 0);
    None
}

/// Looks up field `key` of `v`; `None` where `v` is no object or lacks the key.
pub fn field<'a>(v: &'a Json, key: &String) -> (r: Option<&'a Json>)
    ensures
        r is Some == field_of(*v, key@) is Some,
        r matches Some(x) ==> field_of(*v, key@) == Some(*x),
{
    match v {
        Json::Object(entries) => lookup(entries, key),
        _ => None,
    }
}

} // verus!
