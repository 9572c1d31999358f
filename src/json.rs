//! A JSON value as the shape parser reads it.
use vstd::prelude::*;

verus! {

/// A JSON value.
///
/// Numbers keep only what the parser reads of them: their value when it fits
/// an `i64`. An object is the list of its entries in document order; a lookup
/// by key takes the first entry with that key.
#[derive(Debug)]
pub enum JsonValue {
    Null,
    Bool(bool),
    /// A number whose value is an `i64`.
    Integer(i64),
    /// A number with no `i64` value: a fraction, or an integer out of range.
    OtherNumber,
    Str(String),
    Array(Vec<JsonValue>),
    Object(Vec<(String, JsonValue)>),
}

/// The value of the first entry of `obj` whose key is `key`.
pub open spec fn lookup(obj: Seq<(String, JsonValue)>, key: Seq<char>) -> Option<JsonValue>
    decreases obj.len(),
{
    if obj.len() == 0 {
        None
    } else if obj[0].0@ == key {
        Some(obj[0].1)
    } else {
        lookup(obj.drop_first(), key)
    }
}

pub open spec fn has_key(obj: Seq<(String, JsonValue)>, key: Seq<char>) -> bool {
    lookup(obj, key) is Some
}

/// Compares two strings by their characters.
pub fn str_eq(a: &str, b: &str) -> (r: bool)
    ensures
        r == (a@ == b@),
{
    let x = a.to_owned();
    let y = b.to_owned();
    x == y
}

/// The value of the first entry of `obj` whose key is `key`.
pub fn get<'a>(obj: &'a Vec<(String, JsonValue)>, key: &str) -> (r: Option<&'a JsonValue>)
    ensures
        match r {
            Some(v) => lookup(obj@, key@) == Some(*v),
            None => lookup(obj@, key@) is None,
        },
{
    let mut i: usize = 0;
    assert(obj@.skip(0) =~= obj@);
    while i < obj.len()
        invariant
            i <= obj@.len(),
            lookup(obj@, key@) == lookup(obj@.skip(i as int), key@),
        decreases obj@.len() - i,
    {
        assert(obj@.skip(i as int).drop_first() =~= obj@.skip(i + 1));
        if str_eq(obj[i].0.as_str(), key) {
            return Some(&obj[i].1);
        }
        i = i + 1;
    }
    None
}

/// Whether `obj` has an entry whose key is `key`.
pub fn contains_key(obj: &Vec<(String, JsonValue)>, key: &str) -> (r: bool)
    ensures
        r == has_key(obj@, key@),
{
    get(obj, key).is_some()
}

} // verus!
