//! The property table an error's metadata carries: a `FxHashMap` from key
//! text to value text, seen through the entries it holds.
use vstd::prelude::*;

use rustc_hash::{FxBuildHasher, FxHashMap};

verus! {

/// `rustc_hash::FxBuildHasher`, the hasher builder of `FxHashMap`.
#[verifier::external_type_specification]
#[verifier::external_body]
pub struct ExFxBuildHasher(FxBuildHasher);

/// A property table: key text to value text.
pub type PropertyTable = FxHashMap<String, String>;

/// The entries a property table holds: each key's text mapped to its value's text.
pub uninterp spec fn property_entries(m: PropertyTable) -> Map<Seq<char>, Seq<char>>;

/// The entries of an empty table.
pub open spec fn no_properties() -> Map<Seq<char>, Seq<char>> {
    Map::empty()
}

/// Calls `FxHashMap::default` (std `HashMap::default` with rustc_hash's
/// `FxBuildHasher`). The contract claims the new table holds no entry.
#[verifier::external_body]
pub(crate) fn new_properties() -> (table: PropertyTable)
    ensures
        property_entries(table) == no_properties(),
{
    FxHashMap::default()
}

/// Calls `Clone::clone` on a `FxHashMap`. The contract claims the copy holds
/// the same entries.
#[verifier::external_body]
pub(crate) fn copy_properties(m: &PropertyTable) -> (copy: PropertyTable)
    ensures
        property_entries(copy) == property_entries(*m),
{
    m.clone()
}

/// Calls `HashMap::insert` on a `FxHashMap`. The contract claims that the key
/// afterwards maps to the value and that every other entry stays: `String`
/// keys compare and hash by their text, and `FxBuildHasher` hashes equal keys
/// alike.
#[verifier::external_body]
pub(crate) fn insert_property(m: &mut PropertyTable, key: String, value: String)
    ensures
        property_entries(*final(m)) == property_entries(*old(m)).insert(key@, value@),
{
    m.insert(key, value);
}

/// Calls `HashMap::get` on a `FxHashMap` with a `&str` key (looked up through
/// `String: Borrow<str>`). The contract claims that the value stored under a
/// key with the same text is returned, and `None` when there is none.
#[verifier::external_body]
pub(crate) fn lookup_property<'a>(m: &'a PropertyTable, key: &str) -> (r: Option<
    &'a String,
>)
    ensures
        match r {
            Some(v) => property_entries(*m).contains_key(key@) && v@ == property_entries(*m)[key@],
            None => !property_entries(*m).contains_key(key@),
        },
{
    m.get(key)
}

/// Calls `HashMap::remove` on a `FxHashMap` with a `&str` key. The contract
/// claims that the entry under a key with the same text is gone afterwards and
/// every other entry stays.
#[verifier::external_body]
pub(crate) fn remove_property_entry(m: &mut PropertyTable, key: &str)
    ensures
        property_entries(*final(m)) == property_entries(*old(m)).remove(key@),
{
    m.remove(key);
}

} // verus!
