//! Hash maps from texts to numbers.

use vstd::prelude::*;

verus! {

/// The hash map of `ahash`, which Verus sees as an opaque type.
#[verifier::external_type_specification]
#[verifier::external_body]
#[verifier::reject_recursive_types(K)]
#[verifier::reject_recursive_types(V)]
#[verifier::reject_recursive_types(S)]
pub struct ExAHashMap<K, V, S>(ahash::AHashMap<K, V, S>);

/// The hasher state of `ahash`, which Verus sees as an opaque type.
#[verifier::external_type_specification]
#[verifier::external_body]
pub struct ExRandomState(ahash::RandomState);

/// What a map holds.
pub uninterp spec fn index_contents(
    map: ahash::AHashMap<String, u64, ahash::RandomState>,
) -> Map<Seq<char>, u64>;

/// The contents of an empty map.
pub open spec fn empty_index() -> Map<Seq<char>, u64> {
    Map::empty()
}

/// An empty map. Calls `AHashMap::new`; claimed is that the map holds nothing.
#[verifier::external_body]
pub(crate) fn index_new() -> (map: ahash::AHashMap<String, u64, ahash::RandomState>)
    ensures
        index_contents(map) == empty_index(),
{
    ahash::AHashMap::new()
}

/// Looks up a text. Calls `AHashMap::get`; claimed is that it returns the number
/// held for the text, and `None` where there is none.
#[verifier::external_body]
pub(crate) fn index_get(
    map: &ahash::AHashMap<String, u64, ahash::RandomState>,
    key: &str,
) -> (r: Option<u64>)
    ensures
        r == (if index_contents(*map).dom().contains(key@) {
            Some(index_contents(*map)[key@])
        } else {
            None
        }),
{
    map.get(key).copied()
}

/// Holds a number for a text. Calls `AHashMap::insert`; claimed is that the map then holds the
/// number for the text in place of any earlier one.
#[verifier::external_body]
pub(crate) fn index_insert(
    map: &mut ahash::AHashMap<String, u64, ahash::RandomState>,
    key: &str,
    value: u64,
)
    ensures
        index_contents(*final(map)) == index_contents(*old(map)).insert(key@, value),
{
    map.insert(key.to_owned(), value);
}

/// Holds a number for a text that has none. Calls `HashMap::entry` and `Entry::or_insert` through
/// `AHashMap`; claimed is that an earlier number stays and that otherwise the new one is held.
#[verifier::external_body]
pub(crate) fn index_insert_if_absent(
    map: &mut ahash::AHashMap<String, u64, ahash::RandomState>,
    key: &str,
    value: u64,
)
    ensures
        index_contents(*final(map)) == (if index_contents(*old(map)).dom().contains(key@) {
            index_contents(*old(map))
        } else {
            index_contents(*old(map)).insert(key@, value)
        }),
{
    map.entry(key.to_owned()).or_insert(value);
}

/// Forgets a text. Calls `AHashMap::remove`; claimed is that the map then holds nothing for the
/// text and that the number held before is returned, `None` where there was none.
#[verifier::external_body]
pub(crate) fn index_remove(
    map: &mut ahash::AHashMap<String, u64, ahash::RandomState>,
    key: &str,
) -> (r: Option<u64>)
    ensures
        index_contents(*final(map)) == index_contents(*old(map)).remove(key@),
        r == (if index_contents(*old(map)).dom().contains(key@) {
            Some(index_contents(*old(map))[key@])
        } else {
            None
        }),
{
    map.remove(key)
}

} // verus!
