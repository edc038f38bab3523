//! The bounded store of cached secrets: an `lru::LruCache` keyed by secret id, and
//! the sequence that stands for it in contracts.
//!
//! The store is modelled as the sequence of its residents, the most recently used
//! one first. Every access of a resident moves it to the front; a newcomer to a full
//! store takes the place of the one at the back.

use crate::cache_item::CacheItem;
use crate::residents::{holds, position, stored, touched, Resident};
use lru::LruCache;
use std::num::NonZeroUsize;
use vstd::prelude::*;

verus! {

/// `lru::LruCache`, taken as it is: nothing of its inside is known here.
#[verifier::external_type_specification]
#[verifier::external_body]
#[verifier::reject_recursive_types(K)]
#[verifier::reject_recursive_types(V)]
#[verifier::reject_recursive_types(S)]
pub struct ExLruCache<K, V, S>(LruCache<K, V, S>);

/// `lru::DefaultHasher`, the hasher that an `LruCache` uses unless it is given
/// another. No contract speaks of it.
#[verifier::external_type_specification]
#[verifier::external_body]
pub struct ExDefaultHasher(lru::DefaultHasher);

/// The resident that `item` makes when it is stored under `id`.
pub open spec fn resident(id: Seq<char>, item: CacheItem<String>) -> Resident {
    Resident { id, value: item.content()@, expires_at: item.expiry() }
}

/// The residents of `store`, the most recently used one first.
pub uninterp spec fn lru_entries(store: LruCache<String, CacheItem<String>>) -> Seq<Resident>;

/// The number of residents that `store` was made to keep at most.
pub uninterp spec fn lru_capacity(store: LruCache<String, CacheItem<String>>) -> usize;

/// `LruCache::sparse`: an empty store that keeps at most `capacity` residents, made
/// without reserving room for them.
#[verifier::external_body]
pub(crate) fn lru_sparse(capacity: usize) -> (store: LruCache<String, CacheItem<String>>)
    requires
        capacity > 0,
    ensures
        lru_entries(store) == Seq::<Resident>::empty(),
        lru_capacity(store) == capacity,
{
    LruCache::sparse(NonZeroUsize::new(capacity).unwrap())
}

/// `LruCache::len`: the number of residents.
#[verifier::external_body]
pub(crate) fn lru_len(store: &LruCache<String, CacheItem<String>>) -> (len: usize)
    ensures
        len == lru_entries(*store).len(),
{
    store.len()
}

/// `LruCache::contains`: whether a resident has the key `id`. The residents and their
/// order stay as they are.
#[verifier::external_body]
pub(crate) fn lru_contains(store: &LruCache<String, CacheItem<String>>, id: &String) -> (found:
    bool)
    ensures
        found == holds(lru_entries(*store), id@),
{
    store.contains(id)
}

/// `LruCache::get`: the item stored under the key `id`, or `None` where there is
/// none. A resident that is found becomes the most recently used one. The call does
/// not unwind.
#[verifier::external_body]
pub(crate) fn lru_get<'a>(
    store: &'a mut LruCache<String, CacheItem<String>>,
    id: &String,
) -> (found: Option<&'a CacheItem<String>>)
    ensures
        lru_capacity(*final(store)) == lru_capacity(*old(store)),
        lru_entries(*final(store)) == touched(lru_entries(*old(store)), id@),
        found is Some <==> holds(lru_entries(*old(store)), id@),
        found matches Some(item) ==> resident(id@, *item) == lru_entries(*old(store))[position(
            lru_entries(*old(store)),
            id@,
        )],
    no_unwind
{
    store.get(id)
}

/// `LruCache::put`: stores `item` under the key `id` as the most recently used
/// resident. Where the key was resident, its item is replaced and the old one
/// returned; where it was not, `None` is returned, and a full store first drops its
/// least recently used resident. The call does not unwind.
#[verifier::external_body]
pub(crate) fn lru_put(
    store: &mut LruCache<String, CacheItem<String>>,
    id: String,
    item: CacheItem<String>,
) -> (replaced: Option<CacheItem<String>>)
    ensures
        lru_capacity(*final(store)) == lru_capacity(*old(store)),
        lru_entries(*final(store)) == stored(
            lru_entries(*old(store)),
            lru_capacity(*old(store)),
            resident(id@, item),
        ),
        replaced is Some <==> holds(lru_entries(*old(store)), id@),
        replaced matches Some(previous) ==> resident(id@, previous) == lru_entries(
            *old(store),
        )[position(lru_entries(*old(store)), id@)],
    no_unwind
{
    store.put(id, item)
}

} // verus!
