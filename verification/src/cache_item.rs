//! A cached value together with the instant at which it goes stale.

use crate::clock::current_time_in_nanoseconds;
use vstd::prelude::*;

verus! {

/// The instant at which a value stored at `now` with a time to live of `ttl` goes
/// stale: `now + ttl`, held at the largest instant a `u128` can name. No clock
/// reading lies beyond that instant, so an entry that expires there never does.
pub open spec fn expiry_instant(now: u128, ttl: u128) -> u128 {
    if now + ttl > u128::MAX {
        u128::MAX
    } else {
        (now + ttl) as u128
    }
}

/// Stores a cached item value with the instant at which it expires.
#[derive(Clone, Copy)]
pub struct CacheItem<T> {
    /// The item value stored in the cache.
    pub value: T,
    /// The expiry instant, in nanoseconds since the Unix epoch. Set once, when the
    /// item is made.
    expires_at: u128,
}

impl<T> CacheItem<T> {
    /// The value that the item holds.
    pub closed spec fn content(&self) -> T {
        self.value
    }

    /// The instant after which the item is stale.
    pub closed spec fn expiry(&self) -> u128 {
        self.expires_at
    }

    /// Whether the item is stale at `now`: `now` lies after the expiry instant.
    pub open spec fn stale_at(&self, now: u128) -> bool {
        now > self.expiry()
    }

    /// Returns an item that holds `value` and expires `cache_item_ttl` nanoseconds
    /// after `now`.
    pub fn new_at(value: T, cache_item_ttl: u128, now: u128) -> (item: Self)
        ensures
            item.content() == value,
            item.expiry() == expiry_instant(now, cache_item_ttl),
            forall|later: u128| item.stale_at(later) <==> later > now + cache_item_ttl,
    {
        CacheItem { value, expires_at: now.saturating_add(cache_item_ttl) }
    }

    /// Returns a cached item.
    ///
    /// The item expires `cache_item_ttl` nanoseconds after the current time, read
    /// from the system clock.
    pub fn new(value: T, cache_item_ttl: u128) -> (item: Self)
        ensures
            item.content() == value,
            exists|now: u128| item.expiry() == expiry_instant(now, cache_item_ttl),
            item.expiry() >= cache_item_ttl,
    {
        let now = current_time_in_nanoseconds();
        let item = CacheItem::new_at(value, cache_item_ttl, now);
        assert(item.expiry() == expiry_instant(now, cache_item_ttl));
        item
    }

    /// Returns the value that the item holds.
    pub fn value(&self) -> (value: &T)
        ensures
            *value == self.content(),
    {
        &self.value
    }

    /// Returns the expiry instant, in nanoseconds since the Unix epoch.
    pub fn expires_at(&self) -> (instant: u128)
        ensures
            instant == self.expiry(),
    {
        self.expires_at
    }

    /// Determines whether the cached item is stale at `now`, an instant in
    /// nanoseconds since the Unix epoch.
    pub fn is_expired_at(&self, now: u128) -> (expired: bool)
        ensures
            expired == self.stale_at(now),
    {
        now > self.expires_at
    }

    /// Determines whether the cached item has expired.
    ///
    /// Expiration is determined by comparing the current time, read from the system
    /// clock, to the item's expiry instant.
    pub fn is_expired(&self) -> (expired: bool)
        ensures
            exists|now: u128| expired == self.stale_at(now),
            self.expiry() == u128::MAX ==> !expired,
    {
        let now = current_time_in_nanoseconds();
        let expired = self.is_expired_at(now);
        assert(expired == self.stale_at(now));
        expired
    }
}

} // verus!
