//! Policy of a cache: how many secrets it keeps, for how long, and which version
//! stage it asks the remote store for.

use vstd::prelude::*;

verus! {

/// Default for the largest number of secrets kept.
pub const DEFAULT_MAX_CACHE_SIZE: usize = 1024;

/// Default time to live of a cached secret: one hour, in nanoseconds.
pub const DEFAULT_CACHE_ITEM_TTL: u128 = 3600000000000;

/// Default version stage requested from the remote store.
pub const DEFAULT_VERSION_STAGE: &'static str = "AWSCURRENT";

/// Configuration options for the secret cache.
///
/// Defaults:
/// - max_cache_size: 1024
/// - cache_item_ttl: 3600000000000 (1hr)
/// - version_stage: "AWSCURRENT"
pub struct CacheConfig {
    /// The maximum number of secrets to maintain in the cache.
    ///
    /// The least recently used secret is evicted once this many are stored and
    /// another one arrives. Zero is accepted here; a cache built from it keeps one
    /// secret.
    pub max_cache_size: usize,
    /// The number of nanoseconds a cached secret is considered valid before it has
    /// to be fetched again. Zero makes every secret stale at once.
    pub cache_item_ttl: u128,
    /// The version stage used when requesting secrets from the remote store.
    pub version_stage: String,
}

impl CacheConfig {
    /// Returns a configuration with every option at its default.
    pub fn new() -> (config: Self)
        ensures
            config.max_cache_size == DEFAULT_MAX_CACHE_SIZE,
            config.cache_item_ttl == DEFAULT_CACHE_ITEM_TTL,
            config.version_stage@ == DEFAULT_VERSION_STAGE@,
    {
        CacheConfig {
            max_cache_size: DEFAULT_MAX_CACHE_SIZE,
            cache_item_ttl: DEFAULT_CACHE_ITEM_TTL,
            version_stage: DEFAULT_VERSION_STAGE.to_owned(),
        }
    }

    /// Sets the largest number of secrets kept and leaves the other options as they
    /// are. Any value is accepted, zero too.
    pub fn max_cache_size(self, max_cache_size: usize) -> (config: Self)
        ensures
            config.max_cache_size == max_cache_size,
            config.cache_item_ttl == self.cache_item_ttl,
            config.version_stage == self.version_stage,
    {
        let mut config = self;
        config.max_cache_size = max_cache_size;
        config
    }

    /// Sets the time to live in nanoseconds and leaves the other options as they
    /// are. Any value is accepted, zero too.
    pub fn cache_item_ttl(self, cache_item_ttl: u128) -> (config: Self)
        ensures
            config.max_cache_size == self.max_cache_size,
            config.cache_item_ttl == cache_item_ttl,
            config.version_stage == self.version_stage,
    {
        let mut config = self;
        config.cache_item_ttl = cache_item_ttl;
        config
    }
}

impl Default for CacheConfig {
    fn default() -> (config: Self)
        ensures
            config.max_cache_size == DEFAULT_MAX_CACHE_SIZE,
            config.cache_item_ttl == DEFAULT_CACHE_ITEM_TTL,
            config.version_stage@ == DEFAULT_VERSION_STAGE@,
    {
        Self::new()
    }
}

} // verus!
