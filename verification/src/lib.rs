//! In-process read-through cache for secret values kept in a remote secret store.
//!
//! The crate holds the caching and refresh-decision engine: the cached entries with
//! their expiry instants, the bounded least-recently-used store, and the protocol that
//! decides whether a request is served from the store or has to go to the remote
//! source. Talking to the remote source is left to the caller, which performs the
//! fetch that [`GetSecretStringBuilder::send`] asks for and hands the outcome to
//! [`GetSecretStringBuilder::complete`].

pub mod cache;
pub mod cache_item;
pub mod clock;
pub mod config;
pub mod guarantees;
pub mod residents;
pub mod store;

pub use cache::{CacheState, Decision, DecisionView, GetSecretStringBuilder, SecretCache};
pub use cache_item::CacheItem;
pub use clock::current_time_in_nanoseconds;
pub use config::CacheConfig;
