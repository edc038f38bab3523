//! The cache and the protocol of one request for a secret.
//!
//! A request runs in two steps. [`GetSecretStringBuilder::send`] looks the secret up
//! and decides: either the store serves it, or the remote source has to be asked.
//! In the second case the caller performs the fetch and hands its outcome to
//! [`GetSecretStringBuilder::complete`], which stores a fetched value and passes a
//! failure on untouched.

use crate::cache_item::{expiry_instant, CacheItem};
use crate::clock::current_time_in_nanoseconds;
use crate::config::{CacheConfig, DEFAULT_CACHE_ITEM_TTL, DEFAULT_MAX_CACHE_SIZE, DEFAULT_VERSION_STAGE};
use crate::residents::{
    distinct, holds, lemma_stored, lemma_touched, lookup, position, stored, touched, Resident,
};
use crate::store::{
    lru_capacity, lru_contains, lru_entries, lru_get, lru_len, lru_put, lru_sparse,
};
use lru::LruCache;
use vstd::prelude::*;

verus! {

/// What a request comes to once the store has been consulted, as contracts see it.
pub enum DecisionView {
    /// The store holds a fresh value: it is the answer.
    Serve(Seq<char>),
    /// The remote source has to be asked for this secret at this version stage.
    Fetch { secret_id: Seq<char>, version_stage: Seq<char> },
}

/// What a request comes to once the store has been consulted.
pub enum Decision {
    /// The store holds a fresh value: it is the answer, and the request is over.
    Serve(String),
    /// The remote source has to be asked for this secret at this version stage. The
    /// outcome goes to [`GetSecretStringBuilder::complete`].
    Fetch { secret_id: String, version_stage: String },
}

impl View for Decision {
    type V = DecisionView;

    open spec fn view(&self) -> DecisionView {
        match *self {
            Decision::Serve(value) => DecisionView::Serve(value@),
            Decision::Fetch { secret_id, version_stage } => DecisionView::Fetch {
                secret_id: secret_id@,
                version_stage: version_stage@,
            },
        }
    }
}

/// A cache as contracts see it: its residents, the most recently used one first, and
/// the policy it was made with.
pub struct CacheState {
    /// The cached secrets, the most recently used one first.
    pub entries: Seq<Resident>,
    /// The largest number of secrets kept.
    pub capacity: usize,
    /// The time to live given to each secret when it is stored, in nanoseconds.
    pub ttl: u128,
    /// The version stage asked of the remote source.
    pub version_stage: Seq<char>,
}

impl CacheState {
    /// The state of a cache made from `config`, before any request: nothing is
    /// cached, and a configured size of zero has become a capacity of one.
    pub open spec fn initial(config: CacheConfig) -> CacheState {
        CacheState {
            entries: Seq::empty(),
            capacity: if config.max_cache_size == 0 {
                1
            } else {
                config.max_cache_size
            },
            ttl: config.cache_item_ttl,
            version_stage: config.version_stage@,
        }
    }

    /// The invariant of a cache: it keeps at least one secret and at most `capacity`,
    /// and no id is resident twice.
    pub open spec fn wf(self) -> bool {
        &&& self.capacity >= 1
        &&& self.entries.len() <= self.capacity
        &&& distinct(self.entries)
    }

    /// Whether the store answers a request for `id` made at `now`: no refresh is
    /// forced, `id` is resident, and its value is not stale.
    pub open spec fn serves(self, id: Seq<char>, force_refresh: bool, now: u128) -> bool {
        &&& !force_refresh
        &&& holds(self.entries, id)
        &&& now <= self.entries[position(self.entries, id)].expires_at
    }

    /// What a request for `id` made at `now` comes to.
    pub open spec fn decision(self, id: Seq<char>, force_refresh: bool, now: u128) -> DecisionView {
        if self.serves(id, force_refresh, now) {
            DecisionView::Serve(self.entries[position(self.entries, id)].value)
        } else {
            DecisionView::Fetch { secret_id: id, version_stage: self.version_stage }
        }
    }

    /// The cache after the lookup of a request for `id`. A forced refresh looks
    /// nothing up; any other request marks `id`, where it is resident, as the most
    /// recently used.
    pub open spec fn after_request(self, id: Seq<char>, force_refresh: bool) -> CacheState {
        if force_refresh {
            self
        } else {
            CacheState { entries: touched(self.entries, id), ..self }
        }
    }

    /// The cache after the outcome `fetched` of a fetch for `id` has come in at `now`:
    /// a value has been stored, a failure has changed nothing.
    pub open spec fn after_outcome<E>(
        self,
        id: Seq<char>,
        fetched: Result<String, E>,
        now: u128,
    ) -> CacheState {
        match fetched {
            Ok(value) => self.after_response(id, value@, now),
            Err(_) => self,
        }
    }

    /// The cache after `value`, fetched at `now`, has been stored under `id`.
    pub open spec fn after_response(self, id: Seq<char>, value: Seq<char>, now: u128) -> CacheState {
        CacheState {
            entries: stored(
                self.entries,
                self.capacity,
                Resident { id, value, expires_at: expiry_instant(now, self.ttl) },
            ),
            ..self
        }
    }
}

/// Client-side cache of secret values.
///
/// A least-recently-used scheme bounds the number of secrets kept; a time to live
/// bounds how long a value is served without asking the remote source again.
pub struct SecretCache {
    config: CacheConfig,
    cache: LruCache<String, CacheItem<String>>,
}

impl View for SecretCache {
    type V = CacheState;

    closed spec fn view(&self) -> CacheState {
        CacheState {
            entries: lru_entries(self.cache),
            capacity: lru_capacity(self.cache),
            ttl: self.config.cache_item_ttl,
            version_stage: self.config.version_stage@,
        }
    }
}

impl SecretCache {
    /// A cache is well formed as long as it lives.
    #[verifier::type_invariant]
    spec fn well_formed(self) -> bool {
        self@.wf()
    }

    /// Returns a new cache with the default configuration.
    pub fn new() -> (cache: Self)
        ensures
            cache@.entries == Seq::<Resident>::empty(),
            cache@.capacity == DEFAULT_MAX_CACHE_SIZE,
            cache@.ttl == DEFAULT_CACHE_ITEM_TTL,
            cache@.version_stage == DEFAULT_VERSION_STAGE@,
            cache@.wf(),
    {
        SecretCache::new_cache(CacheConfig::new())
    }

    /// Returns a new cache with the configuration `config`. A configured size of
    /// zero gives a cache that keeps one secret.
    pub fn new_with_config(config: CacheConfig) -> (cache: Self)
        ensures
            cache@ == CacheState::initial(config),
            cache@.wf(),
    {
        SecretCache::new_cache(config)
    }

    fn new_cache(config: CacheConfig) -> (cache: Self)
        ensures
            cache@ == CacheState::initial(config),
            cache@.wf(),
    {
        let capacity: usize = if config.max_cache_size == 0 {
            1
        } else {
            config.max_cache_size
        };
        let cache = lru_sparse(capacity);
        SecretCache { config, cache }
    }

    /// Returns a builder for getting the secret `secret_id`.
    ///
    /// Carry the request out with [`GetSecretStringBuilder::send`].
    pub fn get_secret_string(&mut self, secret_id: String) -> (builder: GetSecretStringBuilder<'_>)
        ensures
            *builder.secret_cache == *old(self),
            *final(builder.secret_cache) == *final(self),
            builder.secret_id == secret_id,
            !builder.force_refresh,
    {
        GetSecretStringBuilder::new(self, secret_id)
    }

    /// Returns the number of secrets cached. It is never more than the cache was made
    /// to keep.
    pub fn len(&self) -> (len: usize)
        ensures
            len == self@.entries.len(),
            len <= self@.capacity,
            self@.wf(),
    {
        proof {
            use_type_invariant(self);
        }
        lru_len(&self.cache)
    }

    /// Returns whether a value is cached for `secret_id`, fresh or stale. The order
    /// of use stays as it is.
    pub fn contains(&self, secret_id: &String) -> (found: bool)
        ensures
            found == holds(self@.entries, secret_id@),
    {
        lru_contains(&self.cache, secret_id)
    }
}

/// One request for a secret: the cache it runs on, the secret's id, and whether the
/// cached value is to be passed over.
pub struct GetSecretStringBuilder<'a> {
    /// The cache that the request runs on.
    pub secret_cache: &'a mut SecretCache,
    /// The id of the secret asked for.
    pub secret_id: String,
    /// Whether the secret is fetched anew whatever the cache holds.
    pub force_refresh: bool,
}

impl<'a> GetSecretStringBuilder<'a> {
    /// Returns a request for `secret_id` on `secret_cache` that does not force a
    /// refresh.
    pub fn new(secret_cache: &'a mut SecretCache, secret_id: String) -> (builder: Self)
        ensures
            *builder.secret_cache == *old(secret_cache),
            *final(builder.secret_cache) == *final(secret_cache),
            builder.secret_id == secret_id,
            !builder.force_refresh,
    {
        GetSecretStringBuilder { secret_cache, secret_id, force_refresh: false }
    }

    /// Forces a refresh of the secret.
    ///
    /// The secret is fetched from the remote source and the cache updated with the
    /// fresh value, whatever the cache holds. This is for a cached secret that is out
    /// of date but not expired, for example after a rotation.
    pub fn force_refresh(self) -> (builder: Self)
        ensures
            *builder.secret_cache == *old(self.secret_cache),
            *final(builder.secret_cache) == *final(self.secret_cache),
            builder.secret_id == self.secret_id,
            builder.force_refresh,
    {
        let mut builder = self;
        builder.force_refresh = true;
        builder
    }

    /// Looks the secret up as of `now`, an instant in nanoseconds since the Unix
    /// epoch, and decides what the request comes to.
    ///
    /// The cached value is served if no refresh is forced, the secret is cached, and
    /// its value has not expired at `now`. In every other case the remote source has
    /// to be asked, for this secret at the configured version stage. A lookup marks a
    /// cached secret as the most recently used; a forced refresh looks nothing up.
    pub fn send_at(&mut self, now: u128) -> (decision: Decision)
        ensures
            decision@ == old(self).secret_cache@.decision(
                old(self).secret_id@,
                old(self).force_refresh,
                now,
            ),
            final(self).secret_cache@ == old(self).secret_cache@.after_request(
                old(self).secret_id@,
                old(self).force_refresh,
            ),
            final(self).secret_cache@.wf(),
            *final(final(self).secret_cache) == *final(old(self).secret_cache),
            final(self).secret_id == old(self).secret_id,
            final(self).force_refresh == old(self).force_refresh,
    {
        proof {
            use_type_invariant(&*self.secret_cache);
            lemma_touched(self.secret_cache@.entries, self.secret_id@);
        }
        if !self.force_refresh {
            if let Some(cache_item) = lru_get(&mut self.secret_cache.cache, &self.secret_id) {
                if !cache_item.is_expired_at(now) {
                    return Decision::Serve(cache_item.value().clone());
                }
            }
        }
        Decision::Fetch {
            secret_id: self.secret_id.clone(),
            version_stage: self.secret_cache.config.version_stage.clone(),
        }
    }

    /// Takes the outcome of the fetch that [`Self::send_at`] asked for, received at
    /// `now`, an instant in nanoseconds since the Unix epoch.
    ///
    /// A fetched value is stored under the secret's id, to expire one configured time
    /// to live after `now`, and returned. It replaces the value cached for the id;
    /// where the id is new and the cache full, the least recently used secret leaves.
    /// A failure is returned as it came, and the cache stays as it is.
    pub fn complete_at<E>(&mut self, fetched: Result<String, E>, now: u128) -> (result: Result<
        String,
        E,
    >)
        ensures
            result == fetched,
            final(self).secret_cache@ == old(self).secret_cache@.after_outcome(
                old(self).secret_id@,
                fetched,
                now,
            ),
            final(self).secret_cache@.wf(),
            *final(final(self).secret_cache) == *final(old(self).secret_cache),
            final(self).secret_id == old(self).secret_id,
            final(self).force_refresh == old(self).force_refresh,
    {
        proof {
            use_type_invariant(&*self.secret_cache);
        }
        match fetched {
            Ok(secret_value) => {
                proof {
                    lemma_stored(
                        self.secret_cache@.entries,
                        self.secret_cache@.capacity,
                        Resident {
                            id: self.secret_id@,
                            value: secret_value@,
                            expires_at: expiry_instant(now, self.secret_cache@.ttl),
                        },
                    );
                }
                let cache_item = CacheItem::new_at(
                    secret_value.clone(),
                    self.secret_cache.config.cache_item_ttl,
                    now,
                );
                lru_put(&mut self.secret_cache.cache, self.secret_id.clone(), cache_item);
                Ok(secret_value)
            },
            Err(e) => Err(e),
        }
    }

    /// Looks the secret up as of the current time, read from the system clock, and
    /// decides what the request comes to.
    ///
    /// If the secret is cached and has not expired, its value is served. The remote
    /// source has to be asked, and the cache updated through [`Self::complete`], if:
    /// - the secret is not cached,
    /// - the secret is cached but has expired,
    /// - the force_refresh option was given.
    ///
    /// The decision is the one that [`Self::send_at`] makes for the clock's reading.
    pub fn send(&mut self) -> (decision: Decision)
        ensures
            exists|now: u128|
                decision@ == old(self).secret_cache@.decision(
                    old(self).secret_id@,
                    old(self).force_refresh,
                    now,
                ),
            old(self).force_refresh || !holds(old(self).secret_cache@.entries, old(self).secret_id@)
                ==> decision@ == (DecisionView::Fetch {
                secret_id: old(self).secret_id@,
                version_stage: old(self).secret_cache@.version_stage,
            }),
            decision@ matches DecisionView::Serve(value) ==> lookup(
                old(self).secret_cache@.entries,
                old(self).secret_id@,
            ) matches Some(entry) && entry.value == value,
            decision@ matches DecisionView::Fetch { secret_id, version_stage } ==> secret_id == old(
                self,
            ).secret_id@ && version_stage == old(self).secret_cache@.version_stage,
            final(self).secret_cache@ == old(self).secret_cache@.after_request(
                old(self).secret_id@,
                old(self).force_refresh,
            ),
            final(self).secret_cache@.wf(),
            *final(final(self).secret_cache) == *final(old(self).secret_cache),
            final(self).secret_id == old(self).secret_id,
            final(self).force_refresh == old(self).force_refresh,
    {
        let now = current_time_in_nanoseconds();
        let decision = self.send_at(now);
        assert(decision@ == old(self).secret_cache@.decision(
            old(self).secret_id@,
            old(self).force_refresh,
            now,
        ));
        decision
    }

    /// Takes the outcome of the fetch that [`Self::send`] asked for.
    ///
    /// A fetched value is stored with the configured time to live, counted from the
    /// current time as the system clock gives it, and returned. A failure is returned
    /// as it came, and the cache stays as it is. The cache is left as
    /// [`Self::complete_at`] leaves it for the clock's reading.
    pub fn complete<E>(&mut self, fetched: Result<String, E>) -> (result: Result<String, E>)
        ensures
            result == fetched,
            exists|now: u128|
                final(self).secret_cache@ == old(self).secret_cache@.after_outcome(
                    old(self).secret_id@,
                    fetched,
                    now,
                ),
            fetched is Err ==> final(self).secret_cache@ == old(self).secret_cache@,
            fetched matches Ok(value) ==> lookup(
                final(self).secret_cache@.entries,
                old(self).secret_id@,
            ) matches Some(entry) && entry.value == value@ && entry.expires_at >= old(
                self,
            ).secret_cache@.ttl,
            final(self).secret_cache@.wf(),
            *final(final(self).secret_cache) == *final(old(self).secret_cache),
            final(self).secret_id == old(self).secret_id,
            final(self).force_refresh == old(self).force_refresh,
    {
        let now = current_time_in_nanoseconds();
        proof {
            use_type_invariant(&*self.secret_cache);
            if fetched is Ok {
                lemma_stored(
                    self.secret_cache@.entries,
                    self.secret_cache@.capacity,
                    Resident {
                        id: self.secret_id@,
                        value: fetched->Ok_0@,
                        expires_at: expiry_instant(now, self.secret_cache@.ttl),
                    },
                );
            }
        }
        let result = self.complete_at(fetched, now);
        assert(self.secret_cache@ == old(self).secret_cache@.after_outcome(
            old(self).secret_id@,
            fetched,
            now,
        ));
        result
    }
}

} // verus!
