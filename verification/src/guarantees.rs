//! What holds of every cache and every request, proved over the states that the
//! contracts of the cache speak of.

use crate::cache::{CacheState, DecisionView};
use crate::cache_item::expiry_instant;
use crate::config::CacheConfig;
use crate::residents::{holds, lemma_stored, lemma_touched, lookup, Resident};
use vstd::prelude::*;

verus! {

/// A cache that has just been made is well formed, whatever its configuration: it is
/// empty, and it keeps at least one secret.
pub proof fn lemma_new_cache_is_well_formed(config: CacheConfig)
    ensures
        CacheState::initial(config).wf(),
        CacheState::initial(config).entries.len() == 0,
        CacheState::initial(config).capacity >= 1,
        config.max_cache_size > 0 ==> CacheState::initial(config).capacity
            == config.max_cache_size,
{
}

/// A secret that is cached and has not expired is served from the cache: a request
/// that forces no refresh comes to the cached value, and so to no fetch.
pub proof fn lemma_fresh_secret_is_served(state: CacheState, id: Seq<char>, now: u128)
    requires
        holds(state.entries, id),
        now <= lookup(state.entries, id).unwrap().expires_at,
    ensures
        state.decision(id, false, now) == DecisionView::Serve(
            lookup(state.entries, id).unwrap().value,
        ),
{
}

/// A value that has been stored is served to every request that forces no refresh
/// and comes no later than one time to live after the value was stored.
pub proof fn lemma_stored_secret_is_served(
    state: CacheState,
    id: Seq<char>,
    value: Seq<char>,
    stored_at: u128,
    now: u128,
)
    requires
        state.wf(),
        now <= stored_at + state.ttl,
    ensures
        state.after_response(id, value, stored_at).decision(id, false, now) == DecisionView::Serve(
            value,
        ),
{
    lemma_stored(
        state.entries,
        state.capacity,
        Resident { id, value, expires_at: expiry_instant(stored_at, state.ttl) },
    );
}

/// A value that has expired is never served, and neither is anything for a secret
/// that is not cached: the request comes to a fetch of that secret at the
/// configured version stage.
pub proof fn lemma_expired_secret_is_fetched(
    state: CacheState,
    id: Seq<char>,
    force_refresh: bool,
    now: u128,
)
    requires
        lookup(state.entries, id) matches Some(entry) ==> now > entry.expires_at,
    ensures
        state.decision(id, force_refresh, now) == (DecisionView::Fetch {
            secret_id: id,
            version_stage: state.version_stage,
        }),
{
}

/// A forced refresh always comes to a fetch, however fresh the cached value is, and
/// looks nothing up. The value that the fetch brings replaces the cached one and
/// gets a full time to live.
pub proof fn lemma_forced_refresh_fetches_and_overwrites(
    state: CacheState,
    id: Seq<char>,
    now: u128,
    value: Seq<char>,
    fetched_at: u128,
)
    requires
        state.wf(),
    ensures
        state.decision(id, true, now) == (DecisionView::Fetch {
            secret_id: id,
            version_stage: state.version_stage,
        }),
        state.after_request(id, true) == state,
        lookup(state.after_response(id, value, fetched_at).entries, id) == Some(
            Resident { id, value, expires_at: expiry_instant(fetched_at, state.ttl) },
        ),
{
    lemma_stored(
        state.entries,
        state.capacity,
        Resident { id, value, expires_at: expiry_instant(fetched_at, state.ttl) },
    );
}

/// No request takes a cache over its capacity: a lookup and a store both leave a
/// well-formed cache well formed, so at most `capacity` secrets are ever cached, and
/// none twice.
pub proof fn lemma_capacity_is_kept(
    state: CacheState,
    id: Seq<char>,
    force_refresh: bool,
    value: Seq<char>,
    now: u128,
)
    requires
        state.wf(),
    ensures
        state.after_request(id, force_refresh).wf(),
        state.after_request(id, force_refresh).entries.len() == state.entries.len(),
        state.after_response(id, value, now).wf(),
        state.after_response(id, value, now).entries.len() <= state.capacity,
{
    lemma_touched(state.entries, id);
    lemma_stored(
        state.entries,
        state.capacity,
        Resident { id, value, expires_at: expiry_instant(now, state.ttl) },
    );
}

/// A store evicts at most one secret, and only the least recently used one: a
/// secret leaves exactly when a new id comes to a full cache, and it is the one at
/// the back of the order of use. Every other secret stays as it was cached.
pub proof fn lemma_eviction_takes_least_recently_used(
    state: CacheState,
    id: Seq<char>,
    value: Seq<char>,
    now: u128,
    other: Seq<char>,
)
    requires
        state.wf(),
        other != id,
    ensures
        lookup(state.after_response(id, value, now).entries, other) == if !holds(state.entries, id)
            && state.entries.len() == state.capacity && other == state.entries.last().id {
            None
        } else {
            lookup(state.entries, other)
        },
{
    lemma_stored(
        state.entries,
        state.capacity,
        Resident { id, value, expires_at: expiry_instant(now, state.ttl) },
    );
}

/// An access makes a secret the most recently used one: after the lookup of a
/// request that forces no refresh, a cached secret stands at the front of the order
/// of use, and after a store the stored secret does.
pub proof fn lemma_access_moves_to_front(
    state: CacheState,
    id: Seq<char>,
    value: Seq<char>,
    now: u128,
)
    requires
        state.wf(),
    ensures
        holds(state.entries, id) ==> state.after_request(id, false).entries[0] == lookup(
            state.entries,
            id,
        ).unwrap(),
        state.after_response(id, value, now).entries[0] == (Resident {
            id,
            value,
            expires_at: expiry_instant(now, state.ttl),
        }),
{
    lemma_touched(state.entries, id);
    lemma_stored(
        state.entries,
        state.capacity,
        Resident { id, value, expires_at: expiry_instant(now, state.ttl) },
    );
}

/// A request whose fetch fails leaves the cached ids and their values as they were.
/// The failure itself changes nothing; the lookup before it changes the order of use
/// and nothing else.
pub proof fn lemma_failed_fetch_keeps_contents<E>(
    state: CacheState,
    id: Seq<char>,
    force_refresh: bool,
    failure: E,
    now: u128,
)
    requires
        state.wf(),
    ensures
        state.after_request(id, force_refresh).after_outcome(id, Err::<String, E>(failure), now)
            == state.after_request(id, force_refresh),
        state.after_request(id, force_refresh).entries.len() == state.entries.len(),
        forall|other: Seq<char>|
            lookup(state.after_request(id, force_refresh).entries, other) == lookup(
                state.entries,
                other,
            ),
{
    lemma_touched(state.entries, id);
}

} // verus!
