use aws_secretsmanager_cache::{
    current_time_in_nanoseconds, CacheConfig, Decision, GetSecretStringBuilder, SecretCache,
};

#[derive(Debug, PartialEq)]
enum RemoteError {
    NotFound,
    AccessDenied,
    Unavailable,
    Service(String),
}

/// Runs one request at the instant `now`. `remote` stands for the remote source: it
/// is taken only where the request comes to a fetch. Returns what the caller gets,
/// and whether the remote source was asked.
fn get_at(
    cache: &mut SecretCache,
    secret_id: &str,
    force_refresh: bool,
    now: u128,
    remote: Result<&str, RemoteError>,
) -> (Result<String, RemoteError>, bool) {
    let mut request = cache.get_secret_string(secret_id.to_string());
    if force_refresh {
        request = request.force_refresh();
    }
    match request.send_at(now) {
        Decision::Serve(value) => (Ok(value), false),
        Decision::Fetch { secret_id: asked, version_stage } => {
            assert_eq!(asked, secret_id);
            assert_eq!(version_stage, "AWSCURRENT");
            (request.complete_at(remote.map(|value| value.to_string()), now), true)
        }
    }
}

/// Runs one request at the current time.
fn get(
    cache: &mut SecretCache,
    secret_id: &str,
    force_refresh: bool,
    remote: Result<&str, RemoteError>,
) -> (Result<String, RemoteError>, bool) {
    let mut request = cache.get_secret_string(secret_id.to_string());
    if force_refresh {
        request = request.force_refresh();
    }
    match request.send() {
        Decision::Serve(value) => (Ok(value), false),
        Decision::Fetch { secret_id: asked, version_stage } => {
            assert_eq!(asked, secret_id);
            assert_eq!(version_stage, "AWSCURRENT");
            (request.complete(remote.map(|value| value.to_string())), true)
        }
    }
}

fn cache_of(max_cache_size: usize, cache_item_ttl: u128) -> SecretCache {
    SecretCache::new_with_config(
        CacheConfig::new()
            .max_cache_size(max_cache_size)
            .cache_item_ttl(cache_item_ttl),
    )
}

#[test]
fn get_secret_string_builder_defaults() {
    let mut secret_cache = SecretCache::new();

    let builder = GetSecretStringBuilder::new(&mut secret_cache, "service/secret".to_string());

    assert_eq!(builder.secret_id, "service/secret");
    assert!(!builder.force_refresh);
}

#[test]
fn get_secret_string_builder_force_refresh() {
    let mut secret_cache = SecretCache::new();

    let builder = GetSecretStringBuilder::new(&mut secret_cache, "service/secret".to_string())
        .force_refresh();

    assert_eq!(builder.secret_id, "service/secret");
    assert!(builder.force_refresh);
}

#[test]
fn get_secret_string_returns_a_plain_request() {
    let mut secret_cache = SecretCache::new();

    let builder = secret_cache.get_secret_string("service/secret".to_string());

    assert_eq!(builder.secret_id, "service/secret");
    assert!(!builder.force_refresh);
}

#[test]
fn new_cache_is_empty() {
    let secret_cache = SecretCache::new();

    assert_eq!(secret_cache.len(), 0);
    assert!(!secret_cache.contains(&"service/secret".to_string()));
}

#[test]
fn miss_asks_for_the_secret_at_the_configured_stage() {
    let mut secret_cache = SecretCache::new();

    let mut request = secret_cache.get_secret_string("svc/a".to_string());
    match request.send_at(100) {
        Decision::Fetch { secret_id, version_stage } => {
            assert_eq!(secret_id, "svc/a");
            assert_eq!(version_stage, "AWSCURRENT");
        }
        Decision::Serve(value) => panic!("served {} from an empty cache", value),
    }
    assert_eq!(secret_cache.len(), 0);
}

#[test]
fn hit_is_served_without_a_fetch() {
    // one hour to live, as nanoseconds
    let mut secret_cache = cache_of(1024, 3600000000000);

    assert_eq!(
        get_at(&mut secret_cache, "svc/a", false, 1_000, Ok("x1")),
        (Ok("x1".to_string()), true)
    );
    assert_eq!(secret_cache.len(), 1);
    assert!(secret_cache.contains(&"svc/a".to_string()));

    assert_eq!(
        get_at(&mut secret_cache, "svc/a", false, 1_000, Ok("x2")),
        (Ok("x1".to_string()), false)
    );
    assert_eq!(secret_cache.len(), 1);
}

#[test]
fn hit_is_served_without_a_fetch_by_the_clock() {
    let mut secret_cache = SecretCache::new();

    assert_eq!(
        get(&mut secret_cache, "svc/a", false, Ok("x1")),
        (Ok("x1".to_string()), true)
    );
    assert_eq!(
        get(&mut secret_cache, "svc/a", false, Ok("x2")),
        (Ok("x1".to_string()), false)
    );
    assert_eq!(secret_cache.len(), 1);
}

#[test]
fn value_is_served_up_to_its_expiry_and_fetched_after_it() {
    let mut secret_cache = cache_of(1024, 50);

    assert_eq!(
        get_at(&mut secret_cache, "svc/a", false, 1_000, Ok("x1")),
        (Ok("x1".to_string()), true)
    );
    assert_eq!(
        get_at(&mut secret_cache, "svc/a", false, 1_050, Ok("x2")),
        (Ok("x1".to_string()), false)
    );
    assert_eq!(
        get_at(&mut secret_cache, "svc/a", false, 1_051, Ok("x2")),
        (Ok("x2".to_string()), true)
    );
    // the fresh value lives one time to live from its own fetch
    assert_eq!(
        get_at(&mut secret_cache, "svc/a", false, 1_101, Ok("x3")),
        (Ok("x2".to_string()), false)
    );
    assert_eq!(
        get_at(&mut secret_cache, "svc/a", false, 1_102, Ok("x3")),
        (Ok("x3".to_string()), true)
    );
    assert_eq!(secret_cache.len(), 1);
}

#[test]
fn zero_ttl_fetches_again() {
    let mut secret_cache = cache_of(1024, 0);

    assert_eq!(
        get_at(&mut secret_cache, "svc/b", false, 1_000, Ok("y1")),
        (Ok("y1".to_string()), true)
    );
    assert!(secret_cache.contains(&"svc/b".to_string()));
    assert_eq!(
        get_at(&mut secret_cache, "svc/b", false, 1_001, Ok("y2")),
        (Ok("y2".to_string()), true)
    );
    assert_eq!(secret_cache.len(), 1);
}

#[test]
fn zero_ttl_fetches_again_by_the_clock() {
    let mut secret_cache = cache_of(1024, 0);

    assert_eq!(
        get(&mut secret_cache, "svc/b", false, Ok("y1")),
        (Ok("y1".to_string()), true)
    );
    let stored = current_time_in_nanoseconds();
    while current_time_in_nanoseconds() <= stored {
        std::hint::spin_loop();
    }
    assert_eq!(
        get(&mut secret_cache, "svc/b", false, Ok("y2")),
        (Ok("y2".to_string()), true)
    );
    assert_eq!(secret_cache.len(), 1);
}

#[test]
fn cache_of_one_keeps_the_latest_secret() {
    let mut secret_cache = cache_of(1, 3600000000000);

    assert_eq!(
        get_at(&mut secret_cache, "svc/a", false, 1_000, Ok("x1")),
        (Ok("x1".to_string()), true)
    );
    assert_eq!(
        get_at(&mut secret_cache, "svc/b", false, 1_000, Ok("y1")),
        (Ok("y1".to_string()), true)
    );
    assert_eq!(secret_cache.len(), 1);
    assert!(secret_cache.contains(&"svc/b".to_string()));
    assert!(!secret_cache.contains(&"svc/a".to_string()));

    assert_eq!(
        get_at(&mut secret_cache, "svc/a", false, 1_000, Ok("x2")),
        (Ok("x2".to_string()), true)
    );
    assert_eq!(secret_cache.len(), 1);
    assert!(secret_cache.contains(&"svc/a".to_string()));
    assert!(!secret_cache.contains(&"svc/b".to_string()));
}

#[test]
fn forced_refresh_fetches_and_overwrites() {
    let mut secret_cache = cache_of(1024, 3600000000000);

    assert_eq!(
        get_at(&mut secret_cache, "svc/c", false, 1_000, Ok("z1")),
        (Ok("z1".to_string()), true)
    );
    assert_eq!(
        get_at(&mut secret_cache, "svc/c", true, 1_001, Ok("z2")),
        (Ok("z2".to_string()), true)
    );
    assert_eq!(
        get_at(&mut secret_cache, "svc/c", false, 1_002, Ok("z3")),
        (Ok("z2".to_string()), false)
    );
    assert_eq!(secret_cache.len(), 1);
}

#[test]
fn forced_refresh_restarts_the_time_to_live() {
    let mut secret_cache = cache_of(1024, 50);

    assert_eq!(
        get_at(&mut secret_cache, "svc/c", false, 1_000, Ok("z1")),
        (Ok("z1".to_string()), true)
    );
    assert_eq!(
        get_at(&mut secret_cache, "svc/c", true, 1_040, Ok("z2")),
        (Ok("z2".to_string()), true)
    );
    assert_eq!(
        get_at(&mut secret_cache, "svc/c", false, 1_090, Ok("z3")),
        (Ok("z2".to_string()), false)
    );
    assert_eq!(
        get_at(&mut secret_cache, "svc/c", false, 1_091, Ok("z3")),
        (Ok("z3".to_string()), true)
    );
}

#[test]
fn failed_fetch_is_passed_on_and_caches_nothing() {
    let mut secret_cache = SecretCache::new();

    assert_eq!(
        get_at(&mut secret_cache, "svc/d", false, 1_000, Err(RemoteError::NotFound)),
        (Err(RemoteError::NotFound), true)
    );
    assert_eq!(secret_cache.len(), 0);
    assert!(!secret_cache.contains(&"svc/d".to_string()));
}

#[test]
fn failed_fetch_is_passed_on_by_the_clock() {
    let mut secret_cache = SecretCache::new();

    assert_eq!(
        get(&mut secret_cache, "svc/d", false, Err(RemoteError::NotFound)),
        (Err(RemoteError::NotFound), true)
    );
    assert_eq!(secret_cache.len(), 0);
    assert!(!secret_cache.contains(&"svc/d".to_string()));
}

#[test]
fn each_failure_comes_back_as_it_went_in() {
    let mut secret_cache = SecretCache::new();

    assert_eq!(
        get_at(&mut secret_cache, "svc/d", false, 1, Err(RemoteError::AccessDenied)).0,
        Err(RemoteError::AccessDenied)
    );
    assert_eq!(
        get_at(&mut secret_cache, "svc/d", true, 2, Err(RemoteError::Unavailable)).0,
        Err(RemoteError::Unavailable)
    );
    assert_eq!(
        get_at(
            &mut secret_cache,
            "svc/d",
            false,
            3,
            Err(RemoteError::Service("connection reset".to_string()))
        )
        .0,
        Err(RemoteError::Service("connection reset".to_string()))
    );
    assert_eq!(secret_cache.len(), 0);
}

#[test]
fn failed_refresh_leaves_the_cached_values_in_place() {
    let mut secret_cache = cache_of(2, 50);

    get_at(&mut secret_cache, "svc/a", false, 1_000, Ok("x1")).0.unwrap();
    get_at(&mut secret_cache, "svc/b", false, 1_010, Ok("y1")).0.unwrap();

    // a forced refresh that fails
    assert_eq!(
        get_at(&mut secret_cache, "svc/a", true, 1_020, Err(RemoteError::Unavailable)),
        (Err(RemoteError::Unavailable), true)
    );
    // a refresh of an expired value that fails
    assert_eq!(
        get_at(&mut secret_cache, "svc/a", false, 1_051, Err(RemoteError::NotFound)),
        (Err(RemoteError::NotFound), true)
    );
    assert_eq!(secret_cache.len(), 2);
    assert!(secret_cache.contains(&"svc/a".to_string()));
    assert!(secret_cache.contains(&"svc/b".to_string()));

    // both values are still the ones that were cached
    assert_eq!(
        get_at(&mut secret_cache, "svc/a", false, 1_050, Ok("x2")),
        (Ok("x1".to_string()), false)
    );
    assert_eq!(
        get_at(&mut secret_cache, "svc/b", false, 1_060, Ok("y2")),
        (Ok("y1".to_string()), false)
    );
}

#[test]
fn full_cache_evicts_the_least_recently_used() {
    let mut secret_cache = cache_of(2, 3600000000000);

    get_at(&mut secret_cache, "svc/a", false, 1_000, Ok("x1")).0.unwrap();
    get_at(&mut secret_cache, "svc/b", false, 1_001, Ok("y1")).0.unwrap();
    // a lookup makes svc/a the most recently used
    assert_eq!(
        get_at(&mut secret_cache, "svc/a", false, 1_002, Ok("x2")),
        (Ok("x1".to_string()), false)
    );
    get_at(&mut secret_cache, "svc/c", false, 1_003, Ok("z1")).0.unwrap();

    assert_eq!(secret_cache.len(), 2);
    assert!(secret_cache.contains(&"svc/a".to_string()));
    assert!(!secret_cache.contains(&"svc/b".to_string()));
    assert!(secret_cache.contains(&"svc/c".to_string()));
}

#[test]
fn full_cache_evicts_in_order_of_arrival_without_lookups() {
    let mut secret_cache = cache_of(2, 3600000000000);

    get_at(&mut secret_cache, "svc/a", false, 1_000, Ok("x1")).0.unwrap();
    get_at(&mut secret_cache, "svc/b", false, 1_001, Ok("y1")).0.unwrap();
    get_at(&mut secret_cache, "svc/c", false, 1_002, Ok("z1")).0.unwrap();

    assert_eq!(secret_cache.len(), 2);
    assert!(!secret_cache.contains(&"svc/a".to_string()));
    assert!(secret_cache.contains(&"svc/b".to_string()));
    assert!(secret_cache.contains(&"svc/c".to_string()));
}

#[test]
fn forced_refresh_does_not_count_as_a_lookup_but_its_store_does() {
    let mut secret_cache = cache_of(2, 3600000000000);

    get_at(&mut secret_cache, "svc/a", false, 1_000, Ok("x1")).0.unwrap();
    get_at(&mut secret_cache, "svc/b", false, 1_001, Ok("y1")).0.unwrap();
    // the forced refresh fails: svc/a stays the least recently used
    get_at(&mut secret_cache, "svc/a", true, 1_002, Err(RemoteError::Unavailable)).0.unwrap_err();
    get_at(&mut secret_cache, "svc/c", false, 1_003, Ok("z1")).0.unwrap();

    assert!(!secret_cache.contains(&"svc/a".to_string()));
    assert!(secret_cache.contains(&"svc/b".to_string()));
    assert!(secret_cache.contains(&"svc/c".to_string()));

    // the forced refresh succeeds: svc/b becomes the most recently used
    get_at(&mut secret_cache, "svc/b", true, 1_004, Ok("y2")).0.unwrap();
    get_at(&mut secret_cache, "svc/d", false, 1_005, Ok("w1")).0.unwrap();

    assert!(secret_cache.contains(&"svc/b".to_string()));
    assert!(!secret_cache.contains(&"svc/c".to_string()));
    assert!(secret_cache.contains(&"svc/d".to_string()));
}

#[test]
fn lookup_of_an_expired_value_still_counts_as_a_use() {
    let mut secret_cache = cache_of(2, 10);

    get_at(&mut secret_cache, "svc/a", false, 1_000, Ok("x1")).0.unwrap();
    get_at(&mut secret_cache, "svc/b", false, 1_001, Ok("y1")).0.unwrap();
    // svc/a has expired and its refresh fails; the lookup has moved it to the front
    get_at(&mut secret_cache, "svc/a", false, 2_000, Err(RemoteError::Unavailable)).0.unwrap_err();
    get_at(&mut secret_cache, "svc/c", false, 2_001, Ok("z1")).0.unwrap();

    assert!(secret_cache.contains(&"svc/a".to_string()));
    assert!(!secret_cache.contains(&"svc/b".to_string()));
    assert!(secret_cache.contains(&"svc/c".to_string()));
}

#[test]
fn overwriting_a_cached_secret_evicts_nothing() {
    let mut secret_cache = cache_of(2, 0);

    get_at(&mut secret_cache, "svc/a", false, 1_000, Ok("x1")).0.unwrap();
    get_at(&mut secret_cache, "svc/b", false, 1_001, Ok("y1")).0.unwrap();
    assert_eq!(
        get_at(&mut secret_cache, "svc/a", false, 1_002, Ok("x2")),
        (Ok("x2".to_string()), true)
    );

    assert_eq!(secret_cache.len(), 2);
    assert!(secret_cache.contains(&"svc/a".to_string()));
    assert!(secret_cache.contains(&"svc/b".to_string()));
}

#[test]
fn cache_never_grows_over_its_capacity() {
    let mut secret_cache = cache_of(3, 3600000000000);

    for (round, secret_id) in ["svc/a", "svc/b", "svc/c", "svc/d", "svc/e", "svc/f"]
        .iter()
        .enumerate()
    {
        get_at(&mut secret_cache, secret_id, false, 1_000, Ok("value")).0.unwrap();
        assert_eq!(secret_cache.len(), (round + 1).min(3));
    }
    assert!(!secret_cache.contains(&"svc/c".to_string()));
    assert!(secret_cache.contains(&"svc/d".to_string()));
    assert!(secret_cache.contains(&"svc/e".to_string()));
    assert!(secret_cache.contains(&"svc/f".to_string()));
}

#[test]
fn zero_capacity_keeps_one_secret() {
    let mut secret_cache = cache_of(0, 3600000000000);

    get_at(&mut secret_cache, "svc/a", false, 1_000, Ok("x1")).0.unwrap();
    assert_eq!(secret_cache.len(), 1);
    assert_eq!(
        get_at(&mut secret_cache, "svc/a", false, 1_001, Ok("x2")),
        (Ok("x1".to_string()), false)
    );

    get_at(&mut secret_cache, "svc/b", false, 1_002, Ok("y1")).0.unwrap();
    assert_eq!(secret_cache.len(), 1);
    assert!(!secret_cache.contains(&"svc/a".to_string()));
    assert!(secret_cache.contains(&"svc/b".to_string()));
}

#[test]
fn largest_capacity_is_accepted() {
    let mut secret_cache = cache_of(usize::MAX, 3600000000000);

    get_at(&mut secret_cache, "svc/a", false, 1_000, Ok("x1")).0.unwrap();
    get_at(&mut secret_cache, "svc/b", false, 1_000, Ok("y1")).0.unwrap();
    assert_eq!(secret_cache.len(), 2);
}

#[test]
fn default_cache_keeps_1024_secrets() {
    let mut secret_cache = SecretCache::new();

    for number in 0..1025 {
        let secret_id = format!("svc/{}", number);
        get_at(&mut secret_cache, &secret_id, false, 1_000, Ok("value")).0.unwrap();
    }
    assert_eq!(secret_cache.len(), 1024);
    assert!(!secret_cache.contains(&"svc/0".to_string()));
    assert!(secret_cache.contains(&"svc/1".to_string()));
    assert!(secret_cache.contains(&"svc/1024".to_string()));
}

#[test]
fn default_cache_serves_a_value_for_one_hour() {
    let mut secret_cache = SecretCache::new();

    get_at(&mut secret_cache, "svc/a", false, 1_000, Ok("x1")).0.unwrap();
    assert_eq!(
        get_at(&mut secret_cache, "svc/a", false, 3600000001000, Ok("x2")),
        (Ok("x1".to_string()), false)
    );
    assert_eq!(
        get_at(&mut secret_cache, "svc/a", false, 3600000001001, Ok("x2")),
        (Ok("x2".to_string()), true)
    );
}

#[test]
fn secrets_are_told_apart_by_their_ids() {
    let mut secret_cache = SecretCache::new();

    get_at(&mut secret_cache, "svc/a", false, 1_000, Ok("x1")).0.unwrap();
    get_at(&mut secret_cache, "svc/b", false, 1_000, Ok("y1")).0.unwrap();

    assert_eq!(
        get_at(&mut secret_cache, "svc/a", false, 1_001, Ok("other")),
        (Ok("x1".to_string()), false)
    );
    assert_eq!(
        get_at(&mut secret_cache, "svc/b", false, 1_001, Ok("other")),
        (Ok("y1".to_string()), false)
    );
    assert_eq!(
        get_at(&mut secret_cache, "svc/", false, 1_001, Ok("other")),
        (Ok("other".to_string()), true)
    );
}
