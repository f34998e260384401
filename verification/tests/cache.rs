use hb_auth::cache::{
    cache_key, get_cached_jwks, put_error_message, set_cached_jwks, CachedJwk, CachedJwks,
    StoreLookup, JWKS_CACHE_TTL_MS, KV_TTL_SECONDS,
};

fn key(kid: &str) -> CachedJwk {
    CachedJwk {
        kty: "RSA".to_string(),
        kid: kid.to_string(),
        n: format!("modulus-of-{}", kid),
        e: "AQAB".to_string(),
    }
}

fn snapshot(fetched_at_ms: u64) -> CachedJwks {
    CachedJwks { keys: vec![key("k1"), key("k2")], fetched_at_ms }
}

#[test]
fn snapshot_is_stale_only_past_the_ttl() {
    let cached = snapshot(1_000);
    assert!(!cached.is_expired(1_000, 600));
    assert!(!cached.is_expired(1_599, 600));
    assert!(!cached.is_expired(1_600, 600));
    assert!(cached.is_expired(1_601, 600));
    assert!(cached.is_expired(u64::MAX, 600));
}

#[test]
fn snapshot_from_the_future_is_fresh() {
    let cached = snapshot(5_000);
    assert!(!cached.is_expired(4_000, 0));
    assert!(!cached.is_expired(0, 0));
}

#[test]
fn zero_ttl_expires_after_one_millisecond() {
    let cached = snapshot(5_000);
    assert!(!cached.is_expired(5_000, 0));
    assert!(cached.is_expired(5_001, 0));
}

#[test]
fn largest_ttl_never_expires() {
    let cached = snapshot(0);
    assert!(!cached.is_expired(u64::MAX, u64::MAX));
}

#[test]
fn ttl_constants_have_their_values() {
    assert_eq!(JWKS_CACHE_TTL_MS, 600_000);
    assert_eq!(KV_TTL_SECONDS, 900);
    assert!(KV_TTL_SECONDS * 1000 > JWKS_CACHE_TTL_MS);
}

#[test]
fn cache_key_is_prefix_and_domain() {
    assert_eq!(cache_key("https://acme.cloudflareaccess.com"), "jwks:https://acme.cloudflareaccess.com");
    assert_eq!(cache_key(""), "jwks:");
    assert_eq!(cache_key("jwks:"), "jwks:jwks:");
    assert_eq!(cache_key("équipe.example"), "jwks:équipe.example");
}

#[test]
fn cache_keys_of_different_domains_differ() {
    assert_ne!(cache_key("a.example.com"), cache_key("b.example.com"));
    assert_ne!(cache_key("a"), cache_key("a "));
}

#[test]
fn fresh_entry_is_a_hit() {
    let hit = get_cached_jwks(StoreLookup::Found(snapshot(1_000)), 1_000 + JWKS_CACHE_TTL_MS);
    assert_eq!(hit, Some(snapshot(1_000)));
}

#[test]
fn stale_entry_is_a_miss() {
    let hit = get_cached_jwks(StoreLookup::Found(snapshot(1_000)), 1_001 + JWKS_CACHE_TTL_MS);
    assert_eq!(hit, None);
}

#[test]
fn missing_and_unreadable_entries_are_misses() {
    assert_eq!(get_cached_jwks(StoreLookup::Missing, 0), None);
    assert_eq!(get_cached_jwks(StoreLookup::Missing, u64::MAX), None);
    assert_eq!(get_cached_jwks(StoreLookup::Unreadable, 12_345), None);
}

#[test]
fn write_carries_key_entry_and_store_ttl() {
    let write = set_cached_jwks("https://acme.cloudflareaccess.com", vec![key("k1"), key("k2")], 77_000);
    assert_eq!(write.key, "jwks:https://acme.cloudflareaccess.com");
    assert_eq!(write.entry, snapshot(77_000));
    assert_eq!(write.expiration_ttl, 900);
}

#[test]
fn write_of_no_keys_is_still_a_write() {
    let write = set_cached_jwks("acme", Vec::new(), 0);
    assert_eq!(write.key, "jwks:acme");
    assert_eq!(write.entry, CachedJwks { keys: Vec::new(), fetched_at_ms: 0 });
    assert_eq!(write.expiration_ttl, KV_TTL_SECONDS);
}

#[test]
fn what_was_written_is_read_back_until_the_ttl() {
    let write = set_cached_jwks("acme", vec![key("k1")], 50_000);
    let at_ttl = get_cached_jwks(StoreLookup::Found(write.entry.clone()), 50_000 + JWKS_CACHE_TTL_MS);
    assert_eq!(at_ttl, Some(CachedJwks { keys: vec![key("k1")], fetched_at_ms: 50_000 }));
    let past_ttl = get_cached_jwks(StoreLookup::Found(write.entry), 50_001 + JWKS_CACHE_TTL_MS);
    assert_eq!(past_ttl, None);
}

#[test]
fn later_snapshots_carry_later_times() {
    let first = set_cached_jwks("acme", vec![key("k1")], 10);
    let second = set_cached_jwks("acme", vec![key("k1")], 20);
    assert!(first.entry.fetched_at_ms <= second.entry.fetched_at_ms);
    assert_eq!(first.key, second.key);
}

#[test]
fn clones_keep_order_and_fields() {
    let cached = snapshot(9);
    let copy = cached.clone();
    assert_eq!(copy, cached);
    assert_eq!(copy.keys[0].kid, "k1");
    assert_eq!(copy.keys[1].kid, "k2");
    assert_eq!(key("k1").clone(), key("k1"));
}

#[test]
fn put_error_message_names_the_store_error() {
    assert_eq!(put_error_message("timeout"), "KV put error: timeout");
    assert_eq!(put_error_message(""), "KV put error: ");
}
