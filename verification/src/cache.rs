//! Snapshots of the trust anchor's signing keys and the rules for caching them.
//!
//! The store itself is an outside collaborator. This module decides under which key a
//! snapshot lives, what is written, for how long the store keeps it, and whether an entry
//! that the store handed back may still be used.

use vstd::prelude::*;
use vstd::string::*;

verus! {

/// Age in milliseconds beyond which a cached snapshot is no longer used: ten minutes.
pub const JWKS_CACHE_TTL_MS: u64 = 10 * 60 * 1000;

/// Seconds after which the store itself drops an entry: fifteen minutes, so that the store
/// never evicts an entry which this library would still accept.
pub const KV_TTL_SECONDS: u64 = 15 * 60;

/// One RSA public key as the trust anchor publishes it.
#[derive(Debug, PartialEq, Eq)]
pub struct CachedJwk {
    /// Key type.
    pub kty: String,
    /// Key identifier, unique within a key set.
    pub kid: String,
    /// Modulus, base64url text.
    pub n: String,
    /// Public exponent, base64url text.
    pub e: String,
}

/// What a [`CachedJwk`] holds, as plain sequences of characters.
pub struct JwkView {
    pub kty: Seq<char>,
    pub kid: Seq<char>,
    pub n: Seq<char>,
    pub e: Seq<char>,
}

impl View for CachedJwk {
    type V = JwkView;

    open spec fn view(&self) -> JwkView {
        JwkView { kty: self.kty@, kid: self.kid@, n: self.n@, e: self.e@ }
    }
}

impl DeepView for CachedJwk {
    type V = JwkView;

    open spec fn deep_view(&self) -> JwkView {
        self@
    }
}

impl Clone for CachedJwk {
    /// A copy with the same four texts.
    fn clone(&self) -> (copy: Self)
        ensures
            copy == *self,
    {
        CachedJwk {
            kty: self.kty.clone(),
            kid: self.kid.clone(),
            n: self.n.clone(),
            e: self.e.clone(),
        }
    }
}

/// A snapshot of the published keys together with the time it was fetched.
#[derive(Debug, PartialEq, Eq)]
pub struct CachedJwks {
    /// The keys, in the order in which they were published.
    pub keys: Vec<CachedJwk>,
    /// Milliseconds since the epoch at which the snapshot was taken.
    pub fetched_at_ms: u64,
}

/// What a [`CachedJwks`] holds: the keys in order, and the time of the fetch.
pub struct JwksView {
    pub keys: Seq<JwkView>,
    pub fetched_at_ms: int,
}

impl View for CachedJwks {
    type V = JwksView;

    open spec fn view(&self) -> JwksView {
        JwksView { keys: self.keys.deep_view(), fetched_at_ms: self.fetched_at_ms as int }
    }
}

impl DeepView for CachedJwks {
    type V = JwksView;

    open spec fn deep_view(&self) -> JwksView {
        self@
    }
}

impl JwksView {
    /// Staleness: the snapshot's age at `now_ms` exceeds `ttl_ms`.
    pub open spec fn stale_at(self, now_ms: int, ttl_ms: int) -> bool {
        now_ms - self.fetched_at_ms > ttl_ms
    }
}

/// A snapshot whose age is exactly the time to live is not stale yet; one millisecond
/// older, it is.
pub proof fn lemma_stale_boundary(snapshot: JwksView, now_ms: int, ttl_ms: int)
    ensures
        now_ms - snapshot.fetched_at_ms == ttl_ms ==> !snapshot.stale_at(now_ms, ttl_ms),
        now_ms - snapshot.fetched_at_ms == ttl_ms + 1 ==> snapshot.stale_at(now_ms, ttl_ms),
        snapshot.stale_at(now_ms, ttl_ms) <==> now_ms - snapshot.fetched_at_ms > ttl_ms,
{
}

impl Clone for CachedJwks {
    /// A copy with the same keys in the same order and the same time of fetch.
    fn clone(&self) -> (copy: Self)
        ensures
            copy.keys@ == self.keys@,
            copy.fetched_at_ms == self.fetched_at_ms,
    {
        let mut keys: Vec<CachedJwk> = Vec::new();
        let mut i: usize = 0;
        while i < self.keys.len()
            invariant
                i <= self.keys.len(),
                keys@ == self.keys@.take(i as int),
            decreases self.keys.len() - i,
        {
            keys.push(self.keys[i].clone());
            assert(keys@ =~= self.keys@.take(i + 1));
            i += 1;
        }
        assert(keys@ =~= self.keys@);
        CachedJwks { keys, fetched_at_ms: self.fetched_at_ms }
    }
}

impl CachedJwks {
    /// Whether the snapshot is older than `ttl_ms` at time `now_ms`. An age of exactly
    /// `ttl_ms` is still fresh, and so is a snapshot taken after `now_ms`.
    pub fn is_expired(&self, now_ms: u64, ttl_ms: u64) -> (expired: bool)
        ensures
            expired == self@.stale_at(now_ms as int, ttl_ms as int),
    {
        now_ms > self.fetched_at_ms && now_ms - self.fetched_at_ms > ttl_ms
    }
}

/// The fixed text that starts every store key of this library.
pub open spec fn key_prefix() -> Seq<char> {
    seq!['j', 'w', 'k', 's', ':']
}

/// The store key under which the snapshot for `team_domain` lives.
pub open spec fn cache_key_of(team_domain: Seq<char>) -> Seq<char> {
    key_prefix() + team_domain
}

/// Two domains share a store key only if they are the same domain.
pub proof fn lemma_cache_key_injective(a: Seq<char>, b: Seq<char>)
    requires
        cache_key_of(a) == cache_key_of(b),
    ensures
        a == b,
{
    assert(cache_key_of(a).skip(5) =~= a);
    assert(cache_key_of(b).skip(5) =~= b);
}

/// The store key for `team_domain`: the prefix `jwks:` followed by the domain as given.
pub fn cache_key(team_domain: &str) -> (key: String)
    ensures
        key@ == cache_key_of(team_domain@),
{
    proof {
        reveal_strlit("jwks:");
    }
    let key = String::from_str("jwks:").concat(team_domain);
    assert(key@ =~= cache_key_of(team_domain@));
    key
}

/// What the store answered when asked for an entry.
#[derive(Debug, PartialEq, Eq)]
pub enum StoreLookup {
    /// The store held an entry and it could be read.
    Found(CachedJwks),
    /// The store held nothing under the key.
    Missing,
    /// The store held something that could not be read as a snapshot, or the read failed.
    Unreadable,
}

/// What a [`StoreLookup`] holds.
pub enum LookupView {
    Found(JwksView),
    Missing,
    Unreadable,
}

impl View for StoreLookup {
    type V = LookupView;

    open spec fn view(&self) -> LookupView {
        match *self {
            StoreLookup::Found(entry) => LookupView::Found(entry@),
            StoreLookup::Missing => LookupView::Missing,
            StoreLookup::Unreadable => LookupView::Unreadable,
        }
    }
}

/// The snapshot that a lookup yields at `now_ms`: the stored one if it was found and is no
/// older than [`JWKS_CACHE_TTL_MS`], nothing otherwise.
pub open spec fn usable_entry(lookup: LookupView, now_ms: int) -> Option<JwksView> {
    match lookup {
        LookupView::Found(entry) => if entry.stale_at(now_ms, JWKS_CACHE_TTL_MS as int) {
            None
        } else {
            Some(entry)
        },
        LookupView::Missing => None,
        LookupView::Unreadable => None,
    }
}

/// Turns the store's answer into a cache hit or miss at `now_ms`. A missing entry, an
/// unreadable one and one older than [`JWKS_CACHE_TTL_MS`] are all a miss; a hit is the
/// stored snapshot itself.
pub fn get_cached_jwks(lookup: StoreLookup, now_ms: u64) -> (hit: Option<CachedJwks>)
    ensures
        hit.deep_view() == usable_entry(lookup@, now_ms as int),
        hit matches Some(entry) ==> lookup == StoreLookup::Found(entry),
{
    match lookup {
        StoreLookup::Found(cached) => {
            if cached.is_expired(now_ms, JWKS_CACHE_TTL_MS) {
                None
            } else {
                Some(cached)
            }
        },
        StoreLookup::Missing => None,
        StoreLookup::Unreadable => None,
    }
}

/// One write to the store: where, what, and for how long the store keeps it.
#[derive(Debug, PartialEq, Eq)]
pub struct CacheWrite {
    /// The store key.
    pub key: String,
    /// The snapshot to store.
    pub entry: CachedJwks,
    /// Seconds after which the store drops the entry.
    pub expiration_ttl: u64,
}

/// What a [`CacheWrite`] holds.
pub struct WriteView {
    pub key: Seq<char>,
    pub entry: JwksView,
    pub expiration_ttl: u64,
}

impl View for CacheWrite {
    type V = WriteView;

    open spec fn view(&self) -> WriteView {
        WriteView { key: self.key@, entry: self.entry@, expiration_ttl: self.expiration_ttl }
    }
}

/// The write that `set_cached_jwks` plans for `keys` fetched at `now_ms`.
pub open spec fn write_of(team_domain: Seq<char>, keys: Seq<JwkView>, now_ms: int) -> WriteView {
    WriteView {
        key: cache_key_of(team_domain),
        entry: JwksView { keys, fetched_at_ms: now_ms },
        expiration_ttl: KV_TTL_SECONDS,
    }
}

/// Snapshots carry the time of their fetch: of two writes, the one made at the later time
/// carries the later stamp, whatever the keys are.
pub proof fn lemma_stamps_follow_the_clock(
    team_domain: Seq<char>,
    earlier_keys: Seq<JwkView>,
    earlier_ms: int,
    later_keys: Seq<JwkView>,
    later_ms: int,
)
    requires
        earlier_ms <= later_ms,
    ensures
        write_of(team_domain, earlier_keys, earlier_ms).entry.fetched_at_ms <= write_of(
            team_domain,
            later_keys,
            later_ms,
        ).entry.fetched_at_ms,
        write_of(team_domain, earlier_keys, earlier_ms).key == write_of(
            team_domain,
            later_keys,
            later_ms,
        ).key,
{
}

/// What was written at `written_ms` is a cache hit when read back at `read_ms` exactly
/// while its age is at most [`JWKS_CACHE_TTL_MS`], and the store has not dropped it by
/// then if it keeps its entries for the time it was told.
pub proof fn lemma_written_entry_usable(
    team_domain: Seq<char>,
    keys: Seq<JwkView>,
    written_ms: int,
    read_ms: int,
)
    ensures
        ({
            let write = write_of(team_domain, keys, written_ms);
            &&& usable_entry(LookupView::Found(write.entry), read_ms) == if read_ms - written_ms
                <= JWKS_CACHE_TTL_MS {
                Some(write.entry)
            } else {
                None
            }
            &&& read_ms - written_ms <= JWKS_CACHE_TTL_MS ==> read_ms - written_ms
                < write.expiration_ttl * 1000
        }),
{
}

/// The write that caches `keys` for `team_domain` as fetched at `now_ms`: under the domain's
/// store key, stamped with `now_ms`, kept by the store for [`KV_TTL_SECONDS`], which is
/// longer than the age at which the snapshot goes stale.
pub fn set_cached_jwks(team_domain: &str, keys: Vec<CachedJwk>, now_ms: u64) -> (write: CacheWrite)
    ensures
        write@ == write_of(team_domain@, keys.deep_view(), now_ms as int),
        write.entry.keys == keys,
        write.expiration_ttl * 1000 > JWKS_CACHE_TTL_MS,
        !write@.entry.stale_at(now_ms as int, JWKS_CACHE_TTL_MS as int),
{
    let key = cache_key(team_domain);
    let cached = CachedJwks { keys, fetched_at_ms: now_ms };
    CacheWrite { key, entry: cached, expiration_ttl: KV_TTL_SECONDS }
}

/// The text of the error that reports a failed store write, given the store's own message.
pub open spec fn put_error_text(detail: Seq<char>) -> Seq<char> {
    seq!['K', 'V', ' ', 'p', 'u', 't', ' ', 'e', 'r', 'r', 'o', 'r', ':', ' '] + detail
}

/// The message for a failed store write: `KV put error: ` followed by the store's own words.
pub fn put_error_message(detail: &str) -> (message: String)
    ensures
        message@ == put_error_text(detail@),
{
    proof {
        reveal_strlit("KV put error: ");
    }
    let message = String::from_str("KV put error: ").concat(detail);
    assert(message@ =~= put_error_text(detail@));
    message
}

} // verus!
