//! An in-memory cache of file contents, bounded in bytes and in files,
//! whose entries go stale after a lifetime. The least recently used entries
//! leave first; the order is kept by `lru::LruCache`.
use std::collections::hash_map::RandomState;
use std::num::NonZeroUsize;
use vstd::prelude::*;
use crate::steps::observers::file_event::{same_content, FileContent};
use crate::steps::observers::observer_config::MemoryCacheConfig;
use crate::workflows::checkpointing::time::{epoch_nanos, utc_now, Timestamp};

verus! {

/// The counters of a cache.
#[derive(Debug, Clone, Copy, PartialEq, Eq)]
pub struct CacheStats {
    pub memory_usage_bytes: u64,
    pub file_count: usize,
    pub hit_count: u64,
    pub miss_count: u64,
    pub eviction_count: u64,
}

impl CacheStats {
    /// All counters at zero.
    pub fn zero() -> (r: Self)
        ensures
            r == (CacheStats {
                memory_usage_bytes: 0,
                file_count: 0,
                hit_count: 0,
                miss_count: 0,
                eviction_count: 0,
            }),
    {
        CacheStats { memory_usage_bytes: 0, file_count: 0, hit_count: 0, miss_count: 0, eviction_count: 0 }
    }
}

/// A cached file, its size in bytes, and when it was cached.
#[derive(Debug)]
pub struct CacheEntry {
    pub content: FileContent,
    pub size_bytes: u64,
    pub created_at: Timestamp,
}

/// An LRU cache of `lru`.
#[verifier::external_type_specification]
#[verifier::external_body]
#[verifier::reject_recursive_types(K)]
#[verifier::reject_recursive_types(V)]
#[verifier::reject_recursive_types(S)]
pub struct ExLruCache<K, V, S>(lru::LruCache<K, V, S>);

/// The entries of an LRU cache of cached files, least recently used first,
/// each with the characters of its path.
pub uninterp spec fn lru_order(c: lru::LruCache<String, CacheEntry, RandomState>) -> Seq<(Seq<char>, CacheEntry)>;

/// The number of entries an LRU cache of cached files was made to hold.
pub uninterp spec fn lru_capacity(c: lru::LruCache<String, CacheEntry, RandomState>) -> nat;

/// The paths of a sequence of entries.
pub open spec fn order_keys(s: Seq<(Seq<char>, CacheEntry)>) -> Seq<Seq<char>> {
    s.map_values(|e: (Seq<char>, CacheEntry)| e.0)
}

/// No path twice, and no more entries than the capacity: what an LRU cache
/// always keeps.
pub open spec fn well_kept(s: Seq<(Seq<char>, CacheEntry)>, cap: nat) -> bool {
    order_keys(s).no_duplicates() && s.len() <= cap
}

/// Some entry of `s` is under `k`.
pub open spec fn has_key(s: Seq<(Seq<char>, CacheEntry)>, k: Seq<char>) -> bool {
    exists|i: int| 0 <= i < s.len() && #[trigger] s[i].0 == k
}

/// The position of the entry under `k` (meaningful when there is one).
pub open spec fn index_of_key(s: Seq<(Seq<char>, CacheEntry)>, k: Seq<char>) -> int {
    choose|i: int| 0 <= i < s.len() && #[trigger] s[i].0 == k
}

/// An empty LRU cache for `cap` entries (`LruCache::with_hasher`, with the
/// hasher of std).
#[verifier::external_body]
fn lru_new(cap: usize) -> (r: lru::LruCache<String, CacheEntry, RandomState>)
    requires
        cap > 0,
    ensures
        lru_order(r) == Seq::<(Seq<char>, CacheEntry)>::empty(),
        lru_capacity(r) == cap,
{
    lru::LruCache::with_hasher(NonZeroUsize::new(cap).unwrap(), RandomState::new())
}

/// The entry under `k`, without using it (`LruCache::peek`).
#[verifier::external_body]
fn lru_peek<'a>(c: &'a lru::LruCache<String, CacheEntry, RandomState>, k: &str) -> (r: Option<&'a CacheEntry>)
    ensures
        r is Some <==> has_key(lru_order(*c), k@),
        r matches Some(e) ==> exists|i: int|
            0 <= i < lru_order(*c).len() && #[trigger] lru_order(*c)[i] == (k@, *e),
{
    c.peek(k)
}

/// Marks the entry under `k`, if any, as the most recently used
/// (`LruCache::promote`).
#[verifier::external_body]
fn lru_promote(c: &mut lru::LruCache<String, CacheEntry, RandomState>, k: &str)
    ensures
        lru_capacity(*final(c)) == lru_capacity(*old(c)),
        well_kept(lru_order(*final(c)), lru_capacity(*final(c))),
        !has_key(lru_order(*old(c)), k@) ==> lru_order(*final(c)) == lru_order(*old(c)),
        forall|i: int|
            0 <= i < lru_order(*old(c)).len() && #[trigger] lru_order(*old(c))[i].0 == k@ ==> lru_order(
                *final(c),
            ) == lru_order(*old(c)).remove(i).push(lru_order(*old(c))[i]),
{
    c.promote(k);
}

/// Takes out the entry under `k` (`LruCache::pop`).
#[verifier::external_body]
fn lru_pop(c: &mut lru::LruCache<String, CacheEntry, RandomState>, k: &str) -> (r: Option<CacheEntry>)
    ensures
        lru_capacity(*final(c)) == lru_capacity(*old(c)),
        well_kept(lru_order(*final(c)), lru_capacity(*final(c))),
        !has_key(lru_order(*old(c)), k@) ==> r is None && lru_order(*final(c)) == lru_order(*old(c)),
        forall|i: int|
            0 <= i < lru_order(*old(c)).len() && #[trigger] lru_order(*old(c))[i].0 == k@ ==> r == Some(
                lru_order(*old(c))[i].1,
            ) && lru_order(*final(c)) == lru_order(*old(c)).remove(i),
{
    c.pop(k)
}

/// Takes out the least recently used entry (`LruCache::pop_lru`).
#[verifier::external_body]
fn lru_pop_lru(c: &mut lru::LruCache<String, CacheEntry, RandomState>) -> (r: Option<(String, CacheEntry)>)
    ensures
        lru_capacity(*final(c)) == lru_capacity(*old(c)),
        well_kept(lru_order(*final(c)), lru_capacity(*final(c))),
        lru_order(*old(c)).len() == 0 ==> r is None && lru_order(*final(c)) == lru_order(*old(c)),
        lru_order(*old(c)).len() > 0 ==> (r matches Some(p) && p.0@ == lru_order(*old(c))[0].0 && p.1
            == lru_order(*old(c))[0].1 && lru_order(*final(c)) == lru_order(*old(c)).drop_first()),
{
    c.pop_lru()
}

/// Whether the cache holds no entry (`LruCache::is_empty`).
#[verifier::external_body]
fn lru_is_empty(c: &lru::LruCache<String, CacheEntry, RandomState>) -> (r: bool)
    ensures
        r == (lru_order(*c).len() == 0),
{
    c.is_empty()
}

/// The number of entries (`LruCache::len`).
#[verifier::external_body]
fn lru_len(c: &lru::LruCache<String, CacheEntry, RandomState>) -> (r: usize)
    ensures
        r == lru_order(*c).len(),
{
    c.len()
}

/// The entries after `push` of `(k, v)` on `s` with capacity `cap`: the
/// entry under `k` replaced, or else the least recently used one dropped
/// when full; the new entry is the most recently used.
pub open spec fn pushed(s: Seq<(Seq<char>, CacheEntry)>, cap: nat, k: Seq<char>, v: CacheEntry) -> Seq<(Seq<char>, CacheEntry)> {
    if has_key(s, k) {
        s.remove(index_of_key(s, k)).push((k, v))
    } else if s.len() == cap {
        s.drop_first().push((k, v))
    } else {
        s.push((k, v))
    }
}

/// Adds `(k, v)` as the most recently used entry, handing back the entry
/// it replaces or, when the cache was full, the one it drove out
/// (`LruCache::push`).
#[verifier::external_body]
fn lru_push(c: &mut lru::LruCache<String, CacheEntry, RandomState>, k: String, v: CacheEntry) -> (r: Option<(String, CacheEntry)>)
    ensures
        lru_capacity(*final(c)) == lru_capacity(*old(c)),
        well_kept(lru_order(*final(c)), lru_capacity(*final(c))),
        forall|i: int|
            0 <= i < lru_order(*old(c)).len() && #[trigger] lru_order(*old(c))[i].0 == k@ ==> (r matches Some(
                p,
            ) && p.0@ == k@ && p.1 == lru_order(*old(c))[i].1 && lru_order(*final(c)) == lru_order(
                *old(c),
            ).remove(i).push((k@, v))),
        !has_key(lru_order(*old(c)), k@) && lru_order(*old(c)).len() == lru_capacity(*old(c)) ==> (r matches Some(
            p,
        ) && p.0@ == lru_order(*old(c))[0].0 && p.1 == lru_order(*old(c))[0].1 && lru_order(*final(c))
            == lru_order(*old(c)).drop_first().push((k@, v))),
        !has_key(lru_order(*old(c)), k@) && lru_order(*old(c)).len() < lru_capacity(*old(c)) ==> r is None
            && lru_order(*final(c)) == lru_order(*old(c)).push((k@, v)),
{
    c.push(k, v)
}

/// Dropping the first `n` entries keeps the shape of an LRU cache.
pub proof fn lemma_skip_kept(s: Seq<(Seq<char>, CacheEntry)>, cap: nat, n: int)
    requires
        well_kept(s, cap),
        0 <= n <= s.len(),
    ensures
        well_kept(s.skip(n), cap),
{
    let t = s.skip(n);
    assert forall|a: int, b: int| 0 <= a < t.len() && 0 <= b < t.len() && a != b implies order_keys(t)[a]
        != order_keys(t)[b] by {
        assert(order_keys(t)[a] == order_keys(s)[a + n]);
        assert(order_keys(t)[b] == order_keys(s)[b + n]);
    }
}

/// Reading back what was written: after `(k, v)` is pushed into entries of
/// the shape of an LRU cache (of at least one entry), they keep that
/// shape, and the entry found under `k` is `(k, v)`, the most recently used.
pub proof fn lemma_read_after_write(t: Seq<(Seq<char>, CacheEntry)>, cap: nat, k: Seq<char>, v: CacheEntry)
    requires
        well_kept(t, cap),
        cap >= 1,
    ensures
        well_kept(pushed(t, cap, k, v), cap),
        has_key(pushed(t, cap, k, v), k),
        index_of_key(pushed(t, cap, k, v), k) == pushed(t, cap, k, v).len() - 1,
        pushed(t, cap, k, v).last() == (k, v),
{
    let p = pushed(t, cap, k, v);
    let base = if has_key(t, k) {
        t.remove(index_of_key(t, k))
    } else if t.len() == cap {
        t.drop_first()
    } else {
        t
    };
    assert(p == base.push((k, v)));
    if has_key(t, k) {
        let i = index_of_key(t, k);
        assert(t[i].0 == k);
        assert forall|j: int| 0 <= j < base.len() implies #[trigger] base[j].0 != k by {
            let oj = if j < i { j } else { j + 1 };
            assert(base[j] == t[oj]);
            assert(order_keys(t)[oj] != order_keys(t)[i]);
        }
        assert forall|a: int, b: int| 0 <= a < base.len() && 0 <= b < base.len() && a != b implies order_keys(
            base,
        )[a] != order_keys(base)[b] by {
            let oa = if a < i { a } else { a + 1 };
            let ob = if b < i { b } else { b + 1 };
            assert(base[a] == t[oa]);
            assert(base[b] == t[ob]);
            assert(order_keys(t)[oa] != order_keys(t)[ob]);
        }
    } else if t.len() == cap {
        assert forall|j: int| 0 <= j < base.len() implies #[trigger] base[j].0 != k by {
            assert(base[j] == t[j + 1]);
        }
        assert forall|a: int, b: int| 0 <= a < base.len() && 0 <= b < base.len() && a != b implies order_keys(
            base,
        )[a] != order_keys(base)[b] by {
            assert(base[a] == t[a + 1]);
            assert(base[b] == t[b + 1]);
            assert(order_keys(t)[a + 1] != order_keys(t)[b + 1]);
        }
    } else {
        assert forall|j: int| 0 <= j < base.len() implies #[trigger] base[j].0 != k by {
            assert(base[j] == t[j]);
        }
        assert forall|a: int, b: int| 0 <= a < base.len() && 0 <= b < base.len() && a != b implies order_keys(
            base,
        )[a] != order_keys(base)[b] by {
            assert(order_keys(t)[a] != order_keys(t)[b]);
        }
    }
    assert forall|a: int, b: int| 0 <= a < p.len() && 0 <= b < p.len() && a != b implies order_keys(p)[a]
        != order_keys(p)[b] by {
        if a == p.len() - 1 {
            assert(p[b] == base[b]);
            assert(base[b].0 != k);
        } else if b == p.len() - 1 {
            assert(p[a] == base[a]);
            assert(base[a].0 != k);
        } else {
            assert(p[a] == base[a]);
            assert(p[b] == base[b]);
            assert(order_keys(base)[a] != order_keys(base)[b]);
        }
    }
    assert(p[p.len() - 1] == (k, v));
    assert(p[p.len() - 1].0 == k);
    assert(has_key(p, k));
    let j = index_of_key(p, k);
    assert(p[j].0 == k);
    if j != p.len() - 1 {
        assert(order_keys(p)[j] != order_keys(p)[p.len() - 1]);
    }
}

/// The total bytes of the entries.
pub open spec fn bytes_of(s: Seq<(Seq<char>, CacheEntry)>) -> int
    decreases s.len(),
{
    if s.len() == 0 {
        0
    } else {
        bytes_of(s.drop_last()) + s.last().1.size_bytes
    }
}

proof fn lemma_bytes_push(s: Seq<(Seq<char>, CacheEntry)>, x: (Seq<char>, CacheEntry))
    ensures
        bytes_of(s.push(x)) == bytes_of(s) + x.1.size_bytes,
{
    assert(s.push(x).drop_last() =~= s);
}

proof fn lemma_bytes_nonneg(s: Seq<(Seq<char>, CacheEntry)>)
    ensures
        bytes_of(s) >= 0,
    decreases s.len(),
{
    if s.len() > 0 {
        lemma_bytes_nonneg(s.drop_last());
    }
}

proof fn lemma_bytes_remove(s: Seq<(Seq<char>, CacheEntry)>, i: int)
    requires
        0 <= i < s.len(),
    ensures
        bytes_of(s.remove(i)) == bytes_of(s) - s[i].1.size_bytes,
    decreases s.len(),
{
    if i == s.len() - 1 {
        assert(s.remove(i) =~= s.drop_last());
    } else {
        lemma_bytes_remove(s.drop_last(), i);
        assert(s.remove(i).drop_last() =~= s.drop_last().remove(i));
        assert(s.remove(i).last() == s.last());
    }
}

/// The whole seconds of a span of `n` nanoseconds, rounded toward zero.
pub open spec fn whole_seconds(n: int) -> int {
    if n >= 0 {
        n / 1_000_000_000
    } else {
        -((-n) / 1_000_000_000)
    }
}

/// An entry cached at `created` is stale at `now` after `ttl` seconds: more
/// whole seconds have passed than the lifetime (read as a signed number).
pub open spec fn stale(now: Timestamp, created: Timestamp, ttl: u64) -> bool {
    whole_seconds(epoch_nanos(now) - epoch_nanos(created)) > (ttl as i64)
}

/// Whether an entry cached at `created` is stale at `now`.
fn is_stale(now: Timestamp, created: Timestamp, ttl: u64) -> (r: bool)
    ensures
        r == stale(now, created, ttl),
{
    let age: i128 = (now.secs as i128 - created.secs as i128) * 1_000_000_000 + (now.nanos as i128
        - created.nanos as i128);
    let secs: i128 = if age >= 0 {
        age / 1_000_000_000
    } else {
        -((-age) / 1_000_000_000)
    };
    let limit: i64 = ttl as i64;
    secs > limit as i128
}

/// The number of least recently used entries taken out to make room for
/// `size` bytes under `max` bytes.
pub open spec fn evictions_needed(s: Seq<(Seq<char>, CacheEntry)>, size: int, max: int) -> nat
    decreases s.len(),
{
    if s.len() == 0 || bytes_of(s) + size <= max {
        0
    } else {
        1 + evictions_needed(s.drop_first(), size, max)
    }
}

/// The in-memory tier of the cache.
pub struct MemoryTier {
    cache: lru::LruCache<String, CacheEntry, RandomState>,
    max_size_bytes: u64,
    current_size_bytes: u64,
    ttl_seconds: u64,
    stats: CacheStats,
}

/// The stats after one more hit.
pub open spec fn hit(s: CacheStats) -> CacheStats {
    CacheStats { hit_count: (s.hit_count + 1) as u64, ..s }
}

/// The stats after one more miss.
pub open spec fn missed(s: CacheStats) -> CacheStats {
    CacheStats { miss_count: (s.miss_count + 1) as u64, ..s }
}

/// The stats after `n` more evictions.
pub open spec fn evicted(s: CacheStats, n: nat) -> CacheStats {
    CacheStats { eviction_count: (s.eviction_count + n) as u64, ..s }
}

/// `after` and `r` are what reading `path` from `before` at `now` gives: no
/// entry is a miss; a stale entry is dropped and counted as an eviction; a
/// fresh one is handed out as a copy, becomes the most recently used and
/// counts as a hit.
pub open spec fn read_at(
    before: MemoryTier,
    after: MemoryTier,
    path: Seq<char>,
    now: Timestamp,
    r: Option<FileContent>,
) -> bool {
    &&& !has_key(before.entries(), path) ==> r is None && after.entries() == before.entries()
        && after.counters() == missed(before.counters())
    &&& has_key(before.entries(), path) ==> ({
        let i = index_of_key(before.entries(), path);
        let e = before.entries()[i].1;
        if stale(now, e.created_at, before.ttl()) {
            &&& r is None
            &&& after.entries() == before.entries().remove(i)
            &&& after.counters() == evicted(before.counters(), 1)
        } else {
            &&& r matches Some(c) && same_content(c, e.content)
            &&& after.entries() == before.entries().remove(i).push(before.entries()[i])
            &&& after.counters() == hit(before.counters())
        }
    })
}

/// `after` is `before` once `content` was offered under `path` at `now`:
/// unchanged when it is larger than the tier; otherwise the least recently
/// used entries leave, counted as evictions, until it fits, and it becomes
/// the most recently used entry.
pub open spec fn stored_at(
    before: MemoryTier,
    after: MemoryTier,
    path: Seq<char>,
    content: FileContent,
    now: Timestamp,
) -> bool {
    &&& content.content@.len() > before.max_bytes() ==> after.entries() == before.entries()
        && after.counters() == before.counters()
    &&& content.content@.len() <= before.max_bytes() ==> ({
        let k = evictions_needed(before.entries(), content.content@.len() as int, before.max_bytes() as int);
        &&& after.counters() == evicted(before.counters(), k)
        &&& after.entries() == pushed(
            before.entries().skip(k as int),
            before.max_files(),
            path,
            CacheEntry { content, size_bytes: content.content@.len() as u64, created_at: now },
        )
    })
}

impl MemoryTier {
    /// The entries keep the shape of an LRU cache, the byte count is their
    /// total, and the total is within the bound.
    pub closed spec fn well_formed(&self) -> bool {
        &&& well_kept(lru_order(self.cache), lru_capacity(self.cache))
        &&& lru_capacity(self.cache) >= 1
        &&& self.current_size_bytes == bytes_of(lru_order(self.cache))
        &&& self.current_size_bytes <= self.max_size_bytes
    }

    /// The entries, least recently used first.
    pub closed spec fn entries(&self) -> Seq<(Seq<char>, CacheEntry)> {
        lru_order(self.cache)
    }

    /// The number of entries the tier holds at most.
    pub closed spec fn max_files(&self) -> nat {
        lru_capacity(self.cache)
    }

    /// The number of bytes the tier holds at most.
    pub closed spec fn max_bytes(&self) -> u64 {
        self.max_size_bytes
    }

    /// How long an entry stays fresh, in seconds.
    pub closed spec fn ttl(&self) -> u64 {
        self.ttl_seconds
    }

    /// The counters.
    pub closed spec fn counters(&self) -> CacheStats {
        self.stats
    }

    /// The number of bytes the tier counts as held.
    pub closed spec fn used_bytes(&self) -> u64 {
        self.current_size_bytes
    }

    /// A well-formed tier holds no more bytes than its bound, in no more
    /// entries than its bound, each under a different path.
    pub proof fn lemma_within_bounds(&self)
        requires
            self.well_formed(),
        ensures
            bytes_of(self.entries()) <= self.max_bytes(),
            self.entries().len() <= self.max_files(),
            self.max_files() >= 1,
            well_kept(self.entries(), self.max_files()),
    {
    }

    /// A tier bounded as `config` says (at least one file), counting into
    /// `stats`.
    pub fn new(config: &MemoryCacheConfig, stats: CacheStats) -> (r: Self)
        requires
            config.max_size_mb * 1024 * 1024 <= u64::MAX,
        ensures
            r.well_formed(),
            r.entries() == Seq::<(Seq<char>, CacheEntry)>::empty(),
            r.max_files() == (if config.max_files == 0 { 1 } else { config.max_files as nat }),
            r.max_bytes() == config.max_size_mb * 1024 * 1024,
            r.ttl() == config.ttl_seconds,
            r.counters() == stats,
    {
        let cap: usize = if config.max_files == 0 {
            1
        } else {
            config.max_files
        };
        MemoryTier {
            cache: lru_new(cap),
            max_size_bytes: config.max_size_mb * 1024 * 1024,
            current_size_bytes: 0,
            ttl_seconds: config.ttl_seconds,
            stats,
        }
    }

    /// The cached content under `path` at `now`, as a copy. A stale entry is
    /// dropped and counted as an eviction; a fresh one becomes the most
    /// recently used and counts as a hit; no entry counts as a miss.
    pub fn get_at(&mut self, path: &str, now: Timestamp) -> (r: Option<FileContent>)
        requires
            old(self).well_formed(),
            old(self).counters().hit_count < u64::MAX,
            old(self).counters().miss_count < u64::MAX,
            old(self).counters().eviction_count < u64::MAX,
        ensures
            final(self).well_formed(),
            final(self).max_files() == old(self).max_files(),
            final(self).max_bytes() == old(self).max_bytes(),
            final(self).ttl() == old(self).ttl(),
            !has_key(old(self).entries(), path@) ==> r is None && final(self).entries() == old(self).entries()
                && final(self).counters() == missed(old(self).counters()),
            has_key(old(self).entries(), path@) ==> ({
                let i = index_of_key(old(self).entries(), path@);
                let e = old(self).entries()[i].1;
                if stale(now, e.created_at, old(self).ttl()) {
                    &&& r is None
                    &&& final(self).entries() == old(self).entries().remove(i)
                    &&& final(self).counters() == evicted(old(self).counters(), 1)
                } else {
                    &&& r matches Some(c) && same_content(c, e.content)
                    &&& final(self).entries() == old(self).entries().remove(i).push(old(self).entries()[i])
                    &&& final(self).counters() == hit(old(self).counters())
                }
            }),
    {
        let ghost s = lru_order(self.cache);
        match lru_peek(&self.cache, path) {
            None => {
                self.stats.miss_count = self.stats.miss_count + 1;
                None
            },
            Some(entry) => {
                let ghost i = index_of_key(s, path@);
                proof {
                    let j = choose|j: int| 0 <= j < s.len() && #[trigger] s[j] == (path@, *entry);
                    assert(order_keys(s)[j] == path@);
                    assert(order_keys(s)[i] == path@);
                    assert(s[i].1 == *entry);
                }
                let expired = is_stale(now, entry.created_at, self.ttl_seconds);
                let size = entry.size_bytes;
                if expired {
                    let _ = lru_pop(&mut self.cache, path);
                    proof {
                        lemma_bytes_remove(s, i);
                        lemma_bytes_nonneg(lru_order(self.cache));
                    }
                    self.current_size_bytes = self.current_size_bytes - size;
                    self.stats.eviction_count = self.stats.eviction_count + 1;
                    None
                } else {
                    let copy = entry.content.duplicate();
                    lru_promote(&mut self.cache, path);
                    proof {
                        lemma_bytes_remove(s, i);
                        lemma_bytes_push(s.remove(i), s[i]);
                    }
                    self.stats.hit_count = self.stats.hit_count + 1;
                    Some(copy)
                }
            },
        }
    }

    /// The cached content under `path` now (see `get_at`). The time is read
    /// from the clock.
    pub fn get(&mut self, path: &str) -> (r: Option<FileContent>)
        requires
            old(self).well_formed(),
            old(self).counters().hit_count < u64::MAX,
            old(self).counters().miss_count < u64::MAX,
            old(self).counters().eviction_count < u64::MAX,
        ensures
            final(self).well_formed(),
            final(self).max_files() == old(self).max_files(),
            final(self).max_bytes() == old(self).max_bytes(),
            final(self).ttl() == old(self).ttl(),
            !has_key(old(self).entries(), path@) ==> r is None && final(self).entries() == old(self).entries()
                && final(self).counters() == missed(old(self).counters()),
            r is Some ==> has_key(old(self).entries(), path@),
            exists|now: Timestamp| #[trigger] read_at(*old(self), *final(self), path@, now, r),
    {
        let now = utc_now();
        let r = self.get_at(path, now);
        assert(read_at(*old(self), *self, path@, now, r));
        r
    }

    /// Caches `content` under `path` as of `now`, unless it is larger than
    /// the tier. First the least recently used entries leave, counted as
    /// evictions, until the content fits; then the content becomes the most
    /// recently used entry, replacing an entry under the same path or, when
    /// the tier is full of files, the least recently used one.
    pub fn put_at(&mut self, path: String, content: FileContent, now: Timestamp)
        requires
            old(self).well_formed(),
            old(self).counters().eviction_count + old(self).entries().len() <= u64::MAX,
        ensures
            final(self).well_formed(),
            final(self).max_files() == old(self).max_files(),
            final(self).max_bytes() == old(self).max_bytes(),
            final(self).ttl() == old(self).ttl(),
            content.content@.len() > old(self).max_bytes() ==> final(self).entries() == old(self).entries()
                && final(self).counters() == old(self).counters(),
            content.content@.len() <= old(self).max_bytes() ==> ({
                let k = evictions_needed(old(self).entries(), content.content@.len() as int, old(self).max_bytes() as int);
                &&& final(self).counters() == evicted(old(self).counters(), k)
                &&& final(self).entries() == pushed(
                    old(self).entries().skip(k as int),
                    old(self).max_files(),
                    path@,
                    CacheEntry { content, size_bytes: content.content@.len() as u64, created_at: now },
                )
            }),
    {
        let size_bytes: u64 = content.content.len() as u64;
        if size_bytes > self.max_size_bytes {
            return;
        }
        let ghost s0 = lru_order(self.cache);
        let ghost max = self.max_size_bytes as int;
        let mut evictions: u64 = 0;
        let ghost mut k: nat = 0;
        proof {
            assert(s0.skip(0) =~= s0);
        }
        while size_bytes > self.max_size_bytes - self.current_size_bytes && !lru_is_empty(&self.cache)
            invariant
                well_kept(lru_order(self.cache), lru_capacity(self.cache)),
                lru_capacity(self.cache) == lru_capacity(old(self).cache),
                lru_capacity(self.cache) >= 1,
                self.current_size_bytes == bytes_of(lru_order(self.cache)),
                self.current_size_bytes <= max,
                max == self.max_size_bytes,
                max == old(self).max_size_bytes,
                self.ttl_seconds == old(self).ttl_seconds,
                size_bytes <= max,
                size_bytes == content.content@.len(),
                s0 == lru_order(old(self).cache),
                k <= s0.len(),
                lru_order(self.cache) == s0.skip(k as int),
                evictions == k,
                evictions_needed(s0, size_bytes as int, max) == k + evictions_needed(
                    lru_order(self.cache),
                    size_bytes as int,
                    max,
                ),
                old(self).stats.eviction_count + s0.len() <= u64::MAX,
                self.stats == old(self).stats,
            decreases lru_order(self.cache).len(),
        {
            let ghost before = lru_order(self.cache);
            let popped = lru_pop_lru(&mut self.cache);
            match popped {
                Some((_, entry)) => {
                    proof {
                        lemma_bytes_remove(before, 0);
                        assert(before.remove(0) =~= before.drop_first());
                        lemma_bytes_nonneg(before.drop_first());
                        assert(s0.skip(k as int).drop_first() =~= s0.skip(k + 1 as int));
                    }
                    self.current_size_bytes = self.current_size_bytes - entry.size_bytes;
                    evictions = evictions + 1;
                    proof {
                        k = k + 1;
                    }
                },
                None => {},
            }
        }
        let ghost t = lru_order(self.cache);
        let ghost entry = CacheEntry { content, size_bytes, created_at: now };
        let current = self.current_size_bytes;
        proof {
            lemma_bytes_nonneg(t);
            if t.len() == 0 {
                assert(current == 0);
            }
        }
        let replaced = lru_push(&mut self.cache, path, CacheEntry { content, size_bytes, created_at: now });
        let out: u64 = match replaced {
            Some((_, old_entry)) => old_entry.size_bytes,
            None => 0,
        };
        proof {
            if has_key(t, path@) {
                let i = index_of_key(t, path@);
                assert(t[i].0 == path@);
                lemma_bytes_remove(t, i);
                lemma_bytes_nonneg(t.remove(i));
                lemma_bytes_push(t.remove(i), (path@, entry));
            } else if t.len() == lru_capacity(self.cache) {
                lemma_bytes_remove(t, 0);
                assert(t.remove(0) =~= t.drop_first());
                lemma_bytes_nonneg(t.drop_first());
                lemma_bytes_push(t.drop_first(), (path@, entry));
            } else {
                lemma_bytes_push(t, (path@, entry));
            }
        }
        self.current_size_bytes = current + size_bytes - out;
        self.stats.eviction_count = self.stats.eviction_count + evictions;
    }

    /// Caches `content` under `path` now (see `put_at`). The time is read
    /// from the clock.
    pub fn put(&mut self, path: String, content: FileContent)
        requires
            old(self).well_formed(),
            old(self).counters().eviction_count + old(self).entries().len() <= u64::MAX,
        ensures
            final(self).well_formed(),
            final(self).max_files() == old(self).max_files(),
            final(self).max_bytes() == old(self).max_bytes(),
            final(self).ttl() == old(self).ttl(),
            content.content@.len() > old(self).max_bytes() ==> final(self).entries() == old(self).entries()
                && final(self).counters() == old(self).counters(),
            exists|now: Timestamp| #[trigger] stored_at(*old(self), *final(self), path@, content, now),
    {
        let now = utc_now();
        let ghost p = path@;
        let ghost c = content;
        self.put_at(path, content, now);
        assert(stored_at(*old(self), *self, p, c, now));
    }

    /// Drops the entry under `path`, if any.
    pub fn delete(&mut self, path: &str)
        requires
            old(self).well_formed(),
        ensures
            final(self).well_formed(),
            final(self).max_files() == old(self).max_files(),
            final(self).max_bytes() == old(self).max_bytes(),
            final(self).ttl() == old(self).ttl(),
            final(self).counters() == old(self).counters(),
            !has_key(old(self).entries(), path@) ==> final(self).entries() == old(self).entries(),
            has_key(old(self).entries(), path@) ==> final(self).entries() == old(self).entries().remove(
                index_of_key(old(self).entries(), path@),
            ),
    {
        let ghost s = lru_order(self.cache);
        let popped = lru_pop(&mut self.cache, path);
        match popped {
            Some(entry) => {
                proof {
                    let i = index_of_key(s, path@);
                    assert(s[i].0 == path@);
                    lemma_bytes_remove(s, i);
                    lemma_bytes_nonneg(lru_order(self.cache));
                }
                self.current_size_bytes = self.current_size_bytes - entry.size_bytes;
            },
            None => {},
        }
    }

    /// The counters, with the bytes and files held now.
    pub fn stats(&self) -> (r: CacheStats)
        requires
            self.well_formed(),
        ensures
            r == (CacheStats {
                memory_usage_bytes: bytes_of(self.entries()) as u64,
                file_count: self.entries().len() as usize,
                ..self.counters()
            }),
    {
        CacheStats {
            memory_usage_bytes: self.current_size_bytes,
            file_count: lru_len(&self.cache),
            ..self.stats
        }
    }
}

/// Making room for `size` bytes under `max` takes out just enough of the
/// least recently used entries: with them gone the new bytes fit, and with
/// any fewer gone they would not.
pub proof fn lemma_evictions_just_enough(s: Seq<(Seq<char>, CacheEntry)>, size: int, max: int)
    requires
        0 <= size <= max,
    ensures
        evictions_needed(s, size, max) <= s.len(),
        bytes_of(s.skip(evictions_needed(s, size, max) as int)) + size <= max,
        forall|j: int| 0 <= j < evictions_needed(s, size, max) ==> bytes_of(#[trigger] s.skip(j)) + size > max,
    decreases s.len(),
{
    assert(s.skip(0) =~= s);
    if s.len() == 0 || bytes_of(s) + size <= max {
    } else {
        let t = s.drop_first();
        lemma_evictions_just_enough(t, size, max);
        let k = evictions_needed(t, size, max);
        assert(s.skip(k + 1int) =~= t.skip(k as int));
        assert forall|j: int| 0 <= j < evictions_needed(s, size, max) implies bytes_of(#[trigger] s.skip(j)) + size
            > max by {
            if j > 0 {
                assert(s.skip(j) =~= t.skip(j - 1));
            }
        }
    }
}

/// What `put` does to a tier. Content larger than the byte bound leaves the
/// tier as it was. Otherwise the least recently used entries leave first,
/// just as many as make room, each counted as an eviction; the content then
/// sits under `path` as the most recently used entry; and the tier stays
/// within its bounds of files and bytes, counting as held exactly the bytes
/// of its entries.
pub proof fn lemma_put_law(
    before: MemoryTier,
    after: MemoryTier,
    path: Seq<char>,
    content: FileContent,
    now: Timestamp,
)
    requires
        before.well_formed(),
        after.well_formed(),
        after.max_files() == before.max_files(),
        after.max_bytes() == before.max_bytes(),
        before.counters().eviction_count + before.entries().len() <= u64::MAX,
        stored_at(before, after, path, content, now),
    ensures
        after.used_bytes() == bytes_of(after.entries()),
        after.used_bytes() <= after.max_bytes(),
        after.entries().len() <= after.max_files(),
        content.content@.len() > before.max_bytes() ==> after.entries() == before.entries()
            && after.counters() == before.counters(),
        content.content@.len() <= before.max_bytes() ==> ({
            let size = content.content@.len() as int;
            let k = evictions_needed(before.entries(), size, before.max_bytes() as int);
            let e = CacheEntry { content, size_bytes: content.content@.len() as u64, created_at: now };
            &&& k <= before.entries().len()
            &&& bytes_of(before.entries().skip(k as int)) + size <= before.max_bytes()
            &&& forall|j: int| 0 <= j < k ==> bytes_of(#[trigger] before.entries().skip(j)) + size > before.max_bytes()
            &&& after.counters().eviction_count == before.counters().eviction_count + k
            &&& after.counters().hit_count == before.counters().hit_count
            &&& after.counters().miss_count == before.counters().miss_count
            &&& has_key(after.entries(), path)
            &&& index_of_key(after.entries(), path) == after.entries().len() - 1
            &&& after.entries().last() == (path, e)
        }),
{
    after.lemma_within_bounds();
    let size = content.content@.len() as int;
    if size <= before.max_bytes() {
        let k = evictions_needed(before.entries(), size, before.max_bytes() as int);
        let e = CacheEntry { content, size_bytes: content.content@.len() as u64, created_at: now };
        lemma_evictions_just_enough(before.entries(), size, before.max_bytes() as int);
        lemma_skip_kept(before.entries(), before.max_files(), k as int);
        lemma_read_after_write(before.entries().skip(k as int), before.max_files(), path, e);
    }
}

/// `put` on a tier just built from `config`: content over the configured
/// bytes leaves it empty; other content becomes its one entry, with nothing
/// evicted and its size counted as held.
pub proof fn lemma_put_on_fresh_tier(
    config: MemoryCacheConfig,
    stats: CacheStats,
    fresh: MemoryTier,
    after: MemoryTier,
    path: Seq<char>,
    content: FileContent,
    now: Timestamp,
)
    requires
        fresh.well_formed(),
        fresh.entries() == Seq::<(Seq<char>, CacheEntry)>::empty(),
        fresh.max_files() == (if config.max_files == 0 { 1 } else { config.max_files as nat }),
        fresh.max_bytes() == config.max_size_mb * 1024 * 1024,
        fresh.counters() == stats,
        after.well_formed(),
        after.max_files() == fresh.max_files(),
        after.max_bytes() == fresh.max_bytes(),
        stored_at(fresh, after, path, content, now),
    ensures
        content.content@.len() > config.max_size_mb * 1024 * 1024 ==> after.entries().len() == 0
            && after.counters() == stats,
        content.content@.len() <= config.max_size_mb * 1024 * 1024 ==> {
            &&& after.entries() == seq![
                (path, CacheEntry { content, size_bytes: content.content@.len() as u64, created_at: now }),
            ]
            &&& after.counters() == stats
            &&& after.used_bytes() == content.content@.len()
        },
{
    let size = content.content@.len() as int;
    assert(fresh.entries().skip(0) =~= fresh.entries());
    assert(evictions_needed(fresh.entries(), size, fresh.max_bytes() as int) == 0);
    let e = CacheEntry { content, size_bytes: content.content@.len() as u64, created_at: now };
    assert(!has_key(fresh.entries(), path));
    if size <= fresh.max_bytes() {
        assert(after.entries() =~= seq![(path, e)]);
        assert(after.counters() =~= stats);
        assert(seq![(path, e)].drop_last() =~= Seq::<(Seq<char>, CacheEntry)>::empty());
    }
}

/// The cache of a file observer; it has one tier, in memory.
pub struct TieredCache {
    pub memory: MemoryTier,
}

impl TieredCache {
    /// A cache with an empty memory tier bounded as `config` says, and all
    /// counters at zero.
    pub fn new(config: MemoryCacheConfig) -> (r: Self)
        requires
            config.max_size_mb * 1024 * 1024 <= u64::MAX,
        ensures
            r.memory.well_formed(),
            r.memory.entries() == Seq::<(Seq<char>, CacheEntry)>::empty(),
            r.memory.max_files() == (if config.max_files == 0 { 1 } else { config.max_files as nat }),
            r.memory.max_bytes() == config.max_size_mb * 1024 * 1024,
            r.memory.ttl() == config.ttl_seconds,
            r.memory.counters() == CacheStats::zero_spec(),
    {
        TieredCache { memory: MemoryTier::new(&config, CacheStats::zero()) }
    }

    /// The cached content under `path`, from the memory tier.
    pub fn get(&mut self, path: &str) -> (r: Option<FileContent>)
        requires
            old(self).memory.well_formed(),
            old(self).memory.counters().hit_count < u64::MAX,
            old(self).memory.counters().miss_count < u64::MAX,
            old(self).memory.counters().eviction_count < u64::MAX,
        ensures
            final(self).memory.well_formed(),
            final(self).memory.max_files() == old(self).memory.max_files(),
            final(self).memory.max_bytes() == old(self).memory.max_bytes(),
            final(self).memory.ttl() == old(self).memory.ttl(),
            !has_key(old(self).memory.entries(), path@) ==> r is None,
            r is Some ==> has_key(old(self).memory.entries(), path@),
            exists|now: Timestamp| #[trigger] read_at(old(self).memory, final(self).memory, path@, now, r),
    {
        self.memory.get(path)
    }

    /// Caches `content` under `path` in the memory tier.
    pub fn put(&mut self, path: String, content: FileContent)
        requires
            old(self).memory.well_formed(),
            old(self).memory.counters().eviction_count + old(self).memory.entries().len() <= u64::MAX,
        ensures
            final(self).memory.well_formed(),
            final(self).memory.max_files() == old(self).memory.max_files(),
            final(self).memory.max_bytes() == old(self).memory.max_bytes(),
            final(self).memory.ttl() == old(self).memory.ttl(),
            content.content@.len() > old(self).memory.max_bytes() ==> final(self).memory.entries()
                == old(self).memory.entries(),
            exists|now: Timestamp| #[trigger] stored_at(old(self).memory, final(self).memory, path@, content, now),
    {
        self.memory.put(path, content)
    }

    /// Drops the entry under `path` from the memory tier.
    pub fn delete(&mut self, path: &str)
        requires
            old(self).memory.well_formed(),
        ensures
            final(self).memory.well_formed(),
            !has_key(old(self).memory.entries(), path@) ==> final(self).memory.entries()
                == old(self).memory.entries(),
            has_key(old(self).memory.entries(), path@) ==> final(self).memory.entries()
                == old(self).memory.entries().remove(index_of_key(old(self).memory.entries(), path@)),
    {
        self.memory.delete(path)
    }

    /// The counters of the cache.
    pub fn stats(&self) -> (r: CacheStats)
        requires
            self.memory.well_formed(),
        ensures
            r.hit_count == self.memory.counters().hit_count,
            r.miss_count == self.memory.counters().miss_count,
            r.eviction_count == self.memory.counters().eviction_count,
            r.file_count == self.memory.entries().len() as usize,
    {
        self.memory.stats()
    }
}

impl CacheStats {
    /// All counters at zero.
    pub open spec fn zero_spec() -> CacheStats {
        CacheStats { memory_usage_bytes: 0, file_count: 0, hit_count: 0, miss_count: 0, eviction_count: 0 }
    }
}

} // verus!
