//! The forwarder's answer cache: answers keyed by their query, kept until
//! they expire, at most `DNS_CACHE_CAPACITY` of them, the least recently
//! used one making room for a new answer.

use vstd::prelude::*;
use crate::text::str_eq;
use crate::dns_wire::{age_cached_response, aged_response};

verus! {

/// The most answers the cache holds.
pub const DNS_CACHE_CAPACITY: usize = 5000;

/// A cached answer, with the times (in milliseconds of a monotonic clock)
/// it was stored, expires and was last served.
#[derive(Debug, Clone)]
pub struct CachedAnswer {
    pub response: Vec<u8>,
    pub stored_at_ms: u64,
    pub expires_at_ms: u64,
    pub last_used_ms: u64,
}

pub struct CachedAnswerView {
    pub response: Seq<u8>,
    pub stored_at_ms: u64,
    pub expires_at_ms: u64,
    pub last_used_ms: u64,
}

impl View for CachedAnswer {
    type V = CachedAnswerView;

    open spec fn view(&self) -> CachedAnswerView {
        CachedAnswerView {
            response: self.response@,
            stored_at_ms: self.stored_at_ms,
            expires_at_ms: self.expires_at_ms,
            last_used_ms: self.last_used_ms,
        }
    }
}

/// The cache contents as a map from key to answer, built from slots
/// whose keys are distinct.
pub open spec fn map_of(slots: Seq<(Seq<char>, CachedAnswerView)>) -> Map<Seq<char>, CachedAnswerView>
    decreases slots.len(),
{
    if slots.len() == 0 {
        Map::empty()
    } else {
        map_of(slots.drop_last()).insert(slots.last().0, slots.last().1)
    }
}

pub open spec fn distinct_keys(slots: Seq<(Seq<char>, CachedAnswerView)>) -> bool {
    forall|i: int, j: int| 0 <= i < j < slots.len() ==> slots[i].0 != slots[j].0
}

proof fn lemma_map_of(slots: Seq<(Seq<char>, CachedAnswerView)>)
    requires
        distinct_keys(slots),
    ensures
        forall|k: Seq<char>| map_of(slots).contains_key(k) <==> exists|i: int| 0 <= i < slots.len() && slots[i].0 == k,
        forall|i: int| 0 <= i < slots.len() ==> #[trigger] map_of(slots)[slots[i].0] == slots[i].1,
        map_of(slots).dom().finite(),
        map_of(slots).len() == slots.len(),
    decreases slots.len(),
{
    if slots.len() > 0 {
        let init = slots.drop_last();
        assert(distinct_keys(init));
        lemma_map_of(init);
        assert forall|k: Seq<char>| map_of(slots).contains_key(k) <==> exists|i: int| 0 <= i < slots.len()
            && slots[i].0 == k by {
            if map_of(slots).contains_key(k) && k != slots.last().0 {
                let i = choose|i: int| 0 <= i < init.len() && init[i].0 == k;
                assert(slots[i].0 == k);
            }
            if exists|i: int| 0 <= i < slots.len() && slots[i].0 == k {
                let i = choose|i: int| 0 <= i < slots.len() && slots[i].0 == k;
                if i < init.len() {
                    assert(init[i].0 == k);
                }
            }
        }
        assert forall|i: int| 0 <= i < slots.len() implies #[trigger] map_of(slots)[slots[i].0] == slots[i].1 by {
            if i < slots.len() - 1 {
                assert(init[i] == slots[i]);
                assert(slots[i].0 != slots.last().0);
            }
        }
        assert(!map_of(init).contains_key(slots.last().0)) by {
            if map_of(init).contains_key(slots.last().0) {
                let i = choose|i: int| 0 <= i < init.len() && init[i].0 == slots.last().0;
                assert(slots[i].0 == slots[slots.len() - 1].0);
            }
        }
    }
}

/// Removing a slot removes its key and nothing else.
proof fn lemma_map_of_remove(slots: Seq<(Seq<char>, CachedAnswerView)>, i: int)
    requires
        distinct_keys(slots),
        0 <= i < slots.len(),
    ensures
        distinct_keys(slots.remove(i)),
        map_of(slots.remove(i)) == map_of(slots).remove(slots[i].0),
{
    let r = slots.remove(i);
    assert(distinct_keys(r)) by {
        assert forall|a: int, b: int| 0 <= a < b < r.len() implies r[a].0 != r[b].0 by {
            let a2 = if a < i { a } else { a + 1 };
            let b2 = if b < i { b } else { b + 1 };
            assert(r[a] == slots[a2] && r[b] == slots[b2]);
        }
    }
    lemma_map_of(slots);
    lemma_map_of(r);
    assert(map_of(r) =~= map_of(slots).remove(slots[i].0)) by {
        assert forall|k: Seq<char>| map_of(r).contains_key(k) <==> map_of(slots).remove(slots[i].0).contains_key(k) by {
            if map_of(r).contains_key(k) {
                let a = choose|a: int| 0 <= a < r.len() && r[a].0 == k;
                let a2 = if a < i { a } else { a + 1 };
                assert(slots[a2].0 == k);
                assert(a2 != i);
            }
            if map_of(slots).remove(slots[i].0).contains_key(k) {
                let a = choose|a: int| 0 <= a < slots.len() && slots[a].0 == k;
                assert(a != i);
                let a2 = if a < i { a } else { a - 1 };
                assert(r[a2].0 == k);
            }
        }
        assert forall|k: Seq<char>| #[trigger] map_of(r).contains_key(k) implies map_of(r)[k] == map_of(slots)[k] by {
            let a = choose|a: int| 0 <= a < r.len() && r[a].0 == k;
            let a2 = if a < i { a } else { a + 1 };
            assert(r[a] == slots[a2]);
            assert(map_of(r)[r[a].0] == r[a].1);
            assert(map_of(slots)[slots[a2].0] == slots[a2].1);
        }
    }
}

/// Replacing a slot's answer replaces the answer of its key.
proof fn lemma_map_of_update(slots: Seq<(Seq<char>, CachedAnswerView)>, i: int, e: CachedAnswerView)
    requires
        distinct_keys(slots),
        0 <= i < slots.len(),
    ensures
        distinct_keys(slots.update(i, (slots[i].0, e))),
        map_of(slots.update(i, (slots[i].0, e))) == map_of(slots).insert(slots[i].0, e),
{
    let u = slots.update(i, (slots[i].0, e));
    assert(distinct_keys(u)) by {
        assert forall|a: int, b: int| 0 <= a < b < u.len() implies u[a].0 != u[b].0 by {
            assert(u[a].0 == slots[a].0 && u[b].0 == slots[b].0);
        }
    }
    lemma_map_of(slots);
    lemma_map_of(u);
    assert(map_of(u) =~= map_of(slots).insert(slots[i].0, e)) by {
        assert forall|k: Seq<char>| map_of(u).contains_key(k) <==> map_of(slots).insert(slots[i].0, e).contains_key(k) by {
            if map_of(u).contains_key(k) {
                let a = choose|a: int| 0 <= a < u.len() && u[a].0 == k;
                assert(slots[a].0 == k);
            }
            if map_of(slots).contains_key(k) {
                let a = choose|a: int| 0 <= a < slots.len() && slots[a].0 == k;
                assert(u[a].0 == k);
            }
            assert(u[i].0 == slots[i].0);
        }
        assert forall|k: Seq<char>| #[trigger] map_of(u).contains_key(k) implies map_of(u)[k] == map_of(slots).insert(
            slots[i].0,
            e,
        )[k] by {
            let a = choose|a: int| 0 <= a < u.len() && u[a].0 == k;
            assert(map_of(u)[u[a].0] == u[a].1);
            if a != i {
                assert(u[a] == slots[a]);
                assert(map_of(slots)[slots[a].0] == slots[a].1);
            }
        }
    }
}

/// The keys whose answers are still live at `now_ms`.
pub open spec fn live_keys(m: Map<Seq<char>, CachedAnswerView>, now_ms: u64) -> Set<Seq<char>> {
    m.dom().filter(|k: Seq<char>| m[k].expires_at_ms > now_ms)
}

/// The answer cache.
pub struct DnsCache {
    slots: Vec<(String, CachedAnswer)>,
}

pub open spec fn slot_view(s: (String, CachedAnswer)) -> (Seq<char>, CachedAnswerView) {
    (s.0@, s.1@)
}

/// The newest time a cached answer may be served: one second at least.
pub open spec fn expiry(now_ms: u64, ttl_secs: u32) -> u64 {
    let secs: int = if ttl_secs < 1 { 1 } else { ttl_secs as int };
    if now_ms + secs * 1000 > u64::MAX { u64::MAX } else { (now_ms + secs * 1000) as u64 }
}

impl DnsCache {
    pub closed spec fn slot_seq(&self) -> Seq<(Seq<char>, CachedAnswerView)> {
        self.slots@.map_values(|s: (String, CachedAnswer)| slot_view(s))
    }

    /// The cached answers by key.
    pub closed spec fn contents(&self) -> Map<Seq<char>, CachedAnswerView> {
        map_of(self.slot_seq())
    }

    /// Keys are distinct and the cache is within its capacity.
    pub closed spec fn wf(&self) -> bool {
        distinct_keys(self.slot_seq()) && self.slots@.len() <= DNS_CACHE_CAPACITY
    }

    pub fn new() -> (c: Self)
        ensures
            c.wf(),
            c.contents() == Map::<Seq<char>, CachedAnswerView>::empty(),
    {
        let c = DnsCache { slots: Vec::new() };
        proof {
            assert(c.slot_seq() =~= Seq::<(Seq<char>, CachedAnswerView)>::empty());
        }
        c
    }

    pub fn len(&self) -> (n: usize)
        requires
            self.wf(),
        ensures
            n == self.contents().len(),
            n <= DNS_CACHE_CAPACITY,
    {
        proof {
            lemma_map_of(self.slot_seq());
        }
        self.slots.len()
    }

    /// Forgets every answer.
    pub fn clear(&mut self)
        ensures
            final(self).wf(),
            final(self).contents() == Map::<Seq<char>, CachedAnswerView>::empty(),
    {
        self.slots = Vec::new();
        proof {
            assert(self.slot_seq() =~= Seq::<(Seq<char>, CachedAnswerView)>::empty());
        }
    }

    fn find(&self, key: &str) -> (r: Option<usize>)
        requires
            self.wf(),
        ensures
            match r {
                Some(i) => i < self.slots@.len() && self.slot_seq()[i as int].0 == key@,
                None => !self.contents().contains_key(key@),
            },
    {
        proof {
            lemma_map_of(self.slot_seq());
        }
        let mut i: usize = 0;
        while i < self.slots.len()
            invariant
                i <= self.slots@.len(),
                forall|j: int| 0 <= j < i ==> self.slot_seq()[j].0 != key@,
            decreases self.slots@.len() - i,
        {
            if str_eq(self.slots[i].0.as_str(), key) {
                return Some(i);
            }
            i += 1;
        }
        None
    }

    /// Looks a key up at `now_ms`: an expired answer is dropped and not
    /// served; a live one is marked as used now and its response and
    /// storage time are returned.
    pub fn lookup(&mut self, key: &str, now_ms: u64) -> (r: Option<(Vec<u8>, u64)>)
        requires
            old(self).wf(),
        ensures
            final(self).wf(),
            match old(self).contents().get(key@) {
                None => r is None && final(self).contents() == old(self).contents(),
                Some(e) => if now_ms >= e.expires_at_ms {
                    r is None && final(self).contents() == old(self).contents().remove(key@)
                } else {
                    r matches Some((bytes, stored)) && bytes@ == e.response && stored == e.stored_at_ms
                        && final(self).contents() == old(self).contents().insert(
                        key@,
                        CachedAnswerView { last_used_ms: now_ms, ..e },
                    )
                },
            },
    {
        proof {
            lemma_map_of(self.slot_seq());
        }
        let i = match self.find(key) {
            None => {
                return None;
            },
            Some(i) => i,
        };
        let ghost before = self.slot_seq();
        proof {
            assert(before[i as int] == slot_view(self.slots@[i as int]));
        }
        if now_ms >= self.slots[i].1.expires_at_ms {
            self.slots.remove(i);
            proof {
                lemma_map_of_remove(before, i as int);
                assert(self.slot_seq() =~= before.remove(i as int));
            }
            return None;
        }
        let stored = self.slots[i].1.stored_at_ms;
        let bytes = self.slots[i].1.response.clone();
        let mut slot = self.slots.remove(i);
        slot.1.last_used_ms = now_ms;
        self.slots.insert(i, slot);
        proof {
            let e = before[i as int].1;
            lemma_map_of_update(before, i as int, CachedAnswerView { last_used_ms: now_ms, ..e });
            assert(self.slot_seq() =~= before.update(i as int, (before[i as int].0, CachedAnswerView {
                last_used_ms: now_ms,
                ..e
            })));
        }
        Some((bytes, stored))
    }

    /// Drops every answer that has expired by `now_ms`.
    fn drop_expired(&mut self, now_ms: u64)
        requires
            old(self).wf(),
        ensures
            final(self).wf(),
            forall|k: Seq<char>| #[trigger] final(self).contents().contains_key(k) <==> (old(self).contents().contains_key(k)
                && old(self).contents()[k].expires_at_ms > now_ms),
            forall|k: Seq<char>| #[trigger] final(self).contents().contains_key(k) ==> final(self).contents()[k]
                == old(self).contents()[k],
    {
        let ghost original = self.contents();
        let mut i: usize = 0;
        while i < self.slots.len()
            invariant
                i <= self.slots@.len(),
                self.wf(),
                forall|j: int| 0 <= j < i ==> self.slot_seq()[j].1.expires_at_ms > now_ms,
                forall|k: Seq<char>| #[trigger] self.contents().contains_key(k) ==> original.contains_key(k)
                    && self.contents()[k] == original[k],
                forall|k: Seq<char>| #[trigger] original.contains_key(k) && original[k].expires_at_ms > now_ms
                    ==> self.contents().contains_key(k),
            decreases self.slots@.len() - i,
        {
            let ghost before = self.slot_seq();
            let ghost before_map = self.contents();
            proof {
                assert(before[i as int] == slot_view(self.slots@[i as int]));
                assert(forall|k: Seq<char>| #[trigger] before_map.contains_key(k) ==> original.contains_key(k)
                    && before_map[k] == original[k]);
            }
            if self.slots[i].1.expires_at_ms <= now_ms {
                self.slots.remove(i);
                proof {
                    lemma_map_of_remove(before, i as int);
                    assert(self.slot_seq() =~= before.remove(i as int));
                    assert forall|j: int| 0 <= j < i implies self.slot_seq()[j].1.expires_at_ms > now_ms by {
                        assert(self.slot_seq()[j] == before[j]);
                    }
                    lemma_map_of(before);
                    assert(map_of(before)[before[i as int].0] == before[i as int].1);
                    assert forall|k: Seq<char>| #[trigger] self.contents().contains_key(k) implies original.contains_key(k)
                        && self.contents()[k] == original[k] by {
                        assert(before_map.contains_key(k));
                        assert(self.contents()[k] == before_map[k]);
                    }
                }
            } else {
                i += 1;
            }
        }
        proof {
            lemma_map_of(self.slot_seq());
            assert forall|k: Seq<char>| #[trigger] self.contents().contains_key(k) implies original[k].expires_at_ms
                > now_ms by {
                let a = choose|a: int| 0 <= a < self.slot_seq().len() && self.slot_seq()[a].0 == k;
                assert(map_of(self.slot_seq())[self.slot_seq()[a].0] == self.slot_seq()[a].1);
            }
        }
    }

    /// Stores an answer at `now_ms` for `ttl_secs` (one second at least):
    /// expired answers go first; when the cache is still full, the least
    /// recently used answer goes too; an answer already stored under the
    /// key is replaced.
    pub fn store(&mut self, key: String, response: Vec<u8>, ttl_secs: u32, now_ms: u64)
        requires
            old(self).wf(),
        ensures
            final(self).wf(),
            final(self).contents().contains_key(key@),
            final(self).contents()[key@] == (CachedAnswerView {
                response: response@,
                stored_at_ms: now_ms,
                expires_at_ms: expiry(now_ms, ttl_secs),
                last_used_ms: now_ms,
            }),
            forall|k: Seq<char>| #[trigger] final(self).contents().contains_key(k) && k != key@ ==> old(self).contents().contains_key(k)
                && final(self).contents()[k] == old(self).contents()[k] && old(self).contents()[k].expires_at_ms > now_ms,
            forall|k: Seq<char>|
                #[trigger] live_keys(old(self).contents(), now_ms).contains(k) && k != key@
                    && !final(self).contents().contains_key(k) ==> live_keys(old(self).contents(), now_ms).len()
                    >= DNS_CACHE_CAPACITY && forall|k2: Seq<char>| #[trigger] live_keys(old(self).contents(), now_ms).contains(k2)
                    ==> old(self).contents()[k].last_used_ms <= old(self).contents()[k2].last_used_ms,
            forall|k1: Seq<char>, k2: Seq<char>|
                #[trigger] live_keys(old(self).contents(), now_ms).contains(k1) && #[trigger] live_keys(old(self).contents(), now_ms).contains(k2)
                    && k1 != key@ && k2 != key@ && !final(self).contents().contains_key(k1)
                    && !final(self).contents().contains_key(k2) ==> k1 == k2,
    {
        let ghost start = self.contents();
        self.drop_expired(now_ms);
        let ghost live = self.contents();
        let ghost mut evicted: Option<Seq<char>> = None;
        proof {
            lemma_map_of(self.slot_seq());
            assert(live.dom() =~= live_keys(start, now_ms));
        }
        if self.slots.len() >= DNS_CACHE_CAPACITY {
            let mut oldest: usize = 0;
            let mut j: usize = 1;
            while j < self.slots.len()
                invariant
                    1 <= j <= self.slots@.len(),
                    oldest < j,
                    forall|q: int| 0 <= q < j ==> self.slots@[oldest as int].1.last_used_ms <= self.slots@[q].1.last_used_ms,
                decreases self.slots@.len() - j,
            {
                if self.slots[j].1.last_used_ms < self.slots[oldest].1.last_used_ms {
                    oldest = j;
                }
                j += 1;
            }
            let ghost before = self.slot_seq();
            let ghost raw = self.slots@;
            self.slots.remove(oldest);
            proof {
                lemma_map_of_remove(before, oldest as int);
                assert(self.slot_seq() =~= before.remove(oldest as int));
                let x = before[oldest as int].0;
                evicted = Some(x);
                lemma_map_of(before);
                assert forall|k2: Seq<char>| #[trigger] live.contains_key(k2) implies live[x].last_used_ms
                    <= live[k2].last_used_ms by {
                    let q = choose|q: int| 0 <= q < before.len() && before[q].0 == k2;
                    assert(live[before[q].0] == before[q].1);
                    assert(before[q] == slot_view(raw[q]));
                    assert(before[oldest as int] == slot_view(raw[oldest as int]));
                }
                assert(live.contains_key(x));
            }
        }
        proof {
            assert(forall|k: Seq<char>| #[trigger] self.contents().contains_key(k) ==> live.contains_key(k)
                && self.contents()[k] == live[k]);
            assert(forall|k: Seq<char>| #[trigger] live.contains_key(k) && !self.contents().contains_key(k)
                ==> evicted == Some(k));
            assert(evicted matches Some(x) ==> live.len() >= DNS_CACHE_CAPACITY && live.contains_key(x)
                && forall|k2: Seq<char>| #[trigger] live.contains_key(k2) ==> live[x].last_used_ms <= live[k2].last_used_ms);
        }
        let secs: u64 = if ttl_secs < 1 { 1 } else { ttl_secs as u64 };
        let expires = now_ms.saturating_add(secs * 1000);
        let entry = CachedAnswer { response, stored_at_ms: now_ms, expires_at_ms: expires, last_used_ms: now_ms };
        let ghost e = entry@;
        let ghost before = self.slot_seq();
        let ghost mid = self.contents();
        let ghost kv = key@;
        proof {
            lemma_map_of(before);
        }
        match self.find(key.as_str()) {
            Some(i) => {
                let mut slot = self.slots.remove(i);
                slot.1 = entry;
                self.slots.insert(i, slot);
                proof {
                    lemma_map_of_update(before, i as int, e);
                    assert(self.slot_seq() =~= before.update(i as int, (before[i as int].0, e)));
                }
            },
            None => {
                proof {
                    assert(!mid.contains_key(key@));
                }
                self.slots.push((key, entry));
                proof {
                    assert(self.slot_seq() =~= before.push((kv, e)));
                    assert(self.slot_seq().drop_last() =~= before);
                    assert(distinct_keys(self.slot_seq())) by {
                        assert forall|a: int, b: int| 0 <= a < b < self.slot_seq().len() implies self.slot_seq()[a].0
                            != self.slot_seq()[b].0 by {
                            if b == before.len() {
                                assert(self.slot_seq()[a] == before[a]);
                                assert(mid.contains_key(before[a].0));
                            } else {
                                assert(self.slot_seq()[a] == before[a] && self.slot_seq()[b] == before[b]);
                            }
                        }
                    }
                }
            },
        }
        proof {
            assert(self.contents() == mid.insert(kv, e));
            assert forall|k: Seq<char>| #[trigger] self.contents().contains_key(k) && k != key@ implies start.contains_key(k)
                && self.contents()[k] == start[k] && start[k].expires_at_ms > now_ms by {
                assert(k != kv);
                assert(mid.contains_key(k));
                assert(live.contains_key(k));
            }
        }
    }
}

/// Whole seconds from `stored_ms` to `now_ms`, zero when the clock has
/// not moved on, capped at `u32::MAX`.
pub open spec fn elapsed_secs(stored_ms: u64, now_ms: u64) -> u32 {
    if now_ms <= stored_ms {
        0
    } else if (now_ms - stored_ms) / 1000 > u32::MAX {
        u32::MAX
    } else {
        ((now_ms - stored_ms) / 1000) as u32
    }
}

fn elapsed_since(stored_ms: u64, now_ms: u64) -> (r: u32)
    ensures
        r == elapsed_secs(stored_ms, now_ms),
{
    if now_ms <= stored_ms {
        0
    } else {
        let secs = (now_ms - stored_ms) / 1000;
        if secs > 4294967295u64 {
            u32::MAX
        } else {
            secs as u32
        }
    }
}

/// The cache holder is ready to use.
pub open spec fn holder_wf(cache: Option<DnsCache>) -> bool {
    cache matches Some(c) ==> c.wf()
}

/// Creates the cache unless it already exists.
pub fn init_dns_cache(cache: &mut Option<DnsCache>)
    requires
        holder_wf(*old(cache)),
    ensures
        holder_wf(*final(cache)),
        (*old(cache)) is Some ==> *final(cache) == *old(cache),
        (*old(cache)) is None ==> ((*final(cache)) matches Some(c) && c.contents() == Map::<Seq<char>, CachedAnswerView>::empty()),
{
    if cache.is_none() {
        *cache = Some(DnsCache::new());
    }
}

/// Forgets every cached answer, if the cache exists.
pub fn clear_dns_cache(cache: &mut Option<DnsCache>)
    requires
        holder_wf(*old(cache)),
    ensures
        holder_wf(*final(cache)),
        (*old(cache)) is None ==> (*final(cache)) is None,
        (*old(cache)) is Some ==> ((*final(cache)) matches Some(c) && c.contents() == Map::<Seq<char>, CachedAnswerView>::empty()),
{
    if let Some(c) = cache {
        c.clear();
    }
}

/// Serves a cached answer for `key` at `now_ms`: an expired one is dropped;
/// a live one is marked as used and handed out with its record TTLs aged
/// by the whole seconds since it was stored.
pub fn get_cached_dns(cache: &mut Option<DnsCache>, key: &str, now_ms: u64) -> (r: Option<Vec<u8>>)
    requires
        holder_wf(*old(cache)),
    ensures
        holder_wf(*final(cache)),
        match *old(cache) {
            None => r is None && (*final(cache)) is None,
            Some(c) => (*final(cache)) matches Some(f) && match c.contents().get(key@) {
                None => r is None && f.contents() == c.contents(),
                Some(e) => if now_ms >= e.expires_at_ms {
                    r is None && f.contents() == c.contents().remove(key@)
                } else {
                    f.contents() == c.contents().insert(key@, CachedAnswerView { last_used_ms: now_ms, ..e })
                        && match aged_response(e.response, elapsed_secs(e.stored_at_ms, now_ms)) {
                        Some(w) => r matches Some(v) && v@ == w,
                        None => r is None,
                    }
                },
            },
        },
{
    match cache {
        None => None,
        Some(c) => match c.lookup(key, now_ms) {
            None => None,
            Some((bytes, stored)) => age_cached_response(bytes.as_slice(), elapsed_since(stored, now_ms)),
        },
    }
}

/// Stores an answer for `key` at `now_ms`, if the cache exists (see
/// `DnsCache::store`).
pub fn set_cached_dns(cache: &mut Option<DnsCache>, key: String, response: Vec<u8>, ttl_secs: u32, now_ms: u64)
    requires
        holder_wf(*old(cache)),
    ensures
        holder_wf(*final(cache)),
        (*old(cache)) is None ==> (*final(cache)) is None,
        (*old(cache)) is Some ==> ((*final(cache)) matches Some(f) && f.contents().contains_key(key@) && f.contents()[key@]
            == (CachedAnswerView {
            response: response@,
            stored_at_ms: now_ms,
            expires_at_ms: expiry(now_ms, ttl_secs),
            last_used_ms: now_ms,
        })),
        forall|k: Seq<char>|
            #![trigger (*final(cache))->0.contents().contains_key(k)]
            (*old(cache)) is Some && (*final(cache))->0.contents().contains_key(k) && k != key@ ==> (*old(cache))->0.contents().contains_key(k)
                && (*final(cache))->0.contents()[k] == (*old(cache))->0.contents()[k]
                && (*old(cache))->0.contents()[k].expires_at_ms > now_ms,
{
    if let Some(c) = cache {
        c.store(key, response, ttl_secs, now_ms);
    }
}

} // verus!
