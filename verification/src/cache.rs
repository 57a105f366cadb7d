//! In-memory model of the Redis-like cache store and the cache-aside
//! policy built on it: string keys map to typed values with a
//! server-side expiry instant, reads never return expired entries, the
//! refresh-token path uses an atomic read-then-delete, and writes can
//! invalidate every key under a common prefix.
//!
//! The store is typed per call site, a capability handed to each flow:
//! the refresh-token records live in a store of strings, the user
//! read-through cache in a store of user records. On the wire such a
//! store sits behind a serializer; that layer belongs to the
//! application, where a value that fails to deserialize is simply a
//! miss.

use vstd::prelude::*;
use vstd::string::StrSliceExecFns;

verus! {

/// One stored entry: a value and the instant (seconds since the epoch)
/// at which it stops being served.
#[verifier::reject_recursive_types(V)]
struct CacheEntry<V> {
    key: String,
    value: V,
    expires_at: u64,
}

/// The mathematical content of the store: each live key maps to the
/// view of its value and its expiry instant.
pub type CacheView<T> = Map<Seq<char>, (T, u64)>;

pub open spec fn is_prefix(p: Seq<char>, k: Seq<char>) -> bool {
    p.len() <= k.len() && k.subrange(0, p.len() as int) == p
}

/// What a read at time `now` returns from a store with contents `m`:
/// the value under `k`, unless the key is absent or already expired.
pub open spec fn spec_cache_get<T>(m: CacheView<T>, k: Seq<char>, now: u64) -> Option<T> {
    if m.contains_key(k) && m[k].1 > now {
        Some(m[k].0)
    } else {
        None
    }
}

/// Contents after all keys under prefix `p` are invalidated.
pub open spec fn spec_delete_prefix<T>(m: CacheView<T>, p: Seq<char>) -> CacheView<T> {
    Map::new(|k: Seq<char>| m.contains_key(k) && !is_prefix(p, k), |k: Seq<char>| m[k])
}

spec fn entry_view<V: View>(e: CacheEntry<V>) -> (V::V, u64) {
    (e.value@, e.expires_at)
}

spec fn entry_map<V: View>(s: Seq<CacheEntry<V>>) -> CacheView<V::V>
    decreases s.len(),
{
    if s.len() == 0 {
        Map::empty()
    } else {
        entry_map(s.drop_last()).insert(s.last().key@, entry_view(s.last()))
    }
}

spec fn unique_keys<V>(s: Seq<CacheEntry<V>>) -> bool {
    forall|i: int, j: int| 0 <= i < j < s.len() ==> s[i].key@ != s[j].key@
}

proof fn lemma_entry_map_contains<V: View>(s: Seq<CacheEntry<V>>, k: Seq<char>)
    ensures
        entry_map(s).contains_key(k) <==> exists|i: int| 0 <= i < s.len() && s[i].key@ == k,
        entry_map(s).dom().finite(),
    decreases s.len(),
{
    if s.len() == 0 {
    } else {
        lemma_entry_map_contains(s.drop_last(), k);
        if entry_map(s).contains_key(k) {
            if k == s.last().key@ {
                assert(s[s.len() - 1].key@ == k);
            } else {
                let i = choose|i: int| 0 <= i < s.drop_last().len() && s.drop_last()[i].key@ == k;
                assert(s[i].key@ == k);
            }
        }
        if exists|i: int| 0 <= i < s.len() && s[i].key@ == k {
            let i = choose|i: int| 0 <= i < s.len() && s[i].key@ == k;
            if i < s.len() - 1 {
                assert(s.drop_last()[i].key@ == k);
            }
        }
    }
}

proof fn lemma_entry_map_value<V: View>(s: Seq<CacheEntry<V>>, i: int)
    requires
        unique_keys(s),
        0 <= i < s.len(),
    ensures
        entry_map(s).contains_key(s[i].key@),
        entry_map(s)[s[i].key@] == entry_view(s[i]),
    decreases s.len(),
{
    if i == s.len() - 1 {
    } else {
        assert(s[i].key@ != s.last().key@);
        assert(s.drop_last()[i] == s[i]);
        lemma_entry_map_value(s.drop_last(), i);
    }
}

proof fn lemma_entry_map_dom_len<V: View>(s: Seq<CacheEntry<V>>)
    requires
        unique_keys(s),
    ensures
        entry_map(s).dom().finite(),
        entry_map(s).dom().len() == s.len(),
    decreases s.len(),
{
    if s.len() == 0 {
        assert(entry_map(s).dom() =~= Set::<Seq<char>>::empty());
    } else {
        lemma_entry_map_dom_len(s.drop_last());
        lemma_entry_map_contains(s.drop_last(), s.last().key@);
        assert(!entry_map(s.drop_last()).contains_key(s.last().key@));
        assert(entry_map(s).dom() =~= entry_map(s.drop_last()).dom().insert(s.last().key@));
    }
}

proof fn lemma_entry_map_remove<V: View>(s: Seq<CacheEntry<V>>, i: int)
    requires
        unique_keys(s),
        0 <= i < s.len(),
    ensures
        unique_keys(s.remove(i)),
        entry_map(s.remove(i)) =~= entry_map(s).remove(s[i].key@),
    decreases s.len(),
{
    if i == s.len() - 1 {
        assert(s.remove(i) =~= s.drop_last());
        lemma_entry_map_contains(s.drop_last(), s.last().key@);
        assert(!entry_map(s.drop_last()).contains_key(s.last().key@));
        assert(entry_map(s.drop_last()) =~= entry_map(s.drop_last()).insert(
            s.last().key@,
            entry_view(s.last()),
        ).remove(s.last().key@));
    } else {
        let dl = s.drop_last();
        lemma_entry_map_remove(dl, i);
        assert(s.remove(i) =~= dl.remove(i).push(s.last()));
        assert(s.remove(i).drop_last() =~= dl.remove(i));
        assert(s.remove(i).last() == s.last());
        assert(entry_map(s.remove(i)) == entry_map(dl.remove(i)).insert(
            s.last().key@,
            entry_view(s.last()),
        ));
        assert(s[i].key@ != s.last().key@);
        assert(entry_map(dl).remove(dl[i].key@).insert(s.last().key@, entry_view(s.last()))
            =~= entry_map(dl).insert(s.last().key@, entry_view(s.last())).remove(s[i].key@));
    }
}

/// The store. Entries with distinct keys, in insertion order; the
/// order itself carries no meaning, only the key-to-entry map does.
#[verifier::reject_recursive_types(V)]
pub struct CacheStore<V> {
    entries: Vec<CacheEntry<V>>,
}

impl<V: View> View for CacheStore<V> {
    type V = CacheView<V::V>;

    closed spec fn view(&self) -> CacheView<V::V> {
        entry_map(self.entries@)
    }
}

impl<V: View> CacheStore<V> {
    /// Well-formed: no key occurs twice.
    pub closed spec fn wf(&self) -> bool {
        unique_keys(self.entries@)
    }

    pub fn new() -> (store: Self)
        ensures
            store.wf(),
            store@ == Map::<Seq<char>, (V::V, u64)>::empty(),
    {
        CacheStore { entries: Vec::new() }
    }

    fn find_index(&self, key: &String) -> (r: Option<usize>)
        ensures
            match r {
                Some(i) => i < self.entries@.len() && self.entries@[i as int].key@ == key@,
                None => forall|i: int|
                    0 <= i < self.entries@.len() ==> self.entries@[i].key@ != key@,
            },
    {
        let n = self.entries.len();
        for i in 0..n
            invariant
                n == self.entries@.len(),
                forall|j: int| 0 <= j < i ==> self.entries@[j].key@ != key@,
        {
            if self.entries[i].key == *key {
                return Some(i);
            }
        }
        None
    }

    /// SET with expiry: binds `key` to `value` until `now + ttl_seconds`.
    pub fn set(&mut self, key: &String, value: V, ttl_seconds: u64, now: u64)
        requires
            old(self).wf(),
            now + ttl_seconds <= u64::MAX,
        ensures
            final(self).wf(),
            final(self)@ =~= old(self)@.insert(key@, (value@, (now + ttl_seconds) as u64)),
    {
        self.del(key);
        let ghost pre = self.entries@;
        self.entries.push(CacheEntry {
            key: key.clone(),
            value,
            expires_at: now + ttl_seconds,
        });
        proof {
            lemma_entry_map_contains(pre, key@);
            assert(!entry_map(pre).contains_key(key@));
            assert(self.entries@.drop_last() =~= pre);
            assert forall|i: int, j: int| 0 <= i < j < self.entries@.len() implies self.entries@[i].key@
                != self.entries@[j].key@ by {
                if j == self.entries@.len() - 1 {
                    assert(pre[i].key@ != key@);
                }
            }
        }
    }

    /// GET: the value under `key`, unless absent or expired at `now`.
    pub fn get(&self, key: &String, now: u64) -> (r: Option<&V>)
        requires
            self.wf(),
        ensures
            match r {
                Some(v) => spec_cache_get(self@, key@, now) == Some(v@),
                None => spec_cache_get(self@, key@, now) is None,
            },
    {
        match self.find_index(key) {
            Some(i) => {
                proof {
                    lemma_entry_map_value(self.entries@, i as int);
                }
                if self.entries[i].expires_at > now {
                    Some(&self.entries[i].value)
                } else {
                    None
                }
            },
            None => {
                proof {
                    lemma_entry_map_contains(self.entries@, key@);
                }
                None
            },
        }
    }

    /// DEL: drops `key`; absent keys are left alone.
    pub fn del(&mut self, key: &String)
        requires
            old(self).wf(),
        ensures
            final(self).wf(),
            final(self)@ =~= old(self)@.remove(key@),
    {
        match self.find_index(key) {
            Some(i) => {
                proof {
                    lemma_entry_map_remove(self.entries@, i as int);
                }
                self.entries.remove(i);
            },
            None => {
                proof {
                    lemma_entry_map_contains(self.entries@, key@);
                    assert(self@ =~= self@.remove(key@));
                }
            },
        }
    }

    /// Atomic read-then-delete, the one-shot redemption primitive: the
    /// result is what GET would return, and the key is gone afterwards.
    pub fn get_del(&mut self, key: &String, now: u64) -> (r: Option<V>)
        requires
            old(self).wf(),
        ensures
            final(self).wf(),
            final(self)@ =~= old(self)@.remove(key@),
            match r {
                Some(v) => spec_cache_get(old(self)@, key@, now) == Some(v@),
                None => spec_cache_get(old(self)@, key@, now) is None,
            },
    {
        match self.find_index(key) {
            Some(i) => {
                proof {
                    lemma_entry_map_value(self.entries@, i as int);
                    lemma_entry_map_remove(self.entries@, i as int);
                }
                let e = self.entries.remove(i);
                if e.expires_at > now {
                    Some(e.value)
                } else {
                    None
                }
            },
            None => {
                proof {
                    lemma_entry_map_contains(self.entries@, key@);
                    assert(self@ =~= self@.remove(key@));
                }
                None
            },
        }
    }

    /// SCAN+DEL: removes every key under `prefix`, returning how many
    /// entries were dropped.
    pub fn delete_by_prefix(&mut self, prefix: &String) -> (count: u64)
        requires
            old(self).wf(),
        ensures
            final(self).wf(),
            final(self)@ =~= spec_delete_prefix(old(self)@, prefix@),
            count == old(self)@.dom().len() - final(self)@.dom().len(),
    {
        let ghost orig = self.entries@;
        let ghost keep = |e: CacheEntry<V>| !is_prefix(prefix@, e.key@);
        let orig_len = self.entries.len();
        let mut i: usize = 0;
        let mut removed: usize = 0;
        proof {
            assert(orig.subrange(0, 0) =~= Seq::<CacheEntry<V>>::empty());
        }
        while i < self.entries.len()
            invariant
                orig_len == orig.len(),
                removed + self.entries@.len() == orig.len(),
                i <= self.entries@.len(),
                self.entries@ =~= orig.subrange(0, (i + removed) as int).filter(keep) + orig.subrange(
                    (i + removed) as int,
                    orig.len() as int,
                ),
                i == orig.subrange(0, (i + removed) as int).filter(keep).len(),
                unique_keys(orig),
                keep == (|e: CacheEntry<V>| !is_prefix(prefix@, e.key@)),
            decreases self.entries@.len() - i,
        {
            let ghost j = (i + removed) as int;
            proof {
                assert(orig.subrange(0, j + 1).drop_last() =~= orig.subrange(0, j));
                assert(orig.subrange(0, j + 1).last() == orig[j]);
                assert(self.entries@[i as int] == orig[j]);
                reveal_with_fuel(Seq::filter, 2);
            }
            if has_prefix(self.entries[i].key.as_str(), prefix.as_str()) {
                let ghost pre = self.entries@;
                self.entries.remove(i);
                removed = removed + 1;
                proof {
                    assert(self.entries@ =~= pre.subrange(0, i as int) + pre.subrange(
                        i + 1,
                        pre.len() as int,
                    ));
                    assert(orig.subrange(0, j + 1).filter(keep) =~= orig.subrange(0, j).filter(keep));
                    assert(self.entries@ =~= orig.subrange(0, j + 1).filter(keep) + orig.subrange(
                        j + 1,
                        orig.len() as int,
                    ));
                }
            } else {
                i = i + 1;
                proof {
                    assert(orig.subrange(0, j + 1).filter(keep) =~= orig.subrange(0, j).filter(
                        keep,
                    ).push(orig[j]));
                }
            }
        }
        proof {
            assert(i + removed == orig.len());
            assert(orig.subrange(0, (i + removed) as int) =~= orig);
            assert(orig.subrange((i + removed) as int, orig.len() as int)
                =~= Seq::<CacheEntry<V>>::empty());
            assert(self.entries@ =~= orig.filter(keep));
            lemma_entry_map_filter_prefix(orig, prefix@);
            lemma_entry_map_dom_len(orig);
            lemma_entry_map_dom_len(self.entries@);
            assert(self@ =~= spec_delete_prefix(entry_map(orig), prefix@));
        }
        removed as u64
    }
}

proof fn lemma_entry_map_filter_prefix<V: View>(s: Seq<CacheEntry<V>>, p: Seq<char>)
    requires
        unique_keys(s),
    ensures
        unique_keys(s.filter(|e: CacheEntry<V>| !is_prefix(p, e.key@))),
        entry_map(s.filter(|e: CacheEntry<V>| !is_prefix(p, e.key@))) =~= spec_delete_prefix(
            entry_map(s),
            p,
        ),
    decreases s.len(),
{
    reveal_with_fuel(Seq::filter, 2);
    let keep = |e: CacheEntry<V>| !is_prefix(p, e.key@);
    if s.len() == 0 {
        assert(s.filter(keep) =~= Seq::<CacheEntry<V>>::empty());
        assert(entry_map(s.filter(keep)) =~= spec_delete_prefix(entry_map(s), p));
    } else {
        let dl = s.drop_last();
        let last = s.last();
        lemma_entry_map_filter_prefix(dl, p);
        lemma_entry_map_contains(dl, last.key@);
        assert(!entry_map(dl).contains_key(last.key@));
        if keep(last) {
            assert(s.filter(keep) == dl.filter(keep).push(last));
            assert forall|i: int, j: int|
                0 <= i < j < s.filter(keep).len() implies s.filter(keep)[i].key@ != s.filter(
                keep,
            )[j].key@ by {
                if j == s.filter(keep).len() - 1 {
                    lemma_entry_map_contains(dl.filter(keep), s.filter(keep)[i].key@);
                    assert(entry_map(dl.filter(keep)).contains_key(s.filter(keep)[i].key@));
                }
            }
            assert(s.filter(keep).drop_last() =~= dl.filter(keep));
            assert(entry_map(s.filter(keep)) == entry_map(dl.filter(keep)).insert(
                last.key@,
                entry_view(last),
            ));
            assert(entry_map(s.filter(keep)) =~= spec_delete_prefix(entry_map(s), p));
        } else {
            assert(s.filter(keep) == dl.filter(keep));
            assert(entry_map(s.filter(keep)) =~= spec_delete_prefix(entry_map(s), p));
        }
    }
}

/// True exactly when `p@` is a prefix of `s@`.
pub fn has_prefix(s: &str, p: &str) -> (r: bool)
    ensures
        r == is_prefix(p@, s@),
{
    let sn = s.unicode_len();
    let pn = p.unicode_len();
    if pn > sn {
        return false;
    }
    for i in 0..pn
        invariant
            pn <= sn,
            sn == s@.len(),
            pn == p@.len(),
            forall|j: int| 0 <= j < i ==> s@[j] == p@[j],
    {
        if s.get_char(i) != p.get_char(i) {
            assert(s@.subrange(0, p@.len() as int)[i as int] != p@[i as int]);
            return false;
        }
    }
    assert(s@.subrange(0, p@.len() as int) =~= p@);
    true
}

/// Cache-aside idempotence: a value written at `now` with a positive
/// time to live is exactly what a read before `now + ttl` returns, and
/// a read at or past that instant misses.
pub proof fn lemma_cache_set_then_get<T>(m: CacheView<T>, k: Seq<char>, v: T, ttl: u64, now: u64, later: u64)
    requires
        now + ttl <= u64::MAX,
    ensures
        later < now + ttl ==> spec_cache_get(m.insert(k, (v, (now + ttl) as u64)), k, later)
            == Some(v),
        later >= now + ttl ==> spec_cache_get(m.insert(k, (v, (now + ttl) as u64)), k, later)
            is None,
{
}

/// Invalidation by prefix: any key under the deleted prefix misses
/// afterwards, and any key outside it reads exactly as before.
pub proof fn lemma_cache_delete_prefix_get<T>(m: CacheView<T>, p: Seq<char>, k: Seq<char>, now: u64)
    ensures
        is_prefix(p, k) ==> spec_cache_get(spec_delete_prefix(m, p), k, now) is None,
        !is_prefix(p, k) ==> spec_cache_get(spec_delete_prefix(m, p), k, now) == spec_cache_get(
            m,
            k,
            now,
        ),
{
}

} // verus!
