use vstd::prelude::*;

use crate::signature::FnArgument;

verus! {

/// One stored entry: the key built from the memoized arguments, the entry's
/// creation timestamp, and the cached result.
#[derive(Debug)]
pub struct CacheEntry {
    pub key: Vec<u64>,
    pub stamp: u64,
    pub value: u64,
}

/// The abstract content of a cache: entries in recency order — the least
/// recently used entry first — each a (key, creation timestamp, value)
/// triple.
pub type CacheModel = Seq<(Seq<u64>, u64, u64)>;

/// The index of the first entry with key `k`, or -1 when no entry has it.
pub open spec fn find_key(s: CacheModel, k: Seq<u64>) -> int
    decreases s.len(),
{
    if s.len() == 0 {
        -1
    } else if s[0].0 == k {
        0
    } else {
        let r = find_key(s.drop_first(), k);
        if r == -1 {
            -1
        } else {
            r + 1
        }
    }
}

/// No two entries share a key.
pub open spec fn distinct_keys(s: CacheModel) -> bool {
    forall|i: int, j: int| 0 <= i < j < s.len() ==> s[i].0 != s[j].0
}

/// The age of an entry stamped at `stamp`, read at `now`; clocks never run
/// backwards, so a stamp in the future counts as age zero.
pub open spec fn entry_elapsed(stamp: u64, now: u64) -> int {
    if now >= stamp {
        now - stamp
    } else {
        0
    }
}

/// Whether an entry stamped at `stamp` is still fresh at `now`: always,
/// when no time-to-live is configured; otherwise exactly when its age is
/// below the duration. A stale entry is read-filtered, never removed.
pub open spec fn fresh_at(stamp: u64, now: u64, ttl: Option<u64>) -> bool {
    match ttl {
        Option::None => true,
        Option::Some(d) => entry_elapsed(stamp, now) < d,
    }
}

/// What a lookup of `k` at time `now` returns: the stored value on a fresh
/// hit, and nothing on a miss or a stale hit.
pub open spec fn lookup_result(s: CacheModel, k: Seq<u64>, now: u64, ttl: Option<u64>) -> Option<
    u64,
> {
    let i = find_key(s, k);
    if i == -1 {
        Option::None
    } else if fresh_at(s[i].1, now, ttl) {
        Option::Some(s[i].2)
    } else {
        Option::None
    }
}

/// The cache content after a lookup of `k`: a bounded LRU cache marks a
/// found entry most recent (fresh or stale), any other backend is
/// unchanged.
pub open spec fn lookup_update(s: CacheModel, k: Seq<u64>, lru: bool) -> CacheModel {
    let i = find_key(s, k);
    if i == -1 || !lru {
        s
    } else {
        s.remove(i).push(s[i])
    }
}

/// The cache content after inserting `k -> v` at time `now`: an existing
/// entry for `k` is overwritten and marked most recent; otherwise the new
/// entry is appended, and a full bounded cache first evicts its least
/// recently used entry.
pub open spec fn insert_update(
    s: CacheModel,
    k: Seq<u64>,
    v: u64,
    now: u64,
    cap: Option<usize>,
) -> CacheModel {
    let e = (k, now, v);
    let i = find_key(s, k);
    if i >= 0 {
        s.remove(i).push(e)
    } else if cap is Some && s.len() >= cap->Some_0 {
        s.drop_first().push(e)
    } else {
        s.push(e)
    }
}

/// What [`find_key`] finds: a valid index holding `k`, before which no
/// entry holds `k`; or -1 exactly when no entry holds `k`.
pub proof fn lemma_find_key(s: CacheModel, k: Seq<u64>)
    ensures
        find_key(s, k) == -1 ==> forall|i: int| 0 <= i < s.len() ==> s[i].0 != k,
        find_key(s, k) != -1 ==> 0 <= find_key(s, k) < s.len() && s[find_key(s, k)].0 == k,
        find_key(s, k) != -1 ==> forall|i: int| 0 <= i < find_key(s, k) ==> s[i].0 != k,
    decreases s.len(),
{
    if s.len() > 0 && s[0].0 != k {
        lemma_find_key(s.drop_first(), k);
        let r = find_key(s.drop_first(), k);
        if r == -1 {
            assert forall|i: int| 0 <= i < s.len() implies s[i].0 != k by {
                if i > 0 {
                    assert(s.drop_first()[i - 1] == s[i]);
                }
            }
        } else {
            assert(s[r + 1] == s.drop_first()[r]);
            assert forall|i: int| 0 <= i < find_key(s, k) implies s[i].0 != k by {
                if i > 0 {
                    assert(s.drop_first()[i - 1] == s[i]);
                }
            }
        }
    }
}

/// [`find_key`] finds the index of the entry holding `k` when no earlier
/// entry holds it.
pub proof fn lemma_find_key_at(s: CacheModel, k: Seq<u64>, i: int)
    requires
        0 <= i < s.len(),
        s[i].0 == k,
        forall|j: int| 0 <= j < i ==> s[j].0 != k,
    ensures
        find_key(s, k) == i,
{
    lemma_find_key(s, k);
    if find_key(s, k) == -1 {
        assert(s[i].0 != k);
    } else {
        let f = find_key(s, k);
        if f < i {
            assert(s[f].0 != k);
        }
        if f > i {
            assert(s[i].0 != k);
        }
    }
}

/// After an insert, the inserted entry is the single, most recent entry
/// for its key, and keys stay pairwise distinct.
pub proof fn lemma_insert_puts_key_last(
    s: CacheModel,
    k: Seq<u64>,
    v: u64,
    now: u64,
    cap: Option<usize>,
)
    requires
        distinct_keys(s),
        cap is Some ==> cap->Some_0 >= 1,
    ensures
        ({
            let s2 = insert_update(s, k, v, now, cap);
            &&& s2.len() >= 1
            &&& s2.last() == (k, now, v)
            &&& forall|j: int| 0 <= j < s2.len() - 1 ==> s2[j].0 != k
            &&& find_key(s2, k) == s2.len() - 1
            &&& distinct_keys(s2)
        }),
{
    let s2 = insert_update(s, k, v, now, cap);
    let i = find_key(s, k);
    lemma_find_key(s, k);
    if i >= 0 {
        s.remove_ensures(i);
        assert forall|j: int| 0 <= j < s2.len() - 1 implies s2[j].0 != k by {
            if j < i {
                assert(s2[j] == s[j]);
            } else {
                assert(s2[j] == s[j + 1]);
            }
        }
        assert forall|p: int, q: int| 0 <= p < q < s2.len() implies s2[p].0 != s2[q].0 by {
            if q < s2.len() - 1 {
                assert(s2[p] == (if p < i { s[p] } else { s[p + 1] }));
                assert(s2[q] == (if q < i { s[q] } else { s[q + 1] }));
            }
        }
    } else if cap is Some && s.len() >= cap->Some_0 {
        assert(s.len() >= 1);
        assert forall|j: int| 0 <= j < s2.len() - 1 implies s2[j].0 != k by {
            assert(s2[j] == s.drop_first()[j]);
            assert(s.drop_first()[j] == s[j + 1]);
        }
        assert forall|p: int, q: int| 0 <= p < q < s2.len() implies s2[p].0 != s2[q].0 by {
            if q < s2.len() - 1 {
                assert(s2[p] == s[p + 1]);
                assert(s2[q] == s[q + 1]);
            } else {
                assert(s2[p] == s[p + 1]);
            }
        }
    } else {
        assert forall|j: int| 0 <= j < s2.len() - 1 implies s2[j].0 != k by {
            assert(s2[j] == s[j]);
        }
        assert forall|p: int, q: int| 0 <= p < q < s2.len() implies s2[p].0 != s2[q].0 by {
            if q < s2.len() - 1 {
                assert(s2[p] == s[p]);
                assert(s2[q] == s[q]);
            } else {
                assert(s2[p] == s[p]);
            }
        }
    }
    lemma_find_key_at(s2, k, s2.len() - 1);
}

/// One cache, as the generated storage declaration creates it: the closed
/// set of storage strategies behind one interface — insert, lookup, clear,
/// size — chosen once at construction. A bound makes it the LRU backend; a
/// time-to-live makes lookups filter out stale entries.
pub struct MemoCache {
    entries: Vec<CacheEntry>,
    capacity: Option<usize>,
    ttl: Option<u64>,
}

impl View for MemoCache {
    type V = CacheModel;

    closed spec fn view(&self) -> CacheModel {
        Seq::new(
            self.entries@.len(),
            |i: int| (self.entries@[i].key@, self.entries@[i].stamp, self.entries@[i].value),
        )
    }
}

impl MemoCache {
    /// The capacity bound the cache was created with, if any.
    pub closed spec fn spec_capacity(self) -> Option<usize> {
        self.capacity
    }

    /// The time-to-live the cache was created with, if any.
    pub closed spec fn spec_ttl(self) -> Option<u64> {
        self.ttl
    }

    /// Well-formedness: keys are pairwise distinct, and a bounded cache is
    /// positive and never over its bound.
    pub open spec fn wf(self) -> bool {
        &&& distinct_keys(self@)
        &&& (self.spec_capacity() is Some ==> self.spec_capacity()->Some_0 >= 1 && self@.len()
            <= self.spec_capacity()->Some_0)
    }

    /// Creates an empty cache. A capacity bound, when given, must be
    /// positive.
    pub fn new(capacity: Option<usize>, ttl: Option<u64>) -> (c: MemoCache)
        requires
            capacity is Some ==> capacity->Some_0 >= 1,
        ensures
            c.wf(),
            c@ == Seq::<(Seq<u64>, u64, u64)>::empty(),
            c.spec_capacity() == capacity,
            c.spec_ttl() == ttl,
    {
        let c = MemoCache { entries: Vec::new(), capacity, ttl };
        proof {
            assert(c@ =~= Seq::<(Seq<u64>, u64, u64)>::empty());
        }
        c
    }

    /// The index of the entry holding `key`, if one does.
    fn find_index(&self, key: &Vec<u64>) -> (r: Option<usize>)
        ensures
            match r {
                Option::Some(i) => i < self@.len() && find_key(self@, key@) == i as int,
                Option::None => find_key(self@, key@) == -1,
            },
    {
        let mut i: usize = 0;
        while i < self.entries.len()
            invariant
                0 <= i <= self@.len(),
                self@.len() == self.entries@.len(),
                forall|j: int| 0 <= j < i ==> self@[j].0 != key@,
            decreases self.entries@.len() - i,
        {
            if keys_equal(&self.entries[i].key, key) {
                proof {
                    lemma_find_key_at(self@, key@, i as int);
                }
                return Some(i);
            }
            i = i + 1;
        }
        proof {
            lemma_find_key(self@, key@);
            if find_key(self@, key@) != -1 {
                assert(self@[find_key(self@, key@)].0 != key@);
            }
        }
        None
    }

    /// Looks `key` up at time `now`. This is the `LookupAttempt` step of
    /// the lookup-or-compute protocol: a fresh hit returns the cached value
    /// (the fast path), a stale hit is discarded and treated as a miss, and
    /// a bounded LRU cache marks a found entry most recent.
    pub fn lookup(&mut self, key: &Vec<u64>, now: u64) -> (r: Option<u64>)
        requires
            old(self).wf(),
        ensures
            final(self).wf(),
            final(self).spec_capacity() == old(self).spec_capacity(),
            final(self).spec_ttl() == old(self).spec_ttl(),
            r == lookup_result(old(self)@, key@, now, old(self).spec_ttl()),
            final(self)@ == lookup_update(old(self)@, key@, old(self).spec_capacity() is Some),
    {
        let ghost s = self@;
        match self.find_index(key) {
            None => None,
            Some(i) => {
                let stamp = self.entries[i].stamp;
                let value = self.entries[i].value;
                let fresh = match self.ttl {
                    None => true,
                    Some(d) => {
                        let elapsed = if now >= stamp {
                            now - stamp
                        } else {
                            0
                        };
                        elapsed < d
                    },
                };
                if self.capacity.is_some() {
                    let e = self.entries.remove(i);
                    self.entries.push(e);
                    proof {
                        assert(self@ =~= s.remove(i as int).push(s[i as int]));
                        lemma_distinct_move_to_back(s, i as int);
                    }
                }
                if fresh {
                    Some(value)
                } else {
                    None
                }
            },
        }
    }

    /// Stores `key -> value` at time `now`. This is the `StoreResult` step
    /// of the lookup-or-compute protocol: an existing entry for the key is
    /// overwritten and marked most recent; otherwise the entry is appended,
    /// a full bounded cache first evicting its least recently used entry.
    pub fn insert(&mut self, key: Vec<u64>, value: u64, now: u64)
        requires
            old(self).wf(),
        ensures
            final(self).wf(),
            final(self).spec_capacity() == old(self).spec_capacity(),
            final(self).spec_ttl() == old(self).spec_ttl(),
            final(self)@ == insert_update(old(self)@, key@, value, now, old(self).spec_capacity()),
    {
        let ghost s = self@;
        proof {
            lemma_insert_puts_key_last(s, key@, value, now, self.spec_capacity());
        }
        match self.find_index(&key) {
            Some(i) => {
                self.entries.remove(i);
                self.entries.push(CacheEntry { key, stamp: now, value });
                proof {
                    assert(self@ =~= s.remove(i as int).push((key@, now, value)));
                }
            },
            None => {
                let at_cap = match self.capacity {
                    Some(c) => self.entries.len() >= c,
                    None => false,
                };
                if at_cap {
                    self.entries.remove(0);
                    self.entries.push(CacheEntry { key, stamp: now, value });
                    proof {
                        assert(self@ =~= s.drop_first().push((key@, now, value)));
                    }
                } else {
                    self.entries.push(CacheEntry { key, stamp: now, value });
                    proof {
                        assert(self@ =~= s.push((key@, now, value)));
                    }
                }
            },
        }
    }

    /// Removes every entry. This is the flush operation; the configuration
    /// is kept.
    pub fn clear(&mut self)
        requires
            old(self).wf(),
        ensures
            final(self).wf(),
            final(self).spec_capacity() == old(self).spec_capacity(),
            final(self).spec_ttl() == old(self).spec_ttl(),
            final(self)@ == Seq::<(Seq<u64>, u64, u64)>::empty(),
    {
        self.entries.clear();
        proof {
            assert(self@ =~= Seq::<(Seq<u64>, u64, u64)>::empty());
        }
    }

    /// The number of entries. This is the size operation; stale entries
    /// linger until overwritten or evicted, so they count.
    pub fn size(&self) -> (n: usize)
        ensures
            n == self@.len(),
    {
        self.entries.len()
    }
}

/// Whether two keys are the same sequence of components.
fn keys_equal(a: &Vec<u64>, b: &Vec<u64>) -> (r: bool)
    ensures
        r == (a@ == b@),
{
    if a.len() != b.len() {
        proof {
            if a@ == b@ {
                assert(false);
            }
        }
        return false;
    }
    let mut i: usize = 0;
    while i < a.len()
        invariant
            0 <= i <= a@.len(),
            a@.len() == b@.len(),
            forall|j: int| 0 <= j < i ==> a@[j] == b@[j],
        decreases a@.len() - i,
    {
        if a[i] != b[i] {
            proof {
                if a@ == b@ {
                    assert(a@[i as int] == b@[i as int]);
                }
            }
            return false;
        }
        i = i + 1;
    }
    proof {
        assert(a@ =~= b@);
    }
    true
}

/// The roles of the classified parameters, in declaration order: `true`
/// where the parameter is memoized.
pub open spec fn roles_of(ps: Seq<FnArgument>) -> Seq<bool> {
    ps.map_values(|p: FnArgument| p.is_memoized)
}

/// The cache key a list of argument values builds: the values at the
/// memoized positions, in declaration order.
pub open spec fn memo_key(args: Seq<u64>, memoized: Seq<bool>) -> Seq<u64>
    decreases args.len(),
{
    if args.len() == 0 || memoized.len() == 0 {
        Seq::empty()
    } else {
        (if memoized[0] {
            seq![args[0]]
        } else {
            Seq::empty()
        }) + memo_key(args.drop_first(), memoized.drop_first())
    }
}

proof fn lemma_memo_key_take_step(args: Seq<u64>, memoized: Seq<bool>, i: int)
    requires
        args.len() == memoized.len(),
        0 <= i < args.len(),
    ensures
        memo_key(args.take(i + 1), memoized.take(i + 1)) == memo_key(args.take(i), memoized.take(i))
            + (if memoized[i] {
            seq![args[i]]
        } else {
            Seq::<u64>::empty()
        }),
    decreases i,
{
    let tail_i = if memoized[i] {
        seq![args[i]]
    } else {
        Seq::<u64>::empty()
    };
    let head = if memoized[0] {
        seq![args[0]]
    } else {
        Seq::<u64>::empty()
    };
    if i == 0 {
        assert(args.take(1).drop_first() =~= Seq::empty());
        assert(memoized.take(1).drop_first() =~= Seq::empty());
        assert(args.take(0) =~= Seq::empty());
        assert(memoized.take(0) =~= Seq::empty());
        assert(memoized.take(1)[0] == memoized[0]);
        assert(memo_key(args.take(1), memoized.take(1)) == head + memo_key(
            args.take(1).drop_first(),
            memoized.take(1).drop_first(),
        ));
        assert(memo_key(args.take(1), memoized.take(1)) =~= Seq::<u64>::empty() + tail_i);
    } else {
        let ad = args.drop_first();
        let md = memoized.drop_first();
        lemma_memo_key_take_step(ad, md, i - 1);
        assert(args.take(i + 1).drop_first() =~= ad.take(i));
        assert(memoized.take(i + 1).drop_first() =~= md.take(i));
        assert(args.take(i).drop_first() =~= ad.take(i - 1));
        assert(memoized.take(i).drop_first() =~= md.take(i - 1));
        assert(memo_key(args.take(i + 1), memoized.take(i + 1)) == head + memo_key(
            ad.take(i),
            md.take(i),
        ));
        assert(memo_key(args.take(i), memoized.take(i)) == head + memo_key(
            ad.take(i - 1),
            md.take(i - 1),
        ));
        assert(md[i - 1] == memoized[i] && ad[i - 1] == args[i]);
        assert(memo_key(ad.take(i), md.take(i)) == memo_key(ad.take(i - 1), md.take(i - 1))
            + tail_i);
        assert(head + (memo_key(ad.take(i - 1), md.take(i - 1)) + tail_i) =~= (head + memo_key(
            ad.take(i - 1),
            md.take(i - 1),
        )) + tail_i);
    }
}

/// Builds the cache key from the argument values and the classified
/// parameters: the values of the memoized arguments, in declaration order.
/// Ignored arguments contribute nothing.
pub fn build_key(args: &Vec<u64>, params: &Vec<FnArgument>) -> (r: Vec<u64>)
    requires
        args@.len() == params@.len(),
    ensures
        r@ == memo_key(args@, roles_of(params@)),
{
    let mut out: Vec<u64> = Vec::new();
    let mut i: usize = 0;
    while i < args.len()
        invariant
            0 <= i <= args@.len(),
            args@.len() == params@.len(),
            out@ == memo_key(args@.take(i as int), roles_of(params@).take(i as int)),
        decreases args@.len() - i,
    {
        let ghost prev = out@;
        if params[i].is_memoized {
            out.push(args[i]);
        }
        proof {
            lemma_memo_key_take_step(args@, roles_of(params@), i as int);
            assert(roles_of(params@)[i as int] == params@[i as int].is_memoized);
            if params@[i as int].is_memoized {
                assert(out@ =~= prev + seq![args@[i as int]]);
            } else {
                assert(out@ =~= prev + Seq::<u64>::empty());
            }
        }
        i = i + 1;
    }
    proof {
        assert(args@.take(args@.len() as int) =~= args@);
        assert(roles_of(params@).take(args@.len() as int) =~= roles_of(params@));
    }
    out
}

/// Idempotent caching: once a result `v` for the memoized key `k` has been
/// stored at time `t`, a lookup of `k` at any time `t2` at which the entry
/// is still fresh — with no other write or flush in between — hits and
/// returns exactly `v`, so the underlying implementation is not run again;
/// and the hit leaves the cached entries unchanged, so every further such
/// lookup hits the same way.
pub proof fn lemma_idempotent_caching(
    s: CacheModel,
    k: Seq<u64>,
    v: u64,
    t: u64,
    t2: u64,
    cap: Option<usize>,
    ttl: Option<u64>,
    lru: bool,
)
    requires
        distinct_keys(s),
        cap is Some ==> cap->Some_0 >= 1,
        fresh_at(t, t2, ttl),
    ensures
        lookup_result(insert_update(s, k, v, t, cap), k, t2, ttl) == Option::<u64>::Some(v),
        lookup_update(insert_update(s, k, v, t, cap), k, lru) == insert_update(s, k, v, t, cap),
{
    let s2 = insert_update(s, k, v, t, cap);
    lemma_insert_puts_key_last(s, k, v, t, cap);
    let n = s2.len();
    if lru {
        s2.remove_ensures(n - 1);
        assert(s2.remove(n - 1).push(s2[n - 1]) =~= s2);
    }
}

/// Flush clears all: after a flush the cache holds no entries, size
/// reports zero, and a lookup of any previously cached key misses, so the
/// next call recomputes.
pub proof fn lemma_flush_clears_all(k: Seq<u64>, now: u64, ttl: Option<u64>)
    ensures
        Seq::<(Seq<u64>, u64, u64)>::empty().len() == 0,
        lookup_result(Seq::empty(), k, now, ttl) == Option::<u64>::None,
{
}

/// LRU bound: a bounded cache holding its full `c` pairwise distinct keys,
/// asked to insert one more distinct key, evicts exactly the least
/// recently used entry — the bound is kept, a lookup of the evicted key
/// misses at any time, the new key is present and most recent, and every
/// other key is still present.
pub proof fn lemma_lru_bound(
    s: CacheModel,
    k: Seq<u64>,
    v: u64,
    t: u64,
    c: usize,
    now: u64,
    ttl: Option<u64>,
)
    requires
        distinct_keys(s),
        s.len() == c,
        c >= 1,
        find_key(s, k) == -1,
    ensures
        ({
            let s2 = insert_update(s, k, v, t, Some(c));
            &&& s2.len() == c
            &&& lookup_result(s2, s[0].0, now, ttl) == Option::<u64>::None
            &&& find_key(s2, k) == c - 1
            &&& forall|j: int| 1 <= j < s.len() ==> find_key(s2, s[j].0) >= 0
        }),
{
    let s2 = insert_update(s, k, v, t, Some(c));
    lemma_find_key(s, k);
    lemma_insert_puts_key_last(s, k, v, t, Some(c));
    lemma_find_key(s2, s[0].0);
    if find_key(s2, s[0].0) != -1 {
        let f = find_key(s2, s[0].0);
        if f < s2.len() - 1 {
            assert(s2[f] == s.drop_first()[f]);
            assert(s.drop_first()[f] == s[f + 1]);
            assert(false);
        } else {
            assert(s2[f] == (k, t, v));
            assert(s[0].0 != k);
            assert(false);
        }
    }
    assert forall|j: int| 1 <= j < s.len() implies find_key(s2, s[j].0) >= 0 by {
        assert(s2[j - 1] == s.drop_first()[j - 1]);
        assert(s.drop_first()[j - 1] == s[j]);
        lemma_find_key(s2, s[j].0);
        if find_key(s2, s[j].0) == -1 {
            assert(s2[j - 1].0 != s[j].0);
        }
    }
}

/// Time-to-live expiry: with duration `d`, a lookup of a key stored at
/// time `t`, with no intervening write, misses once the elapsed time
/// reaches `d` — so the value is recomputed — and hits with the stored
/// value while the elapsed time is below `d`.
pub proof fn lemma_ttl_expiry(
    s: CacheModel,
    k: Seq<u64>,
    v: u64,
    t: u64,
    now: u64,
    cap: Option<usize>,
    d: u64,
)
    requires
        distinct_keys(s),
        cap is Some ==> cap->Some_0 >= 1,
    ensures
        entry_elapsed(t, now) >= d ==> lookup_result(
            insert_update(s, k, v, t, cap),
            k,
            now,
            Some(d),
        ) == Option::<u64>::None,
        entry_elapsed(t, now) < d ==> lookup_result(insert_update(s, k, v, t, cap), k, now, Some(d))
            == Option::<u64>::Some(v),
{
    lemma_insert_puts_key_last(s, k, v, t, cap);
}

/// Ignore exclusion: two argument lists that agree on every memoized
/// position build the same cache key, whatever their ignored positions
/// hold — so two such calls hit the same entry.
pub proof fn lemma_ignore_exclusion(a1: Seq<u64>, a2: Seq<u64>, memoized: Seq<bool>)
    requires
        a1.len() == memoized.len(),
        a2.len() == memoized.len(),
        forall|i: int| 0 <= i < memoized.len() && memoized[i] ==> a1[i] == a2[i],
    ensures
        memo_key(a1, memoized) == memo_key(a2, memoized),
    decreases memoized.len(),
{
    if memoized.len() > 0 {
        assert forall|i: int|
            0 <= i < memoized.drop_first().len() && memoized.drop_first()[i] implies a1.drop_first()[i]
            == a2.drop_first()[i] by {
            assert(memoized.drop_first()[i] == memoized[i + 1]);
            assert(a1.drop_first()[i] == a1[i + 1]);
            assert(a2.drop_first()[i] == a2[i + 1]);
        }
        lemma_ignore_exclusion(a1.drop_first(), a2.drop_first(), memoized.drop_first());
        if memoized[0] {
            assert(a1[0] == a2[0]);
        }
    }
}

/// Moving an entry to the back keeps keys pairwise distinct.
proof fn lemma_distinct_move_to_back(s: CacheModel, i: int)
    requires
        distinct_keys(s),
        0 <= i < s.len(),
    ensures
        distinct_keys(s.remove(i).push(s[i])),
{
    let s2 = s.remove(i).push(s[i]);
    assert(forall|j: int|
        0 <= j < s.remove(i).len() ==> #[trigger] s.remove(i)[j] == (if j < i {
            s[j]
        } else {
            s[j + 1]
        }));
    assert forall|p: int, q: int| 0 <= p < q < s2.len() implies s2[p].0 != s2[q].0 by {
        if q == s2.len() - 1 {
            assert(s2[q] == s[i]);
        }
    }
}

} // verus!
