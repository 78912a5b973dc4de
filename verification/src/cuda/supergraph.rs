//! The union cache: one instantiated graph per bucket.
//!
//! A captured graph bakes in every address and every launch geometry it
//! recorded, so whatever a capture may not vary over is in the key: the
//! request and token counts, the fire class, and the loaded model. Whatever a
//! capture can vary over is not: a variant bit in the key would turn the union
//! back into one capture per variant.

use crate::cuda::trace::FireClass;
use vstd::prelude::*;

verus! {

/// What a capture may not vary over.
#[derive(Clone, Copy, Debug, PartialEq, Eq, Hash, Structural)]
pub struct BucketKey {
    /// Requests in the fire.
    pub requests: u32,
    /// Token rows in the fire.
    pub tokens: u32,
    /// The fire class, by its position in [`FireClass`].
    pub fire: u8,
    /// Which loaded model this graph addresses.
    pub model: u64,
}

/// The key of a fire.
pub open spec fn bucket_of(requests: u32, tokens: u32, fire: FireClass, model: u64) -> BucketKey {
    BucketKey { requests, tokens, fire: fire as u8, model }
}

impl BucketKey {
    /// The key for a fire.
    pub fn new(requests: u32, tokens: u32, fire: FireClass, model: u64) -> (key: Self)
        ensures
            key == (BucketKey { requests, tokens, fire: fire as u8, model }),
            key == bucket_of(requests, tokens, fire, model),
    {
        BucketKey { requests, tokens, fire: fire as u8, model }
    }
}

/// Fires that differ in request count, token count, class or model have
/// different keys, and fires that agree on all four share one.
pub proof fn law_key_is_exactly_the_shape(
    requests: u32,
    tokens: u32,
    fire: FireClass,
    model: u64,
    requests2: u32,
    tokens2: u32,
    fire2: FireClass,
    model2: u64,
)
    ensures
        (BucketKey { requests, tokens, fire: fire as u8, model }) == (BucketKey {
            requests: requests2,
            tokens: tokens2,
            fire: fire2 as u8,
            model: model2,
        }) <==> requests == requests2 && tokens == tokens2 && fire == fire2 && model == model2,
        bucket_of(requests, tokens, fire, model) == bucket_of(requests2, tokens2, fire2, model2)
            <==> requests == requests2 && tokens == tokens2 && fire == fire2 && model == model2,
{
}

/// A handle on an instantiated graph.
#[derive(Clone, Copy, Debug, PartialEq, Eq, Structural)]
pub struct GraphExec {
    /// The graph's handle.
    pub handle: u64,
}

/// The instantiated graphs, by bucket.
#[derive(Debug)]
pub struct SupergraphCache {
    execs: Vec<(BucketKey, GraphExec)>,
    hits: u64,
    misses: u64,
}

/// What a cache's contents and counters are.
#[verifier::ext_equal]
pub struct CacheView {
    /// The exec of each bucket that has one.
    pub graphs: Map<BucketKey, GraphExec>,
    /// Asks that found one.
    pub hits: u64,
    /// Asks that found none.
    pub misses: u64,
}

/// What asking a cache for a key comes to: the exec, if there is one, and the
/// ask counted.
pub open spec fn asked(c: CacheView, key: BucketKey) -> (CacheView, Option<GraphExec>) {
    if c.graphs.contains_key(key) {
        (CacheView { hits: (c.hits + 1) as u64, ..c }, Some(c.graphs[key]))
    } else {
        (CacheView { misses: (c.misses + 1) as u64, ..c }, None)
    }
}

/// What installing an exec comes to: the cache with it, and the one it
/// replaces.
pub open spec fn installed(c: CacheView, key: BucketKey, exec: GraphExec) -> (
    CacheView,
    Option<GraphExec>,
) {
    (
        CacheView { graphs: c.graphs.insert(key, exec), ..c },
        if c.graphs.contains_key(key) {
            Some(c.graphs[key])
        } else {
            None
        },
    )
}

/// The keys of a run of entries.
spec fn keys_of(execs: Seq<(BucketKey, GraphExec)>) -> Seq<BucketKey> {
    Seq::new(execs.len(), |i: int| execs[i].0)
}

/// The entries as a map.
spec fn graphs_of(execs: Seq<(BucketKey, GraphExec)>) -> Map<BucketKey, GraphExec> {
    Map::new(
        |key: BucketKey| keys_of(execs).contains(key),
        |key: BucketKey| execs[keys_of(execs).index_of(key)].1,
    )
}

/// With one entry per key, an entry is what its key maps to.
proof fn lemma_entry_is_mapped(execs: Seq<(BucketKey, GraphExec)>, i: int)
    requires
        keys_of(execs).no_duplicates(),
        0 <= i < execs.len(),
    ensures
        graphs_of(execs).contains_key(execs[i].0),
        graphs_of(execs)[execs[i].0] == execs[i].1,
{
    let keys = keys_of(execs);
    assert(keys[i] == execs[i].0);
    assert(keys.contains(execs[i].0));
    let j = keys.index_of(execs[i].0);
    assert(keys[j] == keys[i]);
}

impl View for SupergraphCache {
    type V = CacheView;

    closed spec fn view(&self) -> CacheView {
        CacheView { graphs: graphs_of(self.execs@), hits: self.hits, misses: self.misses }
    }
}

impl Default for SupergraphCache {
    fn default() -> (cache: Self)
        ensures
            cache.wf(),
            cache@ == (CacheView { graphs: Map::empty(), hits: 0, misses: 0 }),
    {
        SupergraphCache::new()
    }
}

impl SupergraphCache {
    /// No bucket has two execs.
    pub closed spec fn wf(&self) -> bool {
        keys_of(self.execs@).no_duplicates()
    }

    /// An empty cache.
    pub fn new() -> (cache: Self)
        ensures
            cache.wf(),
            cache@ == (CacheView { graphs: Map::empty(), hits: 0, misses: 0 }),
    {
        let cache = SupergraphCache { execs: Vec::new(), hits: 0, misses: 0 };
        assert(cache@.graphs =~= Map::empty());
        cache
    }

    /// Where a key's entry stands, or the entry count.
    fn position(&self, key: BucketKey) -> (i: usize)
        requires
            self.wf(),
        ensures
            i <= self.execs@.len(),
            i < self.execs@.len() ==> self.execs@[i as int].0 == key && self@.graphs.contains_key(
                key,
            ) && self@.graphs[key] == self.execs@[i as int].1,
            i == self.execs@.len() ==> !self@.graphs.contains_key(key),
    {
        let mut i: usize = 0;
        while i < self.execs.len()
            invariant
                i <= self.execs@.len(),
                self.wf(),
                forall|j: int| 0 <= j < i ==> (#[trigger] self.execs@[j]).0 != key,
            decreases self.execs@.len() - i,
        {
            if self.execs[i].0 == key {
                proof {
                    lemma_entry_is_mapped(self.execs@, i as int);
                }
                return i;
            }
            i += 1;
        }
        assert(!keys_of(self.execs@).contains(key)) by {
            if keys_of(self.execs@).contains(key) {
                let j = keys_of(self.execs@).index_of(key);
                assert(self.execs@[j].0 == key);
            }
        }
        i
    }

    /// The exec for `key`, if one is captured. The ask is counted.
    pub fn get(&mut self, key: BucketKey) -> (exec: Option<&GraphExec>)
        requires
            old(self).wf(),
            old(self)@.hits < u64::MAX,
            old(self)@.misses < u64::MAX,
        ensures
            final(self).wf(),
            final(self)@.graphs == old(self)@.graphs,
            old(self)@.graphs.contains_key(key) ==> exec == Some(&old(self)@.graphs[key])
                && final(self)@.hits == old(self)@.hits + 1 && final(self)@.misses == old(
                self,
            )@.misses,
            !old(self)@.graphs.contains_key(key) ==> exec is None && final(self)@.hits == old(
                self,
            )@.hits && final(self)@.misses == old(self)@.misses + 1,
            final(self)@ == asked(old(self)@, key).0,
            exec is Some <==> asked(old(self)@, key).1 is Some,
            exec matches Some(e) ==> asked(old(self)@, key).1 == Some(*e),
    {
        let i: usize = self.position(key);
        if i < self.execs.len() {
            self.hits = self.hits + 1;
            Some(&self.execs[i].1)
        } else {
            self.misses = self.misses + 1;
            None
        }
    }

    /// Install a freshly instantiated exec, and hand back the one it replaces,
    /// which is the caller's to release.
    pub fn insert(&mut self, key: BucketKey, exec: GraphExec) -> (replaced: Option<GraphExec>)
        requires
            old(self).wf(),
        ensures
            final(self).wf(),
            replaced == (if old(self)@.graphs.contains_key(key) {
                Some(old(self)@.graphs[key])
            } else {
                None
            }),
            final(self)@ == (CacheView {
                graphs: old(self)@.graphs.insert(key, exec),
                hits: old(self)@.hits,
                misses: old(self)@.misses,
            }),
            (final(self)@, replaced) == installed(old(self)@, key, exec),
    {
        let i: usize = self.position(key);
        let ghost before = self.execs@;
        let mut replaced: Option<GraphExec> = None;
        if i < self.execs.len() {
            replaced = Some(self.execs[i].1);
            self.execs.set(i, (key, exec));
            assert(keys_of(self.execs@) =~= keys_of(before));
        } else {
            self.execs.push((key, exec));
            assert(keys_of(self.execs@) =~= keys_of(before).push(key));
            assert(!keys_of(before).contains(key));
        }
        proof {
            let after = self.execs@;
            assert forall|k: BucketKey|
                graphs_of(after).contains_key(k) == graphs_of(before).insert(
                    key,
                    exec,
                ).contains_key(k) by {
                if keys_of(before).contains(k) {
                    let j = keys_of(before).index_of(k);
                    assert(keys_of(after)[j] == k);
                }
                if keys_of(after).contains(k) {
                    let j = keys_of(after).index_of(k);
                    assert(after[j].0 == k);
                    if j < before.len() {
                        assert(keys_of(before)[j] == k);
                    }
                }
                if k == key {
                    assert(keys_of(after)[i as int] == key);
                }
            }
            assert forall|k: BucketKey| #[trigger] graphs_of(after).contains_key(k) implies graphs_of(
                after,
            )[k] == graphs_of(before).insert(key, exec)[k] by {
                let j = keys_of(after).index_of(k);
                assert(keys_of(after)[j] == k);
                lemma_entry_is_mapped(after, j);
                if k == key {
                    assert(keys_of(after)[i as int] == key);
                    assert(j == i);
                } else {
                    assert(j != i);
                    lemma_entry_is_mapped(before, j);
                }
            }
            assert(graphs_of(after) =~= graphs_of(before).insert(key, exec));
        }
        replaced
    }

    /// The graph to replay for `key`, if it is captured. The ask is counted.
    ///
    /// `None` is the caller's cue to capture, not an error: a cold bucket is
    /// the normal first fire of every shape.
    pub fn replay(&mut self, key: BucketKey) -> (exec: Option<GraphExec>)
        requires
            old(self).wf(),
            old(self)@.hits < u64::MAX,
            old(self)@.misses < u64::MAX,
        ensures
            final(self).wf(),
            final(self)@.graphs == old(self)@.graphs,
            old(self)@.graphs.contains_key(key) ==> exec == Some(old(self)@.graphs[key])
                && final(self)@.hits == old(self)@.hits + 1 && final(self)@.misses == old(
                self,
            )@.misses,
            !old(self)@.graphs.contains_key(key) ==> exec is None && final(self)@.hits == old(
                self,
            )@.hits && final(self)@.misses == old(self)@.misses + 1,
            (final(self)@, exec) == asked(old(self)@, key),
    {
        match self.get(key) {
            Some(exec) => Some(*exec),
            None => None,
        }
    }

    /// How many execs are live: the number this design exists to keep small.
    pub fn len(&self) -> (n: usize)
        requires
            self.wf(),
        ensures
            n == self@.graphs.len(),
            self@.graphs.dom().finite(),
    {
        proof {
            let keys = keys_of(self.execs@);
            keys.unique_seq_to_set();
            vstd::seq_lib::seq_to_set_is_finite(keys);
            assert(self@.graphs.dom() =~= keys.to_set());
        }
        self.execs.len()
    }

    /// Is the cache empty?
    pub fn is_empty(&self) -> (empty: bool)
        requires
            self.wf(),
        ensures
            empty <==> self@.graphs == Map::<BucketKey, GraphExec>::empty(),
    {
        proof {
            if self.execs@.len() == 0 {
                assert(self@.graphs =~= Map::empty());
            } else {
                lemma_entry_is_mapped(self.execs@, 0);
            }
        }
        self.execs.len() == 0
    }

    /// Hits and misses since construction.
    pub fn stats(&self) -> (counts: (u64, u64))
        ensures
            counts == (self@.hits, self@.misses),
    {
        (self.hits, self.misses)
    }
}

/// A bucket holds one exec however often it is captured: installing again
/// replaces, and the count of live execs grows only with a new bucket.
pub proof fn law_a_bucket_holds_one_exec(
    graphs: Map<BucketKey, GraphExec>,
    key: BucketKey,
    exec: GraphExec,
)
    requires
        graphs.dom().finite(),
    ensures
        graphs.insert(key, exec)[key] == exec,
        graphs.insert(key, exec).len() == graphs.len() + (if graphs.contains_key(key) {
            0int
        } else {
            1
        }),
        forall|other: BucketKey|
            other != key ==> (graphs.insert(key, exec).contains_key(other)
                <==> graphs.contains_key(other)),
{
    if graphs.contains_key(key) {
        assert(graphs.insert(key, exec).dom() =~= graphs.dom());
    } else {
        assert(graphs.insert(key, exec).dom() =~= graphs.dom().insert(key));
    }
}

/// What was installed last for a bucket is what is replayed for it, and what
/// any other bucket has is not touched; what was there before is handed back.
pub proof fn law_what_is_installed_is_replayed(
    c: CacheView,
    key: BucketKey,
    exec: GraphExec,
    other: BucketKey,
)
    ensures
        asked(installed(c, key, exec).0, key).1 == Some(exec),
        other != key ==> asked(installed(c, key, exec).0, other).1 == asked(c, other).1,
        installed(c, key, exec).1 == asked(c, key).1,
        installed(c, key, exec).0.hits == c.hits,
        installed(c, key, exec).0.misses == c.misses,
{
}

/// Every ask is counted once, as a hit where it finds an exec and as a miss
/// where it finds none, and changes nothing else.
pub proof fn law_every_ask_is_counted_once(c: CacheView, key: BucketKey)
    requires
        c.hits < u64::MAX,
        c.misses < u64::MAX,
    ensures
        ({
            let (after, found) = asked(c, key);
            &&& after.graphs == c.graphs
            &&& after.hits + after.misses == c.hits + c.misses + 1
            &&& after.hits > c.hits <==> found is Some
            &&& after.misses > c.misses <==> found is None
            &&& found is Some <==> c.graphs.dom().contains(key)
        }),
{
}

} // verus!
