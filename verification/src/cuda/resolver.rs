//! Where the names a trace states are looked up.

use crate::cuda::trace::ValueId;
use crate::strings::str_eq;
use std::collections::BTreeMap;
use vstd::prelude::*;

verus! {

/// Resolves the names the trace states against the driver's stores.
///
/// An implementation is a map: what it answers for a name is a function of
/// the name, and asking does not change any answer.
pub trait Resolver: Sized {
    /// The device address of a weight, or `None` when the store lacks it.
    spec fn weight_at(&self, name: Seq<char>) -> Option<u64>;

    /// The device address of a backend-named value, or `None`.
    spec fn named_at(&self, value: ValueId) -> Option<u64>;

    /// The device address for a weight the trace names (`layer.3.q_proj`), or
    /// `None`, which is drift rather than absence: a trace that names a weight
    /// the store lacks was traced against a different binding.
    fn weight(&mut self, name: &str) -> (address: Option<u64>)
        ensures
            address == old(self).weight_at(name@),
            forall|n: Seq<char>| #[trigger] final(self).weight_at(n) == old(self).weight_at(n),
            forall|v: ValueId| #[trigger] final(self).named_at(v) == old(self).named_at(v),
    ;

    /// The device address for a backend-named value (the observed query, the
    /// logits).
    fn named(&mut self, value: ValueId) -> (address: Option<u64>)
        ensures
            address == old(self).named_at(value),
            forall|n: Seq<char>| #[trigger] final(self).weight_at(n) == old(self).weight_at(n),
            forall|v: ValueId| #[trigger] final(self).named_at(v) == old(self).named_at(v),
    ;
}

/// Two resolvers answer every name alike.
pub open spec fn same_answers<R: Resolver>(a: R, b: R) -> bool {
    &&& forall|name: Seq<char>| #[trigger] b.weight_at(name) == a.weight_at(name)
    &&& forall|value: ValueId| #[trigger] b.named_at(value) == a.named_at(value)
}

/// A table from names to values; a name bound again holds its latest value.
#[derive(Clone, Debug)]
pub struct NameTable<V> {
    entries: Vec<(String, V)>,
}

/// The first entry that carries `name`.
pub open spec fn first_entry<V>(entries: Seq<(String, V)>, name: Seq<char>) -> Option<V>
    decreases entries.len(),
{
    if entries.len() == 0 {
        None
    } else if entries[0].0@ == name {
        Some(entries[0].1)
    } else {
        first_entry(entries.skip(1), name)
    }
}

/// An entry before which none carries `name` decides the lookup.
proof fn lemma_first_entry<V>(entries: Seq<(String, V)>, name: Seq<char>, i: int)
    requires
        0 <= i <= entries.len(),
        forall|j: int| 0 <= j < i ==> (#[trigger] entries[j]).0@ != name,
    ensures
        i < entries.len() && entries[i].0@ == name ==> first_entry(entries, name) == Some(
            entries[i].1,
        ),
        i == entries.len() ==> first_entry(entries, name) is None,
    decreases entries.len(),
{
    if i > 0 {
        let rest = entries.skip(1);
        assert(forall|j: int| 0 <= j < rest.len() ==> rest[j] == entries[j + 1]);
        lemma_first_entry(rest, name, i - 1);
    }
}

/// Changing the value of the first entry for a name changes that name alone.
proof fn lemma_replace_entry<V>(entries: Seq<(String, V)>, i: int, v: V, name: Seq<char>)
    requires
        0 <= i < entries.len(),
        forall|j: int| 0 <= j < i ==> (#[trigger] entries[j]).0@ != entries[i].0@,
    ensures
        first_entry(entries.update(i, (entries[i].0, v)), name) == (if name == entries[i].0@ {
            Some(v)
        } else {
            first_entry(entries, name)
        }),
    decreases entries.len(),
{
    let after = entries.update(i, (entries[i].0, v));
    if i == 0 {
        assert(after.skip(1) =~= entries.skip(1));
    } else {
        let rest = entries.skip(1);
        assert(forall|j: int| 0 <= j < rest.len() ==> rest[j] == entries[j + 1]);
        assert(after.skip(1) =~= rest.update(i - 1, (rest[i - 1].0, v)));
        lemma_replace_entry(rest, i - 1, v, name);
    }
}

/// An entry appended for a name nothing carried adds that name alone.
proof fn lemma_append_entry<V>(entries: Seq<(String, V)>, e: (String, V), name: Seq<char>)
    requires
        forall|j: int| 0 <= j < entries.len() ==> (#[trigger] entries[j]).0@ != e.0@,
    ensures
        first_entry(entries.push(e), name) == (if name == e.0@ {
            Some(e.1)
        } else {
            first_entry(entries, name)
        }),
    decreases entries.len(),
{
    let after = entries.push(e);
    if entries.len() == 0 {
        assert(after.skip(1) =~= entries);
        assert(after.skip(1).len() == 0);
    } else {
        let rest = entries.skip(1);
        assert(forall|j: int| 0 <= j < rest.len() ==> rest[j] == entries[j + 1]);
        assert(after.skip(1) =~= rest.push(e));
        assert(after[0] == entries[0]);
        lemma_append_entry(rest, e, name);
    }
}

/// What a name is bound to once another, or the same, has been bound.
pub open spec fn rebound<V>(
    before: Option<V>,
    bound: Seq<char>,
    value: V,
    name: Seq<char>,
) -> Option<V> {
    if name == bound {
        Some(value)
    } else {
        before
    }
}

/// A name is bound to what was bound to it last, whatever was before, and
/// binding a name leaves every other as it was.
pub proof fn law_the_last_binding_stands<V>(
    before: Option<V>,
    bound: Seq<char>,
    value: V,
    name: Seq<char>,
)
    ensures
        rebound(before, bound, value, bound) == Some(value),
        name != bound ==> rebound(before, bound, value, name) == before,
{
}

impl<V: Copy> NameTable<V> {
    /// What the table holds for a name.
    pub closed spec fn lookup(&self, name: Seq<char>) -> Option<V> {
        first_entry(self.entries@, name)
    }

    /// An empty table.
    pub fn new() -> (table: Self)
        ensures
            forall|name: Seq<char>| #[trigger] table.lookup(name) is None,
    {
        NameTable { entries: Vec::new() }
    }

    /// The index of the first entry for `name`, or the table's length.
    fn position(&self, name: &str) -> (i: usize)
        ensures
            i <= self.entries@.len(),
            forall|j: int| 0 <= j < i ==> (#[trigger] self.entries@[j]).0@ != name@,
            i < self.entries@.len() ==> self.entries@[i as int].0@ == name@,
    {
        let mut i: usize = 0;
        while i < self.entries.len()
            invariant
                i <= self.entries@.len(),
                forall|j: int| 0 <= j < i ==> (#[trigger] self.entries@[j]).0@ != name@,
            decreases self.entries@.len() - i,
        {
            if str_eq(self.entries[i].0.as_str(), name) {
                return i;
            }
            i += 1;
        }
        i
    }

    /// The value bound to `name`.
    pub fn get(&self, name: &str) -> (value: Option<V>)
        ensures
            value == self.lookup(name@),
    {
        let i: usize = self.position(name);
        proof {
            lemma_first_entry(self.entries@, name@, i as int);
        }
        if i < self.entries.len() {
            Some(self.entries[i].1)
        } else {
            None
        }
    }

    /// Bind `name` to `value`.
    pub fn insert(&mut self, name: String, value: V)
        ensures
            forall|n: Seq<char>| #[trigger]
                final(self).lookup(n) == (if n == name@ {
                    Some(value)
                } else {
                    old(self).lookup(n)
                }),
            forall|n: Seq<char>| #[trigger]
                final(self).lookup(n) == rebound(old(self).lookup(n), name@, value, n),
    {
        let i: usize = self.position(name.as_str());
        let ghost before = self.entries@;
        if i < self.entries.len() {
            let kept = self.entries[i].0.clone();
            self.entries.set(i, (kept, value));
            proof {
                assert(self.entries@ =~= before.update(i as int, (before[i as int].0, value)));
                assert forall|n: Seq<char>| #[trigger]
                    self.lookup(n) == (if n == name@ {
                        Some(value)
                    } else {
                        old(self).lookup(n)
                    }) by {
                    lemma_replace_entry(before, i as int, value, n);
                }
            }
        } else {
            let ghost e = (name, value);
            self.entries.push((name, value));
            proof {
                assert forall|n: Seq<char>| #[trigger]
                    self.lookup(n) == (if n == e.0@ {
                        Some(value)
                    } else {
                        old(self).lookup(n)
                    }) by {
                    lemma_append_entry(before, e, n);
                }
            }
        }
    }
}

/// A store-backed [`Resolver`]: the loader fills it, the executor asks it.
#[derive(Debug)]
pub struct MapResolver {
    weights: NameTable<u64>,
    named: BTreeMap<ValueId, u64>,
}

impl MapResolver {
    /// What the store holds for a weight name.
    pub closed spec fn weight_bound(&self, name: Seq<char>) -> Option<u64> {
        self.weights.lookup(name)
    }

    /// What the store holds for a named value.
    pub closed spec fn named_bound(&self, value: ValueId) -> Option<u64> {
        if self.named@.dom().contains(value) {
            Some(self.named@[value])
        } else {
            None
        }
    }

    /// An empty map: every ask is a drift until something is inserted.
    pub fn new() -> (map: Self)
        ensures
            forall|name: Seq<char>| #[trigger] map.weight_at(name) is None,
            forall|value: ValueId| #[trigger] map.named_at(value) is None,
    {
        MapResolver { weights: NameTable::new(), named: BTreeMap::new() }
    }

    /// Bind a weight name to its device tensor.
    pub fn insert_weight(&mut self, name: String, address: u64)
        ensures
            forall|n: Seq<char>| #[trigger]
                final(self).weight_at(n) == (if n == name@ {
                    Some(address)
                } else {
                    old(self).weight_at(n)
                }),
            forall|v: ValueId| #[trigger] final(self).named_at(v) == old(self).named_at(v),
    {
        self.weights.insert(name, address);
    }

    /// Bind a pinned seam value to its buffer.
    pub fn insert_named(&mut self, value: ValueId, address: u64)
        ensures
            forall|n: Seq<char>| #[trigger] final(self).weight_at(n) == old(self).weight_at(n),
            forall|v: ValueId| #[trigger]
                final(self).named_at(v) == (if v == value {
                    Some(address)
                } else {
                    old(self).named_at(v)
                }),
    {
        self.named.insert(value, address);
    }
}

impl Default for MapResolver {
    fn default() -> (map: Self)
        ensures
            forall|name: Seq<char>| #[trigger] map.weight_at(name) is None,
            forall|value: ValueId| #[trigger] map.named_at(value) is None,
    {
        MapResolver::new()
    }
}

impl Resolver for MapResolver {
    open spec fn weight_at(&self, name: Seq<char>) -> Option<u64> {
        self.weight_bound(name)
    }

    open spec fn named_at(&self, value: ValueId) -> Option<u64> {
        self.named_bound(value)
    }

    fn weight(&mut self, name: &str) -> (address: Option<u64>) {
        self.weights.get(name)
    }

    fn named(&mut self, value: ValueId) -> (address: Option<u64>) {
        match self.named.get(&value) {
            Some(address) => Some(*address),
            None => None,
        }
    }
}

} // verus!
