//! A map kept as a vector of entries sorted by key, searched by bisection.
use crate::order::Ordered;
use std::cmp::Ordering;
use vstd::prelude::*;

verus! {

/// What an insertion did.
#[derive(Copy, Clone, Debug, PartialEq, Eq, Structural)]
pub enum InsertionResult {
    /// The key was new: an entry was added.
    Create,
    /// The key was present: its entry was replaced.
    Overwrite,
    /// The key was refused and nothing changed.
    InvalidKey,
}

/// What a removal did.
#[derive(Copy, Clone, Debug, PartialEq, Eq, Structural)]
pub enum RemovalResult {
    /// No entry has the key: nothing changed.
    KeyNotFound,
    /// The key's entry was taken out.
    Removed,
}

/// An ordered map: entries sorted strictly by key, so no key occurs twice.
pub struct OrderedVecMap<K: Ordered, T> {
    data: Vec<(K, T)>,
}

/// The keys of `s` stand in strictly increasing order.
pub open spec fn sorted<K: Ordered, T>(s: Seq<(K, T)>) -> bool {
    forall|i: int, j: int| 0 <= i < j < s.len() ==> (#[trigger] s[i]).0.lt(&(#[trigger] s[j]).0)
}

/// The first index from `i` on whose key does not sort before `key`.
pub open spec fn lower_bound_from<K: Ordered, T>(s: Seq<(K, T)>, key: &K, i: nat) -> nat
    decreases s.len() - i,
{
    if i < s.len() && s[i as int].0.lt(key) {
        lower_bound_from(s, key, i + 1)
    } else {
        i
    }
}

/// Where `key` stands in `s`: the number of entries that sort before it.
pub open spec fn lower_bound<K: Ordered, T>(s: Seq<(K, T)>, key: &K) -> int {
    lower_bound_from(s, key, 0) as int
}

/// `s` has an entry for `key`.
pub open spec fn has_key<K: Ordered, T>(s: Seq<(K, T)>, key: &K) -> bool {
    let i = lower_bound(s, key);
    i < s.len() && s[i].0.eqv(key)
}

/// `s` after `datum` is put in: in place of the entry with its key, or else
/// at the place that keeps the keys sorted.
pub open spec fn inserted<K: Ordered, T>(s: Seq<(K, T)>, datum: (K, T)) -> Seq<(K, T)> {
    let i = lower_bound(s, &datum.0);
    if has_key(s, &datum.0) {
        s.update(i, datum)
    } else {
        s.insert(i, datum)
    }
}

/// `s` without the entry for `key`.
pub open spec fn removed<K: Ordered, T>(s: Seq<(K, T)>, key: &K) -> Seq<(K, T)> {
    if has_key(s, key) {
        s.remove(lower_bound(s, key))
    } else {
        s
    }
}

/// The entries of `items`, put in one after the other.
pub open spec fn collected<K: Ordered, T>(items: Seq<(K, T)>) -> Seq<(K, T)>
    decreases items.len(),
{
    if items.len() == 0 {
        Seq::empty()
    } else {
        inserted(collected(items.drop_last()), items.last())
    }
}

/// `i` splits `s` into the keys before `key` and the keys not before it.
pub open spec fn splits_at<K: Ordered, T>(s: Seq<(K, T)>, key: &K, i: int) -> bool {
    &&& 0 <= i <= s.len()
    &&& forall|j: int| 0 <= j < i ==> (#[trigger] s[j]).0.lt(key)
    &&& forall|j: int| i <= j < s.len() ==> !(#[trigger] s[j]).0.lt(key)
}

proof fn lemma_lower_bound_from<K: Ordered, T>(s: Seq<(K, T)>, key: &K, i: nat)
    requires
        sorted(s),
        i <= s.len(),
        forall|j: int| 0 <= j < i ==> (#[trigger] s[j]).0.lt(key),
    ensures
        splits_at(s, key, lower_bound_from(s, key, i) as int),
    decreases s.len() - i,
{
    if i < s.len() && s[i as int].0.lt(key) {
        lemma_lower_bound_from(s, key, i + 1);
    } else {
        assert forall|j: int| i <= j < s.len() implies !(#[trigger] s[j]).0.lt(key) by {
            if j > i && s[j].0.lt(key) {
                K::lemma_lt_transitive(&s[i as int].0, &s[j].0, key);
            }
        }
    }
}

/// In a sorted sequence the lower bound is the one index that splits it, and
/// an entry for the key, if there is one, stands there.
pub proof fn lemma_lower_bound<K: Ordered, T>(s: Seq<(K, T)>, key: &K)
    requires
        sorted(s),
    ensures
        splits_at(s, key, lower_bound(s, key)),
        forall|i: int| splits_at(s, key, i) ==> i == lower_bound(s, key),
        forall|i: int|
            0 <= i < s.len() && (#[trigger] s[i]).0.eqv(key) ==> i == lower_bound(s, key),
{
    lemma_lower_bound_from(s, key, 0);
    let lb = lower_bound(s, key);
    assert forall|i: int| splits_at(s, key, i) implies i == lb by {
        if i < lb {
            assert(s[i].0.lt(key));
        }
        if lb < i {
            assert(s[lb].0.lt(key));
        }
    }
    assert forall|i: int| 0 <= i < s.len() && (#[trigger] s[i]).0.eqv(key) implies i == lb by {
        K::lemma_trichotomy(&s[i].0, key);
        if lb < i {
            K::lemma_eqv_respects_lt(&s[i].0, key, &s[lb].0);
        }
    }
}

/// Putting an entry into a sorted sequence leaves it sorted.
pub proof fn lemma_inserted_sorted<K: Ordered, T>(s: Seq<(K, T)>, datum: (K, T))
    requires
        sorted(s),
    ensures
        sorted(inserted(s, datum)),
{
    lemma_lower_bound(s, &datum.0);
    let lb = lower_bound(s, &datum.0);
    let r = inserted(s, datum);
    if has_key(s, &datum.0) {
        assert forall|i: int, j: int| 0 <= i < j < r.len() implies (#[trigger] r[i]).0.lt(
            &(#[trigger] r[j]).0,
        ) by {
            if i == lb {
                K::lemma_eqv_respects_lt(&s[lb].0, &datum.0, &s[j].0);
            }
        }
    } else {
        assert forall|i: int, j: int| 0 <= i < j < r.len() implies (#[trigger] r[i]).0.lt(
            &(#[trigger] r[j]).0,
        ) by {
            if i == lb {
                K::lemma_trichotomy(&s[j - 1].0, &datum.0);
            }
        }
    }
}

/// `f` never gives two different answers for one entry of `s`, and along `s`
/// its answers go from `Less` over `Equal` to `Greater` and never back.
pub open spec fn probes_in_order<K: Ordered, T, F: Fn(&(K, T)) -> Ordering>(
    f: F,
    s: Seq<(K, T)>,
) -> bool {
    &&& forall|i: int, a: Ordering, b: Ordering|
        0 <= i < s.len() && call_ensures(f, (&s[i],), a) && call_ensures(f, (&s[i],), b) ==> a
            == b
    &&& forall|i: int, j: int, a: Ordering, b: Ordering|
        0 <= i < j < s.len() && call_ensures(f, (&s[i],), a) && call_ensures(f, (&s[j],), b) ==> (b
            == Ordering::Less ==> a == Ordering::Less) && (a == Ordering::Greater ==> b
            == Ordering::Greater)
}

impl<K: Ordered, T> View for OrderedVecMap<K, T> {
    type V = Seq<(K, T)>;

    /// The entries, in key order.
    closed spec fn view(&self) -> Seq<(K, T)> {
        self.data@
    }
}

impl<K: Ordered, T> OrderedVecMap<K, T> {
    /// The entries are sorted strictly by key.
    pub open spec fn wf(&self) -> bool {
        sorted(self@)
    }

    /// An empty map.
    pub fn new() -> (r: Self)
        ensures
            r.wf(),
            r@ == Seq::<(K, T)>::empty(),
    {
        OrderedVecMap { data: Vec::<(K, T)>::new() }
    }

    /// Whether the map has no entry.
    pub fn is_empty(&self) -> (r: bool)
        ensures
            r == (self@.len() == 0),
    {
        self.data.len() == 0
    }

    /// The number of entries.
    pub fn len(&self) -> (r: usize)
        ensures
            r == self@.len(),
    {
        self.data.len()
    }

    /// Puts `datum` in under its key, replacing the entry that had that key.
    pub fn insert(&mut self, datum: (K, T)) -> (r: InsertionResult)
        requires
            old(self).wf(),
        ensures
            final(self).wf(),
            final(self)@ == inserted(old(self)@, datum),
            r == if has_key(old(self)@, &datum.0) {
                InsertionResult::Overwrite
            } else {
                InsertionResult::Create
            },
    {
        proof {
            lemma_inserted_sorted(self@, datum);
        }
        match self.find_idx(&datum.0) {
            Ok(idx) => {
                self.data[idx] = datum;
                InsertionResult::Overwrite
            },
            Err(idx) => {
                self.data.insert(idx, datum);
                InsertionResult::Create
            },
        }
    }

    /// Takes out the entry for `key`, if there is one.
    pub fn remove(&mut self, key: &K) -> (r: RemovalResult)
        requires
            old(self).wf(),
        ensures
            final(self).wf(),
            final(self)@ == removed(old(self)@, key),
            r == if has_key(old(self)@, key) {
                RemovalResult::Removed
            } else {
                RemovalResult::KeyNotFound
            },
    {
        match self.find_idx(key) {
            Ok(idx) => {
                self.data.remove(idx);
                RemovalResult::Removed
            },
            Err(_) => RemovalResult::KeyNotFound,
        }
    }

    /// An iterator over the entries in key order.
    pub fn iter(&self) -> (r: std::slice::Iter<'_, (K, T)>)
        ensures
            vstd::std_specs::iter::IteratorSpec::remaining(&r) == self@.as_ref(),
            vstd::std_specs::iter::IteratorSpec::decrease(&r) is Some,
            vstd::std_specs::iter::IteratorSpec::initial_value_relation(&r, &r),
    {
        broadcast use vstd::std_specs::slice::axiom_spec_slice_iter;

        self.data.as_slice().iter()
    }

    /// The entry at position `idx` of the key order.
    pub fn get(&self, idx: usize) -> (r: Option<&(K, T)>)
        ensures
            r == if idx < self@.len() {
                Some(&self@[idx as int])
            } else {
                None
            },
    {
        if idx < self.data.len() {
            Some(&self.data[idx])
        } else {
            None
        }
    }

    /// `Ok` with the position of the entry for `query`, or `Err` with the
    /// position at which such an entry would be put in.
    pub fn find_idx(&self, query: &K) -> (r: Result<usize, usize>)
        requires
            self.wf(),
        ensures
            match r {
                Ok(i) => has_key(self@, query) && i == lower_bound(self@, query),
                Err(i) => !has_key(self@, query) && i == lower_bound(self@, query),
            },
            lower_bound(self@, query) <= self@.len(),
    {
        let mut lo: usize = 0;
        let mut hi: usize = self.data.len();
        while lo < hi
            invariant
                self.wf(),
                lo <= hi <= self@.len(),
                forall|j: int| 0 <= j < lo ==> (#[trigger] self@[j]).0.lt(query),
                forall|j: int| hi <= j < self@.len() ==> !(#[trigger] self@[j]).0.lt(query),
            decreases hi - lo,
        {
            let mid = lo + (hi - lo) / 2;
            if self.data[mid].0.less(query) {
                proof {
                    assert forall|j: int| 0 <= j < mid + 1 implies (#[trigger] self@[j]).0.lt(
                        query,
                    ) by {
                        if j < mid {
                            K::lemma_lt_transitive(&self@[j].0, &self@[mid as int].0, query);
                        }
                    }
                }
                lo = mid + 1;
            } else {
                proof {
                    assert forall|j: int| mid <= j < self@.len() implies
                        !(#[trigger] self@[j]).0.lt(query) by {
                        if j > mid && self@[j].0.lt(query) {
                            K::lemma_lt_transitive(&self@[mid as int].0, &self@[j].0, query);
                        }
                    }
                }
                hi = mid;
            }
        }
        proof {
            lemma_lower_bound(self@, query);
        }
        if lo < self.data.len() && !query.less(&self.data[lo].0) {
            proof {
                K::lemma_trichotomy(&self@[lo as int].0, query);
            }
            Ok(lo)
        } else {
            proof {
                if lo < self@.len() {
                    K::lemma_trichotomy(&self@[lo as int].0, query);
                }
            }
            Err(lo)
        }
    }

    /// The entry for `query`, if there is one.
    pub fn find(&self, query: &K) -> (r: Option<&(K, T)>)
        requires
            self.wf(),
        ensures
            r == if has_key(self@, query) {
                Some(&self@[lower_bound(self@, query)])
            } else {
                None
            },
    {
        match self.find_idx(query) {
            Ok(idx) => Some(&self.data[idx]),
            Err(_) => None,
        }
    }

    /// Bisects the entries by the answers of `f`, which says of an entry
    /// whether what is looked for lies after it (`Less`), at it (`Equal`) or
    /// before it (`Greater`). An entry that comes back is one that `f` called
    /// `Equal`; where `f` answers in order and nothing comes back, `f` calls
    /// no entry `Equal`.
    pub fn find_by<F>(&self, f: F) -> (r: Option<&(K, T)>) where F: Fn(&(K, T)) -> Ordering
        requires
            forall|i: int| 0 <= i < self@.len() ==> call_requires(f, (&self@[i],)),
        ensures
            match r {
                Some(e) => exists|i: int|
                    0 <= i < self@.len() && self@[i] == *e && call_ensures(
                        f,
                        (&self@[i],),
                        Ordering::Equal,
                    ),
                None => probes_in_order(f, self@) ==> forall|i: int|
                    0 <= i < self@.len() ==> !call_ensures(f, (&self@[i],), Ordering::Equal),
            },
    {
        let mut lo: usize = 0;
        let mut hi: usize = self.data.len();
        while lo < hi
            invariant
                lo <= hi <= self@.len(),
                forall|i: int| 0 <= i < self@.len() ==> call_requires(f, (&self@[i],)),
                probes_in_order(f, self@) ==> forall|i: int|
                    0 <= i < lo || hi <= i < self@.len() ==> !call_ensures(
                        f,
                        (&self@[i],),
                        Ordering::Equal,
                    ),
            decreases hi - lo,
        {
            let mid = lo + (hi - lo) / 2;
            let entry = &self.data[mid];
            let answer = f(entry);
            match answer {
                Ordering::Less => {
                    lo = mid + 1;
                },
                Ordering::Greater => {
                    hi = mid;
                },
                Ordering::Equal => {
                    return Some(entry);
                },
            }
        }
        None
    }
}

impl<K: Ordered, T> vstd::std_specs::convert::FromSpecImpl<Vec<(K, T)>> for OrderedVecMap<K, T> {
    /// The result is told by its entries, not as a value: see `from`.
    open spec fn obeys_from_spec() -> bool {
        false
    }

    open spec fn from_spec(data: Vec<(K, T)>) -> Self {
        arbitrary()
    }
}

impl<K: Ordered, T> From<Vec<(K, T)>> for OrderedVecMap<K, T> {
    /// The map of the entries of `data`, a later entry replacing an earlier
    /// one with the same key.
    fn from(data: Vec<(K, T)>) -> (r: Self)
        ensures
            r.wf(),
            r@ == collected(data@),
    {
        let ghost items = data@;
        let mut map = OrderedVecMap::<K, T>::new();
        for item in it: data
            invariant
                it.seq() == items,
                map.wf(),
                map@ == collected(items.take(it.index() as int)),
        {
            proof {
                let n = it.index() as int;
                assert(items.take(n + 1).drop_last() == items.take(n));
            }
            map.insert(item);
        }
        proof {
            assert(items.take(items.len() as int) == items);
        }
        map
    }
}

} // verus!
