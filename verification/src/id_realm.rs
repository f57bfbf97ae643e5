//! Strongly-typed identifiers, a generator of fresh identifiers, and maps keyed by them.
use std::collections::HashMap;
use std::marker::PhantomData;
use vstd::prelude::*;
use vstd::std_specs::iter::IteratorSpec;

verus! {

broadcast use vstd::std_specs::hash::group_hash_axioms;

/// A strongly-typed identifier backed by a `u32`.
pub trait RealmId: Sized + Copy {
    /// The number behind the identifier.
    spec fn raw(self) -> u32;

    fn from_raw(value: u32) -> (r: Self)
        ensures
            r.raw() == value,
    ;

    fn get_raw(&self) -> (r: u32)
        ensures
            r == self.raw(),
    ;

    /// An identifier is its number: two identifiers with the same number are equal, so
    /// making an identifier from the number of another gives that identifier back.
    proof fn lemma_raw_injective(a: Self, b: Self)
        ensures
            a.raw() == b.raw() <==> a == b,
    ;
}

/// A monotonically-increasing generator of identifiers: it remembers the highest
/// identifier it has seen and hands out the next one.
#[derive(Debug, PartialEq, Eq)]
pub struct IdDomain<I> {
    current_highest: u32,
    kind: PhantomData<I>,
}

impl<I: RealmId> IdDomain<I> {
    /// The highest identifier seen or handed out so far (zero at first).
    pub closed spec fn highest(self) -> u32 {
        self.current_highest
    }

    pub fn new_empty() -> (r: IdDomain<I>)
        ensures
            r.highest() == 0,
    {
        IdDomain { current_highest: 0, kind: PhantomData }
    }

    /// A domain that has seen each identifier of `ids`.
    pub fn from_ids(ids: &[I]) -> (r: IdDomain<I>)
        ensures
            r.highest() == max_raw(ids@, 0),
    {
        let mut slf = Self::new_empty();
        slf.include_ids(ids);
        slf
    }

    /// Records each identifier of `ids`.
    pub fn include_ids(&mut self, ids: &[I])
        ensures
            final(self).highest() == max_raw(ids@, old(self).highest()),
    {
        let mut i: usize = 0;
        while i < ids.len()
            invariant
                0 <= i <= ids@.len(),
                self.highest() == max_raw(ids@.take(i as int), old(self).highest()),
            decreases ids@.len() - i,
        {
            assert(ids@.take(i + 1).drop_last() == ids@.take(i as int));
            self.include_id(ids[i]);
            i += 1;
        }
        assert(ids@.take(ids@.len() as int) == ids@);
    }

    /// Records `id`, so that no identifier handed out later equals it.
    pub fn include_id(&mut self, id: I)
        ensures
            final(self).highest() == (if id.raw() > old(self).highest() {
                id.raw()
            } else {
                old(self).highest()
            }),
    {
        let raw = id.get_raw();
        if raw > self.current_highest {
            self.current_highest = raw;
        }
    }

    /// Hands out the identifier right above the highest one seen.
    pub fn generate_new_id(&mut self) -> (r: I)
        requires
            old(self).highest() < u32::MAX,
        ensures
            r.raw() == old(self).highest() + 1,
            final(self).highest() == r.raw(),
    {
        self.current_highest += 1;
        I::from_raw(self.current_highest)
    }
}

/// The highest raw value among `start` and the identifiers of `ids`.
pub open spec fn max_raw<I: RealmId>(ids: Seq<I>, start: u32) -> u32
    decreases ids.len(),
{
    if ids.len() == 0 {
        start
    } else {
        let m = max_raw(ids.drop_last(), start);
        if ids.last().raw() > m {
            ids.last().raw()
        } else {
            m
        }
    }
}

/// A map from identifiers to values, together with the domain that generates
/// fresh identifiers for it.
#[derive(Debug, PartialEq, Eq)]
pub struct IdRealm<I: RealmId, T> {
    domain: IdDomain<I>,
    map: HashMap<u32, T>,
}

impl<I: RealmId, T> View for IdRealm<I, T> {
    type V = Map<u32, T>;

    /// The value of each identifier, by its raw number.
    closed spec fn view(&self) -> Map<u32, T> {
        self.map@
    }
}

impl<I: RealmId, T> IdRealm<I, T> {
    /// No identifier of the map is above the domain's highest one.
    #[verifier::type_invariant]
    closed spec fn domain_covers_map(self) -> bool {
        forall|k: u32| #[trigger] self.map@.contains_key(k) ==> k <= self.domain.highest()
    }

    /// The highest identifier seen or handed out so far.
    pub closed spec fn highest(self) -> u32 {
        self.domain.highest()
    }

    pub fn new_empty() -> (r: IdRealm<I, T>)
        ensures
            r@ == Map::<u32, T>::empty(),
            r.highest() == 0,
    {
        Self::with_capacity(0)
    }

    pub fn with_capacity(capacity: usize) -> (r: IdRealm<I, T>)
        ensures
            r@ == Map::<u32, T>::empty(),
            r.highest() == 0,
    {
        IdRealm { domain: IdDomain::new_empty(), map: HashMap::with_capacity(capacity) }
    }

    /// A realm holding each pair of `entries`; no identifier may occur twice.
    pub fn from_iterator(entries: Vec<(I, T)>) -> (r: IdRealm<I, T>)
        requires
            forall|i: int, j: int|
                0 <= i < j < entries@.len() ==> #[trigger] entries@[i].0.raw()
                    != #[trigger] entries@[j].0.raw(),
        ensures
            forall|i: int|
                0 <= i < entries@.len() ==> #[trigger] r@.contains_key(entries@[i].0.raw())
                    && r@[entries@[i].0.raw()] == entries@[i].1,
            forall|k: u32|
                #[trigger] r@.contains_key(k) ==> exists|i: int|
                    0 <= i < entries@.len() && #[trigger] entries@[i].0.raw() == k,
            forall|i: int| 0 <= i < entries@.len() ==> #[trigger] entries@[i].0.raw() <= r.highest(),
            entries@.len() == 0 ==> r.highest() == 0,
            entries@.len() > 0 ==> exists|i: int|
                0 <= i < entries@.len() && #[trigger] entries@[i].0.raw() == r.highest(),
    {
        let mut slf = Self::new_empty();
        let mut entries = entries;
        let ghost all = entries@;
        let ghost n = all.len();
        while entries.len() > 0
            invariant
                entries@ == all.take(entries@.len() as int),
                entries@.len() <= n,
                n == all.len(),
                forall|i: int, j: int|
                    0 <= i < j < n ==> #[trigger] all[i].0.raw() != #[trigger] all[j].0.raw(),
                forall|i: int|
                    entries@.len() <= i < n ==> #[trigger] slf@.contains_key(all[i].0.raw())
                        && slf@[all[i].0.raw()] == all[i].1,
                forall|k: u32|
                    #[trigger] slf@.contains_key(k) ==> exists|i: int|
                        entries@.len() <= i < n && #[trigger] all[i].0.raw() == k,
                forall|i: int| entries@.len() <= i < n ==> #[trigger] all[i].0.raw() <= slf.highest(),
                entries@.len() == n ==> slf.highest() == 0,
                entries@.len() < n ==> exists|i: int|
                    entries@.len() <= i < n && #[trigger] all[i].0.raw() == slf.highest(),
            decreases entries.len(),
        {
            let ghost before = slf@;
            let ghost old_len = entries@.len();
            let (id, value) = entries.pop().unwrap();
            let ghost cur = old_len - 1;
            assert(all[cur] == (id, value));
            assert(!slf@.contains_key(id.raw())) by {
                if slf@.contains_key(id.raw()) {
                    let j = choose|j: int| old_len <= j < n && #[trigger] all[j].0.raw() == id.raw();
                    assert(all[cur].0.raw() == all[j].0.raw());
                }
            }
            slf.insert_missing(id, value);
            assert(entries@ == all.take(entries@.len() as int));
            assert forall|k: u32| #[trigger] slf@.contains_key(k) implies exists|i: int|
                entries@.len() <= i < n && #[trigger] all[i].0.raw() == k by {
                if k != id.raw() {
                    assert(before.contains_key(k));
                } else {
                    assert(all[cur].0.raw() == k);
                }
            }
            assert forall|i: int| entries@.len() <= i < n implies #[trigger] slf@.contains_key(all[i].0.raw())
                && slf@[all[i].0.raw()] == all[i].1 by {
                if i != cur {
                    assert(all[i].0.raw() != all[cur].0.raw());
                }
            }
        }
        slf
    }

    /// A realm holding each pair of `entries`, or nothing when an identifier occurs twice.
    pub fn try_from_iterator(entries: Vec<(I, T)>) -> (r: Option<IdRealm<I, T>>)
        ensures
            r is None <==> exists|i: int, j: int|
                0 <= i < j < entries@.len() && #[trigger] entries@[i].0.raw() == #[trigger] entries@[j].0.raw(),
            r matches Some(realm) ==> {
                &&& forall|i: int|
                    0 <= i < entries@.len() ==> #[trigger] realm@.contains_key(entries@[i].0.raw())
                        && realm@[entries@[i].0.raw()] == entries@[i].1
                &&& forall|k: u32|
                    #[trigger] realm@.contains_key(k) ==> exists|i: int|
                        0 <= i < entries@.len() && #[trigger] entries@[i].0.raw() == k
                &&& forall|i: int| 0 <= i < entries@.len() ==> #[trigger] entries@[i].0.raw() <= realm.highest()
                &&& entries@.len() == 0 ==> realm.highest() == 0
                &&& entries@.len() > 0 ==> exists|i: int|
                    0 <= i < entries@.len() && #[trigger] entries@[i].0.raw() == realm.highest()
            },
    {
        let mut j: usize = 0;
        while j < entries.len()
            invariant
                0 <= j <= entries@.len(),
                forall|a: int, b: int|
                    0 <= a < b < j ==> #[trigger] entries@[a].0.raw() != #[trigger] entries@[b].0.raw(),
            decreases entries@.len() - j,
        {
            let rj = entries[j].0.get_raw();
            let mut i: usize = 0;
            while i < j
                invariant
                    0 <= i <= j < entries@.len(),
                    rj == entries@[j as int].0.raw(),
                    forall|a: int| 0 <= a < i ==> #[trigger] entries@[a].0.raw() != rj,
                decreases j - i,
            {
                if entries[i].0.get_raw() == rj {
                    assert(entries@[i as int].0.raw() == entries@[j as int].0.raw());
                    return None;
                }
                i += 1;
            }
            j += 1;
        }
        Some(Self::from_iterator(entries))
    }

    /// Gives `id` the value `value`; returns the value it had, if any.
    pub fn insert_or_replace(&mut self, id: I, value: T) -> (r: Option<T>)
        ensures
            final(self)@ == old(self)@.insert(id.raw(), value),
            final(self).highest() == (if id.raw() > old(self).highest() {
                id.raw()
            } else {
                old(self).highest()
            }),
            r == (if old(self)@.contains_key(id.raw()) {
                Some(old(self)@[id.raw()])
            } else {
                None
            }),
    {
        proof {
            use_type_invariant(&*self);
        }
        let raw = id.get_raw();
        let mut domain = self.domain.clone_domain();
        domain.include_id(id);
        let mut map = HashMap::new();
        std::mem::swap(&mut map, &mut self.map);
        let old_value = map.insert(raw, value);
        *self = IdRealm { domain, map };
        old_value
    }

    /// Gives `id` the value `value`; `id` must not have one yet.
    pub fn insert_missing(&mut self, id: I, value: T)
        requires
            !old(self)@.contains_key(id.raw()),
        ensures
            final(self)@ == old(self)@.insert(id.raw(), value),
            final(self).highest() == (if id.raw() > old(self).highest() {
                id.raw()
            } else {
                old(self).highest()
            }),
    {
        let old_value = self.insert_or_replace(id, value);
        assert(old_value.is_none());
    }

    /// Replaces the value of `id`, which must have one, and returns the previous value.
    pub fn replace_existing(&mut self, id: I, value: T) -> (r: T)
        requires
            old(self)@.contains_key(id.raw()),
        ensures
            final(self)@ == old(self)@.insert(id.raw(), value),
            final(self).highest() == old(self).highest(),
            r == old(self)@[id.raw()],
    {
        proof {
            use_type_invariant(&*self);
        }
        self.insert_or_replace(id, value).unwrap()
    }

    /// Stores `value` under a fresh identifier, and returns that identifier.
    pub fn insert_new_and_get_id(&mut self, value: T) -> (r: I)
        requires
            old(self).highest() < u32::MAX,
        ensures
            r.raw() == old(self).highest() + 1,
            !old(self)@.contains_key(r.raw()),
            final(self)@ == old(self)@.insert(r.raw(), value),
            final(self).highest() == r.raw(),
    {
        proof {
            use_type_invariant(&*self);
        }
        let id = self.generate_new_id();
        self.insert_missing(id, value);
        id
    }

    /// Hands out a fresh identifier, above every identifier of the realm.
    pub fn generate_new_id(&mut self) -> (r: I)
        requires
            old(self).highest() < u32::MAX,
        ensures
            r.raw() == old(self).highest() + 1,
            final(self).highest() == r.raw(),
            final(self)@ == old(self)@,
    {
        proof {
            use_type_invariant(&*self);
        }
        let mut domain = self.domain.clone_domain();
        let id = domain.generate_new_id();
        let mut map = HashMap::new();
        std::mem::swap(&mut map, &mut self.map);
        *self = IdRealm { domain, map };
        id
    }

    pub fn len(&self) -> (r: usize)
        ensures
            r == self@.len(),
    {
        self.map.len()
    }

    pub fn is_empty(&self) -> (r: bool)
        ensures
            r == (self@.len() == 0),
    {
        self.map.is_empty()
    }

    /// Removes every value and forgets every identifier.
    pub fn clear(&mut self)
        ensures
            final(self)@ == Map::<u32, T>::empty(),
            final(self).highest() == 0,
    {
        *self = Self::new_empty();
    }

    pub fn get(&self, id: I) -> (r: Option<&T>)
        ensures
            r == (if self@.contains_key(id.raw()) {
                Some(&self@[id.raw()])
            } else {
                None
            }),
    {
        self.map.get(&id.get_raw())
    }

    pub fn contains_id(&self, id: I) -> (r: bool)
        ensures
            r == self@.contains_key(id.raw()),
            r ==> id.raw() <= self.highest(),
    {
        proof {
            use_type_invariant(self);
        }
        self.map.contains_key(&id.get_raw())
    }

    /// Removes the value of `id` and returns it, if there was one.
    pub fn remove(&mut self, id: I) -> (r: Option<T>)
        ensures
            final(self)@ == old(self)@.remove(id.raw()),
            final(self).highest() == old(self).highest(),
            r == (if old(self)@.contains_key(id.raw()) {
                Some(old(self)@[id.raw()])
            } else {
                None
            }),
    {
        proof {
            use_type_invariant(&*self);
        }
        let domain = self.domain.clone_domain();
        let mut map = HashMap::new();
        std::mem::swap(&mut map, &mut self.map);
        let removed = map.remove(&id.get_raw());
        *self = IdRealm { domain, map };
        removed
    }

    /// The identifiers of the realm, in no particular order.
    pub fn ids(&self) -> (r: Vec<u32>)
        ensures
            r@.to_set() == self@.dom(),
            r@.no_duplicates(),
            forall|i: int| 0 <= i < r@.len() ==> #[trigger] r@[i] <= self.highest(),
    {
        proof {
            use_type_invariant(self);
        }
        let ghost all = vstd::std_specs::hash::spec_keys_iter(&self.map).remaining().unref();
        let mut ids: Vec<u32> = Vec::new();
        for k in it: self.map.keys()
            invariant
                it.seq().unref() == all,
                ids@ == all.take(it.index()),
        {
            ids.push(*k);
        }
        assert(ids@ == all);
        assert forall|i: int| 0 <= i < ids@.len() implies #[trigger] ids@[i] <= self.highest() by {
            assert(ids@.to_set().contains(ids@[i]));
        }
        ids
    }
}

impl<I: RealmId, T> IdRealm<I, T> {
    /// Each identifier of the realm with its value, in no particular order.
    pub fn iter(&self) -> (r: Vec<(u32, &T)>)
        ensures
            r@.len() == self@.len(),
            forall|i: int| 0 <= i < r@.len() ==> #[trigger] self@.contains_key(r@[i].0) && self@[r@[i].0] == *r@[i].1,
            forall|k: u32| #[trigger] self@.contains_key(k) ==> exists|i: int| 0 <= i < r@.len() && #[trigger] r@[i].0 == k,
            forall|i: int, j: int| 0 <= i < j < r@.len() ==> #[trigger] r@[i].0 != #[trigger] r@[j].0,
    {
        let ghost all = vstd::std_specs::hash::spec_hash_map_iter(&self.map).remaining();
        let mut out: Vec<(u32, &T)> = Vec::new();
        for e in it: self.map.iter()
            invariant
                it.seq() == all,
                out@.len() == it.index(),
                forall|i: int| 0 <= i < it.index() ==> #[trigger] out@[i] == (*all[i].0, all[i].1),
        {
            let (k, v) = e;
            out.push((*k, v));
        }
        assert forall|i: int| 0 <= i < out@.len() implies #[trigger] self@.contains_key(out@[i].0) && self@[out@[i].0] == *out@[i].1 by {
            assert(out@[i] == (*all[i].0, all[i].1));
        }
        assert forall|k: u32| #[trigger] self@.contains_key(k) implies exists|i: int| 0 <= i < out@.len() && #[trigger] out@[i].0 == k by {
            assert(all.contains((&k, &self@[k])));
            let i = choose|i: int| 0 <= i < all.len() && all[i] == (&k, &self@[k]);
            assert(out@[i] == (*all[i].0, all[i].1));
        }
        assert forall|i: int, j: int| 0 <= i < j < out@.len() implies #[trigger] out@[i].0 != #[trigger] out@[j].0 by {
            assert(out@[i] == (*all[i].0, all[i].1));
            assert(out@[j] == (*all[j].0, all[j].1));
            if out@[i].0 == out@[j].0 {
                assert(self@[out@[i].0] == *all[i].1);
                assert(self@[out@[j].0] == *all[j].1);
                assert(all[i] == all[j]);
            }
        }
        out
    }
}

impl<I: RealmId> Clone for IdDomain<I> {
    fn clone(&self) -> (r: IdDomain<I>)
        ensures
            r.highest() == self.highest(),
    {
        self.clone_domain()
    }
}

impl<I: RealmId> IdDomain<I> {
    /// A copy of this domain.
    pub fn clone_domain(&self) -> (r: IdDomain<I>)
        ensures
            r.highest() == self.highest(),
    {
        IdDomain { current_highest: self.current_highest, kind: PhantomData }
    }
}

} // verus!
