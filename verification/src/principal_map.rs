//! A finite map keyed by principals, kept as a list of entries in the order
//! in which their keys first came in.
use vstd::prelude::*;
use crate::principal::Principal;

verus! {

/// The keys of a list of entries, in order.
pub open spec fn keys_of<V>(entries: Seq<(Principal, V)>) -> Seq<Seq<u8>> {
    entries.map_values(|e: (Principal, V)| e.0@)
}

/// The map that a list of entries stands for: each key to the value of the
/// entry where it occurs.
pub open spec fn map_of<V>(entries: Seq<(Principal, V)>) -> Map<Seq<u8>, V> {
    Map::new(
        |k: Seq<u8>| keys_of(entries).contains(k),
        |k: Seq<u8>| entries[keys_of(entries).index_of(k)].1,
    )
}

proof fn lemma_value_at<V>(entries: Seq<(Principal, V)>, i: int)
    requires
        keys_of(entries).no_duplicates(),
        0 <= i < entries.len(),
    ensures
        map_of(entries).contains_key(keys_of(entries)[i]),
        map_of(entries)[keys_of(entries)[i]] == entries[i].1,
{
    let k = keys_of(entries)[i];
    assert(keys_of(entries).contains(k));
}

proof fn lemma_all_values<V>(entries: Seq<(Principal, V)>)
    requires
        keys_of(entries).no_duplicates(),
    ensures
        forall|i: int|
            0 <= i < entries.len() ==> map_of(entries).contains_key(#[trigger] keys_of(entries)[i])
                && map_of(entries)[keys_of(entries)[i]] == entries[i].1,
{
    assert forall|i: int| 0 <= i < entries.len() implies map_of(entries).contains_key(
        #[trigger] keys_of(entries)[i],
    ) && map_of(entries)[keys_of(entries)[i]] == entries[i].1 by {
        lemma_value_at(entries, i);
    }
}

/// A map from principals to values. Each principal occurs at most once.
pub struct PrincipalMap<V> {
    entries: Vec<(Principal, V)>,
}

impl<V> View for PrincipalMap<V> {
    type V = Map<Seq<u8>, V>;

    closed spec fn view(&self) -> Map<Seq<u8>, V> {
        map_of(self.entries@)
    }
}

impl<V> PrincipalMap<V> {
    #[verifier::type_invariant]
    closed spec fn keys_unique(self) -> bool {
        keys_of(self.entries@).no_duplicates()
    }

    /// The keys, in the order in which they first came in.
    pub closed spec fn order(self) -> Seq<Seq<u8>> {
        keys_of(self.entries@)
    }

    /// The keys of the map are those in the order.
    pub proof fn lemma_order(self)
        ensures
            forall|k: Seq<u8>| #[trigger] self@.contains_key(k) <==> self.order().contains(k),
    {
    }

    /// An empty map.
    pub fn new() -> (res: Self)
        ensures
            res@ == Map::<Seq<u8>, V>::empty(),
            res.order() == Seq::<Seq<u8>>::empty(),
    {
        let res = PrincipalMap { entries: Vec::new() };
        assert(res.order() =~= Seq::<Seq<u8>>::empty());
        assert(res@ =~= Map::<Seq<u8>, V>::empty());
        res
    }

    /// Number of entries.
    pub fn len(&self) -> (res: usize)
        ensures
            res == self.order().len(),
    {
        self.entries.len()
    }

    /// Where `key` stands in the order, if it is a key.
    fn find(&self, key: &Principal) -> (res: Option<usize>)
        ensures
            match res {
                Some(i) => i < self.order().len() && self.order()[i as int] == key@,
                None => !self.order().contains(key@),
            },
    {
        let mut i: usize = 0;
        while i < self.entries.len()
            invariant
                i <= self.entries@.len(),
                forall|j: int| 0 <= j < i ==> self.order()[j] != key@,
            decreases self.entries@.len() - i,
        {
            if self.entries[i].0.same(key) {
                return Some(i);
            }
            i = i + 1;
        }
        None
    }

    /// The order holds each key once.
    pub fn keys_distinct(&self)
        ensures
            self.order().no_duplicates(),
    {
        proof {
            use_type_invariant(self);
        }
    }

    /// Whether `key` is a key.
    pub fn contains_key(&self, key: &Principal) -> (res: bool)
        ensures
            res == self@.contains_key(key@),
    {
        self.find(key).is_some()
    }

    /// The value under `key`, if any.
    pub fn get(&self, key: &Principal) -> (res: Option<&V>)
        ensures
            match res {
                Some(v) => self@.contains_key(key@) && *v == self@[key@],
                None => !self@.contains_key(key@),
            },
    {
        proof {
            use_type_invariant(self);
        }
        match self.find(key) {
            Some(i) => {
                proof {
                    lemma_value_at(self.entries@, i as int);
                }
                Some(&self.entries[i].1)
            },
            None => None,
        }
    }

    /// The key of the entry at `i` in the order.
    pub fn key_at(&self, i: usize) -> (res: &Principal)
        requires
            i < self.order().len(),
        ensures
            res@ == self.order()[i as int],
    {
        &self.entries[i].0
    }

    /// The value of the entry at `i` in the order.
    pub fn value_at(&self, i: usize) -> (res: &V)
        requires
            i < self.order().len(),
        ensures
            self@.contains_key(self.order()[i as int]),
            *res == self@[self.order()[i as int]],
    {
        proof {
            use_type_invariant(self);
            lemma_value_at(self.entries@, i as int);
        }
        &self.entries[i].1
    }

    /// Puts `value` under `key`, in place of any value there. A new key goes
    /// last in the order.
    pub fn insert(&mut self, key: Principal, value: V)
        ensures
            final(self)@ == old(self)@.insert(key@, value),
            old(self)@.contains_key(key@) ==> final(self).order() == old(self).order(),
            !old(self)@.contains_key(key@) ==> final(self).order() == old(self).order().push(
                key@,
            ),
    {
        proof {
            use_type_invariant(&*self);
        }
        let ghost k = key@;
        let ghost before = self.entries@;
        let found = self.find(&key);
        let mut entries: Vec<(Principal, V)> = Vec::new();
        std::mem::swap(&mut entries, &mut self.entries);
        match found {
            Some(i) => {
                entries.set(i, (key, value));
                proof {
                    assert(keys_of(entries@) =~= keys_of(before));
                }
            },
            None => {
                entries.push((key, value));
                proof {
                    assert(keys_of(entries@) =~= keys_of(before).push(k));
                }
            },
        }
        proof {
            lemma_all_values(before);
            lemma_all_values(entries@);
            let n = entries@.len() as int;
            let idx = if found is Some { found->0 as int } else { n - 1 };
            assert(keys_of(entries@)[idx] == k);
            assert forall|key2: Seq<u8>| #[trigger] map_of(entries@).contains_key(key2)
                == map_of(before).insert(k, value).contains_key(key2) by {
                if keys_of(before).contains(key2) {
                    let j = keys_of(before).index_of(key2);
                    assert(keys_of(entries@)[j] == key2);
                }
                if keys_of(entries@).contains(key2) && key2 != k {
                    let j = keys_of(entries@).index_of(key2);
                    assert(keys_of(before)[j] == key2);
                }
            }
            assert forall|key2: Seq<u8>| #[trigger] map_of(entries@).contains_key(key2)
                implies map_of(entries@)[key2] == map_of(before).insert(k, value)[key2] by {
                let j = keys_of(entries@).index_of(key2);
                if key2 != k {
                    assert(keys_of(before)[j] == key2);
                } else {
                    assert(j == idx);
                }
            }
            assert(map_of(entries@) =~= map_of(before).insert(k, value));
        }
        self.entries = entries;
    }

    /// Takes `key` and its value out of the map, if it is there; the other
    /// keys keep their order.
    pub fn remove(&mut self, key: &Principal) -> (res: Option<V>)
        ensures
            final(self)@ == old(self)@.remove(key@),
            match res {
                Some(v) => old(self)@.contains_key(key@) && v == old(self)@[key@],
                None => !old(self)@.contains_key(key@),
            },
            !old(self)@.contains_key(key@) ==> final(self).order() == old(self).order(),
            old(self)@.contains_key(key@) ==> exists|i: int|
                0 <= i < old(self).order().len() && old(self).order()[i] == key@
                    && final(self).order() == old(self).order().remove(i),
    {
        proof {
            use_type_invariant(&*self);
        }
        let ghost k = key@;
        let ghost before = self.entries@;
        match self.find(key) {
            None => {
                proof {
                    assert(map_of(before) =~= map_of(before).remove(k));
                }
                None
            },
            Some(i) => {
                let mut entries: Vec<(Principal, V)> = Vec::new();
                std::mem::swap(&mut entries, &mut self.entries);
                let (_, v) = entries.remove(i);
                proof {
                    assert(keys_of(entries@) =~= keys_of(before).remove(i as int));
                    lemma_all_values(before);
                    lemma_all_values(entries@);
                    assert forall|a: int, b: int|
                        0 <= a < entries@.len() && 0 <= b < entries@.len() && a != b implies
                        keys_of(entries@)[a] != keys_of(entries@)[b] by {
                        let a2 = if a < i { a } else { a + 1 };
                        let b2 = if b < i { b } else { b + 1 };
                        assert(keys_of(entries@)[a] == keys_of(before)[a2]);
                        assert(keys_of(entries@)[b] == keys_of(before)[b2]);
                    }
                    assert forall|key2: Seq<u8>| #[trigger] map_of(entries@).contains_key(key2)
                        == map_of(before).remove(k).contains_key(key2) by {
                        if keys_of(before).contains(key2) && key2 != k {
                            let j = keys_of(before).index_of(key2);
                            let j2 = if j < i { j } else { j - 1 };
                            assert(keys_of(entries@)[j2] == key2);
                        }
                        if keys_of(entries@).contains(key2) {
                            let j = keys_of(entries@).index_of(key2);
                            let j2 = if j < i { j } else { j + 1 };
                            assert(keys_of(before)[j2] == key2);
                        }
                    }
                    assert forall|key2: Seq<u8>| #[trigger] map_of(entries@).contains_key(key2)
                        implies map_of(entries@)[key2] == map_of(before)[key2] by {
                        let j = keys_of(entries@).index_of(key2);
                        let j2 = if j < i { j } else { j + 1 };
                        assert(keys_of(before)[j2] == key2);
                    }
                    assert(map_of(entries@) =~= map_of(before).remove(k));
                }
                self.entries = entries;
                Some(v)
            },
        }
    }
}

} // verus!
