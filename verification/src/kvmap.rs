use vstd::prelude::*;

verus! {

/// One key/value pair of a [`KvMap`].
#[derive(Debug)]
pub struct KvEntry<V> {
    pub key: u64,
    pub value: V,
}

/// Holds when no two entries of `s` share a key.
pub open spec fn distinct_keys<V>(s: Seq<KvEntry<V>>) -> bool {
    forall|i: int, j: int| 0 <= i < j < s.len() ==> s[i].key != s[j].key
}

/// The map described by a sequence of entries; a later entry wins over an
/// earlier one with the same key.
pub open spec fn seq_to_map<V>(s: Seq<KvEntry<V>>) -> Map<u64, V>
    decreases s.len(),
{
    if s.len() == 0 {
        Map::empty()
    } else {
        seq_to_map(s.drop_last()).insert(s.last().key, s.last().value)
    }
}

/// A key is in the map of `s` exactly when some entry of `s` carries it,
/// and the map is always finite.
pub proof fn lemma_seq_to_map_membership<V>(s: Seq<KvEntry<V>>)
    ensures
        forall|k: u64| #[trigger] seq_to_map(s).dom().contains(k)
            <==> exists|i: int| 0 <= i < s.len() && s[i].key == k,
        seq_to_map(s).dom().finite(),
    decreases s.len(),
{
    if s.len() > 0 {
        lemma_seq_to_map_membership(s.drop_last());
        assert forall|k: u64| #[trigger] seq_to_map(s).dom().contains(k)
            implies exists|i: int| 0 <= i < s.len() && s[i].key == k by {
            if k == s.last().key {
                assert(s[s.len() - 1].key == k);
            } else {
                let i = choose|i: int| 0 <= i < s.drop_last().len() && s.drop_last()[i].key == k;
                assert(s[i].key == k);
            }
        }
        assert forall|k: u64| exists|i: int| 0 <= i < s.len() && s[i].key == k
            implies #[trigger] seq_to_map(s).dom().contains(k) by {
            let i = choose|i: int| 0 <= i < s.len() && s[i].key == k;
            if i < s.len() - 1 {
                assert(s.drop_last()[i].key == k);
            }
        }
    }
}

/// With distinct keys, each entry's key looks up that entry's value.
pub proof fn lemma_seq_to_map_get<V>(s: Seq<KvEntry<V>>)
    requires
        distinct_keys(s),
    ensures
        forall|i: int| 0 <= i < s.len()
            ==> seq_to_map(s).dom().contains(#[trigger] s[i].key) && seq_to_map(s)[s[i].key]
                == s[i].value,
    decreases s.len(),
{
    lemma_seq_to_map_membership(s);
    if s.len() > 0 {
        lemma_seq_to_map_get(s.drop_last());
        assert forall|i: int| 0 <= i < s.len()
            implies seq_to_map(s).dom().contains(#[trigger] s[i].key) && seq_to_map(s)[s[i].key]
                == s[i].value by {
            if i < s.len() - 1 {
                assert(s.drop_last()[i] == s[i]);
                assert(s[i].key != s.last().key);
            }
        }
    }
}

/// With distinct keys, the map has exactly one member per entry.
pub proof fn lemma_seq_to_map_len<V>(s: Seq<KvEntry<V>>)
    requires
        distinct_keys(s),
    ensures
        seq_to_map(s).dom().len() == s.len(),
    decreases s.len(),
{
    lemma_seq_to_map_membership(s);
    if s.len() > 0 {
        lemma_seq_to_map_len(s.drop_last());
        lemma_seq_to_map_membership(s.drop_last());
        assert(!seq_to_map(s.drop_last()).dom().contains(s.last().key));
        assert(seq_to_map(s).dom() =~= seq_to_map(s.drop_last()).dom().insert(s.last().key));
        vstd::set::axiom_set_insert_len(seq_to_map(s.drop_last()).dom(), s.last().key);
    }
}

/// An association map from `u64` keys to values, backed by a vector whose
/// keys are kept unique. Fresh keys keep their insertion order, so every
/// walk over the map is deterministic.
#[derive(Debug)]
pub struct KvMap<V> {
    entries: Vec<KvEntry<V>>,
}

impl<V> KvMap<V> {
    /// Every key occurs in at most one entry. Holds of every value of the
    /// type; obtain it with `use_type_invariant`.
    #[verifier::type_invariant]
    pub closed spec fn inv(self) -> bool {
        distinct_keys(self.entries@)
    }

    /// The entries in their backing order.
    pub closed spec fn entries(self) -> Seq<KvEntry<V>> {
        self.entries@
    }

    /// The entry order has distinct keys and describes the map view.
    pub proof fn lemma_entries(self)
        requires
            self.inv(),
        ensures
            distinct_keys(self.entries()),
            self@ == seq_to_map(self.entries()),
            self@.dom().finite(),
            self@.dom().len() == self.entries().len(),
            forall|i: int| 0 <= i < self.entries().len()
                ==> self@.dom().contains(#[trigger] self.entries()[i].key)
                    && self@[self.entries()[i].key] == self.entries()[i].value,
            forall|k: u64| #[trigger] self@.dom().contains(k)
                <==> exists|i: int| 0 <= i < self.entries().len() && self.entries()[i].key == k,
    {
        lemma_seq_to_map_membership(self.entries@);
        lemma_seq_to_map_get(self.entries@);
        lemma_seq_to_map_len(self.entries@);
    }

    /// Creates an empty map.
    pub fn new() -> (r: Self)
        ensures
            r@ == Map::<u64, V>::empty(),
            r.entries() == Seq::<KvEntry<V>>::empty(),
    {
        KvMap { entries: Vec::new() }
    }

    /// The number of entries.
    pub fn len(&self) -> (r: usize)
        ensures
            r == self.entries().len(),
            r == self@.dom().len(),
    {
        proof {
            use_type_invariant(&*self);
            self.lemma_entries();
        }
        self.entries.len()
    }

    /// Whether the map has no entries.
    pub fn is_empty(&self) -> (r: bool)
        ensures
            r == (self@.dom().len() == 0),
            r == (self.entries().len() == 0),
    {
        proof {
            use_type_invariant(&*self);
            self.lemma_entries();
        }
        self.entries.len() == 0
    }

    /// Whether `key` is present.
    pub fn contains_key(&self, key: u64) -> (r: bool)
        ensures
            r == self@.dom().contains(key),
    {
        proof {
            use_type_invariant(&*self);
            self.lemma_entries();
        }
        let n = self.entries.len();
        let mut i: usize = 0;
        while i < n
            invariant
                n == self.entries().len(),
                0 <= i <= n,
                forall|j: int| 0 <= j < i ==> self.entries()[j].key != key,
                self@ == seq_to_map(self.entries()),
                forall|k: u64| #[trigger] self@.dom().contains(k)
                    <==> exists|j: int| 0 <= j < self.entries().len() && self.entries()[j].key
                        == k,
            decreases n - i,
        {
            if self.entries[i].key == key {
                return true;
            }
            i += 1;
        }
        false
    }

    /// Removes every entry.
    pub fn clear(&mut self)
        ensures
            final(self)@ == Map::<u64, V>::empty(),
            final(self).entries() == Seq::<KvEntry<V>>::empty(),
    {
        let mut tmp: Vec<KvEntry<V>> = Vec::new();
        core::mem::swap(&mut self.entries, &mut tmp);
    }

    /// The position of `key` in the backing order, if it is present.
    fn find(&self, key: u64) -> (r: Option<usize>)
        ensures
            match r {
                Some(i) => i < self.entries().len() && self.entries()[i as int].key == key,
                None => forall|j: int| 0 <= j < self.entries().len()
                    ==> self.entries()[j].key != key,
            },
    {
        let n = self.entries.len();
        let mut i: usize = 0;
        while i < n
            invariant
                n == self.entries().len(),
                0 <= i <= n,
                forall|j: int| 0 <= j < i ==> self.entries()[j].key != key,
            decreases n - i,
        {
            if self.entries[i].key == key {
                return Some(i);
            }
            i += 1;
        }
        None
    }
}

impl<V: Copy> KvMap<V> {
    /// The value under `key`, if any.
    pub fn get(&self, key: u64) -> (r: Option<V>)
        ensures
            r == if self@.dom().contains(key) {
                Some(self@[key])
            } else {
                None::<V>
            },
    {
        proof {
            use_type_invariant(&*self);
            self.lemma_entries();
        }
        let n = self.entries.len();
        let mut i: usize = 0;
        while i < n
            invariant
                n == self.entries().len(),
                0 <= i <= n,
                forall|j: int| 0 <= j < i ==> self.entries()[j].key != key,
                self@ == seq_to_map(self.entries()),
                forall|j: int| 0 <= j < self.entries().len()
                    ==> self@.dom().contains(#[trigger] self.entries()[j].key)
                        && self@[self.entries()[j].key] == self.entries()[j].value,
                forall|k: u64| #[trigger] self@.dom().contains(k)
                    <==> exists|j: int| 0 <= j < self.entries().len() && self.entries()[j].key
                        == k,
            decreases n - i,
        {
            if self.entries[i].key == key {
                return Some(self.entries[i].value);
            }
            i += 1;
        }
        None
    }

    /// The entry at position `i` of the backing order.
    pub fn entry_at(&self, i: usize) -> (r: (u64, V))
        requires
            i < self.entries().len(),
        ensures
            r.0 == self.entries()[i as int].key,
            r.1 == self.entries()[i as int].value,
            self@.dom().contains(r.0),
            self@[r.0] == r.1,
    {
        proof {
            use_type_invariant(&*self);
            self.lemma_entries();
        }
        (self.entries[i].key, self.entries[i].value)
    }

    /// Binds `value` to `key`, replacing any earlier binding.
    pub fn insert(&mut self, key: u64, value: V)
        ensures
            final(self)@ == old(self)@.insert(key, value),
            old(self)@.dom().contains(key) ==> exists|i: int|
                0 <= i < old(self).entries().len() && old(self).entries()[i].key == key
                    && final(self).entries() == old(self).entries().update(
                    i,
                    KvEntry { key, value },
                ),
            !old(self)@.dom().contains(key) ==> final(self).entries() == old(self).entries().push(
                KvEntry { key, value },
            ),
    {
        proof {
            use_type_invariant(&*self);
            self.lemma_entries();
        }
        let ghost orig = self.entries@;
        let found = self.find(key);
        let mut tmp: Vec<KvEntry<V>> = Vec::new();
        core::mem::swap(&mut self.entries, &mut tmp);
        match found {
            Some(i) => {
                tmp[i] = KvEntry { key, value };
                proof {
                    assert(distinct_keys(tmp@));
                    lemma_update_is_insert(orig, i as int, value);
                }
            },
            None => {
                tmp.push(KvEntry { key, value });
                proof {
                    assert(tmp@.drop_last() == orig);
                    assert(distinct_keys(tmp@));
                    lemma_seq_to_map_membership(orig);
                }
            },
        }
        core::mem::swap(&mut self.entries, &mut tmp);
    }

    /// Drops the binding of `key`, if any.
    pub fn remove(&mut self, key: u64)
        ensures
            final(self)@ == old(self)@.remove(key),
            !old(self)@.dom().contains(key) ==> final(self).entries() == old(self).entries(),
            old(self)@.dom().contains(key) ==> exists|i: int|
                0 <= i < old(self).entries().len() && old(self).entries()[i].key == key
                    && final(self).entries() == old(self).entries().remove(i),
    {
        proof {
            use_type_invariant(&*self);
            self.lemma_entries();
        }
        let ghost orig = self.entries@;
        let found = self.find(key);
        match found {
            Some(i) => {
                let mut tmp: Vec<KvEntry<V>> = Vec::new();
                core::mem::swap(&mut self.entries, &mut tmp);
                tmp.remove(i);
                proof {
                    assert(distinct_keys(tmp@));
                    lemma_remove_entry(orig, i as int);
                }
                core::mem::swap(&mut self.entries, &mut tmp);
            },
            None => {
                proof {
                    lemma_seq_to_map_membership(orig);
                    assert(!seq_to_map(orig).dom().contains(key));
                    assert(seq_to_map(orig).remove(key) =~= seq_to_map(orig));
                }
            },
        }
    }
}

/// Updating the entry at a key's position is insertion into the map.
proof fn lemma_update_is_insert<V>(s: Seq<KvEntry<V>>, i: int, value: V)
    requires
        distinct_keys(s),
        0 <= i < s.len(),
    ensures
        seq_to_map(s.update(i, KvEntry { key: s[i].key, value })) == seq_to_map(s).insert(
            s[i].key,
            value,
        ),
    decreases s.len(),
{
    let key = s[i].key;
    let t = s.update(i, KvEntry { key, value });
    if i == s.len() - 1 {
        assert(t.drop_last() == s.drop_last());
        assert(seq_to_map(t) =~= seq_to_map(s).insert(key, value));
    } else {
        assert(t.drop_last() == s.drop_last().update(i, KvEntry { key, value }));
        lemma_update_is_insert(s.drop_last(), i, value);
        assert(t.last() == s.last());
        assert(key != s.last().key);
        assert(seq_to_map(t) =~= seq_to_map(s).insert(key, value));
    }
}

/// Removing the entry at a key's position is removal from the map.
proof fn lemma_remove_entry<V>(s: Seq<KvEntry<V>>, i: int)
    requires
        distinct_keys(s),
        0 <= i < s.len(),
    ensures
        seq_to_map(s.remove(i)) == seq_to_map(s).remove(s[i].key),
    decreases s.len(),
{
    let key = s[i].key;
    let t = s.remove(i);
    lemma_seq_to_map_membership(s.drop_last());
    if i == s.len() - 1 {
        assert(t == s.drop_last());
        assert(!seq_to_map(s.drop_last()).dom().contains(key));
        assert(seq_to_map(t) =~= seq_to_map(s).remove(key));
    } else {
        assert(t.drop_last() == s.drop_last().remove(i));
        lemma_remove_entry(s.drop_last(), i);
        assert(t.last() == s.last());
        assert(key != s.last().key);
        assert(seq_to_map(t) =~= seq_to_map(s).remove(key));
    }
}

impl<V> View for KvMap<V> {
    type V = Map<u64, V>;

    closed spec fn view(&self) -> Map<u64, V> {
        seq_to_map(self.entries@)
    }
}

} // verus!
