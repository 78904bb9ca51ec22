//! A small keyed store: records filed under an address, at most one record
//! per address.
//!
//! Each contract keeps its per-address records (sinks, stakers, viewing-key
//! hashes) in a `Store`. Records are never iterated on a write path; the store
//! only offers lookup and replacement by key, plus indexed read access so that
//! a host can persist its contents.

use vstd::prelude::*;

verus! {

/// One record of a store together with the address it is filed under.
pub struct Entry<V> {
    pub key: String,
    pub value: V,
}

/// Records filed under addresses, each address at most once.
pub struct Store<V> {
    entries: Vec<Entry<V>>,
}

/// No two entries of `entries` share a key.
pub open spec fn distinct_keys<V>(entries: Seq<Entry<V>>) -> bool {
    forall|i: int, j: int|
        0 <= i < j < entries.len() ==> (#[trigger] entries[i]).key@ != (#[trigger] entries[j]).key@
}

/// Whether some entry of `entries` is filed under `key`.
pub open spec fn has_key<V>(entries: Seq<Entry<V>>, key: Seq<char>) -> bool {
    exists|i: int| 0 <= i < entries.len() && (#[trigger] entries[i]).key@ == key
}

/// An index at which `key` is filed, when there is one.
pub open spec fn slot_of<V>(entries: Seq<Entry<V>>, key: Seq<char>) -> int {
    choose|i: int| 0 <= i < entries.len() && (#[trigger] entries[i]).key@ == key
}

/// The sum of `measure` over all the records of `entries`.
pub open spec fn sum_of<V>(entries: Seq<Entry<V>>, measure: spec_fn(V) -> int) -> int
    decreases entries.len(),
{
    if entries.len() == 0 {
        0
    } else {
        sum_of(entries.drop_last(), measure) + measure(entries.last().value)
    }
}

/// Replacing the record at `slot` changes the sum by the difference of the
/// two records' measures.
pub proof fn lemma_sum_of_update<V>(
    entries: Seq<Entry<V>>,
    slot: int,
    entry: Entry<V>,
    measure: spec_fn(V) -> int,
)
    requires
        0 <= slot < entries.len(),
    ensures
        sum_of(entries.update(slot, entry), measure) == sum_of(entries, measure) - measure(
            entries[slot].value,
        ) + measure(entry.value),
    decreases entries.len(),
{
    let updated = entries.update(slot, entry);
    if slot == entries.len() - 1 {
        assert(updated.drop_last() =~= entries.drop_last());
    } else {
        lemma_sum_of_update(entries.drop_last(), slot, entry, measure);
        assert(updated.drop_last() =~= entries.drop_last().update(slot, entry));
    }
}

/// Appending a record adds its measure to the sum.
pub proof fn lemma_sum_of_push<V>(entries: Seq<Entry<V>>, entry: Entry<V>, measure: spec_fn(V) -> int)
    ensures
        sum_of(entries.push(entry), measure) == sum_of(entries, measure) + measure(entry.value),
{
    assert(entries.push(entry).drop_last() =~= entries);
}

/// Taking the record at `slot` out takes its measure off the sum.
pub proof fn lemma_sum_of_remove<V>(entries: Seq<Entry<V>>, slot: int, measure: spec_fn(V) -> int)
    requires
        0 <= slot < entries.len(),
    ensures
        sum_of(entries.remove(slot), measure) == sum_of(entries, measure) - measure(
            entries[slot].value,
        ),
    decreases entries.len(),
{
    let removed = entries.remove(slot);
    if slot == entries.len() - 1 {
        assert(removed =~= entries.drop_last());
    } else {
        lemma_sum_of_remove(entries.drop_last(), slot, measure);
        assert(removed.drop_last() =~= entries.drop_last().remove(slot));
        assert(removed.last() == entries.last());
    }
}

/// When no measure is negative, no single record measures more than the sum.
pub proof fn lemma_sum_of_bounds_each<V>(entries: Seq<Entry<V>>, slot: int, measure: spec_fn(V) -> int)
    requires
        0 <= slot < entries.len(),
        forall|v: V| 0 <= #[trigger] measure(v),
    ensures
        0 <= measure(entries[slot].value) <= sum_of(entries, measure),
    decreases entries.len(),
{
    lemma_sum_of_nonnegative(entries.drop_last(), measure);
    if slot < entries.len() - 1 {
        lemma_sum_of_bounds_each(entries.drop_last(), slot, measure);
    }
}

/// When no measure is negative, neither is the sum.
pub proof fn lemma_sum_of_nonnegative<V>(entries: Seq<Entry<V>>, measure: spec_fn(V) -> int)
    requires
        forall|v: V| 0 <= #[trigger] measure(v),
    ensures
        0 <= sum_of(entries, measure),
    decreases entries.len(),
{
    if entries.len() > 0 {
        lemma_sum_of_nonnegative(entries.drop_last(), measure);
    }
}

impl<V> Store<V> {
    /// No address is filed twice.
    #[verifier::type_invariant]
    spec fn keys_are_distinct(&self) -> bool {
        distinct_keys(self.entries@)
    }

    /// The entries in the order in which their addresses were first filed.
    pub closed spec fn entries(&self) -> Seq<Entry<V>> {
        self.entries@
    }

    /// The store as a map from address to record.
    pub open spec fn view(&self) -> Map<Seq<char>, V> {
        Map::new(
            |key: Seq<char>| has_key(self.entries(), key),
            |key: Seq<char>| self.entries()[slot_of(self.entries(), key)].value,
        )
    }

    /// The sum of `measure` over all records of the store.
    pub open spec fn total(&self, measure: spec_fn(V) -> int) -> int {
        sum_of(self.entries(), measure)
    }

    /// A store without records.
    pub fn new() -> (store: Self)
        ensures
            store.entries() =~= Seq::<Entry<V>>::empty(),
            store@ =~= Map::<Seq<char>, V>::empty(),
    {
        let store = Store { entries: Vec::new() };
        assert(store@ =~= Map::<Seq<char>, V>::empty());
        store
    }

    /// The number of records.
    pub fn len(&self) -> (n: usize)
        ensures
            n == self.entries().len(),
    {
        self.entries.len()
    }

    /// The entry at position `slot`.
    pub fn entry_at(&self, slot: usize) -> (entry: &Entry<V>)
        requires
            slot < self.entries().len(),
        ensures
            *entry == self.entries()[slot as int],
            self@.contains_key(entry.key@),
            self@[entry.key@] == entry.value,
    {
        proof {
            use_type_invariant(self);
            self.lemma_slot(slot as int);
        }
        &self.entries[slot]
    }

    /// The position at which `key` is filed, if it is filed at all.
    pub fn find(&self, key: &String) -> (found: Option<usize>)
        ensures
            found is Some <==> self@.contains_key(key@),
            found is Some ==> found->0 < self.entries().len() && self.entries()[found->0 as int].key@
                == key@ && self.entries()[found->0 as int].value == self@[key@],
    {
        proof {
            use_type_invariant(self);
        }
        let mut i: usize = 0;
        while i < self.entries.len()
            invariant
                distinct_keys(self.entries@),
                i <= self.entries@.len(),
                forall|j: int| 0 <= j < i ==> (#[trigger] self.entries@[j]).key@ != key@,
            decreases self.entries@.len() - i,
        {
            if self.entries[i].key == *key {
                proof {
                    self.lemma_slot(i as int);
                }
                return Some(i);
            }
            i += 1;
        }
        None
    }

    /// The record filed under `key`, if there is one.
    pub fn get(&self, key: &String) -> (found: Option<&V>)
        ensures
            found is Some <==> self@.contains_key(key@),
            found is Some ==> *found->0 == self@[key@],
    {
        match self.find(key) {
            Some(slot) => Some(&self.entries[slot].value),
            None => None,
        }
    }

    /// Files `value` under `key`, replacing the record that was there.
    pub fn insert(&mut self, key: String, value: V)
        ensures
            final(self)@ == old(self)@.insert(key@, value),
            forall|measure: spec_fn(V) -> int| #[trigger]
                final(self).total(measure) == old(self).total(measure) - (if old(self)@.contains_key(
                    key@,
                ) {
                    measure(old(self)@[key@])
                } else {
                    0
                }) + measure(value),
            final(self).entries().len() == old(self).entries().len() + (if old(self)@.contains_key(
                key@,
            ) {
                0int
            } else {
                1int
            }),
    {
        proof {
            use_type_invariant(&*self);
        }
        let ghost before = self.entries@;
        let ghost key_view = key@;
        let found = self.find(&key);
        let mut entries: Vec<Entry<V>> = Vec::new();
        core::mem::swap(&mut self.entries, &mut entries);
        match found {
            Some(slot) => {
                let entry = Entry { key, value };
                entries[slot] = entry;
                proof {
                    assert forall|i: int, j: int| 0 <= i < j < entries@.len() implies (
                    #[trigger] entries@[i]).key@ != (#[trigger] entries@[j]).key@ by {
                        assert(before[i].key@ != before[j].key@);
                    }
                }
                core::mem::swap(&mut self.entries, &mut entries);
                proof {
                    let after = self.entries@;
                    assert(after == before.update(slot as int, entry));
                    assert forall|measure: spec_fn(V) -> int|
                        sum_of(after, measure) == sum_of(before, measure) - measure(
                            before[slot as int].value,
                        ) + measure(value) by {
                        lemma_sum_of_update(before, slot as int, entry, measure);
                    }
                    assert forall|k: Seq<char>| has_key(after, k) == has_key(before, k) by {
                        if has_key(before, k) {
                            let i = slot_of(before, k);
                            assert(after[i].key@ == k);
                        }
                        if has_key(after, k) {
                            let i = slot_of(after, k);
                            assert(before[i].key@ == k);
                        }
                    }
                    assert forall|k: Seq<char>| has_key(after, k) implies after[slot_of(
                        after,
                        k,
                    )].value == (if k == key_view {
                        value
                    } else {
                        before[slot_of(before, k)].value
                    }) by {
                        let i = slot_of(after, k);
                        let j = slot_of(before, k);
                        assert(before[i].key@ == k);
                        assert(i == j);
                    }
                    assert(self@ =~= old(self)@.insert(key_view, value));
                }
            },
            None => {
                let entry = Entry { key, value };
                entries.push(entry);
                proof {
                    assert forall|i: int, j: int| 0 <= i < j < entries@.len() implies (
                    #[trigger] entries@[i]).key@ != (#[trigger] entries@[j]).key@ by {
                        if j < before.len() {
                            assert(before[i].key@ != before[j].key@);
                        } else {
                            assert(before[i].key@ != key_view);
                        }
                    }
                }
                core::mem::swap(&mut self.entries, &mut entries);
                proof {
                    let after = self.entries@;
                    assert(after == before.push(entry));
                    assert forall|measure: spec_fn(V) -> int|
                        sum_of(after, measure) == sum_of(before, measure) + measure(value) by {
                        lemma_sum_of_push(before, entry, measure);
                    }
                    assert forall|k: Seq<char>| has_key(after, k) == (k == key_view || has_key(
                        before,
                        k,
                    )) by {
                        if has_key(before, k) {
                            let i = slot_of(before, k);
                            assert(after[i].key@ == k);
                        }
                        if k == key_view {
                            assert(after[before.len() as int].key@ == k);
                        }
                        if has_key(after, k) {
                            let i = slot_of(after, k);
                            if i < before.len() {
                                assert(before[i].key@ == k);
                            }
                        }
                    }
                    assert forall|k: Seq<char>| has_key(after, k) implies after[slot_of(
                        after,
                        k,
                    )].value == (if k == key_view {
                        value
                    } else {
                        before[slot_of(before, k)].value
                    }) by {
                        let i = slot_of(after, k);
                        if k == key_view {
                            assert(after[before.len() as int].key@ == k);
                            if i < before.len() {
                                assert(before[i].key@ == k);
                            }
                        } else {
                            assert(before[i].key@ == k);
                            let j = slot_of(before, k);
                            assert(i == j);
                        }
                    }
                    assert(self@ =~= old(self)@.insert(key_view, value));
                }
            },
        }
    }

    /// A copy of the store, for work that is committed only once all of it
    /// has gone through.
    pub fn duplicate(&self) -> (copy: Self) where V: Copy
        ensures
            copy.entries() == self.entries(),
            copy@ == self@,
    {
        let mut entries: Vec<Entry<V>> = Vec::new();
        let mut i: usize = 0;
        while i < self.entries.len()
            invariant
                i <= self.entries@.len(),
                entries@ == self.entries@.take(i as int),
            decreases self.entries@.len() - i,
        {
            let entry = &self.entries[i];
            entries.push(Entry { key: entry.key.clone(), value: entry.value });
            i += 1;
            assert(entries@ =~= self.entries@.take(i as int));
        }
        assert(self.entries@.take(i as int) =~= self.entries@);
        proof {
            use_type_invariant(self);
        }
        Store { entries }
    }

    /// Takes the record filed under `key` out of the store, if there is one.
    pub fn remove(&mut self, key: &String)
        ensures
            final(self)@ == old(self)@.remove(key@),
            forall|measure: spec_fn(V) -> int| #[trigger]
                final(self).total(measure) == old(self).total(measure) - (if old(self)@.contains_key(
                    key@,
                ) {
                    measure(old(self)@[key@])
                } else {
                    0
                }),
    {
        proof {
            use_type_invariant(&*self);
        }
        let ghost before = self.entries@;
        let ghost key_view = key@;
        match self.find(key) {
            Some(slot) => {
                let mut entries: Vec<Entry<V>> = Vec::new();
                core::mem::swap(&mut self.entries, &mut entries);
                entries.remove(slot);
                proof {
                    assert forall|i: int, j: int| 0 <= i < j < entries@.len() implies (
                    #[trigger] entries@[i]).key@ != (#[trigger] entries@[j]).key@ by {
                        let a = if i < slot {
                            i
                        } else {
                            i + 1
                        };
                        let b = if j < slot {
                            j
                        } else {
                            j + 1
                        };
                        assert(before[a].key@ != before[b].key@);
                    }
                }
                core::mem::swap(&mut self.entries, &mut entries);
                proof {
                    let after = self.entries@;
                    assert(after == before.remove(slot as int));
                    assert forall|measure: spec_fn(V) -> int|
                        sum_of(after, measure) == sum_of(before, measure) - measure(
                            before[slot as int].value,
                        ) by {
                        lemma_sum_of_remove(before, slot as int, measure);
                    }
                    assert forall|k: Seq<char>| has_key(after, k) == (k != key_view && has_key(
                        before,
                        k,
                    )) by {
                        if has_key(before, k) && k != key_view {
                            let i = slot_of(before, k);
                            if i < slot {
                                assert(after[i].key@ == k);
                            } else {
                                assert(after[i - 1].key@ == k);
                            }
                        }
                        if has_key(after, k) {
                            let i = slot_of(after, k);
                            if i < slot {
                                assert(before[i].key@ == k);
                            } else {
                                assert(before[i + 1].key@ == k);
                            }
                        }
                    }
                    assert forall|k: Seq<char>| has_key(after, k) implies after[slot_of(
                        after,
                        k,
                    )].value == before[slot_of(before, k)].value by {
                        let i = slot_of(after, k);
                        let j = slot_of(before, k);
                        if i < slot {
                            assert(before[i].key@ == k);
                            assert(i == j);
                        } else {
                            assert(before[i + 1].key@ == k);
                            assert(i + 1 == j);
                        }
                    }
                    assert(self@ =~= old(self)@.remove(key_view));
                }
            },
            None => {
                assert(self@ =~= old(self)@.remove(key_view));
            },
        }
    }

    /// At a position of the store stands the record that the map holds for
    /// the key at that position.
    proof fn lemma_slot(&self, slot: int)
        requires
            0 <= slot < self.entries().len(),
            distinct_keys(self.entries()),
        ensures
            self@.contains_key(self.entries()[slot].key@),
            self@[self.entries()[slot].key@] == self.entries()[slot].value,
    {
        let key = self.entries()[slot].key@;
        assert(has_key(self.entries(), key));
        let chosen = slot_of(self.entries(), key);
        assert(chosen == slot);
    }
}

} // verus!
