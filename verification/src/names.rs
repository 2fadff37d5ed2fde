//! Small maps keyed by text, kept as lists in which no key occurs twice.

use vstd::prelude::*;

verus! {

/// A map from a pair of texts. A map from one text leaves the second empty.
pub struct NameMap<V> {
    pub entries: Vec<NameEntry<V>>,
}

/// One entry of a map.
pub struct NameEntry<V> {
    pub first: String,
    pub second: String,
    pub value: V,
}

/// A key of a map.
pub type NameKey = (Seq<char>, Seq<char>);

impl<V> NameEntry<V> {
    /// The key of the entry.
    pub open spec fn key(self) -> NameKey {
        (self.first@, self.second@)
    }
}

/// The map that a list of entries stands for.
pub open spec fn entries_map<V>(entries: Seq<NameEntry<V>>) -> Map<NameKey, V>
    decreases entries.len(),
{
    if entries.len() == 0 {
        Map::empty()
    } else {
        entries_map(entries.drop_last()).insert(entries.last().key(), entries.last().value)
    }
}

/// Whether no key occurs twice.
pub open spec fn distinct_keys<V>(entries: Seq<NameEntry<V>>) -> bool {
    forall|i: int, j: int|
        0 <= i < j < entries.len() ==> (#[trigger] entries[i]).key() != (
        #[trigger] entries[j]).key()
}

proof fn lemma_entries_map<V>(entries: Seq<NameEntry<V>>)
    requires
        distinct_keys(entries),
    ensures
        forall|i: int|
            0 <= i < entries.len() ==> entries_map(entries).contains_key(
                (#[trigger] entries[i]).key(),
            ) && entries_map(entries)[entries[i].key()] == entries[i].value,
        forall|k: NameKey| #[trigger]
            entries_map(entries).contains_key(k) ==> exists|i: int|
                0 <= i < entries.len() && (#[trigger] entries[i]).key() == k,
    decreases entries.len(),
{
    if entries.len() > 0 {
        let head = entries.drop_last();
        assert(distinct_keys(head)) by {
            assert forall|i: int, j: int| 0 <= i < j < head.len() implies (
            #[trigger] head[i]).key() != (#[trigger] head[j]).key() by {
                assert(entries[i].key() != entries[j].key());
            }
        }
        lemma_entries_map(head);
        assert forall|i: int| 0 <= i < entries.len() implies entries_map(entries).contains_key(
            (#[trigger] entries[i]).key(),
        ) && entries_map(entries)[entries[i].key()] == entries[i].value by {
            if i < head.len() {
                assert(head[i] == entries[i]);
                assert(entries[i].key() != entries[entries.len() - 1].key());
            }
        }
        assert forall|k: NameKey| #[trigger]
            entries_map(entries).contains_key(k) implies exists|i: int|
            0 <= i < entries.len() && (#[trigger] entries[i]).key() == k by {
            if k == entries.last().key() {
                assert(entries[entries.len() - 1].key() == k);
            } else {
                assert(entries_map(head).contains_key(k));
                let i = choose|i: int| 0 <= i < head.len() && (#[trigger] head[i]).key() == k;
                assert(entries[i].key() == k);
            }
        }
    }
}

impl<V> View for NameMap<V> {
    type V = Map<NameKey, V>;

    open spec fn view(&self) -> Map<NameKey, V> {
        entries_map(self.entries@)
    }
}

impl<V: Copy> NameMap<V> {
    /// Whether no key occurs twice.
    pub open spec fn wf(&self) -> bool {
        distinct_keys(self.entries@)
    }

    /// Where a key stands in the list tells what the map holds of it.
    pub proof fn lemma_entries(&self)
        requires
            self.wf(),
        ensures
            forall|i: int|
                0 <= i < self.entries@.len() ==> self@.contains_key(
                    (#[trigger] self.entries@[i]).key(),
                ) && self@[self.entries@[i].key()] == self.entries@[i].value,
            forall|k: NameKey| #[trigger]
                self@.contains_key(k) ==> exists|i: int|
                    0 <= i < self.entries@.len() && (#[trigger] self.entries@[i]).key() == k,
    {
        lemma_entries_map(self.entries@);
    }

    /// An empty map.
    pub fn new() -> (r: Self)
        ensures
            r.wf(),
            r@ == Map::<NameKey, V>::empty(),
    {
        NameMap { entries: Vec::new() }
    }

    fn position(&self, first: &str, second: &str) -> (r: Option<usize>)
        requires
            self.wf(),
        ensures
            match r {
                Some(i) => i < self.entries@.len() && self.entries@[i as int].key() == (
                    first@,
                    second@,
                ),
                None => !self@.contains_key((first@, second@)),
            },
    {
        let left: String = first.to_owned();
        let right: String = second.to_owned();
        let mut i: usize = 0;
        while i < self.entries.len()
            invariant
                i <= self.entries@.len(),
                left@ == first@,
                right@ == second@,
                forall|j: int|
                    0 <= j < i ==> (#[trigger] self.entries@[j]).key() != (first@, second@),
            decreases self.entries@.len() - i,
        {
            if self.entries[i].first == left && self.entries[i].second == right {
                return Some(i);
            }
            i += 1;
        }
        proof {
            self.lemma_entries();
        }
        None
    }

    /// What the map holds under a key.
    pub fn get(&self, first: &str, second: &str) -> (r: Option<V>)
        requires
            self.wf(),
        ensures
            r is Some == self@.contains_key((first@, second@)),
            r is Some ==> r->0 == self@[(first@, second@)],
    {
        proof {
            self.lemma_entries();
        }
        match self.position(first, second) {
            Some(i) => Some(self.entries[i].value),
            None => None,
        }
    }

    /// Puts a value under a key.
    pub fn insert(&mut self, first: &str, second: &str, value: V)
        requires
            old(self).wf(),
        ensures
            final(self).wf(),
            final(self)@ == old(self)@.insert((first@, second@), value),
    {
        let entry = NameEntry { first: first.to_owned(), second: second.to_owned(), value };
        match self.position(first, second) {
            Some(i) => {
                let ghost before = self.entries@;
                self.entries.set(i, entry);
                proof {
                    assert(self.wf()) by {
                        assert forall|a: int, b: int|
                            0 <= a < b < self.entries@.len() implies (
                        #[trigger] self.entries@[a]).key() != (
                        #[trigger] self.entries@[b]).key() by {
                            assert(before[a].key() != before[b].key());
                        }
                    }
                    lemma_entries_map(before);
                    self.lemma_entries();
                    assert(self@ =~= old(self)@.insert((first@, second@), value)) by {
                        assert forall|k: NameKey| self@.contains_key(k) == old(self)@.insert(
                            (first@, second@),
                            value,
                        ).contains_key(k) by {
                            if self@.contains_key(k) {
                                let j = choose|j: int|
                                    0 <= j < self.entries@.len() && (
                                    #[trigger] self.entries@[j]).key() == k;
                                assert(before[j].key() == k);
                            }
                            if old(self)@.contains_key(k) {
                                let j = choose|j: int|
                                    0 <= j < before.len() && (#[trigger] before[j]).key() == k;
                                assert(self.entries@[j].key() == k);
                            }
                            assert(self.entries@[i as int].key() == (first@, second@));
                        }
                        assert forall|k: NameKey| self@.contains_key(k) implies self@[k]
                            == old(self)@.insert((first@, second@), value)[k] by {
                            let j = choose|j: int|
                                0 <= j < self.entries@.len() && (
                                #[trigger] self.entries@[j]).key() == k;
                            assert(before[j].key() == k);
                            if j == i {
                                assert(k == (first@, second@));
                            } else {
                                assert(self.entries@[j] == before[j]);
                                assert(self.entries@[i as int].key() == (first@, second@));
                            }
                        }
                    }
                }
            },
            None => {
                let ghost before = self.entries@;
                proof {
                    self.lemma_entries();
                }
                self.entries.push(entry);
                proof {
                    assert(self.entries@.drop_last() =~= before);
                    assert forall|a: int, b: int|
                        0 <= a < b < self.entries@.len() implies (
                    #[trigger] self.entries@[a]).key() != (#[trigger] self.entries@[b]).key() by {
                        if b < before.len() {
                            assert(before[a].key() != before[b].key());
                        } else {
                            assert(before[a].key() == self.entries@[a].key());
                        }
                    }
                }
            },
        }
    }
}

} // verus!
