//! A map from byte-string keys to values, kept as a list of entries.
//!
//! Every persisted table of the three contracts is a [`Store`]: its key is the
//! byte string under which the entry is persisted, and its view is the
//! mathematical map from keys to the views of the values.

use crate::byte_utils::bytes_eq;
use vstd::prelude::*;

verus! {

/// A finite map from byte strings to values of type `V`.
#[derive(Debug)]
pub struct Store<V> {
    entries: Vec<(Vec<u8>, V)>,
}

/// The map that a list of entries spells, later entries winning.
spec fn entries_map<V: View>(entries: Seq<(Vec<u8>, V)>) -> Map<Seq<u8>, V::V>
    decreases entries.len(),
{
    if entries.len() == 0 {
        Map::empty()
    } else {
        entries_map(entries.drop_last()).insert(entries.last().0@, entries.last().1@)
    }
}

/// Whether `part` holds what `full` holds under `key`, where `full` holds
/// anything there.
pub open spec fn loaded<W>(part: Map<Seq<u8>, W>, full: Map<Seq<u8>, W>, key: Seq<u8>) -> bool {
    full.contains_key(key) ==> part.contains_key(key) && part[key] == full[key]
}

/// The table `full` after a part of it, `part`, was taken out, worked on and
/// written back as `part_after`: what the part held is gone from the table,
/// and what the part holds after is in it.
pub open spec fn written_back<W>(
    full: Map<Seq<u8>, W>,
    part: Map<Seq<u8>, W>,
    part_after: Map<Seq<u8>, W>,
) -> Map<Seq<u8>, W> {
    full.remove_keys(part.dom()).union_prefer_right(part_after)
}

/// Whether no key occurs twice in `entries`.
spec fn distinct_keys<V>(entries: Seq<(Vec<u8>, V)>) -> bool {
    forall|i: int, j: int|
        0 <= i < j < entries.len() ==> (#[trigger] entries[i]).0@ != (#[trigger] entries[j]).0@
}

proof fn lemma_entries_map_dom<V: View>(entries: Seq<(Vec<u8>, V)>, key: Seq<u8>)
    ensures
        entries_map(entries).contains_key(key) <==> exists|i: int|
            0 <= i < entries.len() && (#[trigger] entries[i]).0@ == key,
    decreases entries.len(),
{
    if entries.len() > 0 {
        let rest = entries.drop_last();
        lemma_entries_map_dom(rest, key);
        if entries_map(entries).contains_key(key) {
            if entries.last().0@ == key {
                assert(entries[entries.len() - 1].0@ == key);
            } else {
                let i = choose|i: int| 0 <= i < rest.len() && (#[trigger] rest[i]).0@ == key;
                assert(entries[i].0@ == key);
            }
        }
        if exists|i: int| 0 <= i < entries.len() && (#[trigger] entries[i]).0@ == key {
            let i = choose|i: int| 0 <= i < entries.len() && (#[trigger] entries[i]).0@ == key;
            if i < entries.len() - 1 {
                assert(rest[i].0@ == key);
            }
        }
    }
}

proof fn lemma_entries_map_at<V: View>(entries: Seq<(Vec<u8>, V)>, i: int)
    requires
        distinct_keys(entries),
        0 <= i < entries.len(),
    ensures
        entries_map(entries).contains_key(entries[i].0@),
        entries_map(entries)[entries[i].0@] == entries[i].1@,
    decreases entries.len(),
{
    let rest = entries.drop_last();
    if i < entries.len() - 1 {
        assert(distinct_keys(rest)) by {
            assert forall|a: int, b: int| 0 <= a < b < rest.len() implies (#[trigger] rest[a]).0@
                != (#[trigger] rest[b]).0@ by {
                assert(entries[a].0@ != entries[b].0@);
            }
        }
        lemma_entries_map_at(rest, i);
        assert(rest[i] == entries[i]);
        assert(entries[i].0@ != entries[entries.len() - 1].0@);
    }
}

proof fn lemma_entries_map_update<V: View>(entries: Seq<(Vec<u8>, V)>, i: int, entry: (Vec<u8>, V))
    requires
        distinct_keys(entries),
        0 <= i < entries.len(),
        entries[i].0@ == entry.0@,
    ensures
        distinct_keys(entries.update(i, entry)),
        entries_map(entries.update(i, entry)) =~= entries_map(entries).insert(entry.0@, entry.1@),
    decreases entries.len(),
{
    let updated = entries.update(i, entry);
    assert(distinct_keys(updated)) by {
        assert forall|a: int, b: int| 0 <= a < b < updated.len() implies (#[trigger] updated[a]).0@
            != (#[trigger] updated[b]).0@ by {
            assert(entries[a].0@ != entries[b].0@);
        }
    }
    let rest = entries.drop_last();
    if i == entries.len() - 1 {
        assert(updated.drop_last() =~= rest);
    } else {
        assert(distinct_keys(rest)) by {
            assert forall|a: int, b: int| 0 <= a < b < rest.len() implies (#[trigger] rest[a]).0@
                != (#[trigger] rest[b]).0@ by {
                assert(entries[a].0@ != entries[b].0@);
            }
        }
        lemma_entries_map_update(rest, i, entry);
        assert(updated.drop_last() =~= rest.update(i, entry));
        assert(updated.last() == entries.last());
        assert(entries[i].0@ != entries[entries.len() - 1].0@);
    }
}

proof fn lemma_entries_map_remove<V: View>(entries: Seq<(Vec<u8>, V)>, i: int)
    requires
        distinct_keys(entries),
        0 <= i < entries.len(),
    ensures
        distinct_keys(entries.remove(i)),
        entries_map(entries.remove(i)) =~= entries_map(entries).remove(entries[i].0@),
    decreases entries.len(),
{
    let removed = entries.remove(i);
    assert(distinct_keys(removed)) by {
        assert forall|a: int, b: int| 0 <= a < b < removed.len() implies (#[trigger] removed[a]).0@
            != (#[trigger] removed[b]).0@ by {
            let a0 = if a < i { a } else { a + 1 };
            let b0 = if b < i { b } else { b + 1 };
            assert(entries[a0].0@ != entries[b0].0@);
        }
    }
    let rest = entries.drop_last();
    assert(distinct_keys(rest)) by {
        assert forall|a: int, b: int| 0 <= a < b < rest.len() implies (#[trigger] rest[a]).0@
            != (#[trigger] rest[b]).0@ by {
            assert(entries[a].0@ != entries[b].0@);
        }
    }
    if i == entries.len() - 1 {
        assert(removed =~= rest);
        lemma_entries_map_dom(rest, entries[i].0@);
        if entries_map(rest).contains_key(entries[i].0@) {
            let j = choose|j: int| 0 <= j < rest.len() && (#[trigger] rest[j]).0@ == entries[i].0@;
            assert(entries[j].0@ != entries[i].0@);
        }
    } else {
        lemma_entries_map_remove(rest, i);
        assert(removed.drop_last() =~= rest.remove(i));
        assert(removed.last() == entries.last());
        assert(rest[i] == entries[i]);
        assert(entries[i].0@ != entries[entries.len() - 1].0@);
    }
}

proof fn lemma_entries_map_len<V: View>(entries: Seq<(Vec<u8>, V)>)
    requires
        distinct_keys(entries),
    ensures
        entries_map(entries).dom().finite(),
        entries_map(entries).dom().len() == entries.len(),
    decreases entries.len(),
{
    if entries.len() > 0 {
        let rest = entries.drop_last();
        assert(distinct_keys(rest)) by {
            assert forall|a: int, b: int| 0 <= a < b < rest.len() implies (#[trigger] rest[a]).0@
                != (#[trigger] rest[b]).0@ by {
                assert(entries[a].0@ != entries[b].0@);
            }
        }
        lemma_entries_map_len(rest);
        lemma_entries_map_dom(rest, entries.last().0@);
        if entries_map(rest).contains_key(entries.last().0@) {
            let i = choose|i: int| 0 <= i < rest.len() && (#[trigger] rest[i]).0@
                == entries.last().0@;
            assert(entries[i].0@ != entries[entries.len() - 1].0@);
        }
        assert(entries_map(entries).dom() =~= entries_map(rest).dom().insert(entries.last().0@));
    } else {
        assert(entries_map(entries).dom() =~= Set::<Seq<u8>>::empty());
    }
}

impl<V> Store<V> {
    /// The invariant of the representation: no key is held twice.
    #[verifier::type_invariant]
    spec fn wf(&self) -> bool {
        distinct_keys(self.entries@)
    }
}

impl<V: View> View for Store<V> {
    type V = Map<Seq<u8>, V::V>;

    closed spec fn view(&self) -> Map<Seq<u8>, V::V> {
        entries_map(self.entries@)
    }
}

impl<V: View> Store<V> {
    /// The number of entries held.
    pub closed spec fn spec_len(&self) -> nat {
        self.entries@.len()
    }

    /// The key of the entry at position `i`.
    pub closed spec fn spec_key_at(&self, i: int) -> Seq<u8> {
        self.entries@[i].0@
    }

    /// A store with no entry.
    pub fn new() -> (store: Self)
        ensures
            store@ == Map::<Seq<u8>, V::V>::empty(),
            store.spec_len() == 0,
    {
        Store { entries: Vec::new() }
    }

    /// The value held under `key`, if there is one.
    pub fn get(&self, key: &[u8]) -> (found: Option<&V>)
        ensures
            match found {
                Some(value) => self@.contains_key(key@) && self@[key@] == value@,
                None => !self@.contains_key(key@),
            },
    {
        proof {
            use_type_invariant(self);
        }
        let mut i: usize = 0;
        while i < self.entries.len()
            invariant
                distinct_keys(self.entries@),
                0 <= i <= self.entries@.len(),
                forall|j: int| 0 <= j < i ==> (#[trigger] self.entries@[j]).0@ != key@,
            decreases self.entries@.len() - i,
        {
            if bytes_eq(self.entries[i].0.as_slice(), key) {
                proof {
                    lemma_entries_map_at(self.entries@, i as int);
                }
                return Some(&self.entries[i].1);
            }
            i += 1;
        }
        proof {
            lemma_entries_map_dom(self.entries@, key@);
        }
        None
    }

    /// Whether a value is held under `key`.
    pub fn contains(&self, key: &[u8]) -> (held: bool)
        ensures
            held == self@.contains_key(key@),
    {
        self.get(key).is_some()
    }

    /// Puts `value` under `key`, in place of what was held there.
    pub fn insert(&mut self, key: Vec<u8>, value: V)
        ensures
            final(self)@ == old(self)@.insert(key@, value@),
    {
        proof {
            use_type_invariant(&*self);
        }
        let mut entries: Vec<(Vec<u8>, V)> = Vec::new();
        core::mem::swap(&mut self.entries, &mut entries);
        let mut i: usize = 0;
        while i < entries.len()
            invariant
                distinct_keys(entries@),
                entries@ == old(self).entries@,
                self.entries@.len() == 0,
                0 <= i <= entries@.len(),
                forall|j: int| 0 <= j < i ==> (#[trigger] entries@[j]).0@ != key@,
            decreases entries@.len() - i,
        {
            if bytes_eq(entries[i].0.as_slice(), key.as_slice()) {
                proof {
                    lemma_entries_map_update(entries@, i as int, (key, value));
                }
                entries.set(i, (key, value));
                core::mem::swap(&mut self.entries, &mut entries);
                return ;
            }
            i += 1;
        }
        proof {
            let entry = (key, value);
            let grown = entries@.push(entry);
            assert(grown.drop_last() =~= entries@);
            assert(distinct_keys(grown)) by {
                assert forall|a: int, b: int| 0 <= a < b < grown.len() implies (
                #[trigger] grown[a]).0@ != (#[trigger] grown[b]).0@ by {
                    if b < grown.len() - 1 {
                        assert(entries@[a].0@ != entries@[b].0@);
                    } else {
                        assert(entries@[a].0@ != key@);
                    }
                }
            }
        }
        entries.push((key, value));
        core::mem::swap(&mut self.entries, &mut entries);
    }

    /// Takes away what is held under `key`, if anything is.
    pub fn remove(&mut self, key: &[u8])
        ensures
            final(self)@ == old(self)@.remove(key@),
    {
        proof {
            use_type_invariant(&*self);
        }
        let mut entries: Vec<(Vec<u8>, V)> = Vec::new();
        core::mem::swap(&mut self.entries, &mut entries);
        let mut i: usize = 0;
        while i < entries.len()
            invariant
                distinct_keys(entries@),
                entries@ == old(self).entries@,
                self.entries@.len() == 0,
                0 <= i <= entries@.len(),
                forall|j: int| 0 <= j < i ==> (#[trigger] entries@[j]).0@ != key@,
            decreases entries@.len() - i,
        {
            if bytes_eq(entries[i].0.as_slice(), key) {
                proof {
                    lemma_entries_map_remove(entries@, i as int);
                }
                let gone = entries.remove(i);
                core::mem::swap(&mut self.entries, &mut entries);
                return ;
            }
            i += 1;
        }
        proof {
            lemma_entries_map_dom(entries@, key@);
            assert(entries_map(entries@).remove(key@) =~= entries_map(entries@));
        }
        core::mem::swap(&mut self.entries, &mut entries);
    }

    /// The number of entries held. The positions below it list the map:
    /// there are as many as the map has keys, each holds a key of the map,
    /// no two hold the same key, and every key of the map is held at one.
    pub fn len(&self) -> (n: usize)
        ensures
            n == self.spec_len(),
            self@.dom().finite(),
            n == self@.len(),
            forall|i: int|
                0 <= i < self.spec_len() ==> self@.contains_key(#[trigger] self.spec_key_at(i)),
            forall|i: int, j: int|
                0 <= i < j < self.spec_len() ==> #[trigger] self.spec_key_at(i)
                    != #[trigger] self.spec_key_at(j),
            forall|key: Seq<u8>| #[trigger]
                self@.contains_key(key) ==> exists|i: int|
                    0 <= i < self.spec_len() && #[trigger] self.spec_key_at(i) == key,
    {
        proof {
            use_type_invariant(self);
            lemma_entries_map_len(self.entries@);
            assert forall|i: int| 0 <= i < self.spec_len() implies self@.contains_key(
                #[trigger] self.spec_key_at(i),
            ) by {
                lemma_entries_map_at(self.entries@, i);
            }
            assert forall|key: Seq<u8>| #[trigger] self@.contains_key(key) implies exists|i: int|
                0 <= i < self.spec_len() && #[trigger] self.spec_key_at(i) == key by {
                lemma_entries_map_dom(self.entries@, key);
                let i = choose|i: int|
                    0 <= i < self.entries@.len() && (#[trigger] self.entries@[i]).0@ == key;
                assert(self.spec_key_at(i) == key);
            }
        }
        self.entries.len()
    }

    /// The key of the entry at position `i`.
    pub fn key_at(&self, i: usize) -> (key: &Vec<u8>)
        requires
            i < self.spec_len(),
        ensures
            key@ == self.spec_key_at(i as int),
            self@.contains_key(key@),
    {
        proof {
            use_type_invariant(self);
            lemma_entries_map_at(self.entries@, i as int);
        }
        &self.entries[i].0
    }

    /// The value of the entry at position `i`.
    pub fn value_at(&self, i: usize) -> (value: &V)
        requires
            i < self.spec_len(),
        ensures
            self@.contains_key(self.spec_key_at(i as int)),
            self@[self.spec_key_at(i as int)] == value@,
    {
        proof {
            use_type_invariant(self);
            lemma_entries_map_at(self.entries@, i as int);
        }
        &self.entries[i].1
    }
}

} // verus!
