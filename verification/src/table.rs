//! A table of values keyed by account identity, as contract storage keys
//! one entry per account.

use vstd::prelude::*;
use crate::address::Address;

verus! {

/// One stored entry.
pub struct Entry<V> {
    pub key: Address,
    pub value: V,
}

/// No key occurs twice.
pub open spec fn keys_distinct<V>(es: Seq<Entry<V>>) -> bool {
    forall|i: int, j: int|
        0 <= i < es.len() && 0 <= j < es.len() && i != j ==> #[trigger] es[i].key@ != #[trigger] es[j].key@
}

/// The map that a sequence of entries describes; a later entry for a key
/// shadows an earlier one.
pub open spec fn entries_map<V: View>(es: Seq<Entry<V>>) -> Map<Seq<u8>, V::V>
    decreases es.len(),
{
    if es.len() == 0 {
        Map::empty()
    } else {
        entries_map(es.drop_last()).insert(es.last().key@, es.last().value@)
    }
}

proof fn lemma_entries_dom<V: View>(es: Seq<Entry<V>>, k: Seq<u8>)
    ensures
        entries_map(es).contains_key(k) <==> exists|i: int| 0 <= i < es.len() && #[trigger] es[i].key@ == k,
    decreases es.len(),
{
    if es.len() > 0 {
        lemma_entries_dom(es.drop_last(), k);
        if entries_map(es.drop_last()).contains_key(k) {
            let i = choose|i: int| 0 <= i < es.drop_last().len() && #[trigger] es.drop_last()[i].key@ == k;
            assert(es[i].key@ == k);
        }
        if exists|i: int| 0 <= i < es.len() && #[trigger] es[i].key@ == k {
            let i = choose|i: int| 0 <= i < es.len() && #[trigger] es[i].key@ == k;
            if i < es.len() - 1 {
                assert(es.drop_last()[i].key@ == k);
            }
        }
    }
}

proof fn lemma_entries_value<V: View>(es: Seq<Entry<V>>, i: int)
    requires
        keys_distinct(es),
        0 <= i < es.len(),
    ensures
        entries_map(es).contains_key(es[i].key@),
        entries_map(es)[es[i].key@] == es[i].value@,
    decreases es.len(),
{
    if i < es.len() - 1 {
        let dl = es.drop_last();
        assert(dl[i] == es[i]);
        assert(keys_distinct(dl)) by {
            assert forall|a: int, b: int|
                0 <= a < dl.len() && 0 <= b < dl.len() && a != b implies #[trigger] dl[a].key@ != #[trigger] dl[b].key@ by {
                assert(dl[a] == es[a] && dl[b] == es[b]);
            }
        }
        lemma_entries_value(dl, i);
        assert(es[i].key@ != es[es.len() - 1].key@);
    }
}

proof fn lemma_entries_update<V: View>(es: Seq<Entry<V>>, i: int, e: Entry<V>)
    requires
        keys_distinct(es),
        0 <= i < es.len(),
        e.key@ == es[i].key@,
    ensures
        entries_map(es.update(i, e)) == entries_map(es).insert(e.key@, e.value@),
    decreases es.len(),
{
    let us = es.update(i, e);
    if i == es.len() - 1 {
        assert(us.drop_last() =~= es.drop_last());
        assert(entries_map(us) =~= entries_map(es).insert(e.key@, e.value@));
    } else {
        let dl = es.drop_last();
        assert(us.drop_last() =~= dl.update(i, e));
        assert(keys_distinct(dl)) by {
            assert forall|a: int, b: int|
                0 <= a < dl.len() && 0 <= b < dl.len() && a != b implies #[trigger] dl[a].key@ != #[trigger] dl[b].key@ by {
                assert(dl[a] == es[a] && dl[b] == es[b]);
            }
        }
        lemma_entries_update(dl, i, e);
        assert(es[i].key@ != es[es.len() - 1].key@);
        assert(us.last() == es.last());
        assert(entries_map(us) =~= entries_map(es).insert(e.key@, e.value@));
    }
}

/// Values keyed by account identity.
pub struct AddressTable<V> {
    entries: Vec<Entry<V>>,
}

impl<V: View> View for AddressTable<V> {
    type V = Map<Seq<u8>, V::V>;

    closed spec fn view(&self) -> Map<Seq<u8>, V::V> {
        entries_map(self.entries@)
    }
}

impl<V: View> AddressTable<V> {
    /// The table's internal invariant: one entry per key.
    pub closed spec fn wf(&self) -> bool {
        keys_distinct(self.entries@)
    }

    /// An empty table.
    pub fn new() -> (t: Self)
        ensures
            t.wf(),
            t@ == Map::<Seq<u8>, V::V>::empty(),
    {
        let t = AddressTable { entries: Vec::new() };
        assert(t@ =~= Map::<Seq<u8>, V::V>::empty());
        t
    }

    fn find(&self, key: &Address) -> (r: Option<usize>)
        ensures
            match r {
                Some(i) => i < self.entries@.len() && self.entries@[i as int].key@ == key@,
                None => forall|j: int| 0 <= j < self.entries@.len() ==> #[trigger] self.entries@[j].key@ != key@,
            },
    {
        let n = self.entries.len();
        let mut i: usize = 0;
        while i < n
            invariant
                n == self.entries@.len(),
                i <= n,
                forall|j: int| 0 <= j < i ==> #[trigger] self.entries@[j].key@ != key@,
            decreases n - i,
        {
            if self.entries[i].key.same(key) {
                return Some(i);
            }
            i += 1;
        }
        None
    }

    /// The value stored for `key`, if any.
    pub fn get(&self, key: &Address) -> (r: Option<&V>)
        requires
            self.wf(),
        ensures
            match r {
                Some(v) => self@.contains_key(key@) && v@ == self@[key@],
                None => !self@.contains_key(key@),
            },
    {
        proof {
            lemma_entries_dom(self.entries@, key@);
        }
        match self.find(key) {
            Some(i) => {
                proof {
                    lemma_entries_value(self.entries@, i as int);
                }
                Some(&self.entries[i].value)
            },
            None => None,
        }
    }

    /// Stores `value` for `key`, replacing what was stored for it.
    pub fn insert(&mut self, key: Address, value: V)
        requires
            old(self).wf(),
        ensures
            final(self).wf(),
            final(self)@ == old(self)@.insert(key@, value@),
    {
        proof {
            lemma_entries_dom(self.entries@, key@);
        }
        match self.find(&key) {
            Some(i) => {
                let ghost es = self.entries@;
                let e = Entry { key, value };
                proof {
                    lemma_entries_update(es, i as int, e);
                }
                self.entries.set(i, e);
                assert(self.entries@ == es.update(i as int, e));
                assert(keys_distinct(self.entries@)) by {
                    assert forall|a: int, b: int|
                        0 <= a < self.entries@.len() && 0 <= b < self.entries@.len() && a != b
                        implies #[trigger] self.entries@[a].key@ != #[trigger] self.entries@[b].key@ by {
                        if a != i && b != i {
                            assert(self.entries@[a] == es[a] && self.entries@[b] == es[b]);
                        } else if a == i {
                            assert(self.entries@[b] == es[b]);
                        } else {
                            assert(self.entries@[a] == es[a]);
                        }
                    }
                }
            },
            None => {
                let ghost es = self.entries@;
                self.entries.push(Entry { key, value });
                assert(self.entries@.drop_last() =~= es);
                assert(keys_distinct(self.entries@)) by {
                    assert forall|a: int, b: int|
                        0 <= a < self.entries@.len() && 0 <= b < self.entries@.len() && a != b
                        implies #[trigger] self.entries@[a].key@ != #[trigger] self.entries@[b].key@ by {
                        if a < es.len() && b < es.len() {
                            assert(self.entries@[a] == es[a] && self.entries@[b] == es[b]);
                        } else if a < es.len() {
                            assert(self.entries@[a] == es[a]);
                        } else {
                            assert(self.entries@[b] == es[b]);
                        }
                    }
                }
            },
        }
    }
}

} // verus!
