//! Rows of a device, found by name.

use vstd::prelude::*;

verus! {

/// Values found by the name under which they were inserted last. Names are raw bytes.
pub struct NameTable<V> {
    entries: Vec<(Vec<u8>, V)>,
}

impl<V> View for NameTable<V> {
    type V = Map<Seq<u8>, V>;

    closed spec fn view(&self) -> Map<Seq<u8>, V> {
        Map::new(|name: Seq<u8>| self.holds(name), |name: Seq<u8>| self.entries@[self.place(name)].1)
    }
}

impl<V> NameTable<V> {
    /// The entry at `i` has the given name.
    spec fn named(self, i: int, name: Seq<u8>) -> bool {
        0 <= i < self.entries@.len() && self.entries@[i].0@ == name
    }

    spec fn holds(self, name: Seq<u8>) -> bool {
        exists|i: int| self.named(i, name)
    }

    spec fn place(self, name: Seq<u8>) -> int {
        choose|i: int| self.named(i, name)
    }

    /// No name has two entries.
    pub closed spec fn wf(self) -> bool {
        forall|name: Seq<u8>, i: int, j: int|
            #[trigger] self.named(i, name) && #[trigger] self.named(j, name) ==> i == j
    }

    /// A table without entries.
    pub fn new() -> (table: Self)
        ensures
            table.wf(),
            table@ == Map::<Seq<u8>, V>::empty(),
    {
        let table = NameTable { entries: Vec::new() };
        assert(table@ =~= Map::<Seq<u8>, V>::empty());
        table
    }

    /// The place of the entry with the given name.
    fn find(&self, name: &[u8]) -> (place: Option<usize>)
        ensures
            match place {
                Some(i) => self.named(i as int, name@),
                None => !self.holds(name@),
            },
    {
        let mut i: usize = 0;
        while i < self.entries.len()
            invariant
                i <= self.entries@.len(),
                forall|j: int| 0 <= j < i ==> !self.named(j, name@),
            decreases self.entries@.len() - i,
        {
            if same_bytes(self.entries[i].0.as_slice(), name) {
                return Some(i);
            }
            i = i + 1;
        }
        None
    }

    /// Puts `value` under `name`, in place of what stood there.
    pub fn insert(&mut self, name: Vec<u8>, value: V)
        requires
            old(self).wf(),
        ensures
            final(self).wf(),
            final(self)@ == old(self)@.insert(name@, value),
    {
        let ghost before = *self;
        let ghost key = name@;
        match self.find(name.as_slice()) {
            Some(i) => {
                self.entries.set(i, (name, value));
                assert forall|n: Seq<u8>, j: int| #[trigger] self.named(j, n) <==> before.named(
                    j,
                    n,
                ) by {}
                assert(self.named(i as int, key));
            },
            None => {
                self.entries.push((name, value));
                let ghost last = self.entries@.len() - 1;
                assert forall|n: Seq<u8>, j: int| #[trigger]
                    self.named(j, n) <==> before.named(j, n) || (j == last && n == key) by {}
                assert(self.named(last, key));
                assert forall|n: Seq<u8>| before.holds(n) implies self.holds(n) by {
                    assert(self.named(before.place(n), n));
                }
            },
        }
        proof {
            assert(self.wf());
            assert forall|n: Seq<u8>| n != key && #[trigger] before.holds(n) implies self.holds(n)
                && self.entries@[self.place(n)].1 == before.entries@[before.place(n)].1 by {
                assert(before.named(before.place(n), n));
                assert(self.named(before.place(n), n));
                assert(self.named(self.place(n), n));
            }
            assert forall|n: Seq<u8>| n != key && #[trigger] self.holds(n) implies before.holds(
                n,
            ) by {
                assert(self.named(self.place(n), n));
                assert(before.named(self.place(n), n));
            }
            assert(self.named(self.place(key), key));
            assert(self@ =~= before@.insert(key, value));
        }
    }

    /// What stands under `name`.
    pub fn get(&self, name: &[u8]) -> (value: Option<&V>)
        requires
            self.wf(),
        ensures
            match value {
                Some(v) => self@.contains_key(name@) && *v == self@[name@],
                None => !self@.contains_key(name@),
            },
    {
        match self.find(name) {
            Some(i) => {
                assert(self.named(self.place(name@), name@));
                Some(&self.entries[i].1)
            },
            None => None,
        }
    }

    /// Whether the table has no entries.
    pub fn is_empty(&self) -> (empty: bool)
        ensures
            empty <==> self@ == Map::<Seq<u8>, V>::empty(),
    {
        let empty = self.entries.is_empty();
        proof {
            if empty {
                assert(self@ =~= Map::<Seq<u8>, V>::empty());
            } else {
                assert(self.named(0, self.entries@[0].0@));
                assert(self@.contains_key(self.entries@[0].0@));
            }
        }
        empty
    }
}

/// What a table holds once `rows` were inserted into it, one after the other.
pub open spec fn inserted<K, V>(rows: Seq<(K, V)>) -> Map<K, V>
    decreases rows.len(),
{
    if rows.len() == 0 {
        Map::empty()
    } else {
        inserted(rows.drop_last()).insert(rows.last().0, rows.last().1)
    }
}

/// Of the rows with one name the last stands, and no name is found that no row had.
pub proof fn last_row_stands<K, V>(rows: Seq<(K, V)>, name: K)
    ensures
        inserted(rows).contains_key(name) <==> exists|i: int|
            0 <= i < rows.len() && (#[trigger] rows[i]).0 == name,
        forall|i: int|
            0 <= i < rows.len() && (#[trigger] rows[i]).0 == name && (forall|j: int|
                i < j < rows.len() ==> (#[trigger] rows[j]).0 != name) ==> inserted(rows)[name]
                == rows[i].1,
    decreases rows.len(),
{
    if rows.len() > 0 {
        let earlier = rows.drop_last();
        last_row_stands(earlier, name);
        assert(forall|i: int| 0 <= i < earlier.len() ==> earlier[i] == #[trigger] rows[i]);
        if rows.last().0 != name {
            assert(inserted(rows).contains_key(name) <==> inserted(earlier).contains_key(name));
            if inserted(earlier).contains_key(name) {
                let i = choose|i: int| 0 <= i < earlier.len() && (#[trigger] earlier[i]).0 == name;
                assert(rows[i].0 == name);
            }
        }
    }
}

/// Whether two byte strings are the same.
pub fn same_bytes(a: &[u8], b: &[u8]) -> (same: bool)
    ensures
        same <==> a@ == b@,
{
    if a.len() != b.len() {
        return false;
    }
    let mut i: usize = 0;
    while i < a.len()
        invariant
            i <= a@.len(),
            a@.len() == b@.len(),
            forall|j: int| 0 <= j < i ==> a@[j] == b@[j],
        decreases a@.len() - i,
    {
        if a[i] != b[i] {
            return false;
        }
        i = i + 1;
    }
    assert(a@ =~= b@);
    true
}

} // verus!
