//! A table of values keyed by name, in which each name occurs once.
use vstd::prelude::*;
use crate::text::eq_str;

verus! {

/// Values keyed by name. Each name occurs at most once; the table is seen as
/// a map from names to values.
pub struct NamedTable<V> {
    entries: Vec<(String, V)>,
}

/// Whether the entry at `i` has the name `k`.
pub open spec fn has_name<V>(entries: Seq<(String, V)>, i: int, k: Seq<char>) -> bool {
    0 <= i < entries.len() && entries[i].0@ == k
}

/// Whether no name occurs twice.
pub open spec fn names_unique<V>(entries: Seq<(String, V)>) -> bool {
    forall|i: int, j: int| 0 <= i < entries.len() && 0 <= j < entries.len() && i != j
        ==> #[trigger] entries[i].0@ != #[trigger] entries[j].0@
}

/// The map from names to values that a list of entries with unique names
/// stands for.
pub open spec fn entries_map<V>(entries: Seq<(String, V)>) -> Map<Seq<char>, V> {
    Map::new(
        |k: Seq<char>| exists|i: int| has_name(entries, i, k),
        |k: Seq<char>| entries[choose|i: int| has_name(entries, i, k)].1,
    )
}

proof fn lemma_entry_in_map<V>(entries: Seq<(String, V)>, i: int)
    requires
        names_unique(entries),
        0 <= i < entries.len(),
    ensures
        entries_map(entries).contains_key(entries[i].0@),
        entries_map(entries)[entries[i].0@] == entries[i].1,
{
    let k = entries[i].0@;
    assert(has_name(entries, i, k));
    let j = choose|j: int| has_name(entries, j, k);
    assert(entries[j].0@ == entries[i].0@);
}

impl<V> View for NamedTable<V> {
    type V = Map<Seq<char>, V>;

    closed spec fn view(&self) -> Map<Seq<char>, V> {
        entries_map(self.entries@)
    }
}

impl<V> NamedTable<V> {
    /// The table's invariant: no name occurs twice.
    pub closed spec fn wf(&self) -> bool {
        names_unique(self.entries@)
    }

    /// An empty table.
    pub fn new() -> (r: Self)
        ensures
            r.wf(),
            r@ == Map::<Seq<char>, V>::empty(),
    {
        let r = NamedTable { entries: Vec::new() };
        assert(r@ =~= Map::<Seq<char>, V>::empty());
        r
    }

    fn position(&self, name: &str) -> (r: Option<usize>)
        requires
            self.wf(),
        ensures
            match r {
                Some(i) => i < self.entries@.len() && self.entries@[i as int].0@ == name@,
                None => forall|i: int| 0 <= i < self.entries@.len() ==> self.entries@[i].0@ != name@,
            },
    {
        let mut i: usize = 0;
        while i < self.entries.len()
            invariant
                i <= self.entries@.len(),
                forall|j: int| 0 <= j < i ==> self.entries@[j].0@ != name@,
            decreases self.entries.len() - i,
        {
            if eq_str(&self.entries[i].0, name) {
                return Some(i);
            }
            i = i + 1;
        }
        None
    }

    /// Whether a name is in the table.
    pub fn contains(&self, name: &str) -> (r: bool)
        requires
            self.wf(),
        ensures
            r == self@.contains_key(name@),
    {
        match self.position(name) {
            Some(i) => {
                proof { lemma_entry_in_map(self.entries@, i as int); }
                true
            },
            None => {
                assert(!self@.contains_key(name@));
                false
            },
        }
    }

    /// The value stored under a name, if any.
    pub fn get(&self, name: &str) -> (r: Option<&V>)
        requires
            self.wf(),
        ensures
            match r {
                Some(v) => self@.contains_key(name@) && self@[name@] == *v,
                None => !self@.contains_key(name@),
            },
    {
        match self.position(name) {
            Some(i) => {
                proof { lemma_entry_in_map(self.entries@, i as int); }
                Some(&self.entries[i].1)
            },
            None => None,
        }
    }

    /// Stores `value` under `name`, replacing what was stored there.
    pub fn insert(&mut self, name: String, value: V)
        requires
            old(self).wf(),
        ensures
            final(self).wf(),
            final(self)@ == old(self)@.insert(name@, value),
    {
        let ghost k = name@;
        match self.position(name.as_str()) {
            Some(i) => {
                let ghost old_entries = self.entries@;
                self.entries.set(i, (name, value));
                let ghost e = self.entries@;
                assert(e == old_entries.update(i as int, (e[i as int].0, value)));
                assert forall|a: int, b: int| 0 <= a < e.len() && 0 <= b < e.len() && a != b
                    implies #[trigger] e[a].0@ != #[trigger] e[b].0@ by {
                    if a != i && b != i {
                        assert(old_entries[a].0@ != old_entries[b].0@);
                    } else if a == i {
                        assert(old_entries[b].0@ != old_entries[a].0@);
                    } else {
                        assert(old_entries[a].0@ != old_entries[b].0@);
                    }
                }
                assert forall|q: Seq<char>| #[trigger] entries_map(e).contains_key(q)
                    == entries_map(old_entries).insert(k, value).contains_key(q) by {
                    if q == k {
                        assert(has_name(e, i as int, q));
                    } else if entries_map(old_entries).contains_key(q) {
                        let j = choose|j: int| has_name(old_entries, j, q);
                        assert(has_name(e, j, q));
                    } else if entries_map(e).contains_key(q) {
                        let j = choose|j: int| has_name(e, j, q);
                        assert(has_name(old_entries, j, q));
                    }
                }
                assert forall|q: Seq<char>| #[trigger] entries_map(e).contains_key(q)
                    implies entries_map(e)[q] == entries_map(old_entries).insert(k, value)[q] by {
                    let j = choose|j: int| has_name(e, j, q);
                    lemma_entry_in_map(e, j);
                    if q != k {
                        assert(has_name(old_entries, j, q));
                        lemma_entry_in_map(old_entries, j);
                    }
                }
                assert(entries_map(e) =~= entries_map(old_entries).insert(k, value));
            },
            None => {
                let ghost old_entries = self.entries@;
                self.entries.push((name, value));
                let ghost e = self.entries@;
                assert(e == old_entries.push(e.last()));
                assert forall|a: int, b: int| 0 <= a < e.len() && 0 <= b < e.len() && a != b
                    implies #[trigger] e[a].0@ != #[trigger] e[b].0@ by {
                    if a < old_entries.len() && b < old_entries.len() {
                        assert(old_entries[a].0@ != old_entries[b].0@);
                    }
                }
                assert forall|q: Seq<char>| #[trigger] entries_map(e).contains_key(q)
                    == entries_map(old_entries).insert(k, value).contains_key(q) by {
                    if q == k {
                        assert(has_name(e, old_entries.len() as int, q));
                    } else if entries_map(old_entries).contains_key(q) {
                        let j = choose|j: int| has_name(old_entries, j, q);
                        assert(has_name(e, j, q));
                    } else if entries_map(e).contains_key(q) {
                        let j = choose|j: int| has_name(e, j, q);
                        assert(has_name(old_entries, j, q));
                    }
                }
                assert forall|q: Seq<char>| #[trigger] entries_map(e).contains_key(q)
                    implies entries_map(e)[q] == entries_map(old_entries).insert(k, value)[q] by {
                    let j = choose|j: int| has_name(e, j, q);
                    lemma_entry_in_map(e, j);
                    if q != k {
                        assert(has_name(old_entries, j, q));
                        lemma_entry_in_map(old_entries, j);
                    }
                }
                assert(entries_map(e) =~= entries_map(old_entries).insert(k, value));
            },
        }
    }

    /// Takes out the value stored under a name, if any.
    pub fn remove(&mut self, name: &str) -> (r: Option<V>)
        requires
            old(self).wf(),
        ensures
            final(self).wf(),
            final(self)@ == old(self)@.remove(name@),
            match r {
                Some(v) => old(self)@.contains_key(name@) && old(self)@[name@] == v,
                None => !old(self)@.contains_key(name@),
            },
    {
        let ghost k = name@;
        match self.position(name) {
            Some(i) => {
                let ghost old_entries = self.entries@;
                proof { lemma_entry_in_map(old_entries, i as int); }
                let entry = self.entries.remove(i);
                let ghost e = self.entries@;
                assert(e == old_entries.remove(i as int));
                assert forall|a: int, b: int| 0 <= a < e.len() && 0 <= b < e.len() && a != b
                    implies #[trigger] e[a].0@ != #[trigger] e[b].0@ by {
                    let a2 = if a < i { a } else { a + 1 };
                    let b2 = if b < i { b } else { b + 1 };
                    assert(old_entries[a2].0@ != old_entries[b2].0@);
                }
                assert forall|q: Seq<char>| #[trigger] entries_map(e).contains_key(q)
                    == entries_map(old_entries).remove(k).contains_key(q) by {
                    if entries_map(e).contains_key(q) {
                        let j = choose|j: int| has_name(e, j, q);
                        let j2 = if j < i { j } else { j + 1 };
                        assert(has_name(old_entries, j2, q));
                        assert(j2 != i);
                        assert(old_entries[j2].0@ != old_entries[i as int].0@);
                    } else if entries_map(old_entries).contains_key(q) && q != k {
                        let j = choose|j: int| has_name(old_entries, j, q);
                        assert(j != i);
                        let j2 = if j < i { j } else { j - 1 };
                        assert(has_name(e, j2, q));
                    }
                }
                assert forall|q: Seq<char>| #[trigger] entries_map(e).contains_key(q)
                    implies entries_map(e)[q] == entries_map(old_entries).remove(k)[q] by {
                    let j = choose|j: int| has_name(e, j, q);
                    lemma_entry_in_map(e, j);
                    let j2 = if j < i { j } else { j + 1 };
                    assert(has_name(old_entries, j2, q));
                    lemma_entry_in_map(old_entries, j2);
                }
                assert(entries_map(e) =~= entries_map(old_entries).remove(k));
                Some(entry.1)
            },
            None => {
                assert(self@ =~= self@.remove(k));
                None
            },
        }
    }
}

} // verus!
