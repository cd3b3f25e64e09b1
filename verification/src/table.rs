//! A table of feeds keyed by their names, where no name occurs twice.
use vstd::prelude::*;

verus! {

/// The names of a list of entries, in order.
pub open spec fn entry_names<T>(entries: Seq<(String, T)>) -> Seq<Seq<char>> {
    entries.map_values(|e: (String, T)| e.0@)
}

/// The position of the entry named `name`.
pub open spec fn position_of<T>(entries: Seq<(String, T)>, name: Seq<char>) -> int {
    choose|i: int| 0 <= i < entries.len() && entries[i].0@ == name
}

/// The entries as a map from names to values.
pub open spec fn entry_map<T>(entries: Seq<(String, T)>) -> Map<Seq<char>, T> {
    Map::new(
        |name: Seq<char>| exists|i: int| 0 <= i < entries.len() && entries[i].0@ == name,
        |name: Seq<char>| entries[position_of(entries, name)].1,
    )
}

/// Distinct names are exactly the keys of the map that the entries make.
pub proof fn lemma_names_are_keys<T>(entries: Seq<(String, T)>)
    requires
        entry_names(entries).no_duplicates(),
    ensures
        entry_names(entries).to_set() == entry_map(entries).dom(),
        entry_names(entries).len() == entry_map(entries).dom().len(),
        entry_map(entries).dom().finite(),
{
    let names = entry_names(entries);
    assert(names.to_set() =~= entry_map(entries).dom()) by {
        assert forall|n: Seq<char>| names.to_set().contains(n) implies entry_map(entries).dom().contains(n) by {
            let i = choose|i: int| 0 <= i < names.len() && names[i] == n;
            assert(entries[i].0@ == n);
        }
        assert forall|n: Seq<char>| entry_map(entries).dom().contains(n) implies names.to_set().contains(n) by {
            let i = choose|i: int| 0 <= i < entries.len() && entries[i].0@ == n;
            assert(names[i] == n);
        }
    }
    names.unique_seq_to_set();
}

/// A table of named values in which each name occurs once, kept in the
/// order in which the names were first inserted.
#[derive(Debug)]
pub struct FeedTable<T> {
    entries: Vec<(String, T)>,
}

impl<T> FeedTable<T> {
    #[verifier::type_invariant]
    spec fn names_distinct(self) -> bool {
        entry_names(self.entries@).no_duplicates()
    }

    /// The names, in insertion order.
    pub closed spec fn names(self) -> Seq<Seq<char>> {
        entry_names(self.entries@)
    }

    /// The table as a map from names to values.
    pub closed spec fn map(self) -> Map<Seq<char>, T> {
        entry_map(self.entries@)
    }

    /// An empty table.
    pub fn new() -> (r: Self)
        ensures
            r.map() == Map::<Seq<char>, T>::empty(),
            r.names() == Seq::<Seq<char>>::empty(),
    {
        let r = FeedTable { entries: Vec::new() };
        assert(r.map() =~= Map::<Seq<char>, T>::empty());
        assert(r.names() =~= Seq::<Seq<char>>::empty());
        r
    }

    /// The position of `name` in the table, if it is there.
    fn find(&self, name: &String) -> (r: Option<usize>)
        ensures
            match r {
                Some(i) => i < self.entries@.len() && self.entries@[i as int].0@ == name@,
                None => !self.map().dom().contains(name@),
            },
    {
        let mut i: usize = 0;
        while i < self.entries.len()
            invariant
                i <= self.entries@.len(),
                forall|j: int| 0 <= j < i ==> self.entries@[j].0@ != name@,
            decreases self.entries@.len() - i,
        {
            if self.entries[i].0 == *name {
                return Some(i);
            }
            i = i + 1;
        }
        None
    }

    /// Looks up the value named `name`.
    pub fn get(&self, name: &str) -> (r: Option<&T>)
        ensures
            match r {
                Some(v) => self.map().dom().contains(name@) && *v == self.map()[name@],
                None => !self.map().dom().contains(name@),
            },
    {
        proof {
            use_type_invariant(self);
        }
        let key = name.to_owned();
        match self.find(&key) {
            Some(i) => {
                proof {
                    let entries = self.entries@;
                    assert(self.map().dom().contains(name@));
                    let p = position_of(entries, name@);
                    assert(entry_names(entries)[p] == entry_names(entries)[i as int]);
                }
                Some(&self.entries[i].1)
            },
            None => None,
        }
    }

    /// Sets the value named `name`, replacing any value of that name.
    pub fn insert(&mut self, name: String, value: T)
        ensures
            final(self).map() == old(self).map().insert(name@, value),
            old(self).map().dom().contains(name@) ==> final(self).names() == old(self).names(),
            !old(self).map().dom().contains(name@) ==> final(self).names() == old(self).names().push(name@),
    {
        proof {
            use_type_invariant(&*self);
        }
        let ghost old_entries = self.entries@;
        let found = self.find(&name);
        let mut entries: Vec<(String, T)> = Vec::new();
        std::mem::swap(&mut entries, &mut self.entries);
        match found {
            Some(i) => {
                let ghost key = name@;
                entries.set(i, (name, value));
                proof {
                    let entries = entries@;
                    assert(entry_names(entries) =~= entry_names(old_entries));
                    assert(entry_map(entries) =~= entry_map(old_entries).insert(key, value)) by {
                        assert forall|n: Seq<char>| #[trigger] entry_map(entries).dom().contains(n)
                            implies entry_map(entries)[n] == entry_map(old_entries).insert(key, value)[n] by {
                            let p = position_of(entries, n);
                            assert(entry_names(entries)[p] == n);
                            if n == key {
                                assert(entry_names(entries)[i as int] == n);
                            } else {
                                let q = position_of(old_entries, n);
                                assert(entry_names(old_entries)[q] == n);
                                assert(entry_names(entries)[q] == n);
                            }
                        }
                        assert forall|n: Seq<char>| entry_map(old_entries).insert(key, value).dom().contains(n)
                            implies #[trigger] entry_map(entries).dom().contains(n) by {
                            if n != key {
                                let q = choose|q: int| 0 <= q < old_entries.len() && old_entries[q].0@ == n;
                                assert(entries[q].0@ == n);
                            } else {
                                assert(entries[i as int].0@ == n);
                            }
                        }
                    }
                }
            },
            None => {
                let ghost key = name@;
                entries.push((name, value));
                proof {
                    let entries = entries@;
                    let last = old_entries.len() as int;
                    assert(entry_names(entries) =~= entry_names(old_entries).push(key));
                    assert(entry_map(entries) =~= entry_map(old_entries).insert(key, value)) by {
                        assert forall|n: Seq<char>| #[trigger] entry_map(entries).dom().contains(n)
                            implies entry_map(entries)[n] == entry_map(old_entries).insert(key, value)[n] by {
                            let p = position_of(entries, n);
                            assert(entry_names(entries)[p] == n);
                            if n == key {
                                assert(entry_names(entries)[last] == n);
                            } else {
                                let q = position_of(old_entries, n);
                                assert(entry_names(old_entries)[q] == n);
                                assert(entry_names(entries)[q] == n);
                            }
                        }
                        assert forall|n: Seq<char>| entry_map(old_entries).insert(key, value).dom().contains(n)
                            implies #[trigger] entry_map(entries).dom().contains(n) by {
                            if n != key {
                                let q = choose|q: int| 0 <= q < old_entries.len() && old_entries[q].0@ == n;
                                assert(entries[q].0@ == n);
                            } else {
                                assert(entries[last].0@ == n);
                            }
                        }
                    }
                }
            },
        }
        self.entries = entries;
    }

    /// The names in the table, in insertion order.
    pub fn feed_names(&self) -> (r: Vec<String>)
        ensures
            r.deep_view() == self.names(),
            r.deep_view().no_duplicates(),
            r.deep_view().to_set() == self.map().dom(),
            r.len() == self.map().dom().len(),
    {
        proof {
            use_type_invariant(self);
            lemma_names_are_keys(self.entries@);
        }
        let mut r: Vec<String> = Vec::new();
        let mut i: usize = 0;
        while i < self.entries.len()
            invariant
                i <= self.entries@.len(),
                r@.len() == i,
                forall|j: int| 0 <= j < i ==> #[trigger] r@[j]@ == self.entries@[j].0@,
            decreases self.entries@.len() - i,
        {
            let name = self.entries[i].0.clone();
            r.push(name);
            i = i + 1;
        }
        assert(r.deep_view() =~= self.names());
        r
    }

    /// The number of names in the table.
    pub fn len(&self) -> (r: usize)
        ensures
            r == self.names().len(),
    {
        self.entries.len()
    }
}

} // verus!
