//! A table from names to values, where a name occurs at most once.

use vstd::prelude::*;
use vstd::string::*;
use crate::text::str_eq;

verus! {

/// The map that a list of named values stands for.
pub open spec fn map_of<T>(entries: Seq<(String, T)>) -> Map<Seq<char>, T>
    decreases entries.len(),
{
    if entries.len() == 0 {
        Map::empty()
    } else {
        map_of(entries.drop_last()).insert(entries.last().0@, entries.last().1)
    }
}

/// No name occurs twice.
pub open spec fn distinct_names<T>(entries: Seq<(String, T)>) -> bool {
    forall|i: int, j: int|
        0 <= i < j < entries.len() ==> (#[trigger] entries[i]).0@ != (#[trigger] entries[j]).0@
}

/// A name is in the map exactly if an entry has it.
pub proof fn lemma_map_of_contains<T>(entries: Seq<(String, T)>, name: Seq<char>)
    ensures
        map_of(entries).contains_key(name) <==> exists|i: int|
            0 <= i < entries.len() && (#[trigger] entries[i]).0@ == name,
    decreases entries.len(),
{
    if entries.len() > 0 {
        let front = entries.drop_last();
        lemma_map_of_contains(front, name);
        if map_of(entries).contains_key(name) {
            if entries.last().0@ == name {
                assert(entries[entries.len() - 1].0@ == name);
            } else {
                let i = choose|i: int| 0 <= i < front.len() && (#[trigger] front[i]).0@ == name;
                assert(entries[i].0@ == name);
            }
        }
        if exists|i: int| 0 <= i < entries.len() && (#[trigger] entries[i]).0@ == name {
            let i = choose|i: int| 0 <= i < entries.len() && (#[trigger] entries[i]).0@ == name;
            if i < front.len() {
                assert(front[i].0@ == name);
            }
        }
    }
}

/// Where names are distinct, each entry is what the map holds under its name.
pub proof fn lemma_map_of_entry<T>(entries: Seq<(String, T)>, i: int)
    requires
        distinct_names(entries),
        0 <= i < entries.len(),
    ensures
        map_of(entries).contains_key(entries[i].0@),
        map_of(entries)[entries[i].0@] == entries[i].1,
    decreases entries.len(),
{
    let front = entries.drop_last();
    if i == entries.len() - 1 {
    } else {
        assert(front[i] == entries[i]);
        assert(distinct_names(front)) by {
            assert forall|a: int, b: int| 0 <= a < b < front.len() implies (#[trigger] front[a]).0@
                != (#[trigger] front[b]).0@ by {
                assert(front[a] == entries[a]);
                assert(front[b] == entries[b]);
            }
        }
        lemma_map_of_entry(front, i);
        assert(entries[i].0@ != entries[entries.len() - 1].0@);
    }
}

/// Where names are distinct, taking an entry out takes its name out of the
/// map and leaves the rest.
pub proof fn lemma_map_of_remove<T>(entries: Seq<(String, T)>, i: int)
    requires
        distinct_names(entries),
        0 <= i < entries.len(),
    ensures
        map_of(entries.remove(i)) == map_of(entries).remove(entries[i].0@),
        distinct_names(entries.remove(i)),
    decreases entries.len(),
{
    let rest = entries.remove(i);
    assert forall|a: int, b: int| 0 <= a < b < rest.len() implies (#[trigger] rest[a]).0@ != (
    #[trigger] rest[b]).0@ by {
        let a2 = if a < i {
            a
        } else {
            a + 1
        };
        let b2 = if b < i {
            b
        } else {
            b + 1
        };
        assert(rest[a] == entries[a2]);
        assert(rest[b] == entries[b2]);
    }
    let front = entries.drop_last();
    if i == entries.len() - 1 {
        assert(rest =~= front);
        lemma_map_of_contains(front, entries[i].0@);
        if map_of(front).contains_key(entries[i].0@) {
            let j = choose|j: int| 0 <= j < front.len() && (#[trigger] front[j]).0@ == entries[i].0@;
            assert(front[j] == entries[j]);
            assert(false);
        }
        assert(map_of(front) =~= map_of(entries).remove(entries[i].0@));
    } else {
        assert(distinct_names(front)) by {
            assert forall|a: int, b: int| 0 <= a < b < front.len() implies (#[trigger] front[a]).0@
                != (#[trigger] front[b]).0@ by {
                assert(front[a] == entries[a]);
                assert(front[b] == entries[b]);
            }
        }
        assert(front[i] == entries[i]);
        lemma_map_of_remove(front, i);
        assert(rest.drop_last() =~= front.remove(i));
        assert(rest.last() == entries.last());
        assert(entries[i].0@ != entries[entries.len() - 1].0@);
        assert(map_of(rest) =~= map_of(entries).remove(entries[i].0@));
    }
}

/// Where names are distinct, the map has as many names as there are entries.
pub proof fn lemma_map_of_len<T>(entries: Seq<(String, T)>)
    requires
        distinct_names(entries),
    ensures
        map_of(entries).dom().finite(),
        map_of(entries).len() == entries.len(),
    decreases entries.len(),
{
    if entries.len() > 0 {
        let front = entries.drop_last();
        assert(distinct_names(front)) by {
            assert forall|a: int, b: int| 0 <= a < b < front.len() implies (#[trigger] front[a]).0@
                != (#[trigger] front[b]).0@ by {
                assert(front[a] == entries[a]);
                assert(front[b] == entries[b]);
            }
        }
        lemma_map_of_len(front);
        lemma_map_of_contains(front, entries.last().0@);
        if map_of(front).contains_key(entries.last().0@) {
            let j = choose|j: int|
                0 <= j < front.len() && (#[trigger] front[j]).0@ == entries.last().0@;
            assert(front[j] == entries[j]);
            assert(entries[entries.len() - 1] == entries.last());
            assert(false);
        }
    }
}

/// A table from names to values. A name occurs at most once; entries keep
/// the order in which they came.
pub struct Registry<T> {
    entries: Vec<(String, T)>,
}

impl<T> Registry<T> {
    /// The entries, in the order in which they came.
    pub closed spec fn entries(self) -> Seq<(String, T)> {
        self.entries@
    }

    /// No name occurs twice.
    pub open spec fn wf(self) -> bool {
        distinct_names(self.entries())
    }

    /// The map from each name to its value.
    pub open spec fn view(self) -> Map<Seq<char>, T> {
        map_of(self.entries())
    }

    /// An empty table.
    pub fn new() -> (r: Self)
        ensures
            r.wf(),
            r.entries() == Seq::<(String, T)>::empty(),
            r@ == Map::<Seq<char>, T>::empty(),
    {
        Registry { entries: Vec::new() }
    }

    /// The number of entries.
    pub fn len(&self) -> (r: usize)
        requires
            self.wf(),
        ensures
            r == self.entries().len(),
            r == self@.len(),
            self@.dom().finite(),
            r == 0 <==> self@ == Map::<Seq<char>, T>::empty(),
    {
        proof {
            lemma_map_of_len(self.entries@);
            if self.entries@.len() > 0 {
                lemma_map_of_entry(self.entries@, 0);
            }
        }
        self.entries.len()
    }

    /// Whether there is no entry.
    pub fn is_empty(&self) -> (r: bool)
        requires
            self.wf(),
        ensures
            r == (self.entries().len() == 0),
            r == (self@ == Map::<Seq<char>, T>::empty()),
            r == (forall|name: Seq<char>| !self@.contains_key(name)),
    {
        proof {
            lemma_map_of_len(self.entries@);
            if self.entries@.len() > 0 {
                lemma_map_of_entry(self.entries@, 0);
                assert(self@.contains_key(self.entries@[0].0@));
            } else {
                assert forall|name: Seq<char>| !self@.contains_key(name) by {
                    lemma_map_of_contains(self.entries@, name);
                }
            }
        }
        self.entries.len() == 0
    }

    fn position(&self, name: &str) -> (r: Option<usize>)
        ensures
            r is Some ==> r->0 < self.entries().len() && self.entries()[r->0 as int].0@ == name@,
            r is None ==> forall|i: int|
                0 <= i < self.entries().len() ==> (#[trigger] self.entries()[i]).0@ != name@,
    {
        let mut i: usize = 0;
        while i < self.entries.len()
            invariant
                i <= self.entries.len(),
                forall|j: int| 0 <= j < i ==> (#[trigger] self.entries@[j]).0@ != name@,
            decreases self.entries.len() - i,
        {
            if str_eq(self.entries[i].0.as_str(), name) {
                return Some(i);
            }
            i += 1;
        }
        None
    }

    /// Whether there is an entry under `name`.
    pub fn contains_key(&self, name: &str) -> (r: bool)
        ensures
            r == self@.contains_key(name@),
    {
        proof {
            lemma_map_of_contains(self.entries@, name@);
        }
        self.position(name).is_some()
    }

    /// The value under `name`.
    pub fn get(&self, name: &str) -> (r: Option<&T>)
        requires
            self.wf(),
        ensures
            r is Some <==> self@.contains_key(name@),
            r is Some ==> *r->0 == self@[name@],
    {
        proof {
            lemma_map_of_contains(self.entries@, name@);
        }
        match self.position(name) {
            Some(i) => {
                proof {
                    lemma_map_of_entry(self.entries@, i as int);
                }
                Some(&self.entries[i].1)
            },
            None => None,
        }
    }

    /// Puts `value` under `name` and hands back what was there before.
    pub fn insert(&mut self, name: String, value: T) -> (r: Option<T>)
        requires
            old(self).wf(),
        ensures
            final(self).wf(),
            final(self)@ == old(self)@.insert(name@, value),
            r is Some <==> old(self)@.contains_key(name@),
            r is Some ==> r->0 == old(self)@[name@],
    {
        proof {
            lemma_map_of_contains(self.entries@, name@);
        }
        let found = self.position(name.as_str());
        let ghost before = self.entries@;
        let previous = match found {
            Some(i) => {
                proof {
                    lemma_map_of_entry(before, i as int);
                    lemma_map_of_remove(before, i as int);
                }
                let entry = self.entries.remove(i);
                Some(entry.1)
            },
            None => None,
        };
        let ghost between = self.entries@;
        proof {
            lemma_map_of_contains(between, name@);
            assert(forall|i: int| 0 <= i < between.len() ==> (#[trigger] between[i]).0@ != name@);
        }
        self.entries.push((name, value));
        proof {
            let after = self.entries@;
            assert(after.drop_last() =~= between);
            assert(after.last() == (name, value));
            assert forall|a: int, b: int| 0 <= a < b < after.len() implies (#[trigger] after[a]).0@
                != (#[trigger] after[b]).0@ by {
                assert(after[a] == between[a]);
                if b < between.len() {
                    assert(after[b] == between[b]);
                }
            }
            assert(map_of(after) =~= map_of(before).insert(name@, value));
        }
        previous
    }

    /// Takes out the entry under `name` and hands back its value.
    pub fn remove(&mut self, name: &str) -> (r: Option<T>)
        requires
            old(self).wf(),
        ensures
            final(self).wf(),
            final(self)@ == old(self)@.remove(name@),
            r is Some <==> old(self)@.contains_key(name@),
            r is Some ==> r->0 == old(self)@[name@],
    {
        proof {
            lemma_map_of_contains(self.entries@, name@);
        }
        let ghost before = self.entries@;
        match self.position(name) {
            Some(i) => {
                proof {
                    lemma_map_of_entry(before, i as int);
                    lemma_map_of_remove(before, i as int);
                }
                let entry = self.entries.remove(i);
                Some(entry.1)
            },
            None => {
                assert(map_of(before).remove(name@) =~= map_of(before));
                None
            },
        }
    }

    /// Takes out every entry and hands them back in the order in which they
    /// came.
    pub fn drain(&mut self) -> (r: Vec<(String, T)>)
        ensures
            r@ == old(self).entries(),
            old(self).wf() ==> r@.len() == old(self)@.len(),
            final(self).wf(),
            final(self).entries() == Seq::<(String, T)>::empty(),
            final(self)@ == Map::<Seq<char>, T>::empty(),
    {
        proof {
            if self.wf() {
                lemma_map_of_len(self.entries@);
            }
        }
        let mut out: Vec<(String, T)> = Vec::new();
        std::mem::swap(&mut self.entries, &mut out);
        out
    }

    /// Takes out every entry.
    pub fn clear(&mut self)
        ensures
            final(self).wf(),
            final(self).entries() == Seq::<(String, T)>::empty(),
            final(self)@ == Map::<Seq<char>, T>::empty(),
    {
        self.entries.clear();
    }

    /// The names, in the order in which their entries came.
    pub fn names(&self) -> (r: Vec<String>)
        ensures
            r@.len() == self.entries().len(),
            forall|i: int| 0 <= i < r@.len() ==> (#[trigger] r@[i])@ == self.entries()[i].0@,
    {
        let mut out: Vec<String> = Vec::new();
        let mut i: usize = 0;
        while i < self.entries.len()
            invariant
                i <= self.entries.len(),
                out@.len() == i,
                forall|j: int| 0 <= j < i ==> (#[trigger] out@[j])@ == self.entries@[j].0@,
            decreases self.entries.len() - i,
        {
            out.push(self.entries[i].0.clone());
            i += 1;
        }
        out
    }

    /// The value of the entry at `index`, in the order in which entries came.
    pub fn value_at(&self, index: usize) -> (r: &T)
        requires
            index < self.entries().len(),
        ensures
            *r == self.entries()[index as int].1,
    {
        &self.entries[index].1
    }
}

} // verus!
