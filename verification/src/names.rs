//! A map from names to values, kept as a list in which no name occurs twice.

use vstd::prelude::*;
use crate::text::same_text;

verus! {

/// A finite map keyed by text. Its view is the mathematical map from each
/// name to the value stored under it.
pub struct NameMap<V> {
    entries: Vec<(String, V)>,
}

impl<V> View for NameMap<V> {
    type V = Map<Seq<char>, V>;

    closed spec fn view(&self) -> Map<Seq<char>, V> {
        Map::new(
            |name: Seq<char>| self.holds(name),
            |name: Seq<char>| self.entries[self.slot(name)].1,
        )
    }
}

impl<V> NameMap<V> {
    spec fn holds(&self, name: Seq<char>) -> bool {
        exists|i: int| 0 <= i < self.entries.len() && self.entries[i].0@ == name
    }

    spec fn slot(&self, name: Seq<char>) -> int {
        choose|i: int| 0 <= i < self.entries.len() && self.entries[i].0@ == name
    }

    /// No name occurs twice.
    pub closed spec fn wf(&self) -> bool {
        forall|i: int, j: int|
            0 <= i < j < self.entries.len() ==> self.entries[i].0@ != self.entries[j].0@
    }

    proof fn lemma_slot(&self, i: int)
        requires
            self.wf(),
            0 <= i < self.entries.len(),
        ensures
            self.holds(self.entries[i].0@),
            self.slot(self.entries[i].0@) == i,
            self@.contains_key(self.entries[i].0@),
            self@[self.entries[i].0@] == self.entries[i].1,
    {
    }

    /// The empty map.
    pub fn new() -> (map: Self)
        ensures
            map.wf(),
            map@ == Map::<Seq<char>, V>::empty(),
    {
        NameMap { entries: Vec::new() }
    }

    /// The number of names in the map.
    pub fn len(&self) -> (n: usize)
        requires
            self.wf(),
        ensures
            n == self@.dom().len(),
            self@.dom().finite(),
    {
        proof {
            self.lemma_dom_len(self.entries.len() as int);
            assert(self.prefix_dom(self.entries.len() as int) =~= self@.dom());
        }
        self.entries.len()
    }

    spec fn prefix_dom(&self, n: int) -> Set<Seq<char>> {
        Set::new(|name: Seq<char>| exists|i: int| 0 <= i < n && self.entries[i].0@ == name)
    }

    proof fn lemma_dom_len(&self, n: int)
        requires
            self.wf(),
            0 <= n <= self.entries.len(),
        ensures
            self.prefix_dom(n).finite(),
            self.prefix_dom(n).len() == n,
        decreases n,
    {
        if n == 0 {
            assert(self.prefix_dom(0) =~= Set::<Seq<char>>::empty());
        } else {
            self.lemma_dom_len(n - 1);
            let name = self.entries[n - 1].0@;
            assert(self.prefix_dom(n) =~= self.prefix_dom(n - 1).insert(name));
        }
    }

    fn position(&self, name: &str) -> (at: usize)
        requires
            self.wf(),
        ensures
            at <= self.entries.len(),
            at < self.entries.len() ==> self.entries[at as int].0@ == name@,
            at == self.entries.len() ==> !self.holds(name@),
    {
        let mut at: usize = 0;
        while at < self.entries.len()
            invariant
                at <= self.entries.len(),
                forall|i: int| 0 <= i < at ==> self.entries[i].0@ != name@,
            decreases self.entries.len() - at,
        {
            if same_text(self.entries[at].0.as_str(), name) {
                return at;
            }
            at += 1;
        }
        at
    }

    /// The value stored under `name`, if there is one.
    pub fn get(&self, name: &str) -> (found: Option<&V>)
        requires
            self.wf(),
        ensures
            match found {
                Some(value) => self@.contains_key(name@) && *value == self@[name@],
                None => !self@.contains_key(name@),
            },
    {
        let at = self.position(name);
        if at < self.entries.len() {
            proof {
                self.lemma_slot(at as int);
            }
            Some(&self.entries[at].1)
        } else {
            None
        }
    }

    /// The names with their values, each name once.
    pub fn into_entries(self) -> (entries: Vec<(String, V)>)
        requires
            self.wf(),
        ensures
            entries.len() == self@.dom().len(),
            forall|i: int|
                0 <= i < entries.len() ==> self@.contains_key(#[trigger] entries[i].0@)
                    && self@[entries[i].0@] == entries[i].1,
            forall|i: int, j: int|
                0 <= i < j < entries.len() ==> entries[i].0@ != entries[j].0@,
    {
        proof {
            self.lemma_dom_len(self.entries.len() as int);
            assert(self.prefix_dom(self.entries.len() as int) =~= self@.dom());
            assert forall|i: int| 0 <= i < self.entries.len() implies self@.contains_key(
                #[trigger] self.entries[i].0@,
            ) && self@[self.entries[i].0@] == self.entries[i].1 by {
                self.lemma_slot(i);
            }
        }
        self.entries
    }

    /// Stores `value` under `name`, in place of any value stored there
    /// before.
    pub fn insert(&mut self, name: String, value: V)
        requires
            old(self).wf(),
        ensures
            final(self).wf(),
            final(self)@ == old(self)@.insert(name@, value),
    {
        let at = self.position(name.as_str());
        let ghost before = *self;
        let ghost key = name@;
        if at < self.entries.len() {
            self.entries.set(at, (name, value));
        } else {
            self.entries.push((name, value));
        }
        proof {
            let after = *self;
            assert forall|n: Seq<char>| after.holds(n) <==> (n == key || before.holds(n)) by {
                if n == key {
                    assert(after.entries[at as int].0@ == n);
                } else if before.holds(n) {
                    let i = before.slot(n);
                    assert(after.entries[i].0@ == n);
                }
            }
            assert forall|n: Seq<char>| after.holds(n) implies after@[n] == before@.insert(
                key,
                value,
            )[n] by {
                let i = after.slot(n);
                after.lemma_slot(i);
                if n != key {
                    before.lemma_slot(i);
                }
            }
        }
    }
}

} // verus!
