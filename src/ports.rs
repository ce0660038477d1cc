//! Name-indexed port tables: what a component constructor takes its edge
//! endpoints from.

use vstd::prelude::*;

verus! {

/// A table from port name to an endpoint. Each name occurs at most once.
pub struct PortMap<T> {
    entries: Vec<(String, T)>,
}

impl<T> PortMap<T> {
    /// No name occurs twice.
    #[verifier::type_invariant]
    closed spec fn wf(&self) -> bool {
        forall|i: int, j: int|
            0 <= i < j < self.entries@.len() ==> self.entries@[i].0@ != self.entries@[j].0@
    }

    /// Whether a port of that name is in the table.
    pub closed spec fn has(&self, n: Seq<char>) -> bool {
        exists|i: int| 0 <= i < self.entries@.len() && #[trigger] self.entries@[i].0@ == n
    }

    /// The endpoint under a name, if any.
    pub closed spec fn get(&self, n: Seq<char>) -> Option<T> {
        if self.has(n) {
            let i = choose|i: int| 0 <= i < self.entries@.len() && #[trigger] self.entries@[i].0@ == n;
            Some(self.entries@[i].1)
        } else {
            None
        }
    }

    /// The number of ports.
    pub closed spec fn size(&self) -> nat {
        self.entries@.len()
    }

    proof fn lemma_get_at(&self, k: int)
        requires
            self.wf(),
            0 <= k < self.entries@.len(),
        ensures
            self.get(self.entries@[k].0@) == Some(self.entries@[k].1),
    {
        let n = self.entries@[k].0@;
        assert(self.has(n));
        let i = choose|i: int| 0 <= i < self.entries@.len() && #[trigger] self.entries@[i].0@ == n;
        assert(i == k);
    }

    /// An empty table.
    pub fn new() -> (m: PortMap<T>)
        ensures
            m.size() == 0,
            forall|n: Seq<char>| m.get(n) is None,
    {
        PortMap { entries: Vec::new() }
    }

    pub fn len(&self) -> (r: usize)
        ensures
            r == self.size(),
    {
        self.entries.len()
    }

    /// The position of a name, if present.
    fn find(&self, key: &String) -> (r: Option<usize>)
        requires
            self.wf(),
        ensures
            r is None ==> !self.has(key@),
            r matches Some(i) ==> i < self.entries@.len() && self.entries@[i as int].0@ == key@,
    {
        let mut i: usize = 0;
        while i < self.entries.len()
            invariant
                0 <= i <= self.entries@.len(),
                forall|k: int| 0 <= k < i ==> #[trigger] self.entries@[k].0@ != key@,
            decreases self.entries@.len() - i,
        {
            if self.entries[i].0 == *key {
                return Some(i);
            }
            i = i + 1;
        }
        None
    }

    /// Whether a port of that name is in the table.
    pub fn contains(&self, name: &str) -> (r: bool)
        ensures
            r == self.has(name@),
            r == self.get(name@) is Some,
    {
        proof {
            use_type_invariant(self);
        }
        let key = name.to_owned();
        self.find(&key).is_some()
    }

    /// Binds `name` to `v`, replacing an endpoint already under that name.
    pub fn insert(&mut self, name: String, v: T)
        ensures
            forall|n: Seq<char>|
                #[trigger] final(self).get(n) == if n == name@ {
                    Some(v)
                } else {
                    old(self).get(n)
                },
    {
        proof {
            use_type_invariant(&*self);
        }
        let ghost key = name@;
        let found = self.find(&name);
        let mut taken = PortMap { entries: Vec::new() };
        std::mem::swap(self, &mut taken);
        let mut entries = taken.entries;
        let ghost old_entries = entries@;
        match found {
            Some(i) => {
                entries.set(i, (name, v));
            },
            None => {
                entries.push((name, v));
            },
        }
        proof {
            assert forall|a: int, b: int|
                0 <= a < b < entries@.len() implies entries@[a].0@ != entries@[b].0@ by {
                if b < old_entries.len() {
                    assert(old_entries[a].0@ != old_entries[b].0@);
                } else {
                    assert(old_entries[a].0@ != key);
                }
            }
        }
        *self = PortMap { entries };
        assert forall|n: Seq<char>| #[trigger] self.get(n) == if n == key {
            Some(v)
        } else {
            old(self).get(n)
        } by {
            if n == key {
                match found {
                    Some(i) => self.lemma_get_at(i as int),
                    None => self.lemma_get_at(old_entries.len() as int),
                }
            } else if old(self).has(n) {
                let j = choose|j: int| 0 <= j < old_entries.len() && #[trigger] old_entries[j].0@ == n;
                old(self).lemma_get_at(j);
                assert(self.entries@[j] == old_entries[j]);
                self.lemma_get_at(j);
            } else {
                if self.has(n) {
                    let j = choose|j: int| 0 <= j < self.entries@.len() && #[trigger] self.entries@[j].0@ == n;
                    assert(old_entries[j].0@ == n);
                }
            }
        }
    }

    /// Takes the endpoint under `name` out of the table.
    pub fn remove(&mut self, name: &str) -> (r: Option<T>)
        ensures
            r == old(self).get(name@),
            final(self).get(name@) is None,
            forall|n: Seq<char>| n != name@ ==> #[trigger] final(self).get(n) == old(self).get(n),
    {
        proof {
            use_type_invariant(&*self);
        }
        let key = name.to_owned();
        match self.find(&key) {
            Some(i) => {
                proof {
                    self.lemma_get_at(i as int);
                }
                let mut taken = PortMap { entries: Vec::new() };
                std::mem::swap(self, &mut taken);
                let mut entries = taken.entries;
                let ghost old_entries = entries@;
                let (_, v) = entries.remove(i);
                proof {
                    assert forall|a: int, b: int|
                        0 <= a < b < entries@.len() implies entries@[a].0@ != entries@[b].0@ by {
                        let oa = if a < i { a } else { a + 1 };
                        let ob = if b < i { b } else { b + 1 };
                        assert(entries@[a] == old_entries[oa]);
                        assert(entries@[b] == old_entries[ob]);
                    }
                }
                *self = PortMap { entries };
                assert(!self.has(key@)) by {
                    if self.has(key@) {
                        let j = choose|j: int| 0 <= j < self.entries@.len() && #[trigger] self.entries@[j].0@ == key@;
                        let oj = if j < i { j } else { j + 1 };
                        assert(self.entries@[j] == old_entries[oj]);
                    }
                }
                assert forall|n: Seq<char>| n != key@ implies #[trigger] self.get(n) == old(self).get(n) by {
                    if old(self).has(n) {
                        let j = choose|j: int| 0 <= j < old_entries.len() && #[trigger] old_entries[j].0@ == n;
                        old(self).lemma_get_at(j);
                        let nj = if j < i { j } else { j - 1 };
                        assert(self.entries@[nj] == old_entries[j]);
                        self.lemma_get_at(nj);
                    } else {
                        if self.has(n) {
                            let j = choose|j: int| 0 <= j < self.entries@.len() && #[trigger] self.entries@[j].0@ == n;
                            let oj = if j < i { j } else { j + 1 };
                            assert(self.entries@[j] == old_entries[oj]);
                        }
                    }
                }
                Some(v)
            },
            None => None,
        }
    }
}

} // verus!
