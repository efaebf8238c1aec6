use vstd::prelude::*;

verus! {

/// A table from keys to values that holds each key at most once.
pub struct KeyMap<V> {
    entries: Vec<(String, V)>,
    model: Ghost<Map<Seq<char>, V>>,
}

impl<V> View for KeyMap<V> {
    type V = Map<Seq<char>, V>;

    closed spec fn view(&self) -> Map<Seq<char>, V> {
        self.model@
    }
}

impl<V> KeyMap<V> {
    /// The entries and the map they stand for agree, and no key occurs twice.
    pub closed spec fn wf(&self) -> bool {
        &&& forall|i: int|
            0 <= i < self.entries.len() ==> {
                &&& self.model@.contains_key(#[trigger] self.entries@[i].0@)
                &&& self.model@[self.entries@[i].0@] == self.entries@[i].1
            }
        &&& forall|k: Seq<char>|
            #[trigger] self.model@.contains_key(k) ==> exists|i: int|
                0 <= i < self.entries.len() && (#[trigger] self.entries@[i].0@) == k
        &&& forall|i: int, j: int|
            0 <= i < j < self.entries.len() ==> (#[trigger] self.entries@[i].0@) != (
            #[trigger] self.entries@[j].0@)
    }

    /// An empty table.
    pub fn new() -> (m: Self)
        ensures
            m.wf(),
            m@ == Map::<Seq<char>, V>::empty(),
    {
        KeyMap { entries: Vec::new(), model: Ghost(Map::empty()) }
    }

    /// The position of `key` among the entries, if it is there.
    fn find(&self, key: &String) -> (r: Option<usize>)
        requires
            self.wf(),
        ensures
            match r {
                Some(i) => i < self.entries.len() && self.entries@[i as int].0@ == key@,
                None => !self@.contains_key(key@),
            },
    {
        let mut i: usize = 0;
        while i < self.entries.len()
            invariant
                self.wf(),
                i <= self.entries.len(),
                forall|j: int| 0 <= j < i ==> (#[trigger] self.entries@[j].0@) != key@,
            decreases self.entries.len() - i,
        {
            if self.entries[i].0 == *key {
                return Some(i);
            }
            i += 1;
        }
        None
    }

    /// The value that `key` maps to, if any.
    pub fn get(&self, key: &String) -> (r: Option<&V>)
        requires
            self.wf(),
        ensures
            match r {
                Some(v) => self@.contains_key(key@) && *v == self@[key@],
                None => !self@.contains_key(key@),
            },
    {
        match self.find(key) {
            Some(i) => Some(&self.entries[i].1),
            None => None,
        }
    }

    /// Maps `key` to `value`, replacing what it mapped to before.
    pub fn insert(&mut self, key: String, value: V)
        requires
            old(self).wf(),
        ensures
            final(self).wf(),
            final(self)@ == old(self)@.insert(key@, value),
    {
        let ghost k = key@;
        let ghost v = value;
        let ghost old_entries = self.entries@;
        let ghost old_model = self.model@;
        match self.find(&key) {
            Some(i) => {
                self.entries.set(i, (key, value));
                self.model = Ghost(self.model@.insert(k, v));
                assert forall|j: int| 0 <= j < self.entries.len() implies {
                    &&& self.model@.contains_key(#[trigger] self.entries@[j].0@)
                    &&& self.model@[self.entries@[j].0@] == self.entries@[j].1
                } by {
                    if j != i {
                        assert(old_entries[j] == self.entries@[j]);
                        assert(old_entries[j].0@ != old_entries[i as int].0@);
                    }
                }
                assert forall|k2: Seq<char>| #[trigger] self.model@.contains_key(k2) implies exists|
                    j: int,
                | 0 <= j < self.entries.len() && (#[trigger] self.entries@[j].0@) == k2 by {
                    if k2 == k {
                        assert(self.entries@[i as int].0@ == k2);
                    } else {
                        assert(old_model.contains_key(k2));
                        let j = choose|j: int| 0 <= j < old_entries.len() && old_entries[j].0@ == k2;
                        assert(self.entries@[j].0@ == k2);
                    }
                }
                assert forall|a: int, b: int| 0 <= a < b < self.entries.len() implies (
                #[trigger] self.entries@[a].0@) != (#[trigger] self.entries@[b].0@) by {
                    assert(old_entries[a].0@ != old_entries[b].0@);
                    assert(self.entries@[a].0@ == old_entries[a].0@);
                    assert(self.entries@[b].0@ == old_entries[b].0@);
                }
            },
            None => {
                self.entries.push((key, value));
                self.model = Ghost(self.model@.insert(k, v));
                assert forall|j: int| 0 <= j < self.entries.len() implies {
                    &&& self.model@.contains_key(#[trigger] self.entries@[j].0@)
                    &&& self.model@[self.entries@[j].0@] == self.entries@[j].1
                } by {
                    if j < old_entries.len() {
                        assert(old_entries[j] == self.entries@[j]);
                        assert(old_model.contains_key(old_entries[j].0@));
                    }
                }
                assert forall|k2: Seq<char>| #[trigger] self.model@.contains_key(k2) implies exists|
                    j: int,
                | 0 <= j < self.entries.len() && (#[trigger] self.entries@[j].0@) == k2 by {
                    if k2 == k {
                        assert(self.entries@[old_entries.len() as int].0@ == k2);
                    } else {
                        assert(old_model.contains_key(k2));
                        let j = choose|j: int| 0 <= j < old_entries.len() && old_entries[j].0@ == k2;
                        assert(self.entries@[j].0@ == k2);
                    }
                }
                assert forall|a: int, b: int| 0 <= a < b < self.entries.len() implies (
                #[trigger] self.entries@[a].0@) != (#[trigger] self.entries@[b].0@) by {
                    assert(self.entries@[a] == old_entries[a]);
                    if b < old_entries.len() {
                        assert(self.entries@[b] == old_entries[b]);
                        assert(old_entries[a].0@ != old_entries[b].0@);
                    } else {
                        assert(old_model.contains_key(old_entries[a].0@));
                    }
                }
            },
        }
    }

    /// Removes `key` and gives back what it mapped to, if anything.
    pub fn remove(&mut self, key: &String) -> (r: Option<V>)
        requires
            old(self).wf(),
        ensures
            final(self).wf(),
            final(self)@ == old(self)@.remove(key@),
            match r {
                Some(v) => old(self)@.contains_key(key@) && v == old(self)@[key@],
                None => !old(self)@.contains_key(key@),
            },
    {
        match self.find(key) {
            Some(i) => {
                let ghost old_entries = self.entries@;
                let ghost old_model = self.model@;
                let (_, v) = self.entries.remove(i);
                self.model = Ghost(self.model@.remove(key@));
                assert forall|j: int| 0 <= j < self.entries.len() implies {
                    &&& self.model@.contains_key(#[trigger] self.entries@[j].0@)
                    &&& self.model@[self.entries@[j].0@] == self.entries@[j].1
                } by {
                    if j < i {
                        assert(self.entries@[j] == old_entries[j]);
                        assert(old_entries[j].0@ != old_entries[i as int].0@);
                        assert(old_model.contains_key(old_entries[j].0@));
                    } else {
                        assert(self.entries@[j] == old_entries[j + 1]);
                        assert(old_entries[i as int].0@ != old_entries[j + 1].0@);
                        assert(old_model.contains_key(old_entries[j + 1].0@));
                    }
                }
                assert forall|k2: Seq<char>| #[trigger] self.model@.contains_key(k2) implies exists|
                    j: int,
                | 0 <= j < self.entries.len() && (#[trigger] self.entries@[j].0@) == k2 by {
                    assert(old_model.contains_key(k2));
                    let j = choose|j: int| 0 <= j < old_entries.len() && old_entries[j].0@ == k2;
                    assert(j != i);
                    if j < i {
                        assert(self.entries@[j].0@ == k2);
                    } else {
                        assert(self.entries@[j - 1].0@ == k2);
                    }
                }
                assert forall|a: int, b: int| 0 <= a < b < self.entries.len() implies (
                #[trigger] self.entries@[a].0@) != (#[trigger] self.entries@[b].0@) by {
                    let oa = if a < i { a } else { a + 1 };
                    let ob = if b < i { b } else { b + 1 };
                    assert(self.entries@[a] == old_entries[oa]);
                    assert(self.entries@[b] == old_entries[ob]);
                    assert(old_entries[oa].0@ != old_entries[ob].0@);
                }
                Some(v)
            },
            None => {
                assert(self.model@.remove(key@) =~= self.model@);
                None
            },
        }
    }
}

} // verus!
