//! A small keyed table: values stored under text keys, viewed as a map
//! from the key's characters to the value.
use vstd::prelude::*;

verus! {

/// The map that a list of keyed entries denotes; a later entry overrides an earlier one.
pub open spec fn entries_map<V>(s: Seq<(String, V)>) -> Map<Seq<char>, V>
    decreases s.len(),
{
    if s.len() == 0 {
        Map::empty()
    } else {
        entries_map(s.drop_last()).insert(s.last().0@, s.last().1)
    }
}

/// No two entries carry the same key.
pub open spec fn keys_unique<V>(s: Seq<(String, V)>) -> bool {
    forall|i: int, j: int|
        #![trigger s[i], s[j]]
        0 <= i < s.len() && 0 <= j < s.len() && i != j ==> s[i].0@ != s[j].0@
}

/// A key is present exactly when some entry carries it, and then the entry's value is stored.
pub proof fn lemma_entries_map_lookup<V>(s: Seq<(String, V)>, k: Seq<char>)
    requires
        keys_unique(s),
    ensures
        entries_map(s).contains_key(k) <==> (exists|j: int| 0 <= j < s.len() && #[trigger] s[j].0@ == k),
        forall|j: int| 0 <= j < s.len() && #[trigger] s[j].0@ == k ==> entries_map(s)[k] == s[j].1,
    decreases s.len(),
{
    if s.len() > 0 {
        let d = s.drop_last();
        assert(keys_unique(d)) by {
            assert forall|i: int, j: int| 0 <= i < d.len() && 0 <= j < d.len() && i != j implies d[i].0@
                != d[j].0@ by {
                assert(d[i] == s[i] && d[j] == s[j]);
            }
        }
        lemma_entries_map_lookup(d, k);
        if entries_map(s).contains_key(k) {
            if s.last().0@ != k {
                let j = choose|j: int| 0 <= j < d.len() && #[trigger] d[j].0@ == k;
                assert(s[j] == d[j]);
            } else {
                assert(s[s.len() - 1].0@ == k);
            }
        }
        assert forall|j: int| 0 <= j < s.len() && #[trigger] s[j].0@ == k implies entries_map(s)[k]
            == s[j].1 by {
            if j < s.len() - 1 {
                assert(d[j] == s[j]);
                assert(s[j].0@ != s[s.len() - 1].0@);
            }
        }
        if exists|j: int| 0 <= j < s.len() && #[trigger] s[j].0@ == k {
            let j = choose|j: int| 0 <= j < s.len() && #[trigger] s[j].0@ == k;
            if j < s.len() - 1 {
                assert(d[j] == s[j]);
            }
        }
    }
}

/// Removing the entry that carries `k` removes `k` from the map.
pub proof fn lemma_entries_map_remove<V>(s: Seq<(String, V)>, i: int)
    requires
        keys_unique(s),
        0 <= i < s.len(),
    ensures
        keys_unique(s.remove(i)),
        entries_map(s.remove(i)) =~= entries_map(s).remove(s[i].0@),
    decreases s.len(),
{
    let k = s[i].0@;
    let r = s.remove(i);
    assert forall|a: int, b: int| 0 <= a < r.len() && 0 <= b < r.len() && a != b implies r[a].0@
        != r[b].0@ by {
        let a2 = if a < i { a } else { a + 1 };
        let b2 = if b < i { b } else { b + 1 };
        assert(r[a] == s[a2] && r[b] == s[b2]);
    }
    let d = s.drop_last();
    assert(keys_unique(d)) by {
        assert forall|x: int, y: int| 0 <= x < d.len() && 0 <= y < d.len() && x != y implies d[x].0@
            != d[y].0@ by {
            assert(d[x] == s[x] && d[y] == s[y]);
        }
    }
    if i == s.len() - 1 {
        assert(r =~= d);
        lemma_entries_map_lookup(d, k);
        assert forall|j: int| 0 <= j < d.len() implies #[trigger] d[j].0@ != k by {
            assert(d[j] == s[j]);
        }
    } else {
        lemma_entries_map_remove(d, i);
        assert(r.drop_last() =~= d.remove(i));
        assert(r.last() == s.last());
        assert(s.last().0@ != k);
    }
}

/// Text-keyed table whose keys are pairwise distinct.
pub struct Table<V> {
    entries: Vec<(String, V)>,
}

impl<V> View for Table<V> {
    type V = Map<Seq<char>, V>;

    closed spec fn view(&self) -> Map<Seq<char>, V> {
        entries_map(self.entries@)
    }
}

impl<V> Table<V> {
    /// Well-formedness: keys are pairwise distinct.
    pub closed spec fn wf(&self) -> bool {
        keys_unique(self.entries@)
    }

    /// An empty table.
    pub fn new() -> (t: Self)
        ensures
            t.wf(),
            t@ == Map::<Seq<char>, V>::empty(),
    {
        Table { entries: Vec::new() }
    }

    /// The stored entries, each key with its value.
    pub fn entries(&self) -> (r: &Vec<(String, V)>)
        ensures
            entries_map(r@) == self@,
            keys_unique(r@) == self.wf(),
    {
        &self.entries
    }

    /// Index of the entry stored under `key`.
    fn position(&self, key: &String) -> (r: Option<usize>)
        requires
            self.wf(),
        ensures
            match r {
                Some(i) => i < self.entries@.len() && self.entries@[i as int].0@ == key@,
                None => !self@.contains_key(key@),
            },
    {
        let mut i: usize = 0;
        while i < self.entries.len()
            invariant
                i <= self.entries@.len(),
                forall|j: int| 0 <= j < i ==> (#[trigger] self.entries@[j]).0@ != key@,
            decreases self.entries@.len() - i,
        {
            if self.entries[i].0 == *key {
                return Some(i);
            }
            i += 1;
        }
        proof {
            lemma_entries_map_lookup(self.entries@, key@);
        }
        None
    }

    /// The value stored under `key`, if any.
    pub fn get(&self, key: &String) -> (r: Option<&V>)
        requires
            self.wf(),
        ensures
            r is Some <==> self@.contains_key(key@),
            r matches Some(v) ==> *v == self@[key@],
    {
        match self.position(key) {
            Some(i) => {
                proof {
                    lemma_entries_map_lookup(self.entries@, key@);
                }
                Some(&self.entries[i].1)
            },
            None => None,
        }
    }

    /// Whether a value is stored under `key`.
    pub fn contains_key(&self, key: &String) -> (r: bool)
        requires
            self.wf(),
        ensures
            r == self@.contains_key(key@),
    {
        self.get(key).is_some()
    }

    /// Moves the value stored under `key` out of the table.
    pub fn take(&mut self, key: &String) -> (r: Option<V>)
        requires
            old(self).wf(),
        ensures
            final(self).wf(),
            r is Some <==> old(self)@.contains_key(key@),
            r matches Some(v) ==> v == old(self)@[key@],
            r is None ==> *final(self) == *old(self),
            final(self)@ == old(self)@.remove(key@),
    {
        match self.position(key) {
            Some(i) => {
                proof {
                    lemma_entries_map_lookup(self.entries@, key@);
                    lemma_entries_map_remove(self.entries@, i as int);
                }
                let e = self.entries.remove(i);
                Some(e.1)
            },
            None => {
                assert(self@.remove(key@) =~= self@);
                None
            },
        }
    }

    /// Stores `value` under `key`, replacing any value stored there.
    pub fn insert(&mut self, key: String, value: V)
        requires
            old(self).wf(),
        ensures
            final(self).wf(),
            final(self)@ == old(self)@.insert(key@, value),
    {
        let k = key.clone();
        let _ = self.take(&k);
        let ghost before = self.entries@;
        proof {
            lemma_entries_map_lookup(before, key@);
        }
        self.entries.push((key, value));
        proof {
            assert(self.entries@.drop_last() =~= before);
            assert forall|i: int, j: int|
                #![trigger self.entries@[i], self.entries@[j]]
                0 <= i < self.entries@.len() && 0 <= j < self.entries@.len() && i != j
                    implies self.entries@[i].0@ != self.entries@[j].0@ by {
                if i < before.len() && j < before.len() {
                    assert(self.entries@[i] == before[i] && self.entries@[j] == before[j]);
                } else if i < before.len() {
                    assert(self.entries@[i] == before[i]);
                } else if j < before.len() {
                    assert(self.entries@[j] == before[j]);
                }
            }
        }
        assert(self@ =~= old(self)@.insert(key@, value));
    }
}

} // verus!
