use vstd::prelude::*;

verus! {

/// A record that can be copied exactly, field for field.
///
/// The store hands out copies of what it holds; this trait lets it state
/// that a copy equals the original.
pub trait Record: Sized {
    /// An exact copy of the record.
    fn duplicate(&self) -> (r: Self)
        ensures
            r == *self;
}

/// No two entries of the association list share a key.
pub open spec fn distinct_keys<T>(m: Seq<(Seq<char>, T)>) -> bool {
    forall|i: int, j: int| #![trigger m[i], m[j]] 0 <= i < j < m.len() ==> m[i].0 != m[j].0
}

/// Whether some entry has key `k`.
pub open spec fn table_has<T>(m: Seq<(Seq<char>, T)>, k: Seq<char>) -> bool {
    exists|i: int| 0 <= i < m.len() && (#[trigger] m[i]).0 == k
}

/// The position of the entry with key `k`; meaningful when `table_has`.
pub open spec fn key_at<T>(m: Seq<(Seq<char>, T)>, k: Seq<char>) -> int {
    choose|i: int| 0 <= i < m.len() && (#[trigger] m[i]).0 == k
}

/// The record stored under key `k`, if any.
pub open spec fn table_get<T>(m: Seq<(Seq<char>, T)>, k: Seq<char>) -> Option<T> {
    if table_has(m, k) {
        Some(m[key_at(m, k)].1)
    } else {
        None
    }
}

/// One collection of records, addressed by string keys.
///
/// The abstract state is the sequence of (key, record) entries in store
/// order; all operations keep the keys pairwise distinct.
pub struct Table<T> {
    rows: Vec<(String, T)>,
}

impl<T> View for Table<T> {
    type V = Seq<(Seq<char>, T)>;

    closed spec fn view(&self) -> Seq<(Seq<char>, T)> {
        self.rows@.map_values(|p: (String, T)| (p.0@, p.1))
    }
}

impl<T: Record> Table<T> {
    /// An empty collection.
    pub fn new() -> (t: Self)
        ensures
            t@ == Seq::<(Seq<char>, T)>::empty(),
    {
        let t = Table { rows: Vec::new() };
        proof {
            assert(t@ =~= Seq::<(Seq<char>, T)>::empty());
        }
        t
    }

    /// The position of the entry whose key reads `id`, if any.
    fn position(&self, id: &String) -> (r: Option<usize>)
        requires
            distinct_keys(self@),
        ensures
            match r {
                Some(i) => i < self@.len() && self@[i as int].0 == id@ && i as int == key_at(
                    self@,
                    id@,
                ),
                None => !table_has(self@, id@),
            },
    {
        let n = self.rows.len();
        let mut i: usize = 0;
        while i < n
            invariant
                distinct_keys(self@),
                n == self@.len(),
                i <= n,
                forall|j: int| 0 <= j < i ==> (#[trigger] self@[j]).0 != id@,
            decreases n - i,
        {
            if self.rows[i].0 == *id {
                proof {
                    assert(self@[i as int].0 == id@);
                    assert(table_has(self@, id@));
                    let k = key_at(self@, id@);
                    assert(0 <= k < self@.len() && self@[k].0 == id@);
                    if k < i as int {
                        assert(self@[k].0 != id@);
                    } else if k > i as int {
                        assert(self@[i as int].0 != self@[k].0);
                    }
                }
                return Some(i);
            }
            i += 1;
        }
        proof {
            if table_has(self@, id@) {
                let k = key_at(self@, id@);
                assert(0 <= k < self@.len() && self@[k].0 == id@);
            }
        }
        None
    }

    /// A copy of the record stored under `id`, if any.
    pub fn find(&self, id: &String) -> (r: Option<T>)
        requires
            distinct_keys(self@),
        ensures
            r == table_get(self@, id@),
    {
        match self.position(id) {
            Some(i) => Some(self.rows[i].1.duplicate()),
            None => None,
        }
    }

    /// Adds a record under a key not yet present.
    pub fn insert(&mut self, id: String, value: T)
        requires
            distinct_keys(old(self)@),
            !table_has(old(self)@, id@),
        ensures
            final(self)@ == old(self)@.push((id@, value)),
            distinct_keys(final(self)@),
    {
        self.rows.push((id, value));
        proof {
            assert(self@ =~= old(self)@.push((id@, value)));
            assert forall|i: int, j: int| #![trigger self@[i], self@[j]]
                0 <= i < j < self@.len() implies self@[i].0 != self@[j].0 by {
                if j == self@.len() - 1 {
                    assert(self@[i] == old(self)@[i]);
                    if self@[i].0 == id@ {
                        assert(table_has(old(self)@, id@));
                    }
                }
            }
        }
    }

    /// Replaces the record under `id` with `value`, if the key is present.
    /// Returns how many entries matched (zero or one).
    pub fn replace(&mut self, id: &String, value: T) -> (matched: u64)
        requires
            distinct_keys(old(self)@),
        ensures
            distinct_keys(final(self)@),
            table_has(old(self)@, id@) ==> matched == 1 && final(self)@ == old(self)@.update(
                key_at(old(self)@, id@),
                (id@, value),
            ),
            !table_has(old(self)@, id@) ==> matched == 0 && final(self)@ == old(self)@,
    {
        match self.position(id) {
            Some(i) => {
                let key = id.clone();
                self.rows[i] = (key, value);
                proof {
                    assert(self@ =~= old(self)@.update(i as int, (id@, value)));
                    assert forall|p: int, q: int| #![trigger self@[p], self@[q]]
                        0 <= p < q < self@.len() implies self@[p].0 != self@[q].0 by {
                        assert(self@[p].0 == old(self)@[p].0);
                        assert(self@[q].0 == old(self)@[q].0);
                    }
                }
                1
            },
            None => 0,
        }
    }

    /// Removes the record under `id`, if the key is present.
    /// Returns how many entries were removed (zero or one).
    pub fn remove(&mut self, id: &String) -> (removed: u64)
        requires
            distinct_keys(old(self)@),
        ensures
            distinct_keys(final(self)@),
            table_has(old(self)@, id@) ==> removed == 1 && final(self)@ == old(self)@.remove(
                key_at(old(self)@, id@),
            ),
            !table_has(old(self)@, id@) ==> removed == 0 && final(self)@ == old(self)@,
    {
        match self.position(id) {
            Some(i) => {
                self.rows.remove(i);
                proof {
                    old(self)@.remove_ensures(i as int);
                    assert(self@ =~= old(self)@.remove(i as int));
                    assert forall|p: int, q: int| #![trigger self@[p], self@[q]]
                        0 <= p < q < self@.len() implies self@[p].0 != self@[q].0 by {
                        let p0: int = if p < i as int {
                            p
                        } else {
                            p + 1
                        };
                        let q0: int = if q < i as int {
                            q
                        } else {
                            q + 1
                        };
                        assert(self@[p] == old(self)@[p0]);
                        assert(self@[q] == old(self)@[q0]);
                        assert(old(self)@[p0].0 != old(self)@[q0].0);
                    }
                }
                1
            },
            None => 0,
        }
    }

    /// Copies of every record, in store order.
    pub fn list(&self) -> (r: Vec<T>)
        ensures
            r@.len() == self@.len(),
            forall|i: int| 0 <= i < self@.len() ==> r@[i] == (#[trigger] self@[i]).1,
    {
        let n = self.rows.len();
        let mut out: Vec<T> = Vec::new();
        let mut i: usize = 0;
        while i < n
            invariant
                n == self@.len(),
                i <= n,
                out@.len() == i,
                forall|j: int| 0 <= j < i ==> out@[j] == (#[trigger] self@[j]).1,
            decreases n - i,
        {
            out.push(self.rows[i].1.duplicate());
            i += 1;
        }
        out
    }
}

} // verus!
