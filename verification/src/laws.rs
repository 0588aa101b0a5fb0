//! The laws of the store, proved once over the association-table model
//! that every collection's contract is stated in.
//!
//! `Repository::create_*` appends an entry under a fresh key and says so
//! (`push`, `!table_has`); `update_*` replaces the entry `key_at`
//! designates; `delete_*` removes it; `get_*` answers `table_get`.  The
//! proof functions here therefore carry each law from one operation's
//! contract to the next: what was created is read back, an update is a
//! full replace, what was deleted reads as missing (the store reports
//! `NotFound`), and other keys never change.

use crate::table::{distinct_keys, key_at, table_get, table_has};
use vstd::prelude::*;

verus! {

/// With pairwise-distinct keys, any entry whose key reads `id` is the
/// entry `key_at` designates, and lookup returns its record.
pub proof fn lemma_key_at_unique<T>(m: Seq<(Seq<char>, T)>, id: Seq<char>, i: int)
    requires
        distinct_keys(m),
        0 <= i < m.len(),
        m[i].0 == id,
    ensures
        table_has(m, id),
        key_at(m, id) == i,
        table_get(m, id) == Some(m[i].1),
{
    assert(table_has(m, id));
    let j = key_at(m, id);
    assert(0 <= j < m.len() && m[j].0 == id);
    if i < j {
        assert(m[i].0 != m[j].0);
    } else if j < i {
        assert(m[j].0 != m[i].0);
    }
}

/// Creating then reading: a record appended under a fresh key is read
/// back exactly, every other key reads as before, and the collection
/// grows by one record.
pub proof fn lemma_create_then_get<T>(m: Seq<(Seq<char>, T)>, id: Seq<char>, v: T)
    requires
        distinct_keys(m),
        !table_has(m, id),
    ensures
        distinct_keys(m.push((id, v))),
        table_get(m.push((id, v)), id) == Some(v),
        forall|k: Seq<char>|
            k != id ==> #[trigger] table_get(m.push((id, v)), k) == table_get(m, k),
        m.push((id, v)).len() == m.len() + 1,
{
    let m2 = m.push((id, v));
    assert forall|p: int, q: int| #![trigger m2[p], m2[q]]
        0 <= p < q < m2.len() implies m2[p].0 != m2[q].0 by {
        if q == m.len() as int {
            assert(m2[p] == m[p]);
            if m[p].0 == id {
                assert(table_has(m, id));
            }
        } else {
            assert(m2[p] == m[p]);
            assert(m2[q] == m[q]);
        }
    }
    assert(m2[m.len() as int].0 == id);
    lemma_key_at_unique(m2, id, m.len() as int);
    assert forall|k: Seq<char>| k != id implies #[trigger] table_get(m2, k) == table_get(
        m,
        k,
    ) by {
        if table_has(m, k) {
            let i = key_at(m, k);
            assert(0 <= i < m.len() && m[i].0 == k);
            lemma_key_at_unique(m, k, i);
            assert(m2[i] == m[i]);
            lemma_key_at_unique(m2, k, i);
        } else {
            if table_has(m2, k) {
                let i = key_at(m2, k);
                assert(0 <= i < m2.len() && m2[i].0 == k);
                assert(i < m.len() && m2[i] == m[i]);
                assert(table_has(m, k));
            }
        }
    }
}

/// Updating then reading (full-replace semantics): after the entry with
/// key `id` is replaced by `v`, reading `id` yields `v`, every other key
/// reads as before, and the collection keeps its size.
pub proof fn lemma_update_then_get<T>(m: Seq<(Seq<char>, T)>, id: Seq<char>, v: T)
    requires
        distinct_keys(m),
        table_has(m, id),
    ensures
        distinct_keys(m.update(key_at(m, id), (id, v))),
        table_get(m.update(key_at(m, id), (id, v)), id) == Some(v),
        forall|k: Seq<char>|
            k != id ==> #[trigger] table_get(m.update(key_at(m, id), (id, v)), k) == table_get(
                m,
                k,
            ),
        m.update(key_at(m, id), (id, v)).len() == m.len(),
{
    let at = key_at(m, id);
    assert(0 <= at < m.len() && m[at].0 == id);
    let m2 = m.update(at, (id, v));
    assert forall|i: int| 0 <= i < m2.len() implies (#[trigger] m2[i]).0 == m[i].0 by {
        if i != at {
            assert(m2[i] == m[i]);
        }
    }
    assert forall|p: int, q: int| #![trigger m2[p], m2[q]]
        0 <= p < q < m2.len() implies m2[p].0 != m2[q].0 by {
        assert(m2[p].0 == m[p].0);
        assert(m2[q].0 == m[q].0);
    }
    lemma_key_at_unique(m2, id, at);
    assert forall|k: Seq<char>| k != id implies #[trigger] table_get(m2, k) == table_get(
        m,
        k,
    ) by {
        if table_has(m, k) {
            let i = key_at(m, k);
            assert(0 <= i < m.len() && m[i].0 == k);
            lemma_key_at_unique(m, k, i);
            assert(i != at);
            assert(m2[i] == m[i]);
            lemma_key_at_unique(m2, k, i);
        } else {
            if table_has(m2, k) {
                let i = key_at(m2, k);
                assert(0 <= i < m2.len() && m2[i].0 == k);
                assert(m[i].0 == k);
                assert(table_has(m, k));
            }
        }
    }
}

/// Deleting then reading: after the entry with key `id` is removed,
/// reading `id` misses, every other key reads as before, and the
/// collection shrinks by one record.
pub proof fn lemma_delete_then_get<T>(m: Seq<(Seq<char>, T)>, id: Seq<char>)
    requires
        distinct_keys(m),
        table_has(m, id),
    ensures
        distinct_keys(m.remove(key_at(m, id))),
        table_get(m.remove(key_at(m, id)), id) == None::<T>,
        forall|k: Seq<char>|
            k != id ==> #[trigger] table_get(m.remove(key_at(m, id)), k) == table_get(m, k),
        m.remove(key_at(m, id)).len() == m.len() - 1,
{
    let at = key_at(m, id);
    assert(0 <= at < m.len() && m[at].0 == id);
    let m2 = m.remove(at);
    m.remove_ensures(at);
    assert forall|p: int, q: int| #![trigger m2[p], m2[q]]
        0 <= p < q < m2.len() implies m2[p].0 != m2[q].0 by {
        let p0: int = if p < at {
            p
        } else {
            p + 1
        };
        let q0: int = if q < at {
            q
        } else {
            q + 1
        };
        assert(m2[p] == m[p0]);
        assert(m2[q] == m[q0]);
        assert(m[p0].0 != m[q0].0);
    }
    if table_has(m2, id) {
        let j = key_at(m2, id);
        assert(0 <= j < m2.len() && m2[j].0 == id);
        let j0: int = if j < at {
            j
        } else {
            j + 1
        };
        assert(m2[j] == m[j0]);
        if j0 < at {
            assert(m[j0].0 != m[at].0);
        } else {
            assert(m[at].0 != m[j0].0);
        }
    }
    assert forall|k: Seq<char>| k != id implies #[trigger] table_get(m2, k) == table_get(
        m,
        k,
    ) by {
        if table_has(m, k) {
            let i = key_at(m, k);
            assert(0 <= i < m.len() && m[i].0 == k);
            lemma_key_at_unique(m, k, i);
            assert(i != at);
            let i2: int = if i < at {
                i
            } else {
                i - 1
            };
            assert(m2[i2] == m[i]);
            lemma_key_at_unique(m2, k, i2);
        } else {
            if table_has(m2, k) {
                let j = key_at(m2, k);
                assert(0 <= j < m2.len() && m2[j].0 == k);
                let j0: int = if j < at {
                    j
                } else {
                    j + 1
                };
                assert(m2[j] == m[j0]);
                assert(table_has(m, k));
            }
        }
    }
}

} // verus!
