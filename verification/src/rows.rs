//! Keyed row storage: a vector of rows with pairwise-distinct keys,
//! viewed as a map from key to row.
//!
//! The token ledger, the recording table and the object store all
//! keep their rows this way; their contracts speak of the map view.

use vstd::prelude::*;

verus! {

/// A row stored under a 128-bit key.
pub trait Keyed: Sized {
    /// The key of this row.
    spec fn key(&self) -> u128;

    /// Returns the key of this row.
    fn key_value(&self) -> (k: u128)
        ensures
            k == self.key(),
    ;
}

/// Holds when no two rows share a key.
pub open spec fn unique_keys<T: Keyed>(s: Seq<T>) -> bool {
    forall|i: int, j: int| 0 <= i < j < s.len() ==> s[i].key() != s[j].key()
}

/// Holds when some row carries the key `k`.
pub open spec fn key_in<T: Keyed>(s: Seq<T>, k: u128) -> bool {
    exists|i: int| 0 <= i < s.len() && s[i].key() == k
}

/// The rows as a map from key to row.
pub open spec fn row_map<T: Keyed>(s: Seq<T>) -> Map<u128, T>
    decreases s.len(),
{
    if s.len() == 0 {
        Map::empty()
    } else {
        row_map(s.drop_last()).insert(s.last().key(), s.last())
    }
}

/// Every row is in the map; under distinct keys it is the value
/// stored for its key.
pub proof fn lemma_row_map_index<T: Keyed>(s: Seq<T>, i: int)
    requires
        unique_keys(s),
        0 <= i < s.len(),
    ensures
        row_map(s).contains_key(s[i].key()),
        row_map(s)[s[i].key()] == s[i],
    decreases s.len(),
{
    if i == s.len() - 1 {
    } else {
        assert(unique_keys(s.drop_last()));
        assert(s.drop_last()[i] == s[i]);
        lemma_row_map_index(s.drop_last(), i);
        assert(s[i].key() != s.last().key());
    }
}

/// A key carried by no row is not in the map.
pub proof fn lemma_row_map_not_in<T: Keyed>(s: Seq<T>, k: u128)
    requires
        !key_in(s, k),
    ensures
        !row_map(s).contains_key(k),
    decreases s.len(),
{
    if s.len() > 0 {
        assert forall|i: int| 0 <= i < s.drop_last().len() implies s.drop_last()[i].key()
            != k by {
            assert(s.drop_last()[i] == s[i]);
        }
        lemma_row_map_not_in(s.drop_last(), k);
        assert(s.last().key() != k);
    }
}

/// Appending a row with a fresh key inserts it into the map.
pub proof fn lemma_row_map_push<T: Keyed>(s: Seq<T>, v: T)
    requires
        unique_keys(s),
        !key_in(s, v.key()),
    ensures
        unique_keys(s.push(v)),
        row_map(s.push(v)) == row_map(s).insert(v.key(), v),
{
    assert(s.push(v).drop_last() =~= s);
    assert forall|i: int, j: int| 0 <= i < j < s.push(v).len() implies s.push(v)[i].key()
        != s.push(v)[j].key() by {
        if j == s.len() {
            assert(s.push(v)[i] == s[i]);
        }
    }
}

/// Replacing a row, keeping its key, updates the map entry.
pub proof fn lemma_row_map_update<T: Keyed>(s: Seq<T>, i: int, v: T)
    requires
        unique_keys(s),
        0 <= i < s.len(),
        v.key() == s[i].key(),
    ensures
        unique_keys(s.update(i, v)),
        row_map(s.update(i, v)) == row_map(s).insert(v.key(), v),
    decreases s.len(),
{
    let k = v.key();
    assert forall|a: int, b: int| 0 <= a < b < s.update(i, v).len() implies s.update(
        i,
        v,
    )[a].key() != s.update(i, v)[b].key() by {
        assert(s.update(i, v)[a].key() == s[a].key());
        assert(s.update(i, v)[b].key() == s[b].key());
    }
    if i == s.len() - 1 {
        assert(s.update(i, v).drop_last() =~= s.drop_last());
        assert(s.update(i, v).last() == v);
        assert(row_map(s.update(i, v)) =~= row_map(s).insert(k, v));
    } else {
        assert(unique_keys(s.drop_last()));
        assert(s.drop_last()[i] == s[i]);
        lemma_row_map_update(s.drop_last(), i, v);
        assert(s.update(i, v).drop_last() =~= s.drop_last().update(i, v));
        assert(s.update(i, v).last() == s.last());
        assert(s.last().key() != k);
        assert(row_map(s.update(i, v)) =~= row_map(s).insert(k, v));
    }
}

/// The index of the first row keyed `k`.
pub open spec fn key_index<T: Keyed>(s: Seq<T>, k: u128) -> int
    decreases s.len(),
{
    if s.len() == 0 {
        0
    } else if s[0].key() == k {
        0
    } else {
        1 + key_index(s.drop_first(), k)
    }
}

/// Under distinct keys, any row bearing `k` sits at `key_index`.
pub proof fn lemma_key_index<T: Keyed>(s: Seq<T>, i: int)
    requires
        unique_keys(s),
        0 <= i < s.len(),
    ensures
        key_index(s, s[i].key()) == i,
    decreases s.len(),
{
    let k = s[i].key();
    if i == 0 {
    } else {
        assert(s[0].key() != k);
        assert(unique_keys(s.drop_first())) by {
            assert forall|a: int, b: int|
                0 <= a < b < s.drop_first().len() implies s.drop_first()[a].key()
                != s.drop_first()[b].key() by {
                assert(s.drop_first()[a] == s[a + 1]);
                assert(s.drop_first()[b] == s[b + 1]);
            }
        }
        assert(s.drop_first()[i - 1] == s[i]);
        lemma_key_index(s.drop_first(), i - 1);
    }
}

/// Removing a row removes its key from the map.
pub proof fn lemma_row_map_remove<T: Keyed>(s: Seq<T>, i: int)
    requires
        unique_keys(s),
        0 <= i < s.len(),
    ensures
        unique_keys(s.remove(i)),
        row_map(s.remove(i)) == row_map(s).remove(s[i].key()),
    decreases s.len(),
{
    let k = s[i].key();
    assert forall|a: int, b: int| 0 <= a < b < s.remove(i).len() implies s.remove(i)[a].key()
        != s.remove(i)[b].key() by {
        let a0 = if a < i {
            a
        } else {
            a + 1
        };
        let b0 = if b < i {
            b
        } else {
            b + 1
        };
        assert(s.remove(i)[a] == s[a0]);
        assert(s.remove(i)[b] == s[b0]);
    }
    if i == s.len() - 1 {
        assert(s.remove(i) =~= s.drop_last());
        assert forall|a: int| 0 <= a < s.drop_last().len() implies s.drop_last()[a].key()
            != k by {
            assert(s.drop_last()[a] == s[a]);
        }
        lemma_row_map_not_in(s.drop_last(), k);
        assert(row_map(s.drop_last()).remove(k) =~= row_map(s.drop_last()));
        assert(row_map(s).remove(k) =~= row_map(s.drop_last()));
    } else {
        assert(unique_keys(s.drop_last()));
        assert(s.drop_last()[i] == s[i]);
        lemma_row_map_remove(s.drop_last(), i);
        assert(s.remove(i).drop_last() =~= s.drop_last().remove(i));
        assert(s.remove(i).last() == s.last());
        assert(s.last().key() != k);
        assert(row_map(s.remove(i)) =~= row_map(s).remove(k));
    }
}

} // verus!
