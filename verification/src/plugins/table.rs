//! Rows keyed by text, and the mapping they stand for.
//!
//! The stores of this crate keep their entries in a vector and never keep two
//! entries under one key. This file says which mapping such a vector stands
//! for and how that mapping changes when a row is added, replaced or removed.

use vstd::prelude::*;

verus! {

/// Whether row `i` of `rows` is the row with key `key`.
pub open spec fn row_at<V>(rows: Seq<(Seq<char>, V)>, i: int, key: Seq<char>) -> bool {
    0 <= i < rows.len() && rows[i].0 == key
}

/// No key occurs twice among `rows`.
pub open spec fn distinct_keys<V>(rows: Seq<(Seq<char>, V)>) -> bool {
    forall|i: int, j: int| 0 <= i < j < rows.len() ==> (#[trigger] rows[i]).0 != (#[trigger] rows[j]).0
}

/// The mapping from key to value that `rows` stands for.
pub open spec fn table_of<V>(rows: Seq<(Seq<char>, V)>) -> Map<Seq<char>, V> {
    Map::new(
        |key: Seq<char>| exists|i: int| row_at(rows, i, key),
        |key: Seq<char>| rows[choose|i: int| row_at(rows, i, key)].1,
    )
}

/// Every row is the one its key maps to.
pub proof fn lemma_row<V>(rows: Seq<(Seq<char>, V)>, i: int)
    requires
        distinct_keys(rows),
        0 <= i < rows.len(),
    ensures
        table_of(rows).contains_key(rows[i].0),
        table_of(rows)[rows[i].0] == rows[i].1,
{
    let key = rows[i].0;
    assert(row_at(rows, i, key));
    let j = choose|j: int| row_at(rows, j, key);
    if j < i {
        assert(rows[j].0 != rows[i].0);
    } else if i < j {
        assert(rows[i].0 != rows[j].0);
    }
}

/// A key of the mapping is the key of some row.
pub proof fn lemma_row_of_key<V>(rows: Seq<(Seq<char>, V)>, key: Seq<char>) -> (i: int)
    requires
        distinct_keys(rows),
        table_of(rows).contains_key(key),
    ensures
        row_at(rows, i, key),
        table_of(rows)[key] == rows[i].1,
{
    let i = choose|i: int| row_at(rows, i, key);
    lemma_row(rows, i);
    i
}

/// The empty vector stands for the empty mapping.
pub proof fn lemma_no_rows<V>(rows: Seq<(Seq<char>, V)>)
    requires
        rows.len() == 0,
    ensures
        distinct_keys(rows),
        table_of(rows) == Map::<Seq<char>, V>::empty(),
{
    assert forall|key: Seq<char>| !table_of(rows).contains_key(key) by {
        if table_of(rows).contains_key(key) {
            let i = choose|i: int| row_at(rows, i, key);
            assert(row_at(rows, i, key));
        }
    }
    assert(table_of(rows) =~= Map::<Seq<char>, V>::empty());
}

/// Adding a row under a new key inserts it into the mapping.
pub proof fn lemma_push_row<V>(rows: Seq<(Seq<char>, V)>, key: Seq<char>, value: V)
    requires
        distinct_keys(rows),
        !table_of(rows).contains_key(key),
    ensures
        distinct_keys(rows.push((key, value))),
        table_of(rows.push((key, value))) == table_of(rows).insert(key, value),
{
    let after = rows.push((key, value));
    assert forall|a: int, b: int| 0 <= a < b < after.len() implies (#[trigger] after[a]).0 != (
    #[trigger] after[b]).0 by {
        if b < rows.len() {
            assert(rows[a].0 != rows[b].0);
        } else if after[a].0 == key {
            assert(row_at(rows, a, key));
        }
    }
    assert forall|k: Seq<char>| table_of(after).contains_key(k) <==> #[trigger] table_of(
        rows,
    ).insert(key, value).contains_key(k) by {
        if table_of(after).contains_key(k) {
            let p = choose|p: int| row_at(after, p, k);
            if p < rows.len() {
                assert(row_at(rows, p, k));
            }
        }
        if table_of(rows).contains_key(k) {
            let p = choose|p: int| row_at(rows, p, k);
            assert(row_at(after, p, k));
        }
        if k == key {
            assert(row_at(after, rows.len() as int, k));
        }
    }
    assert forall|k: Seq<char>| table_of(after).contains_key(k) implies #[trigger] table_of(
        after,
    )[k] == table_of(rows).insert(key, value)[k] by {
        let p = lemma_row_of_key(after, k);
        if p < rows.len() {
            assert(row_at(rows, p, k));
            lemma_row(rows, p);
        }
    }
    assert(table_of(after) =~= table_of(rows).insert(key, value));
}

/// Replacing the value of a row replaces it in the mapping.
pub proof fn lemma_update_row<V>(rows: Seq<(Seq<char>, V)>, i: int, value: V)
    requires
        distinct_keys(rows),
        0 <= i < rows.len(),
    ensures
        distinct_keys(rows.update(i, (rows[i].0, value))),
        table_of(rows.update(i, (rows[i].0, value))) == table_of(rows).insert(rows[i].0, value),
{
    let key = rows[i].0;
    let after = rows.update(i, (key, value));
    assert forall|a: int, b: int| 0 <= a < b < after.len() implies (#[trigger] after[a]).0 != (
    #[trigger] after[b]).0 by {
        assert(rows[a].0 != rows[b].0);
    }
    assert forall|k: Seq<char>| table_of(after).contains_key(k) <==> #[trigger] table_of(
        rows,
    ).insert(key, value).contains_key(k) by {
        if table_of(after).contains_key(k) {
            let p = choose|p: int| row_at(after, p, k);
            assert(row_at(rows, p, k));
        }
        if table_of(rows).contains_key(k) {
            let p = choose|p: int| row_at(rows, p, k);
            assert(row_at(after, p, k));
        }
        if k == key {
            assert(row_at(after, i, k));
        }
    }
    assert forall|k: Seq<char>| table_of(after).contains_key(k) implies #[trigger] table_of(
        after,
    )[k] == table_of(rows).insert(key, value)[k] by {
        let p = lemma_row_of_key(after, k);
        if p != i {
            assert(row_at(rows, p, k));
            lemma_row(rows, p);
            if p < i {
                assert(rows[p].0 != rows[i].0);
            } else {
                assert(rows[i].0 != rows[p].0);
            }
        }
    }
    assert(table_of(after) =~= table_of(rows).insert(key, value));
}

/// Removing a row removes its key from the mapping.
pub proof fn lemma_remove_row<V>(rows: Seq<(Seq<char>, V)>, i: int)
    requires
        distinct_keys(rows),
        0 <= i < rows.len(),
    ensures
        distinct_keys(rows.remove(i)),
        table_of(rows.remove(i)) == table_of(rows).remove(rows[i].0),
{
    let key = rows[i].0;
    let after = rows.remove(i);
    assert forall|a: int, b: int| 0 <= a < b < after.len() implies (#[trigger] after[a]).0 != (
    #[trigger] after[b]).0 by {
        let a0 = if a < i { a } else { a + 1 };
        let b0 = if b < i { b } else { b + 1 };
        assert(rows[a0].0 != rows[b0].0);
    }
    assert forall|k: Seq<char>| table_of(after).contains_key(k) <==> #[trigger] table_of(
        rows,
    ).remove(key).contains_key(k) by {
        if table_of(after).contains_key(k) {
            let p = choose|p: int| row_at(after, p, k);
            let shifted = if p < i { p } else { p + 1 };
            assert(row_at(rows, shifted, k));
            if shifted < i {
                assert(rows[shifted].0 != rows[i].0);
            } else {
                assert(rows[i].0 != rows[shifted].0);
            }
        }
        if table_of(rows).contains_key(k) && k != key {
            let p = choose|p: int| row_at(rows, p, k);
            let moved = if p < i { p } else { p - 1 };
            assert(row_at(after, moved, k));
        }
    }
    assert forall|k: Seq<char>| table_of(after).contains_key(k) implies #[trigger] table_of(
        after,
    )[k] == table_of(rows).remove(key)[k] by {
        let p = lemma_row_of_key(after, k);
        let shifted = if p < i { p } else { p + 1 };
        assert(row_at(rows, shifted, k));
        lemma_row(rows, shifted);
    }
    assert(table_of(after) =~= table_of(rows).remove(key));
}

/// A vector of rows stands for a finite mapping, with as many keys as there
/// are rows if no key occurs twice.
pub proof fn lemma_table_finite<V>(rows: Seq<(Seq<char>, V)>)
    ensures
        table_of(rows).dom().finite(),
        distinct_keys(rows) ==> table_of(rows).dom().len() == rows.len(),
    decreases rows.len(),
{
    if rows.len() == 0 {
        lemma_no_rows(rows);
    } else {
        let front = rows.drop_last();
        let key = rows.last().0;
        lemma_table_finite(front);
        assert forall|k: Seq<char>| table_of(rows).contains_key(k) <==> table_of(
            front,
        ).dom().insert(key).contains(k) by {
            if table_of(rows).contains_key(k) {
                let p = choose|p: int| row_at(rows, p, k);
                if p < front.len() {
                    assert(row_at(front, p, k));
                }
            }
            if table_of(front).contains_key(k) {
                let p = choose|p: int| row_at(front, p, k);
                assert(row_at(rows, p, k));
            }
            if k == key {
                assert(row_at(rows, rows.len() - 1, k));
            }
        }
        assert(table_of(rows).dom() =~= table_of(front).dom().insert(key));
        if distinct_keys(rows) {
            assert forall|a: int, b: int| 0 <= a < b < front.len() implies (#[trigger] front[a]).0
                != (#[trigger] front[b]).0 by {
                assert(rows[a].0 != rows[b].0);
            }
            if table_of(front).contains_key(key) {
                let p = choose|p: int| row_at(front, p, key);
                assert(rows[p].0 != rows[rows.len() - 1].0);
            }
        }
    }
}

} // verus!
