//! Tables with a primary key, as sequences of rows read as maps.
//!
//! A table is kept as a sequence of rows in which no key occurs twice. Its
//! meaning is the map from each key to the row that carries it. The lemmas
//! here say what appending and removing a row do to that map.

use vstd::prelude::*;

verus! {

/// A stored row: it has a primary key, and a mathematical value.
pub trait Keyed {
    type Key;

    type Row;

    /// The primary key of this row.
    spec fn key(&self) -> Self::Key;

    /// What this row holds, as a mathematical value.
    spec fn row(&self) -> Self::Row;
}

/// Some row of `rows` carries the key `k`.
pub open spec fn has_key<R: Keyed>(rows: Seq<R>, k: R::Key) -> bool {
    exists|i: int| 0 <= i < rows.len() && #[trigger] rows[i].key() == k
}

/// The place of a row that carries the key `k`.
pub open spec fn position<R: Keyed>(rows: Seq<R>, k: R::Key) -> int {
    choose|i: int| 0 <= i < rows.len() && #[trigger] rows[i].key() == k
}

/// No key occurs in two rows.
pub open spec fn distinct_keys<R: Keyed>(rows: Seq<R>) -> bool {
    forall|i: int, j: int|
        0 <= i < j < rows.len() ==> #[trigger] rows[i].key() != #[trigger] rows[j].key()
}

/// The table as a map from key to row.
pub open spec fn as_map<R: Keyed>(rows: Seq<R>) -> Map<R::Key, R::Row> {
    Map::new(|k: R::Key| has_key(rows, k), |k: R::Key| rows[position(rows, k)].row())
}

/// The row at place `i` is the one that the map holds under its key.
pub proof fn lemma_as_map_at<R: Keyed>(rows: Seq<R>, i: int)
    requires
        distinct_keys(rows),
        0 <= i < rows.len(),
    ensures
        has_key(rows, rows[i].key()),
        position(rows, rows[i].key()) == i,
        as_map(rows).contains_key(rows[i].key()),
        as_map(rows)[rows[i].key()] == rows[i].row(),
{
    let k = rows[i].key();
    assert(0 <= i < rows.len() && rows[i].key() == k);
    let p = position(rows, k);
    assert(0 <= p < rows.len() && rows[p].key() == k);
    if p < i {
        assert(rows[p].key() != rows[i].key());
    } else if i < p {
        assert(rows[i].key() != rows[p].key());
    }
}

/// A key that the map holds sits at its position.
pub proof fn lemma_position<R: Keyed>(rows: Seq<R>, k: R::Key)
    requires
        has_key(rows, k),
    ensures
        0 <= position(rows, k) < rows.len(),
        rows[position(rows, k)].key() == k,
        as_map(rows).contains_key(k),
        as_map(rows)[k] == rows[position(rows, k)].row(),
{
}

/// The empty table is the empty map.
pub proof fn lemma_as_map_empty<R: Keyed>()
    ensures
        distinct_keys(Seq::<R>::empty()),
        as_map(Seq::<R>::empty()) == Map::<R::Key, R::Row>::empty(),
{
    assert(as_map(Seq::<R>::empty()) =~= Map::<R::Key, R::Row>::empty());
}

/// Appending a row with a fresh key inserts it into the map.
pub proof fn lemma_as_map_push<R: Keyed>(rows: Seq<R>, r: R)
    requires
        distinct_keys(rows),
        !has_key(rows, r.key()),
    ensures
        distinct_keys(rows.push(r)),
        as_map(rows.push(r)) == as_map(rows).insert(r.key(), r.row()),
{
    let after = rows.push(r);
    assert forall|i: int, j: int| 0 <= i < j < after.len() implies #[trigger] after[i].key()
        != #[trigger] after[j].key() by {
        if j < rows.len() {
            assert(rows[i].key() != rows[j].key());
        } else {
            assert(after[i] == rows[i]);
            if rows[i].key() == r.key() {
                assert(has_key(rows, r.key()));
            }
        }
    }
    lemma_as_map_at(after, rows.len() as int);
    assert forall|k: R::Key| #[trigger] as_map(after).contains_key(k) <==> as_map(rows).insert(
        r.key(),
        r.row(),
    ).contains_key(k) by {
        if has_key(after, k) {
            let p = position(after, k);
            if p < rows.len() {
                assert(rows[p].key() == k);
            }
        }
        if has_key(rows, k) {
            let p = position(rows, k);
            assert(after[p].key() == k);
        }
    }
    assert forall|k: R::Key| #[trigger] as_map(after).contains_key(k) implies as_map(after)[k]
        == as_map(rows).insert(r.key(), r.row())[k] by {
        if k != r.key() {
            let p = position(after, k);
            assert(p < rows.len());
            assert(rows[p].key() == k);
            lemma_as_map_at(rows, p);
        }
    }
    assert(as_map(after) =~= as_map(rows).insert(r.key(), r.row()));
}

/// Removing the row at place `i` removes its key from the map.
pub proof fn lemma_as_map_remove<R: Keyed>(rows: Seq<R>, i: int)
    requires
        distinct_keys(rows),
        0 <= i < rows.len(),
    ensures
        distinct_keys(rows.remove(i)),
        as_map(rows.remove(i)) == as_map(rows).remove(rows[i].key()),
{
    let after = rows.remove(i);
    let gone = rows[i].key();
    assert forall|a: int, b: int| 0 <= a < b < after.len() implies #[trigger] after[a].key()
        != #[trigger] after[b].key() by {
        let a0 = if a < i { a } else { a + 1 };
        let b0 = if b < i { b } else { b + 1 };
        assert(after[a] == rows[a0]);
        assert(after[b] == rows[b0]);
        assert(rows[a0].key() != rows[b0].key());
    }
    assert forall|k: R::Key| #[trigger] as_map(after).contains_key(k) <==> as_map(rows).remove(
        gone,
    ).contains_key(k) by {
        if has_key(after, k) {
            let p = position(after, k);
            let p0 = if p < i { p } else { p + 1 };
            assert(after[p] == rows[p0]);
            assert(rows[p0].key() == k);
            if k == gone {
                if p0 < i {
                    assert(rows[p0].key() != rows[i].key());
                } else {
                    assert(rows[i].key() != rows[p0].key());
                }
            }
        }
        if has_key(rows, k) && k != gone {
            let p = position(rows, k);
            let q = if p < i { p } else { p - 1 };
            assert(after[q] == rows[p]);
            assert(after[q].key() == k);
        }
    }
    assert forall|k: R::Key| #[trigger] as_map(after).contains_key(k) implies as_map(after)[k]
        == as_map(rows).remove(gone)[k] by {
        let p = position(after, k);
        let p0 = if p < i { p } else { p + 1 };
        assert(after[p] == rows[p0]);
        lemma_as_map_at(rows, p0);
    }
    assert(as_map(after) =~= as_map(rows).remove(gone));
}

} // verus!
