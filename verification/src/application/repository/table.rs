use vstd::prelude::*;

verus! {

/// A row that is found by its id.
pub trait Keyed {
    /// The id under which the row is stored.
    spec fn key(&self) -> u128;

    /// The id under which the row is stored.
    fn row_id(&self) -> (id: u128)
        ensures
            id == self.key(),
    ;
}

/// Whether some row of `rows` has the id `id`.
pub open spec fn has_row<T: Keyed>(rows: Seq<T>, id: u128) -> bool {
    exists|i: int| 0 <= i < rows.len() && (#[trigger] rows[i]).key() == id
}

/// The position of a row with the id `id`, where there is one.
pub open spec fn row_index<T: Keyed>(rows: Seq<T>, id: u128) -> int {
    choose|i: int| 0 <= i < rows.len() && (#[trigger] rows[i]).key() == id
}

/// No two rows share an id.
pub open spec fn distinct_ids<T: Keyed>(rows: Seq<T>) -> bool {
    forall|i: int, j: int|
        0 <= i < j < rows.len() ==> (#[trigger] rows[i]).key() != (#[trigger] rows[j]).key()
}

/// The rows as a map from id to row.
pub open spec fn table<T: Keyed>(rows: Seq<T>) -> Map<u128, T> {
    Map::new(|id: u128| has_row(rows, id), |id: u128| rows[row_index(rows, id)])
}

/// In rows with unique ids, the row at `i` is the one its id maps to.
pub proof fn lemma_table_row<T: Keyed>(rows: Seq<T>, i: int)
    requires
        distinct_ids(rows),
        0 <= i < rows.len(),
    ensures
        has_row(rows, rows[i].key()),
        row_index(rows, rows[i].key()) == i,
        table(rows).contains_key(rows[i].key()),
        table(rows)[rows[i].key()] == rows[i],
{
    let id = rows[i].key();
    let j = row_index(rows, id);
    assert(0 <= j < rows.len() && rows[j].key() == id);
    if j < i {
        assert(rows[j].key() != rows[i].key());
    } else if i < j {
        assert(rows[i].key() != rows[j].key());
    }
}

/// Every entry of the map is a row, stored under its own id.
pub proof fn lemma_table_entry<T: Keyed>(rows: Seq<T>, id: u128)
    requires
        table(rows).contains_key(id),
    ensures
        0 <= row_index(rows, id) < rows.len(),
        rows[row_index(rows, id)].key() == id,
        table(rows)[id] == rows[row_index(rows, id)],
        table(rows)[id].key() == id,
{
}

/// Appending a row with a new id adds one entry to the map.
pub proof fn lemma_table_push<T: Keyed>(rows: Seq<T>, row: T)
    requires
        distinct_ids(rows),
        !has_row(rows, row.key()),
    ensures
        distinct_ids(rows.push(row)),
        table(rows.push(row)) == table(rows).insert(row.key(), row),
{
    let after = rows.push(row);
    assert(distinct_ids(after)) by {
        assert forall|i: int, j: int| 0 <= i < j < after.len() implies (#[trigger] after[i]).key()
            != (#[trigger] after[j]).key() by {
            if j < rows.len() {
                assert(rows[i].key() != rows[j].key());
            } else {
                assert(rows[i].key() != row.key());
            }
        }
    }
    assert forall|id: u128| table(after).contains_key(id) <==> table(rows).insert(
        row.key(),
        row,
    ).contains_key(id) by {
        if has_row(after, id) {
            let i = row_index(after, id);
            if i < rows.len() {
                assert(rows[i].key() == id);
            }
        }
        if has_row(rows, id) {
            let i = row_index(rows, id);
            assert(after[i].key() == id);
        }
        if id == row.key() {
            assert(after[rows.len() as int].key() == id);
        }
    }
    assert forall|id: u128| table(after).contains_key(id) implies table(after)[id] == table(
        rows,
    ).insert(row.key(), row)[id] by {
        let i = row_index(after, id);
        lemma_table_row(after, i);
        if i < rows.len() {
            lemma_table_row(rows, i);
        }
    }
    assert(table(after) =~= table(rows).insert(row.key(), row));
}

/// Replacing a row by one with the same id replaces its entry in the map.
pub proof fn lemma_table_update<T: Keyed>(rows: Seq<T>, i: int, row: T)
    requires
        distinct_ids(rows),
        0 <= i < rows.len(),
        rows[i].key() == row.key(),
    ensures
        distinct_ids(rows.update(i, row)),
        table(rows.update(i, row)) == table(rows).insert(row.key(), row),
{
    let after = rows.update(i, row);
    assert(distinct_ids(after)) by {
        assert forall|a: int, b: int| 0 <= a < b < after.len() implies (#[trigger] after[a]).key()
            != (#[trigger] after[b]).key() by {
            assert(rows[a].key() != rows[b].key());
        }
    }
    assert forall|id: u128| table(after).contains_key(id) <==> table(rows).insert(
        row.key(),
        row,
    ).contains_key(id) by {
        if has_row(after, id) {
            let k = row_index(after, id);
            assert(rows[k].key() == id);
        }
        if has_row(rows, id) {
            let k = row_index(rows, id);
            assert(after[k].key() == id);
        }
        if id == row.key() {
            assert(after[i].key() == id);
        }
    }
    assert forall|id: u128| table(after).contains_key(id) implies table(after)[id] == table(
        rows,
    ).insert(row.key(), row)[id] by {
        let k = row_index(after, id);
        lemma_table_row(after, k);
        lemma_table_row(rows, k);
    }
    assert(table(after) =~= table(rows).insert(row.key(), row));
}

/// Taking a row out takes its entry out of the map.
pub proof fn lemma_table_remove<T: Keyed>(rows: Seq<T>, i: int)
    requires
        distinct_ids(rows),
        0 <= i < rows.len(),
    ensures
        distinct_ids(rows.remove(i)),
        table(rows.remove(i)) == table(rows).remove(rows[i].key()),
{
    let after = rows.remove(i);
    let gone = rows[i].key();
    assert forall|a: int| 0 <= a < after.len() implies #[trigger] after[a] == rows[if a < i {
        a
    } else {
        a + 1
    }] by {}
    assert(distinct_ids(after)) by {
        assert forall|a: int, b: int| 0 <= a < b < after.len() implies (#[trigger] after[a]).key()
            != (#[trigger] after[b]).key() by {
            let a0 = if a < i { a } else { a + 1 };
            let b0 = if b < i { b } else { b + 1 };
            assert(rows[a0].key() != rows[b0].key());
        }
    }
    assert forall|id: u128| table(after).contains_key(id) <==> table(rows).remove(
        gone,
    ).contains_key(id) by {
        if has_row(after, id) {
            let k = row_index(after, id);
            let k0 = if k < i { k } else { k + 1 };
            assert(rows[k0].key() == id);
            if k0 < i {
                assert(rows[k0].key() != rows[i].key());
            } else {
                assert(rows[i].key() != rows[k0].key());
            }
        }
        if has_row(rows, id) && id != gone {
            let k = row_index(rows, id);
            let k1 = if k < i { k } else { k - 1 };
            assert(after[k1].key() == id);
        }
    }
    assert forall|id: u128| table(after).contains_key(id) implies table(after)[id] == table(
        rows,
    ).remove(gone)[id] by {
        let k = row_index(after, id);
        let k0 = if k < i { k } else { k + 1 };
        lemma_table_row(after, k);
        lemma_table_row(rows, k0);
    }
    assert(table(after) =~= table(rows).remove(gone));
}

/// The position of the row with the id `id` among rows with unique ids.
pub(crate) fn position<T: Keyed>(rows: &Vec<T>, id: u128) -> (found: Option<usize>)
    requires
        distinct_ids(rows@),
    ensures
        match found {
            Some(i) => i < rows@.len() && rows@[i as int].key() == id && row_index(rows@, id) == i
                && table(rows@).contains_key(id),
            None => !has_row(rows@, id) && !table(rows@).contains_key(id),
        },
{
    let mut i: usize = 0;
    while i < rows.len()
        invariant
            distinct_ids(rows@),
            i <= rows.len(),
            forall|k: int| 0 <= k < i ==> (#[trigger] rows@[k]).key() != id,
        decreases rows.len() - i,
    {
        if rows[i].row_id() == id {
            proof {
                lemma_table_row(rows@, i as int);
            }
            return Some(i);
        }
        i += 1;
    }
    None
}

} // verus!
