//! The uniform result of a query: an ordered map from column to the column's
//! values, one per row, together with the row count.

use indexmap::IndexMap;
use vstd::prelude::*;

use crate::cell::{decode_cell, decoded, CellRead};
use crate::model::{SGDBColumn, SGDBRowValue};

verus! {

#[verifier::external_type_specification]
#[verifier::external_body]
#[verifier::reject_recursive_types(K)]
#[verifier::reject_recursive_types(V)]
#[verifier::reject_recursive_types(S)]
pub struct ExIndexMap<K, V, S>(IndexMap<K, V, S>);

/// What a column map holds, in insertion order: each column with its values.
pub uninterp spec fn column_entries(m: IndexMap<SGDBColumn, Vec<SGDBRowValue>>) -> Seq<(SGDBColumn, Seq<SGDBRowValue>)>;

/// Two columns are the same map key when all their fields agree.
pub open spec fn same_column(a: SGDBColumn, b: SGDBColumn) -> bool {
    a.name@ == b.name@ && a.ordinal == b.ordinal && a.column_type == b.column_type
}

/// No column occurs twice.
pub open spec fn distinct_columns(cols: Seq<SGDBColumn>) -> bool {
    forall|a: int, b: int| 0 <= a < b < cols.len() ==> !same_column(#[trigger] cols[a], #[trigger] cols[b])
}

/// Relies on `IndexMap::new`: a map with no entries.
#[verifier::external_body]
fn empty_column_map() -> (r: IndexMap<SGDBColumn, Vec<SGDBRowValue>>)
    ensures
        column_entries(r) == Seq::<(SGDBColumn, Seq<SGDBRowValue>)>::empty(),
{
    IndexMap::new()
}

/// Relies on `IndexMap::insert`: a key equal to one already present keeps its
/// place and gets the new value; a new key goes last.
#[verifier::external_body]
fn insert_column(m: &mut IndexMap<SGDBColumn, Vec<SGDBRowValue>>, col: SGDBColumn, values: Vec<SGDBRowValue>)
    ensures
        (forall|j: int| 0 <= j < column_entries(*old(m)).len() ==> !same_column(#[trigger] column_entries(*old(m))[j].0, col))
            ==> column_entries(*final(m)) == column_entries(*old(m)).push((col, values@)),
        forall|j: int| 0 <= j < column_entries(*old(m)).len() && same_column(#[trigger] column_entries(*old(m))[j].0, col)
            ==> column_entries(*final(m)) == column_entries(*old(m)).update(j, (column_entries(*old(m))[j].0, values@)),
{
    m.insert(col, values);
}

/// Relies on `IndexMap::get_index_mut`: appends to the values stored at
/// position `index`, leaving every other entry as it was.
#[verifier::external_body]
fn push_value_at(m: &mut IndexMap<SGDBColumn, Vec<SGDBRowValue>>, index: usize, value: SGDBRowValue)
    requires
        index < column_entries(*old(m)).len(),
    ensures
        column_entries(*final(m)) == column_entries(*old(m)).update(
            index as int,
            (column_entries(*old(m))[index as int].0, column_entries(*old(m))[index as int].1.push(value)),
        ),
{
    m.get_index_mut(index).unwrap().1.push(value);
}

/// Relies on `IndexMap::into_iter`: the entries, in order, as pairs.
#[verifier::external_body]
pub(crate) fn into_column_pairs(m: IndexMap<SGDBColumn, Vec<SGDBRowValue>>) -> (r: Vec<(SGDBColumn, Vec<SGDBRowValue>)>)
    ensures
        r@.len() == column_entries(m).len(),
        forall|i: int| 0 <= i < r@.len() ==> (#[trigger] r@[i]).0 == column_entries(m)[i].0 && r@[i].1@ == column_entries(m)[i].1,
{
    m.into_iter().collect()
}

/// The result of one query.
#[derive(Debug)]
pub struct SGDBFetchResult {
    pub data: IndexMap<SGDBColumn, Vec<SGDBRowValue>>,
    pub num_rows: usize,
}

impl SGDBFetchResult {
    pub open spec fn entries(&self) -> Seq<(SGDBColumn, Seq<SGDBRowValue>)> {
        column_entries(self.data)
    }

    /// The columns, in order.
    pub open spec fn columns(&self) -> Seq<SGDBColumn> {
        self.entries().map_values(|e: (SGDBColumn, Seq<SGDBRowValue>)| e.0)
    }

    /// Every column holds exactly one value per row.
    pub open spec fn well_formed(&self) -> bool {
        forall|j: int| 0 <= j < self.entries().len() ==> (#[trigger] self.entries()[j]).1.len() == self.num_rows
    }

    /// This result is the one built from `columns` and the cells read for
    /// every row: one value per row in every column, each the decoding of its
    /// cell against its column's type.
    pub open spec fn built_from(&self, columns: Seq<SGDBColumn>, cells: Seq<Vec<CellRead>>) -> bool {
        &&& self.well_formed()
        &&& self.num_rows == cells.len()
        &&& self.columns() == columns
        &&& forall|j: int, i: int| 0 <= j < columns.len() && 0 <= i < cells.len() ==>
            (#[trigger] self.entries()[j].1[i])@ == decoded(columns[j].column_type, (#[trigger] cells[i])@[j]@)
    }

    /// A result with the given columns, in the given order, and no rows.
    /// Columns equal to an earlier one are not added again.
    pub fn with_columns(columns: Vec<SGDBColumn>) -> (r: SGDBFetchResult)
        ensures
            r.well_formed(),
            r.num_rows == 0,
            r.entries().len() <= columns@.len(),
            distinct_columns(columns@) ==> r.columns() == columns@,
    {
        let mut data = empty_column_map();
        let n = columns.len();
        let mut rest = columns;
        let ghost all = rest@;
        let mut k: usize = 0;
        while rest.len() > 0
            invariant
                k + rest@.len() == all.len(),
                all.len() == n,
                rest@ == all.subrange(k as int, all.len() as int),
                column_entries(data).len() <= k,
                forall|j: int| 0 <= j < column_entries(data).len() ==> (#[trigger] column_entries(data)[j]).1.len() == 0,
                distinct_columns(all) ==> column_entries(data).len() == k,
                distinct_columns(all) ==> forall|j: int| 0 <= j < k ==> (#[trigger] column_entries(data)[j]).0 == all[j],
            decreases rest@.len(),
        {
            let col = rest.remove(0);
            let ghost before = column_entries(data);
            proof {
                if distinct_columns(all) {
                    assert forall|j: int| 0 <= j < before.len() implies !same_column(#[trigger] before[j].0, col) by {
                        assert(before[j].0 == all[j]);
                        assert(col == all[k as int]);
                    }
                }
            }
            insert_column(&mut data, col, Vec::new());
            k = k + 1;
        }
        let r = SGDBFetchResult { data, num_rows: 0 };
        proof {
            if distinct_columns(all) {
                assert(r.columns() =~= all);
            }
        }
        r
    }

    /// Appends one row: `values[j]` goes to the `j`-th column.
    pub fn push_row(&mut self, values: Vec<SGDBRowValue>)
        requires
            old(self).well_formed(),
            values@.len() == old(self).entries().len(),
            old(self).num_rows < usize::MAX,
        ensures
            final(self).well_formed(),
            final(self).num_rows == old(self).num_rows + 1,
            final(self).entries().len() == old(self).entries().len(),
            forall|j: int| 0 <= j < old(self).entries().len() ==> (#[trigger] final(self).entries()[j]) == (
                old(self).entries()[j].0,
                old(self).entries()[j].1.push(values@[j]),
            ),
    {
        let ghost start = self.entries();
        let ghost all = values@;
        let mut values = values;
        while values.len() > 0
            invariant
                values@.len() <= all.len(),
                values@ == all.subrange(0, values@.len() as int),
                self.num_rows == old(self).num_rows,
                start == old(self).entries(),
                column_entries(self.data).len() == start.len(),
                all.len() == start.len(),
                forall|j: int| 0 <= j < values@.len() ==> #[trigger] column_entries(self.data)[j] == start[j],
                forall|j: int| values@.len() <= j < start.len() ==> #[trigger] column_entries(self.data)[j] == (
                    start[j].0,
                    start[j].1.push(all[j]),
                ),
            decreases values@.len(),
        {
            let v = values.pop().unwrap();
            let j = values.len();
            push_value_at(&mut self.data, j, v);
        }
        self.num_rows = self.num_rows + 1;
    }

    /// Builds a result from the columns and the cells read for every row:
    /// `cells[r][j]` is the cell of row `r` in column `j`.
    pub fn from_cells(columns: Vec<SGDBColumn>, cells: Vec<Vec<CellRead>>) -> (r: SGDBFetchResult)
        requires
            distinct_columns(columns@),
            forall|i: int| 0 <= i < cells@.len() ==> (#[trigger] cells@[i])@.len() == columns@.len(),
        ensures
            r.built_from(columns@, cells@),
    {
        let ghost cols = columns@;
        let ghost rows = cells@;
        let n = cells.len();
        // Reverse the rows so that popping yields them in order.
        let mut pending: Vec<Vec<CellRead>> = Vec::new();
        let mut cells = cells;
        while cells.len() > 0
            invariant
                cells@ == rows.subrange(0, cells@.len() as int),
                pending@.len() + cells@.len() == rows.len(),
                forall|i: int| 0 <= i < pending@.len() ==> #[trigger] pending@[i] == rows[rows.len() - 1 - i],
            decreases cells@.len(),
        {
            let row = cells.pop().unwrap();
            pending.push(row);
        }
        let types = column_types(&columns);
        let mut res = SGDBFetchResult::with_columns(columns);
        while pending.len() > 0
            invariant
                res.well_formed(),
                res.columns() == cols,
                types@.len() == cols.len(),
                forall|j: int| 0 <= j < cols.len() ==> #[trigger] types@[j] == cols[j].column_type,
                res.num_rows + pending@.len() == rows.len(),
                rows.len() == n,
                forall|i: int| 0 <= i < pending@.len() ==> #[trigger] pending@[i] == rows[rows.len() - 1 - i],
                forall|i: int| 0 <= i < rows.len() ==> (#[trigger] rows[i])@.len() == cols.len(),
                forall|j: int, i: int| 0 <= j < cols.len() && 0 <= i < res.num_rows ==>
                    (#[trigger] res.entries()[j].1[i])@ == decoded(cols[j].column_type, (#[trigger] rows[i])@[j]@),
            decreases pending@.len(),
        {
            let row = pending.pop().unwrap();
            let ghost i = res.num_rows as int;
            assert(row == rows[i]);
            let values = decode_row(&types, row);
            let ghost before = res.entries();
            assert(res.entries().len() == cols.len()) by {
                assert(res.columns().len() == res.entries().len());
            }
            res.push_row(values);
            proof {
                assert forall|j: int| 0 <= j < cols.len() implies #[trigger] res.columns()[j] == cols[j] by {
                    assert(res.entries()[j].0 == before[j].0);
                }
                assert(res.columns() =~= cols);
                assert forall|j: int, i2: int| 0 <= j < cols.len() && 0 <= i2 < res.num_rows implies
                    (#[trigger] res.entries()[j].1[i2])@ == decoded(cols[j].column_type, (#[trigger] rows[i2])@[j]@) by {
                    assert(res.entries()[j].1 == before[j].1.push(values@[j]));
                    if i2 < i {
                        assert(res.entries()[j].1[i2] == before[j].1[i2]);
                    }
                }
            }
        }
        res
    }
}

/// Fetching is repeatable: two results built from the same columns and the
/// same number of rows have the same columns in the same order and the same
/// row count; built from the same cells, they hold the same values.
pub proof fn lemma_fetch_repeatable(
    columns: Seq<SGDBColumn>,
    cells_a: Seq<Vec<CellRead>>,
    cells_b: Seq<Vec<CellRead>>,
    a: SGDBFetchResult,
    b: SGDBFetchResult,
)
    requires
        a.built_from(columns, cells_a),
        b.built_from(columns, cells_b),
        cells_a.len() == cells_b.len(),
    ensures
        a.columns() == b.columns(),
        a.num_rows == b.num_rows,
        a.entries().len() == b.entries().len(),
        cells_a == cells_b ==> forall|j: int, i: int| 0 <= j < a.entries().len() && 0 <= i < a.num_rows ==>
            (#[trigger] a.entries()[j].1[i])@ == b.entries()[j].1[i]@,
{
    assert(a.entries().len() == a.columns().len());
    assert(b.entries().len() == b.columns().len());
    if cells_a == cells_b {
        assert forall|j: int, i: int| 0 <= j < a.entries().len() && 0 <= i < a.num_rows implies
            (#[trigger] a.entries()[j].1[i])@ == b.entries()[j].1[i]@ by {
            assert(a.entries()[j].1[i]@ == decoded(columns[j].column_type, cells_a[i]@[j]@));
            assert(b.entries()[j].1[i]@ == decoded(columns[j].column_type, cells_b[i]@[j]@));
        }
    }
}

/// The declared type of each column, in order.
fn column_types(columns: &Vec<SGDBColumn>) -> (r: Vec<crate::model::SGDBColumnType>)
    ensures
        r@.len() == columns@.len(),
        forall|j: int| 0 <= j < columns@.len() ==> #[trigger] r@[j] == columns@[j].column_type,
{
    let mut r = Vec::new();
    let mut j: usize = 0;
    while j < columns.len()
        invariant
            j <= columns@.len(),
            r@.len() == j,
            forall|k: int| 0 <= k < j ==> #[trigger] r@[k] == columns@[k].column_type,
        decreases columns@.len() - j,
    {
        r.push(columns[j].column_type);
        j = j + 1;
    }
    r
}

/// Decodes one row of cells against the column types, in order.
fn decode_row(types: &Vec<crate::model::SGDBColumnType>, row: Vec<CellRead>) -> (r: Vec<SGDBRowValue>)
    requires
        row@.len() == types@.len(),
    ensures
        r@.len() == types@.len(),
        forall|j: int| 0 <= j < types@.len() ==> (#[trigger] r@[j])@ == decoded(types@[j], row@[j]@),
{
    let ghost all = row@;
    let mut row = row;
    let mut out: Vec<SGDBRowValue> = Vec::new();
    while row.len() > 0
        invariant
            row@ == all.subrange(0, row@.len() as int),
            all.len() == types@.len(),
            out@.len() + row@.len() == all.len(),
            forall|j: int| 0 <= j < out@.len() ==> (#[trigger] out@[j])@ == decoded(
                types@[row@.len() + j],
                all[row@.len() + j]@,
            ),
        decreases row@.len(),
    {
        let cell = row.pop().unwrap();
        let j = row.len();
        let v = decode_cell(types[j], cell);
        out.insert(0, v);
    }
    out
}

} // verus!
