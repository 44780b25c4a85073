//! The MySQL adapter: native type names, reading cells out of driver rows,
//! and catalog rows.

use sqlx::mysql::MySqlRow;
use sqlx::{Column, Row, TypeInfo, ValueRef};
use vstd::prelude::*;
use vstd::string::StrSliceExecFns;

use crate::cell::{decode_cell, decoded, invalid_type_error, lemma_decoded_fits, CellRead, CellView};
use crate::fetch::{distinct_columns, same_column, SGDBFetchResult};
use crate::model::{
    qualified_path, value_fits, ValueView, DbError, DbErrorKind, SGDBColumn, SGDBColumnType, SGDBRowValue,
    SGDBTable,
};

verus! {

#[verifier::external_type_specification]
#[verifier::external_body]
pub struct ExMySqlRow(sqlx::mysql::MySqlRow);

#[verifier::external_type_specification]
#[verifier::external_body]
pub struct ExSqlxError(sqlx::Error);

/// The catalog query behind a table listing; its one parameter is the schema.
pub const TABLES_QUERY: &'static str = "SELECT table_name, table_type, engine, version, table_rows, create_time FROM INFORMATION_SCHEMA.TABLES WHERE table_schema = ?";

/// Column metadata as the driver reports it.
#[derive(Clone, Debug, PartialEq)]
pub struct NativeColumn {
    pub name: String,
    pub ordinal: usize,
    pub native_type: String,
}

/// The column type for a native MySQL type name; names outside the table
/// map to `Unknown`.
pub open spec fn column_type_of(name: Seq<char>) -> SGDBColumnType {
    if name == "BOOLEAN"@ {
        SGDBColumnType::Boolean
    } else if name == "TINYINT UNSIGNED"@ || name == "SMALLINT UNSIGNED"@ || name == "INT UNSIGNED"@
        || name == "MEDIUMINT UNSIGNED"@ || name == "BIGINT UNSIGNED"@ {
        SGDBColumnType::UInteger
    } else if name == "TINYINT"@ || name == "SMALLINT"@ || name == "INT"@ || name == "MEDIUMINT"@
        || name == "BIGINT"@ {
        SGDBColumnType::Integer
    } else if name == "DECIMAL"@ {
        SGDBColumnType::Decimal
    } else if name == "FLOAT"@ || name == "DOUBLE"@ {
        SGDBColumnType::Double
    } else if name == "CHAR"@ || name == "VARCHAR"@ || name == "TEXT"@ {
        SGDBColumnType::Text
    } else if name == "DATE"@ || name == "DATETIME"@ || name == "TIMESTAMP"@ {
        SGDBColumnType::DateTime
    } else {
        SGDBColumnType::Unknown
    }
}

/// Whether two strings hold the same characters.
fn same_text(a: &str, b: &str) -> (r: bool)
    ensures
        r == (a@ == b@),
{
    let n = a.unicode_len();
    if n != b.unicode_len() {
        return false;
    }
    let mut i: usize = 0;
    while i < n
        invariant
            n == a@.len(),
            n == b@.len(),
            i <= n,
            forall|k: int| 0 <= k < i ==> a@[k] == b@[k],
        decreases n - i,
    {
        if a.get_char(i) != b.get_char(i) {
            return false;
        }
        i = i + 1;
    }
    proof {
        assert(a@ =~= b@);
    }
    true
}

/// Maps a native type name to its column type.
pub fn map_column_type(name: &str) -> (r: SGDBColumnType)
    ensures
        r == column_type_of(name@),
{
    if same_text(name, "BOOLEAN") {
        SGDBColumnType::Boolean
    } else if same_text(name, "TINYINT UNSIGNED") || same_text(name, "SMALLINT UNSIGNED")
        || same_text(name, "INT UNSIGNED") || same_text(name, "MEDIUMINT UNSIGNED")
        || same_text(name, "BIGINT UNSIGNED") {
        SGDBColumnType::UInteger
    } else if same_text(name, "TINYINT") || same_text(name, "SMALLINT") || same_text(name, "INT")
        || same_text(name, "MEDIUMINT") || same_text(name, "BIGINT") {
        SGDBColumnType::Integer
    } else if same_text(name, "DECIMAL") {
        SGDBColumnType::Decimal
    } else if same_text(name, "FLOAT") || same_text(name, "DOUBLE") {
        SGDBColumnType::Double
    } else if same_text(name, "CHAR") || same_text(name, "VARCHAR") || same_text(name, "TEXT") {
        SGDBColumnType::Text
    } else if same_text(name, "DATE") || same_text(name, "DATETIME") || same_text(name, "TIMESTAMP") {
        SGDBColumnType::DateTime
    } else {
        SGDBColumnType::Unknown
    }
}

/// The column for one piece of native column metadata.
pub fn map_column(native: &NativeColumn) -> (r: SGDBColumn)
    ensures
        r.name@ == native.name@,
        r.ordinal == native.ordinal,
        r.column_type == column_type_of(native.native_type@),
{
    SGDBColumn::new(native.name.clone(), native.ordinal, map_column_type(native.native_type.as_str()))
}

/// The columns for a row's native metadata, in the same order.
pub fn map_columns(natives: &Vec<NativeColumn>) -> (r: Vec<SGDBColumn>)
    ensures
        r@.len() == natives@.len(),
        forall|j: int| 0 <= j < natives@.len() ==> {
            &&& (#[trigger] r@[j]).name@ == natives@[j].name@
            &&& r@[j].ordinal == natives@[j].ordinal
            &&& r@[j].column_type == column_type_of(natives@[j].native_type@)
        },
{
    let mut r: Vec<SGDBColumn> = Vec::new();
    let mut j: usize = 0;
    while j < natives.len()
        invariant
            j <= natives@.len(),
            r@.len() == j,
            forall|k: int| 0 <= k < j ==> {
                &&& (#[trigger] r@[k]).name@ == natives@[k].name@
                &&& r@[k].ordinal == natives@[k].ordinal
                &&& r@[k].column_type == column_type_of(natives@[k].native_type@)
            },
        decreases natives@.len() - j,
    {
        r.push(map_column(&natives[j]));
        j = j + 1;
    }
    r
}

/// The column metadata the driver reports for a row: name, ordinal and
/// native type name of each column, in order.
pub uninterp spec fn row_columns(row: MySqlRow) -> Seq<(Seq<char>, usize, Seq<char>)>;

/// Whether the cell at `index` is SQL NULL, or the message of the failure to
/// reach it.
pub uninterp spec fn cell_access(row: MySqlRow, index: usize) -> Result<bool, Seq<char>>;

/// What reading the cell at `index` as the decoding target of `ty` gives: the
/// value, or `Mismatch` when the read fails.
pub uninterp spec fn typed_read(row: MySqlRow, index: usize, ty: SGDBColumnType) -> CellView;

/// Relies on `Row::columns`, `Column::name`, `Column::ordinal` and
/// `TypeInfo::name`: the row's column metadata, converted field by field. The
/// driver numbers a result's columns by their position.
#[verifier::external_body]
fn native_columns(row: &MySqlRow) -> (r: Vec<NativeColumn>)
    ensures
        r@.len() == row_columns(*row).len(),
        forall|i: int| 0 <= i < r@.len() ==> {
            &&& (#[trigger] r@[i]).name@ == row_columns(*row)[i].0
            &&& r@[i].ordinal == row_columns(*row)[i].1
            &&& r@[i].native_type@ == row_columns(*row)[i].2
            &&& r@[i].ordinal == i
        },
{
    row.columns().iter().map(|c| NativeColumn {
        name: c.name().to_string(),
        ordinal: c.ordinal(),
        native_type: c.type_info().name().to_string(),
    }).collect()
}

/// Relies on `Row::try_get_raw` and `ValueRef::is_null`: whether the cell at
/// `index` is SQL NULL, or the message of why it could not be reached.
#[verifier::external_body]
fn cell_is_null(row: &MySqlRow, index: usize) -> (r: Result<bool, String>)
    ensures
        match r {
            Ok(b) => cell_access(*row, index) == Ok::<bool, Seq<char>>(b),
            Err(e) => cell_access(*row, index) == Err::<bool, Seq<char>>(e@),
        },
{
    row.try_get_raw(index).map(|v| v.is_null()).map_err(|e| e.to_string())
}

/// Relies on `Row::try_get::<String, usize>`.
#[verifier::external_body]
fn read_text(row: &MySqlRow, index: usize) -> (r: Result<String, sqlx::Error>)
    ensures
        match r {
            Ok(s) => typed_read(*row, index, SGDBColumnType::Text) == CellView::Value(ValueView::Text(s@)),
            Err(_) => typed_read(*row, index, SGDBColumnType::Text) == CellView::Mismatch,
        },
{
    row.try_get::<String, usize>(index)
}

/// Relies on `Row::try_get::<bool, usize>`.
#[verifier::external_body]
fn read_bool(row: &MySqlRow, index: usize) -> (r: Result<bool, sqlx::Error>)
    ensures
        match r {
            Ok(b) => typed_read(*row, index, SGDBColumnType::Boolean) == CellView::Value(ValueView::Boolean(b)),
            Err(_) => typed_read(*row, index, SGDBColumnType::Boolean) == CellView::Mismatch,
        },
{
    row.try_get::<bool, usize>(index)
}

/// Relies on `Row::try_get::<i64, usize>`.
#[verifier::external_body]
fn read_i64(row: &MySqlRow, index: usize) -> (r: Result<i64, sqlx::Error>)
    ensures
        match r {
            Ok(v) => typed_read(*row, index, SGDBColumnType::Integer) == CellView::Value(ValueView::Integer(v)),
            Err(_) => typed_read(*row, index, SGDBColumnType::Integer) == CellView::Mismatch,
        },
{
    row.try_get::<i64, usize>(index)
}

/// Relies on `Row::try_get::<u64, usize>`.
#[verifier::external_body]
fn read_u64(row: &MySqlRow, index: usize) -> (r: Result<u64, sqlx::Error>)
    ensures
        match r {
            Ok(v) => typed_read(*row, index, SGDBColumnType::UInteger) == CellView::Value(ValueView::UInteger(v)),
            Err(_) => typed_read(*row, index, SGDBColumnType::UInteger) == CellView::Mismatch,
        },
{
    row.try_get::<u64, usize>(index)
}

/// Relies on `Row::try_get::<BigDecimal, usize>`, kept as the decimal's
/// exact text.
#[verifier::external_body]
fn read_decimal(row: &MySqlRow, index: usize) -> (r: Result<String, sqlx::Error>)
    ensures
        match r {
            Ok(s) => typed_read(*row, index, SGDBColumnType::Decimal) == CellView::Value(ValueView::Decimal(s@)),
            Err(_) => typed_read(*row, index, SGDBColumnType::Decimal) == CellView::Mismatch,
        },
{
    row.try_get::<sqlx::types::BigDecimal, usize>(index).map(|d| d.to_string())
}

/// Relies on `Row::try_get::<DateTime<Utc>, usize>`, kept as whole seconds
/// since the epoch and the nanoseconds past them.
#[verifier::external_body]
fn read_datetime(row: &MySqlRow, index: usize) -> (r: Result<(i64, u32), sqlx::Error>)
    ensures
        match r {
            Ok(t) => typed_read(*row, index, SGDBColumnType::DateTime) == CellView::Value(ValueView::DateTime(t.0, t.1)),
            Err(_) => typed_read(*row, index, SGDBColumnType::DateTime) == CellView::Mismatch,
        },
{
    row.try_get::<chrono::DateTime<chrono::Utc>, usize>(index)
        .map(|t| (t.timestamp(), t.timestamp_subsec_nanos()))
}

/// Relies on `Row::try_get::<Vec<u8>, usize>`.
#[verifier::external_body]
fn read_binary(row: &MySqlRow, index: usize) -> (r: Result<Vec<u8>, sqlx::Error>)
    ensures
        match r {
            Ok(b) => typed_read(*row, index, SGDBColumnType::Binary) == CellView::Value(ValueView::Binary(b@)),
            Err(_) => typed_read(*row, index, SGDBColumnType::Binary) == CellView::Mismatch,
        },
{
    row.try_get::<Vec<u8>, usize>(index)
}

/// Relies on the `Display` of `sqlx::Error`: its message.
#[verifier::external_body]
fn error_text(e: &sqlx::Error) -> String {
    e.to_string()
}

/// What the cell at `index` reads as, for a column of type `ty`: the failure
/// to reach it, NULL, a mismatch for a column of unknown type, or the typed
/// read.
pub open spec fn cell_view(row: MySqlRow, index: usize, ty: SGDBColumnType) -> CellView {
    match cell_access(row, index) {
        Err(e) => CellView::Missing(e),
        Ok(true) => CellView::Null,
        Ok(false) => if ty == SGDBColumnType::Unknown {
            CellView::Mismatch
        } else {
            typed_read(row, index, ty)
        },
    }
}

/// A non-NULL double cell is read by the caller's reader, whose result this
/// library cannot name.
pub open spec fn read_by_caller(row: MySqlRow, index: usize, ty: SGDBColumnType) -> bool {
    ty == SGDBColumnType::Double && cell_access(row, index) == Ok::<bool, Seq<char>>(false)
}

/// `c` is what reading the cell gives: exactly `cell_view`, except that a
/// non-NULL double reads as a double or as a mismatch.
pub open spec fn read_agrees(c: CellView, row: MySqlRow, index: usize, ty: SGDBColumnType) -> bool {
    if read_by_caller(row, index, ty) {
        c is Mismatch || c matches CellView::Value(ValueView::Double(_))
    } else {
        c == cell_view(row, index, ty)
    }
}

/// `v` is the decoded value of the cell: exactly the decoding of
/// `cell_view`, except that a non-NULL double decodes to a double or to the
/// invalid-type error.
pub open spec fn value_agrees(v: ValueView, row: MySqlRow, index: usize, ty: SGDBColumnType) -> bool {
    if read_by_caller(row, index, ty) {
        v == ValueView::Unknown(invalid_type_error()) || v is Double
    } else {
        v == decoded(ty, cell_view(row, index, ty))
    }
}

proof fn lemma_decoded_read_agrees(c: CellView, row: MySqlRow, index: usize, ty: SGDBColumnType)
    requires
        read_agrees(c, row, index, ty),
    ensures
        value_agrees(decoded(ty, c), row, index, ty),
{
}

/// Reads a non-NULL cell as the given column type. A column of unknown type
/// has no decoding to try and reads as a mismatch.
fn read_as<F: Fn(&MySqlRow, usize) -> Result<u64, String>>(
    ty: SGDBColumnType,
    row: &MySqlRow,
    index: usize,
    read_double: &F,
) -> (r: CellRead)
    requires
        forall|rw: &MySqlRow, i: usize| read_double.requires((rw, i)),
    ensures
        ty == SGDBColumnType::Double ==> (r is Mismatch || r matches CellRead::Value(SGDBRowValue::Double(_))),
        ty != SGDBColumnType::Double ==> r@ == (if ty == SGDBColumnType::Unknown {
            CellView::Mismatch
        } else {
            typed_read(*row, index, ty)
        }),
{
    match ty {
        SGDBColumnType::Text => match read_text(row, index) {
            Ok(s) => CellRead::Value(SGDBRowValue::Text(s)),
            Err(_) => CellRead::Mismatch,
        },
        SGDBColumnType::Boolean => match read_bool(row, index) {
            Ok(b) => CellRead::Value(SGDBRowValue::Boolean(b)),
            Err(_) => CellRead::Mismatch,
        },
        SGDBColumnType::Integer => match read_i64(row, index) {
            Ok(i) => CellRead::Value(SGDBRowValue::Integer(i)),
            Err(_) => CellRead::Mismatch,
        },
        SGDBColumnType::UInteger => match read_u64(row, index) {
            Ok(u) => CellRead::Value(SGDBRowValue::UInteger(u)),
            Err(_) => CellRead::Mismatch,
        },
        SGDBColumnType::Double => match read_double(row, index) {
            Ok(bits) => CellRead::Value(SGDBRowValue::Double(bits)),
            Err(_) => CellRead::Mismatch,
        },
        SGDBColumnType::Decimal => match read_decimal(row, index) {
            Ok(d) => CellRead::Value(SGDBRowValue::Decimal(d)),
            Err(_) => CellRead::Mismatch,
        },
        SGDBColumnType::DateTime => match read_datetime(row, index) {
            Ok((seconds, nanos)) => CellRead::Value(SGDBRowValue::DateTime { seconds, nanos }),
            Err(_) => CellRead::Mismatch,
        },
        SGDBColumnType::Binary => match read_binary(row, index) {
            Ok(b) => CellRead::Value(SGDBRowValue::Binary(b)),
            Err(_) => CellRead::Mismatch,
        },
        SGDBColumnType::Unknown => CellRead::Mismatch,
    }
}

/// Reads the cell of `col` in `row`: the failure to reach it, NULL, or the
/// value read as the column's type (a mismatch when the native type does not
/// allow it). Double cells are read by `read_double`, which yields the
/// double's bit pattern.
pub fn read_cell<F: Fn(&MySqlRow, usize) -> Result<u64, String>>(
    col: &SGDBColumn,
    row: &MySqlRow,
    read_double: &F,
) -> (r: CellRead)
    requires
        forall|rw: &MySqlRow, i: usize| read_double.requires((rw, i)),
    ensures
        read_agrees(r@, *row, col.ordinal, col.column_type),
{
    match cell_is_null(row, col.ordinal) {
        Err(e) => CellRead::Missing(e),
        Ok(true) => CellRead::Null,
        Ok(false) => read_as(col.column_type, row, col.ordinal, read_double),
    }
}

/// Decodes the cell of `col` in `row`: `Null` for SQL NULL whatever the
/// column's type, the typed value when the read succeeds, and `Unknown` with
/// the matching message otherwise.
pub fn map_column_value<F: Fn(&MySqlRow, usize) -> Result<u64, String>>(
    col: &SGDBColumn,
    row: &MySqlRow,
    read_double: &F,
) -> (r: SGDBRowValue)
    requires
        forall|rw: &MySqlRow, i: usize| read_double.requires((rw, i)),
    ensures
        value_agrees(r@, *row, col.ordinal, col.column_type),
        value_fits(col.column_type, r@),
        cell_access(*row, col.ordinal) == Ok::<bool, Seq<char>>(true) ==> r is Null,
{
    let read = read_cell(col, row, read_double);
    proof {
        lemma_decoded_fits(col.column_type, read@);
        lemma_decoded_read_agrees(read@, *row, col.ordinal, col.column_type);
    }
    decode_cell(col.column_type, read)
}

/// `r` is the result of a query that returned `rows`: the columns are those
/// the driver reports for the first row, in order, each mapped to its column
/// type; and every cell of every row is decoded into its column.
pub open spec fn fetched_from(r: SGDBFetchResult, rows: Seq<MySqlRow>) -> bool {
    &&& r.well_formed()
    &&& r.num_rows == rows.len()
    &&& r.entries().len() == (if rows.len() > 0 { row_columns(rows[0]).len() } else { 0 })
    &&& forall|j: int| 0 <= j < r.entries().len() ==> {
        &&& (#[trigger] r.entries()[j]).0.name@ == row_columns(rows[0])[j].0
        &&& r.entries()[j].0.ordinal == j
        &&& r.entries()[j].0.column_type == column_type_of(row_columns(rows[0])[j].2)
    }
    &&& forall|j: int, i: int| 0 <= j < r.entries().len() && 0 <= i < r.num_rows ==>
        value_agrees((#[trigger] r.entries()[j].1[i])@, rows[i], j as usize, r.entries()[j].0.column_type)
}

/// Builds the result of a query from the rows it returned. The columns are
/// those of the first row, in its order; every row contributes one value to
/// every column, whatever its cells hold.
pub fn fetch_result_from_rows<F: Fn(&MySqlRow, usize) -> Result<u64, String>>(
    rows: &Vec<MySqlRow>,
    read_double: &F,
) -> (r: SGDBFetchResult)
    requires
        forall|rw: &MySqlRow, i: usize| read_double.requires((rw, i)),
    ensures
        fetched_from(r, rows@),
        forall|j: int, i: int| 0 <= j < r.entries().len() && 0 <= i < r.num_rows ==>
            value_fits(r.entries()[j].0.column_type, (#[trigger] r.entries()[j].1[i])@),
{
    let columns = if rows.len() > 0 {
        map_columns(&native_columns(&rows[0]))
    } else {
        Vec::new()
    };
    assert(columns@.len() == (if rows@.len() > 0 { row_columns(rows@[0]).len() } else { 0 }));
    assert(forall|j: int| 0 <= j < columns@.len() ==> {
        &&& (#[trigger] columns@[j]).name@ == row_columns(rows@[0])[j].0
        &&& columns@[j].ordinal == j
        &&& columns@[j].column_type == column_type_of(row_columns(rows@[0])[j].2)
    });
    assert(distinct_columns(columns@)) by {
        assert forall|a: int, b: int| 0 <= a < b < columns@.len() implies
            !same_column(#[trigger] columns@[a], #[trigger] columns@[b]) by {
            assert(columns@[a].ordinal == a && columns@[b].ordinal == b);
        }
    }
    let mut cells: Vec<Vec<CellRead>> = Vec::new();
    let mut i: usize = 0;
    while i < rows.len()
        invariant
            forall|rw: &MySqlRow, x: usize| read_double.requires((rw, x)),
            i <= rows@.len(),
            cells@.len() == i,
            forall|j: int| 0 <= j < columns@.len() ==> (#[trigger] columns@[j]).ordinal == j,
            forall|k: int| 0 <= k < i ==> (#[trigger] cells@[k])@.len() == columns@.len(),
            forall|k: int, j: int| 0 <= k < i && 0 <= j < columns@.len() ==>
                read_agrees(#[trigger] cells@[k]@[j]@, rows@[k], j as usize, columns@[j].column_type),
        decreases rows@.len() - i,
    {
        let row = &rows[i];
        let mut reads: Vec<CellRead> = Vec::new();
        let mut j: usize = 0;
        while j < columns.len()
            invariant
                forall|rw: &MySqlRow, x: usize| read_double.requires((rw, x)),
                forall|j2: int| 0 <= j2 < columns@.len() ==> (#[trigger] columns@[j2]).ordinal == j2,
                *row == rows@[i as int],
                j <= columns@.len(),
                reads@.len() == j,
                forall|j2: int| 0 <= j2 < j ==>
                    read_agrees((#[trigger] reads@[j2])@, rows@[i as int], j2 as usize, columns@[j2].column_type),
            decreases columns@.len() - j,
        {
            reads.push(read_cell(&columns[j], row, read_double));
            j = j + 1;
        }
        cells.push(reads);
        i = i + 1;
    }
    let ghost cols = columns@;
    let ghost all = cells@;
    let r = SGDBFetchResult::from_cells(columns, cells);
    proof {
        assert forall|j: int, k: int| 0 <= j < r.entries().len() && 0 <= k < r.num_rows implies
            value_fits(r.entries()[j].0.column_type, (#[trigger] r.entries()[j].1[k])@)
            && value_agrees(r.entries()[j].1[k]@, rows@[k], j as usize, r.entries()[j].0.column_type) by {
            assert(r.entries()[j].0 == r.columns()[j]);
            assert(r.entries()[j].1[k]@ == decoded(cols[j].column_type, all[k]@[j]@));
            lemma_decoded_fits(cols[j].column_type, all[k]@[j]@);
            lemma_decoded_read_agrees(all[k]@[j]@, rows@[k], j as usize, cols[j].column_type);
        }
        assert forall|j: int| 0 <= j < r.entries().len() implies {
            &&& (#[trigger] r.entries()[j]).0.name@ == row_columns(rows@[0])[j].0
            &&& r.entries()[j].0.ordinal == j
            &&& r.entries()[j].0.column_type == column_type_of(row_columns(rows@[0])[j].2)
        } by {
            assert(r.entries()[j].0 == r.columns()[j]);
        }
    }
    r
}

/// Fetching is repeatable at the driver's level: two queries whose rows are
/// equally many, and whose first rows report the same column metadata, give
/// results with the same columns in the same order and the same row count.
pub proof fn lemma_fetch_rows_repeatable(a: SGDBFetchResult, b: SGDBFetchResult, rows_a: Seq<MySqlRow>, rows_b: Seq<MySqlRow>)
    requires
        fetched_from(a, rows_a),
        fetched_from(b, rows_b),
        rows_a.len() == rows_b.len(),
        rows_a.len() > 0 ==> row_columns(rows_a[0]) == row_columns(rows_b[0]),
    ensures
        a.num_rows == b.num_rows,
        a.entries().len() == b.entries().len(),
        forall|j: int| 0 <= j < a.entries().len() ==> same_column(#[trigger] a.entries()[j].0, b.entries()[j].0),
{
    assert forall|j: int| 0 <= j < a.entries().len() implies same_column(#[trigger] a.entries()[j].0, b.entries()[j].0) by {
        assert(a.entries()[j].0.name@ == row_columns(rows_a[0])[j].0);
        assert(b.entries()[j].0.name@ == row_columns(rows_b[0])[j].0);
    }
}

/// The named cell of a catalog row read as text, `None` when the read fails.
pub uninterp spec fn catalog_text(row: MySqlRow, column: Seq<char>) -> Option<Seq<char>>;

/// The named cell of a catalog row read as optional text (`Some(None)` for
/// NULL), `None` when the read fails.
pub uninterp spec fn catalog_opt_text(row: MySqlRow, column: Seq<char>) -> Option<Option<Seq<char>>>;

/// The named cell of a catalog row read as an optional unsigned integer
/// (`Some(None)` for NULL), `None` when the read fails.
pub uninterp spec fn catalog_opt_u64(row: MySqlRow, column: Seq<char>) -> Option<Option<u64>>;

/// Relies on `Row::try_get::<String, &str>`: the named cell as text.
#[verifier::external_body]
fn read_named_text(row: &MySqlRow, name: &str) -> (r: Result<String, sqlx::Error>)
    ensures
        match r {
            Ok(s) => catalog_text(*row, name@) == Some(s@),
            Err(_) => catalog_text(*row, name@) is None,
        },
{
    row.try_get::<String, &str>(name)
}

/// Relies on `Row::try_get::<Option<String>, &str>`: the named cell as text,
/// `None` for NULL.
#[verifier::external_body]
fn read_named_optional_text(row: &MySqlRow, name: &str) -> (r: Result<Option<String>, sqlx::Error>)
    ensures
        match r {
            Ok(Some(s)) => catalog_opt_text(*row, name@) == Some(Some(s@)),
            Ok(None) => catalog_opt_text(*row, name@) == Some(None::<Seq<char>>),
            Err(_) => catalog_opt_text(*row, name@) is None,
        },
{
    row.try_get::<Option<String>, &str>(name)
}

/// Relies on `Row::try_get::<Option<u64>, &str>`: the named cell as an
/// unsigned integer, `None` for NULL.
#[verifier::external_body]
fn read_named_optional_u64(row: &MySqlRow, name: &str) -> (r: Result<Option<u64>, sqlx::Error>)
    ensures
        match r {
            Ok(n) => catalog_opt_u64(*row, name@) == Some(n),
            Err(_) => catalog_opt_u64(*row, name@) is None,
        },
{
    row.try_get::<Option<u64>, &str>(name)
}

/// Every cell a table descriptor needs can be read from the catalog row.
pub open spec fn catalog_row_readable(row: MySqlRow) -> bool {
    &&& catalog_text(row, "table_name"@) is Some
    &&& catalog_text(row, "table_type"@) is Some
    &&& catalog_opt_text(row, "engine"@) is Some
    &&& catalog_opt_u64(row, "table_rows"@) is Some
}

/// `t` describes the catalog row in `schema`: name and type as read, the
/// engine as read or empty for NULL, the row count as read or zero for NULL,
/// and the path `schema.table`.
pub open spec fn describes_row(t: SGDBTable, schema: Seq<char>, row: MySqlRow) -> bool {
    &&& t.schema@ == schema
    &&& catalog_text(row, "table_name"@) == Some(t.table_name@)
    &&& catalog_text(row, "table_type"@) == Some(t.table_type@)
    &&& t.full_path@ == qualified_path(schema, t.table_name@)
    &&& t.engine@ == (match catalog_opt_text(row, "engine"@) {
        Some(Some(e)) => e,
        _ => Seq::<char>::empty(),
    })
    &&& t.table_rows == (match catalog_opt_u64(row, "table_rows"@) {
        Some(Some(n)) => n,
        _ => 0u64,
    })
}

/// Builds one table descriptor from a row of the catalog query. A NULL
/// engine reads as empty text and a NULL row count as zero; a cell that
/// cannot be read fails the listing with a query error.
pub fn table_from_row(schema: &str, row: &MySqlRow) -> (r: Result<SGDBTable, DbError>)
    ensures
        r is Ok <==> catalog_row_readable(*row),
        r matches Ok(t) ==> describes_row(t, schema@, *row),
        r matches Err(e) ==> e.kind == DbErrorKind::Query,
{
    let table_name = match read_named_text(row, "table_name") {
        Ok(s) => s,
        Err(e) => return Err(DbError::new(DbErrorKind::Query, error_text(&e))),
    };
    let table_type = match read_named_text(row, "table_type") {
        Ok(s) => s,
        Err(e) => return Err(DbError::new(DbErrorKind::Query, error_text(&e))),
    };
    let engine = match read_named_optional_text(row, "engine") {
        Ok(Some(s)) => s,
        Ok(None) => String::new(),
        Err(e) => return Err(DbError::new(DbErrorKind::Query, error_text(&e))),
    };
    let table_rows = match read_named_optional_u64(row, "table_rows") {
        Ok(Some(n)) => n,
        Ok(None) => 0,
        Err(e) => return Err(DbError::new(DbErrorKind::Query, error_text(&e))),
    };
    Ok(SGDBTable::new(schema.to_string(), table_name, table_type, engine, table_rows))
}

/// Builds the listing of a schema from the rows of the catalog query: one
/// descriptor per row, in row order; the first row that cannot be read fails
/// the whole listing with a query error.
pub fn tables_from_rows(schema: &str, rows: &Vec<MySqlRow>) -> (r: Result<Vec<SGDBTable>, DbError>)
    ensures
        r is Ok <==> forall|i: int| 0 <= i < rows@.len() ==> catalog_row_readable(#[trigger] rows@[i]),
        r matches Ok(v) ==> v@.len() == rows@.len()
            && forall|i: int| 0 <= i < rows@.len() ==> describes_row(#[trigger] v@[i], schema@, rows@[i]),
        r matches Err(e) ==> e.kind == DbErrorKind::Query,
{
    let mut tables: Vec<SGDBTable> = Vec::new();
    let mut i: usize = 0;
    while i < rows.len()
        invariant
            i <= rows@.len(),
            tables@.len() == i,
            forall|k: int| 0 <= k < i ==> catalog_row_readable(#[trigger] rows@[k]),
            forall|k: int| 0 <= k < i ==> describes_row(#[trigger] tables@[k], schema@, rows@[k]),
        decreases rows@.len() - i,
    {
        match table_from_row(schema, &rows[i]) {
            Ok(t) => tables.push(t),
            Err(e) => return Err(e),
        }
        i = i + 1;
    }
    Ok(tables)
}

} // verus!
