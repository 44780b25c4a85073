//! How result columns are presented: meta columns and the meta queries that
//! use them.

use vstd::prelude::*;
use vstd::string::StringExecFns;

use indexmap::IndexMap;

use crate::fetch::{into_column_pairs, SGDBFetchResult};
use crate::model::{SGDBColumn, SGDBColumnType, SGDBRowValue};

verus! {

/// Whether a meta query runs on its own or once per selected row.
#[derive(Clone, Debug, PartialEq)]
pub enum MetaQueryType {
    Global,
    Row { inject_columns: Vec<String> },
}

/// The format in which a piped command answers.
#[derive(Clone, Copy, Debug, PartialEq, Eq, Structural)]
pub enum CommandPipeMetaQueryResponseType {
    JSON,
    CSV,
}

/// What a meta query does with its result.
#[derive(Clone, Debug, PartialEq)]
pub enum MetaAction {
    DoNothing,
    ShowQuery { tab: u8, meta_columns: Vec<MetaColumn> },
    Command { command: String },
    CommandPipeMetaQuery { meta_query_id: String, command: String, response_type: CommandPipeMetaQueryResponseType },
    CallMetaQuery { meta_query_id: String },
}

/// The type of a meta query parameter.
#[derive(Clone, Copy, Debug, PartialEq, Eq, Structural)]
pub enum MetaParamType {
    Text,
    Boolean,
    Number,
    Decimal,
}

/// Where an image cell's picture comes from.
#[derive(Clone, Copy, Debug, PartialEq, Eq, Structural, Hash)]
pub enum ImageType {
    Url,
    File,
}

/// How numbers are shown.
#[derive(Clone, Copy, Debug, PartialEq, Eq, Structural, Hash)]
pub enum MetaColNumber {
    Simple,
    Money,
}

/// How a column's cells are shown.
#[derive(Clone, Debug, Eq, Hash)]
pub enum MetaColumnType {
    Text { color: Option<(u8, u8, u8)> },
    CheckBox,
    Number { variant: MetaColNumber },
    DateTime { format: String },
    Image(ImageType),
    Binary,
    Unknown,
}

/// A result column together with the way it is shown.
#[derive(Clone, Debug, Eq, Hash)]
pub struct MetaColumn {
    pub name: String,
    pub raw_name: String,
    pub column_type: MetaColumnType,
}

pub open spec fn same_meta_type(a: MetaColumnType, b: MetaColumnType) -> bool {
    match (a, b) {
        (MetaColumnType::Text { color: x }, MetaColumnType::Text { color: y }) => x == y,
        (MetaColumnType::CheckBox, MetaColumnType::CheckBox) => true,
        (MetaColumnType::Number { variant: x }, MetaColumnType::Number { variant: y }) => x == y,
        (MetaColumnType::DateTime { format: x }, MetaColumnType::DateTime { format: y }) => x@ == y@,
        (MetaColumnType::Image(x), MetaColumnType::Image(y)) => x == y,
        (MetaColumnType::Binary, MetaColumnType::Binary) => true,
        (MetaColumnType::Unknown, MetaColumnType::Unknown) => true,
        _ => false,
    }
}

impl PartialEq for MetaColumnType {
    fn eq(&self, other: &MetaColumnType) -> bool {
        match (self, other) {
            (MetaColumnType::Text { color: x }, MetaColumnType::Text { color: y }) => match (x, y) {
                (Some(p), Some(q)) => p.0 == q.0 && p.1 == q.1 && p.2 == q.2,
                (None, None) => true,
                _ => false,
            },
            (MetaColumnType::CheckBox, MetaColumnType::CheckBox) => true,
            (MetaColumnType::Number { variant: x }, MetaColumnType::Number { variant: y }) => *x == *y,
            (MetaColumnType::DateTime { format: x }, MetaColumnType::DateTime { format: y }) => *x == *y,
            (MetaColumnType::Image(x), MetaColumnType::Image(y)) => *x == *y,
            (MetaColumnType::Binary, MetaColumnType::Binary) => true,
            (MetaColumnType::Unknown, MetaColumnType::Unknown) => true,
            _ => false,
        }
    }
}

impl vstd::std_specs::cmp::PartialEqSpecImpl for MetaColumnType {
    open spec fn obeys_eq_spec() -> bool {
        true
    }

    open spec fn eq_spec(&self, other: &MetaColumnType) -> bool {
        same_meta_type(*self, *other)
    }
}

/// Two meta columns are the same map key when all their fields agree.
pub open spec fn same_meta_column(a: MetaColumn, b: MetaColumn) -> bool {
    a.name@ == b.name@ && a.raw_name@ == b.raw_name@ && same_meta_type(a.column_type, b.column_type)
}

impl PartialEq for MetaColumn {
    fn eq(&self, other: &MetaColumn) -> bool {
        self.name == other.name && self.raw_name == other.raw_name && self.column_type == other.column_type
    }
}

impl vstd::std_specs::cmp::PartialEqSpecImpl for MetaColumn {
    open spec fn obeys_eq_spec() -> bool {
        true
    }

    open spec fn eq_spec(&self, other: &MetaColumn) -> bool {
        same_meta_column(*self, *other)
    }
}

/// The format in which date-time cells are shown unless configured otherwise.
pub open spec fn default_datetime_format() -> Seq<char> {
    "%d/%m/%Y %H:%M:%S"@
}

/// `t` is the default presentation of a column of type `ct`: text without
/// colour, a check box, a plain number, a date-time in the default format,
/// raw binary, or unknown.
pub open spec fn is_default_meta_type(t: MetaColumnType, ct: SGDBColumnType) -> bool {
    match ct {
        SGDBColumnType::Text => t == MetaColumnType::Text { color: None },
        SGDBColumnType::Boolean => t == MetaColumnType::CheckBox,
        SGDBColumnType::Integer | SGDBColumnType::UInteger | SGDBColumnType::Double | SGDBColumnType::Decimal =>
            t == MetaColumnType::Number { variant: MetaColNumber::Simple },
        SGDBColumnType::DateTime => t matches MetaColumnType::DateTime { format } && format@ == default_datetime_format(),
        SGDBColumnType::Binary => t == MetaColumnType::Binary,
        SGDBColumnType::Unknown => t == MetaColumnType::Unknown,
    }
}

impl MetaColumn {
    /// The default meta column for a result column: shown under its own name,
    /// in the default presentation of its type.
    pub fn default_sgdb_column(raw_name: String, col_type: SGDBColumnType) -> (r: MetaColumn)
        ensures
            r.name@ == raw_name@,
            r.raw_name@ == raw_name@,
            is_default_meta_type(r.column_type, col_type),
    {
        let column_type = match col_type {
            SGDBColumnType::Text => MetaColumnType::Text { color: None },
            SGDBColumnType::Boolean => MetaColumnType::CheckBox,
            SGDBColumnType::Integer => MetaColumnType::Number { variant: MetaColNumber::Simple },
            SGDBColumnType::UInteger => MetaColumnType::Number { variant: MetaColNumber::Simple },
            SGDBColumnType::Double => MetaColumnType::Number { variant: MetaColNumber::Simple },
            SGDBColumnType::Decimal => MetaColumnType::Number { variant: MetaColNumber::Simple },
            SGDBColumnType::DateTime => MetaColumnType::DateTime { format: String::from_str("%d/%m/%Y %H:%M:%S") },
            SGDBColumnType::Binary => MetaColumnType::Binary,
            SGDBColumnType::Unknown => MetaColumnType::Unknown,
        };
        MetaColumn { name: raw_name.clone(), raw_name, column_type }
    }
}

/// What a presented result holds, in insertion order: each meta column with
/// its values.
pub uninterp spec fn meta_entries(m: IndexMap<MetaColumn, Vec<SGDBRowValue>>) -> Seq<(MetaColumn, Seq<SGDBRowValue>)>;

/// Relies on `IndexMap::new`: a map with no entries.
#[verifier::external_body]
fn empty_meta_map() -> (r: IndexMap<MetaColumn, Vec<SGDBRowValue>>)
    ensures
        meta_entries(r) == Seq::<(MetaColumn, Seq<SGDBRowValue>)>::empty(),
{
    IndexMap::new()
}

/// Relies on `IndexMap::insert`: a key equal to one already present keeps its
/// place and gets the new value; a new key goes last.
#[verifier::external_body]
fn insert_meta_column(m: &mut IndexMap<MetaColumn, Vec<SGDBRowValue>>, col: MetaColumn, values: Vec<SGDBRowValue>)
    ensures
        (forall|j: int| 0 <= j < meta_entries(*old(m)).len() ==> !same_meta_column(#[trigger] meta_entries(*old(m))[j].0, col))
            ==> meta_entries(*final(m)) == meta_entries(*old(m)).push((col, values@)),
        forall|j: int| 0 <= j < meta_entries(*old(m)).len() && same_meta_column(#[trigger] meta_entries(*old(m))[j].0, col)
            ==> meta_entries(*final(m)) == meta_entries(*old(m)).update(j, (meta_entries(*old(m))[j].0, values@)),
{
    m.insert(col, values);
}

/// A query result as a view presents it: each column under its meta column.
pub struct FetchResult {
    pub num_rows: usize,
    pub res: IndexMap<MetaColumn, Vec<SGDBRowValue>>,
}

/// The presentation class of a column type: types in one class get the same
/// default meta column type.
pub open spec fn presentation_class(t: SGDBColumnType) -> int {
    match t {
        SGDBColumnType::Text => 0,
        SGDBColumnType::Boolean => 1,
        SGDBColumnType::Integer | SGDBColumnType::UInteger | SGDBColumnType::Double | SGDBColumnType::Decimal => 2,
        SGDBColumnType::DateTime => 3,
        SGDBColumnType::Binary => 4,
        SGDBColumnType::Unknown => 5,
    }
}

/// No two columns would be presented under the same meta column.
pub open spec fn distinct_presentations(cols: Seq<SGDBColumn>) -> bool {
    forall|a: int, b: int| 0 <= a < b < cols.len() ==>
        !((#[trigger] cols[a]).name@ == (#[trigger] cols[b]).name@
            && presentation_class(cols[a].column_type) == presentation_class(cols[b].column_type))
}

/// `m` is the default meta column of `c`.
pub open spec fn is_default_meta_column(m: MetaColumn, c: SGDBColumn) -> bool {
    m.name@ == c.name@ && m.raw_name@ == c.name@ && is_default_meta_type(m.column_type, c.column_type)
}

proof fn lemma_default_meta_types_agree(x: MetaColumnType, y: MetaColumnType, a: SGDBColumnType, b: SGDBColumnType)
    requires
        is_default_meta_type(x, a),
        is_default_meta_type(y, b),
    ensures
        same_meta_type(x, y) <==> presentation_class(a) == presentation_class(b),
{
}

impl FetchResult {
    pub open spec fn entries(&self) -> Seq<(MetaColumn, Seq<SGDBRowValue>)> {
        meta_entries(self.res)
    }

    /// Every meta column holds exactly one value per row.
    pub open spec fn well_formed(&self) -> bool {
        forall|j: int| 0 <= j < self.entries().len() ==> (#[trigger] self.entries()[j]).1.len() == self.num_rows
    }

    /// This is the presentation of `result`: the same row count; one entry
    /// per column, in order, under the column's default meta column with its
    /// values unchanged, wherever no two columns would share a meta column.
    pub open spec fn presents(&self, result: SGDBFetchResult) -> bool {
        &&& self.num_rows == result.num_rows
        &&& self.entries().len() <= result.entries().len()
        &&& result.well_formed() ==> self.well_formed()
        &&& distinct_presentations(result.columns()) ==> {
            &&& self.entries().len() == result.entries().len()
            &&& forall|j: int| 0 <= j < self.entries().len() ==>
                is_default_meta_column(#[trigger] self.entries()[j].0, result.entries()[j].0)
                && self.entries()[j].1 == result.entries()[j].1
        }
    }

    /// Presents a query result: every column, in order, under its default
    /// meta column, with its values unchanged. Columns that would be shown
    /// under the same meta column share one entry, which holds the values of
    /// the last of them.
    pub fn from_sgdb(result: SGDBFetchResult) -> (r: FetchResult)
        ensures
            r.presents(result),
    {
        let ghost src = result.entries();
        let ghost input = result;
        let ghost n = result.num_rows;
        let ghost wf = result.well_formed();
        let ghost cols = result.columns();
        let ghost distinct = distinct_presentations(cols);
        assert(cols.len() == src.len());
        assert(forall|i: int| 0 <= i < src.len() ==> #[trigger] cols[i] == src[i].0);
        let num_rows = result.num_rows;
        let pairs = into_column_pairs(result.data);
        let total = pairs.len();
        let mut pending: Vec<(SGDBColumn, Vec<SGDBRowValue>)> = Vec::new();
        let mut pairs = pairs;
        // Reverse the pairs so that popping yields them in order.
        while pairs.len() > 0
            invariant
                pairs@.len() + pending@.len() == src.len(),
                forall|i: int| 0 <= i < pairs@.len() ==> (#[trigger] pairs@[i]).0 == src[i].0 && pairs@[i].1@ == src[i].1,
                forall|i: int| 0 <= i < pending@.len() ==>
                    (#[trigger] pending@[i]).0 == src[src.len() - 1 - i].0 && pending@[i].1@ == src[src.len() - 1 - i].1,
            decreases pairs@.len(),
        {
            let p = pairs.pop().unwrap();
            pending.push(p);
        }
        let mut res = empty_meta_map();
        let mut k: usize = 0;
        while pending.len() > 0
            invariant
                k + pending@.len() == src.len(),
                src.len() == total,
                cols.len() == src.len(),
                forall|i: int| 0 <= i < src.len() ==> #[trigger] cols[i] == src[i].0,
                forall|i: int| 0 <= i < pending@.len() ==>
                    (#[trigger] pending@[i]).0 == src[src.len() - 1 - i].0 && pending@[i].1@ == src[src.len() - 1 - i].1,
                meta_entries(res).len() <= k,
                wf ==> forall|j: int| 0 <= j < src.len() ==> (#[trigger] src[j]).1.len() == n,
                wf ==> forall|j: int| 0 <= j < meta_entries(res).len() ==> (#[trigger] meta_entries(res)[j]).1.len() == n,
                distinct == distinct_presentations(cols),
                distinct ==> meta_entries(res).len() == k,
                distinct ==> forall|j: int| 0 <= j < k ==>
                    is_default_meta_column(#[trigger] meta_entries(res)[j].0, src[j].0) && meta_entries(res)[j].1 == src[j].1,
            decreases pending@.len(),
        {
            let (col, values) = pending.pop().unwrap();
            let meta = MetaColumn::default_sgdb_column(col.name.clone(), col.column_type);
            let ghost before = meta_entries(res);
            proof {
                if distinct {
                    assert forall|j: int| 0 <= j < before.len() implies !same_meta_column(#[trigger] before[j].0, meta) by {
                        assert(cols[j] == src[j].0);
                        assert(cols[k as int] == col);
                        lemma_default_meta_types_agree(before[j].0.column_type, meta.column_type, src[j].0.column_type, col.column_type);
                    }
                }
            }
            insert_meta_column(&mut res, meta, values);
            k = k + 1;
        }
        let r = FetchResult { num_rows, res };
        assert(input.entries() == src);
        assert(input.columns() == cols);
        assert(r.entries() == meta_entries(res));
        assert(wf ==> r.well_formed());
        assert(distinct ==> r.entries().len() == src.len());
        assert(distinct ==> forall|j: int| 0 <= j < r.entries().len() ==>
            is_default_meta_column(#[trigger] r.entries()[j].0, input.entries()[j].0)
            && r.entries()[j].1 == input.entries()[j].1);
        assert(r.presents(input));
        r
    }
}

} // verus!
