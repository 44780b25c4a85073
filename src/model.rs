//! The value and column model shared by every engine adapter.

use vstd::prelude::*;
use vstd::string::StringExecFns;

verus! {

/// The closed set of column types a result column can have.
#[derive(PartialEq, Eq, Structural, Clone, Copy, Debug, Hash)]
pub enum SGDBColumnType {
    Text,
    Boolean,
    Integer,
    UInteger,
    Double,
    Decimal,
    DateTime,
    Binary,
    Unknown,
}

/// One result column: its name, its zero-based position and its type.
#[derive(Clone, Debug, Eq, Hash)]
pub struct SGDBColumn {
    pub name: String,
    pub ordinal: usize,
    pub column_type: SGDBColumnType,
}

impl PartialEq for SGDBColumn {
    fn eq(&self, other: &SGDBColumn) -> (r: bool) {
        self.name == other.name && self.ordinal == other.ordinal && self.column_type == other.column_type
    }
}

impl vstd::std_specs::cmp::PartialEqSpecImpl for SGDBColumn {
    open spec fn obeys_eq_spec() -> bool {
        true
    }

    open spec fn eq_spec(&self, other: &SGDBColumn) -> bool {
        self.name@ == other.name@ && self.ordinal == other.ordinal && self.column_type == other.column_type
    }
}

impl SGDBColumn {
    pub fn new(name: String, ordinal: usize, column_type: SGDBColumnType) -> (r: SGDBColumn)
        ensures
            r.name@ == name@,
            r.ordinal == ordinal,
            r.column_type == column_type,
    {
        SGDBColumn { name, ordinal, column_type }
    }

    pub fn name(&self) -> (r: &str)
        ensures
            r@ == self.name@,
    {
        self.name.as_str()
    }

    pub fn ordinal(&self) -> (r: usize)
        ensures
            r == self.ordinal,
    {
        self.ordinal
    }

    pub fn column_type(&self) -> (r: SGDBColumnType)
        ensures
            r == self.column_type,
    {
        self.column_type
    }
}


/// A decoded cell. Floating-point cells carry the IEEE-754 bit pattern of the
/// double, decimals their exact decimal text, and date-times a UTC instant.
#[derive(Clone, Debug, PartialEq)]
pub enum SGDBRowValue {
    Text(String),
    Boolean(bool),
    Integer(i64),
    UInteger(u64),
    Double(u64),
    Decimal(String),
    DateTime { seconds: i64, nanos: u32 },
    Binary(Vec<u8>),
    Null,
    Unknown { error: String },
}

/// The mathematical content of a cell.
pub enum ValueView {
    Text(Seq<char>),
    Boolean(bool),
    Integer(i64),
    UInteger(u64),
    Double(u64),
    Decimal(Seq<char>),
    DateTime(i64, u32),
    Binary(Seq<u8>),
    Null,
    Unknown(Seq<char>),
}

impl View for SGDBRowValue {
    type V = ValueView;

    open spec fn view(&self) -> ValueView {
        match self {
            SGDBRowValue::Text(s) => ValueView::Text(s@),
            SGDBRowValue::Boolean(b) => ValueView::Boolean(*b),
            SGDBRowValue::Integer(i) => ValueView::Integer(*i),
            SGDBRowValue::UInteger(u) => ValueView::UInteger(*u),
            SGDBRowValue::Double(bits) => ValueView::Double(*bits),
            SGDBRowValue::Decimal(s) => ValueView::Decimal(s@),
            SGDBRowValue::DateTime { seconds, nanos } => ValueView::DateTime(*seconds, *nanos),
            SGDBRowValue::Binary(b) => ValueView::Binary(b@),
            SGDBRowValue::Null => ValueView::Null,
            SGDBRowValue::Unknown { error } => ValueView::Unknown(error@),
        }
    }
}

/// The column type whose decoding yields a value of this shape, if any.
pub open spec fn type_of_value(v: ValueView) -> Option<SGDBColumnType> {
    match v {
        ValueView::Text(_) => Some(SGDBColumnType::Text),
        ValueView::Boolean(_) => Some(SGDBColumnType::Boolean),
        ValueView::Integer(_) => Some(SGDBColumnType::Integer),
        ValueView::UInteger(_) => Some(SGDBColumnType::UInteger),
        ValueView::Double(_) => Some(SGDBColumnType::Double),
        ValueView::Decimal(_) => Some(SGDBColumnType::Decimal),
        ValueView::DateTime(_, _) => Some(SGDBColumnType::DateTime),
        ValueView::Binary(_) => Some(SGDBColumnType::Binary),
        ValueView::Null => None,
        ValueView::Unknown(_) => None,
    }
}

/// A cell value is admissible in a column of type `ty` when it is `Null`, a
/// contained decoding failure, or a value of exactly that type.
pub open spec fn value_fits(ty: SGDBColumnType, v: ValueView) -> bool {
    match v {
        ValueView::Null => true,
        ValueView::Unknown(_) => true,
        _ => type_of_value(v) == Some(ty),
    }
}

/// The database engines a connection can name.
#[derive(PartialEq, Eq, Structural, Clone, Copy, Debug, Default)]
pub enum SGDBKind {
    #[default]
    Mysql,
    Postgres,
    Sqlite,
}

/// The kinds of call-level failure.
#[derive(PartialEq, Eq, Structural, Clone, Copy, Debug)]
pub enum DbErrorKind {
    /// A connection could not be established.
    Connection,
    /// A query or catalog call failed at the engine level.
    Query,
    /// No adapter exists for the requested engine.
    UnsupportedEngine,
}

/// A call-level failure with a message that can be shown as it is.
#[derive(Clone, Debug, PartialEq)]
pub struct DbError {
    pub kind: DbErrorKind,
    pub message: String,
}

impl DbError {
    pub fn new(kind: DbErrorKind, message: String) -> (r: DbError)
        ensures
            r.kind == kind,
            r.message@ == message@,
    {
        DbError { kind, message }
    }

    pub fn message(&self) -> (r: &str)
        ensures
            r@ == self.message@,
    {
        self.message.as_str()
    }
}

/// A connection descriptor: engine kind, address and target schema.
#[derive(Clone, Debug)]
pub struct Connection {
    pub kind: SGDBKind,
    pub uri: String,
    pub schema: String,
}

impl Connection {
    pub fn new(kind: SGDBKind, uri: String, schema: String) -> (r: Connection)
        ensures
            r.kind == kind,
            r.uri@ == uri@,
            r.schema@ == schema@,
    {
        Connection { kind, uri, schema }
    }

    pub fn schema(&self) -> (r: &str)
        ensures
            r@ == self.schema@,
    {
        self.schema.as_str()
    }

    /// Whether an adapter exists for this connection's engine: only MySQL has
    /// one; the others are refused with an `UnsupportedEngine` error.
    pub fn engine_supported(&self) -> (r: Result<(), DbError>)
        ensures
            r is Ok <==> self.kind == SGDBKind::Mysql,
            r matches Err(e) ==> e.kind == DbErrorKind::UnsupportedEngine && e.message@.len() > 0,
    {
        proof {
            reveal_strlit("Postgres is not yet supported");
            reveal_strlit("SQLite is not yet supported");
        }
        match self.kind {
            SGDBKind::Mysql => Ok(()),
            SGDBKind::Postgres => Err(
                DbError::new(DbErrorKind::UnsupportedEngine, String::from_str("Postgres is not yet supported")),
            ),
            SGDBKind::Sqlite => Err(
                DbError::new(DbErrorKind::UnsupportedEngine, String::from_str("SQLite is not yet supported")),
            ),
        }
    }
}

/// One row of schema catalog metadata.
#[derive(Clone, Debug, PartialEq)]
pub struct SGDBTable {
    pub schema: String,
    pub table_name: String,
    pub full_path: String,
    pub table_type: String,
    pub engine: String,
    pub table_rows: u64,
}

/// The fully qualified path `schema.table`.
pub open spec fn qualified_path(schema: Seq<char>, table: Seq<char>) -> Seq<char> {
    schema + seq!['.'] + table
}

impl SGDBTable {
    pub fn new(schema: String, table_name: String, table_type: String, engine: String, table_rows: u64) -> (r: SGDBTable)
        ensures
            r.schema@ == schema@,
            r.table_name@ == table_name@,
            r.full_path@ == qualified_path(schema@, table_name@),
            r.table_type@ == table_type@,
            r.engine@ == engine@,
            r.table_rows == table_rows,
    {
        let mut full_path = schema.clone();
        full_path.append(".");
        full_path.append(table_name.as_str());
        proof {
            reveal_strlit(".");
        }
        SGDBTable { schema, table_name, full_path, table_type, engine, table_rows }
    }
}

} // verus!
