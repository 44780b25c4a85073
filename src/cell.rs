//! Decoding one raw cell against its column's declared type.
//!
//! A decoding failure never escapes a cell: it becomes `Unknown { error }`.

use vstd::prelude::*;
use vstd::string::StringExecFns;

use crate::model::{type_of_value, SGDBColumnType, SGDBRowValue, ValueView};

verus! {

/// What reading one cell from the engine produced.
#[derive(Clone, Debug, PartialEq)]
pub enum CellRead {
    /// The cell is SQL NULL.
    Null,
    /// The cell decoded to this value.
    Value(SGDBRowValue),
    /// The cell's native type is incompatible with the requested decoding.
    Mismatch,
    /// The cell could not be reached at all; the text says why.
    Missing(String),
}

pub enum CellView {
    Null,
    Value(ValueView),
    Mismatch,
    Missing(Seq<char>),
}

impl View for CellRead {
    type V = CellView;

    open spec fn view(&self) -> CellView {
        match self {
            CellRead::Null => CellView::Null,
            CellRead::Value(v) => CellView::Value(v@),
            CellRead::Mismatch => CellView::Mismatch,
            CellRead::Missing(e) => CellView::Missing(e@),
        }
    }
}

pub open spec fn invalid_type_error() -> Seq<char> {
    "Invalid column type encountered"@
}

pub open spec fn unknown_type_error() -> Seq<char> {
    "Unknown column type"@
}

/// The value a cell decodes to in a column of type `ty`: NULL stays `Null`
/// whatever the type; a column of unknown type, an incompatible native type,
/// or a value of another type becomes `Unknown` with the matching message.
pub open spec fn decoded(ty: SGDBColumnType, read: CellView) -> ValueView {
    match read {
        CellView::Missing(e) => ValueView::Unknown(e),
        CellView::Null => ValueView::Null,
        CellView::Mismatch => if ty == SGDBColumnType::Unknown {
            ValueView::Unknown(unknown_type_error())
        } else {
            ValueView::Unknown(invalid_type_error())
        },
        CellView::Value(v) => if ty == SGDBColumnType::Unknown {
            ValueView::Unknown(unknown_type_error())
        } else if type_of_value(v) == Some(ty) {
            v
        } else {
            ValueView::Unknown(invalid_type_error())
        },
    }
}

/// The column type that a value of this shape belongs to, if any.
pub fn value_type(v: &SGDBRowValue) -> (r: Option<SGDBColumnType>)
    ensures
        r == type_of_value(v@),
{
    match v {
        SGDBRowValue::Text(_) => Some(SGDBColumnType::Text),
        SGDBRowValue::Boolean(_) => Some(SGDBColumnType::Boolean),
        SGDBRowValue::Integer(_) => Some(SGDBColumnType::Integer),
        SGDBRowValue::UInteger(_) => Some(SGDBColumnType::UInteger),
        SGDBRowValue::Double(_) => Some(SGDBColumnType::Double),
        SGDBRowValue::Decimal(_) => Some(SGDBColumnType::Decimal),
        SGDBRowValue::DateTime { .. } => Some(SGDBColumnType::DateTime),
        SGDBRowValue::Binary(_) => Some(SGDBColumnType::Binary),
        SGDBRowValue::Null => None,
        SGDBRowValue::Unknown { .. } => None,
    }
}

/// Decodes one cell read in a column of type `ty`.
pub fn decode_cell(ty: SGDBColumnType, read: CellRead) -> (r: SGDBRowValue)
    ensures
        r@ == decoded(ty, read@),
        read is Null ==> r is Null,
        read is Mismatch ==> r is Unknown,
{
    match read {
        CellRead::Missing(error) => SGDBRowValue::Unknown { error },
        CellRead::Null => SGDBRowValue::Null,
        CellRead::Mismatch => {
            if ty == SGDBColumnType::Unknown {
                SGDBRowValue::Unknown { error: String::from_str("Unknown column type") }
            } else {
                SGDBRowValue::Unknown { error: String::from_str("Invalid column type encountered") }
            }
        },
        CellRead::Value(v) => {
            if ty == SGDBColumnType::Unknown {
                SGDBRowValue::Unknown { error: String::from_str("Unknown column type") }
            } else {
                match value_type(&v) {
                    Some(t) => {
                        if t == ty {
                            v
                        } else {
                            SGDBRowValue::Unknown {
                                error: String::from_str("Invalid column type encountered"),
                            }
                        }
                    },
                    None => SGDBRowValue::Unknown {
                        error: String::from_str("Invalid column type encountered"),
                    },
                }
            }
        },
    }
}

/// A decoded cell always fits its column: it is `Null`, a contained
/// failure, or a value of exactly the column's type.
pub proof fn lemma_decoded_fits(ty: SGDBColumnType, read: CellView)
    ensures
        crate::model::value_fits(ty, decoded(ty, read)),
{
}

} // verus!
