//! Cells of a row, and the columns that a host asks for.

use vstd::prelude::*;
use vstd::string::*;

verus! {

/// One value of a row.
#[derive(Debug, Clone, PartialEq, Eq)]
pub enum Cell {
    Bool(bool),
    I32(i32),
    I64(i64),
    String(String),
    Json(String),
}

/// What a cell holds, with texts as sequences of characters.
pub enum CellValue {
    Bool(bool),
    I32(i32),
    I64(i64),
    String(Seq<char>),
    Json(Seq<char>),
}

impl View for Cell {
    type V = CellValue;

    open spec fn view(&self) -> CellValue {
        match *self {
            Cell::Bool(b) => CellValue::Bool(b),
            Cell::I32(i) => CellValue::I32(i),
            Cell::I64(i) => CellValue::I64(i),
            Cell::String(s) => CellValue::String(s@),
            Cell::Json(s) => CellValue::Json(s@),
        }
    }
}

/// What an optional cell holds; `None` is the marker for "no value".
pub open spec fn cell_view(cell: Option<Cell>) -> Option<CellValue> {
    match cell {
        Some(c) => Some(c@),
        None => None,
    }
}

/// The value type that a host declares for a column.
#[derive(Debug, Clone, Copy, PartialEq, Eq)]
pub enum TypeOid {
    Bool,
    I32,
    I64,
    String,
    Json,
    /// Any type that this connector has no values for.
    Other,
}

/// A column that the host wants filled.
#[derive(Debug, Clone)]
pub struct Column {
    pub name: String,
    pub type_oid: TypeOid,
}

impl Column {
    pub fn new(name: &str, type_oid: TypeOid) -> (column: Column)
        ensures
            column.name@ == name@,
            column.type_oid == type_oid,
    {
        Column { name: name.to_owned(), type_oid }
    }
}

} // verus!
