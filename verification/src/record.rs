//! Profile records and their projection into the columns of a row.

use crate::cell::{cell_view, Cell, CellValue, Column, TypeOid};
use crate::json::{
    compact_text, member_bool, member_i64, member_str, member_text, Document, Json,
};
use crate::text::same_text;
use vstd::prelude::*;
use vstd::string::*;

verus! {

/// The name of the member that holds the key a record was looked up by.
pub open spec fn lookup_field() -> Seq<char> {
    "email"@
}

/// How a named field of the remote schema is read.
pub enum Shape {
    /// A string.
    Text,
    /// A boolean.
    Flag,
    /// A 64-bit integer.
    Integer,
    /// Any JSON value, handed on as its serialization.
    Nested,
    /// The whole record, serialized.
    Whole,
}

/// The shape of each field that the connector knows by name.
pub open spec fn named_shape(name: Seq<char>) -> Option<Shape> {
    if name == "hash"@ || name == "email"@ || name == "display_name"@ || name == "profile_url"@
        || name == "avatar_url"@ || name == "avatar_alt_text"@ || name == "location"@ || name
        == "description"@ || name == "job_title"@ || name == "company"@ || name
        == "pronunciation"@ || name == "pronouns"@ || name == "timezone"@ || name
        == "first_name"@ || name == "last_name"@ || name == "last_profile_edit"@ || name
        == "registration_date"@ {
        Some(Shape::Text)
    } else if name == "verified_accounts"@ || name == "languages"@ || name == "links"@ || name
        == "interests"@ || name == "payments"@ || name == "contact_info"@ {
        Some(Shape::Nested)
    } else if name == "is_organization"@ {
        Some(Shape::Flag)
    } else if name == "number_verified_accounts"@ {
        Some(Shape::Integer)
    } else if name == "json"@ {
        Some(Shape::Whole)
    } else {
        None
    }
}

/// The member `name` of a record, read as a string cell.
pub open spec fn text_cell(record: Json, name: Seq<char>) -> Option<CellValue> {
    match member_str(record, name) {
        Some(s) => Some(CellValue::String(s)),
        None => None,
    }
}

/// The member `name` of a record, read as a boolean cell.
pub open spec fn flag_cell(record: Json, name: Seq<char>) -> Option<CellValue> {
    match member_bool(record, name) {
        Some(b) => Some(CellValue::Bool(b)),
        None => None,
    }
}

/// The member `name` of a record, read as a 64-bit integer cell.
pub open spec fn integer_cell(record: Json, name: Seq<char>) -> Option<CellValue> {
    match member_i64(record, name) {
        Some(i) => Some(CellValue::I64(i)),
        None => None,
    }
}

/// The member `name` of a record, read as a 32-bit integer cell: the low
/// 32 bits of the 64-bit integer.
pub open spec fn narrow_cell(record: Json, name: Seq<char>) -> Option<CellValue> {
    match member_i64(record, name) {
        Some(i) => Some(CellValue::I32(i as i32)),
        None => None,
    }
}

/// The member `name` of a record, serialized into a JSON cell.
pub open spec fn nested_cell(record: Json, name: Seq<char>) -> Option<CellValue> {
    match member_text(record, name) {
        Some(s) => Some(CellValue::Json(s)),
        None => None,
    }
}

/// The cell of one column. A field known by name is read in its own shape,
/// whatever type the host declared; any other column is read from the
/// member of its name in the shape of the declared type. A member that is
/// absent, or of another shape, gives no value.
pub open spec fn project_cell(record: Json, name: Seq<char>, type_oid: TypeOid) -> Option<
    CellValue,
> {
    match named_shape(name) {
        Some(Shape::Text) => text_cell(record, name),
        Some(Shape::Flag) => flag_cell(record, name),
        Some(Shape::Integer) => integer_cell(record, name),
        Some(Shape::Nested) => nested_cell(record, name),
        Some(Shape::Whole) => Some(CellValue::Json(compact_text(record))),
        None => match type_oid {
            TypeOid::Bool => flag_cell(record, name),
            TypeOid::String => text_cell(record, name),
            TypeOid::I32 => narrow_cell(record, name),
            TypeOid::I64 => integer_cell(record, name),
            TypeOid::Json => nested_cell(record, name),
            TypeOid::Other => None,
        },
    }
}

/// Whether `cells` is the row of `record` for `columns`: one cell for each
/// column, in the order of the columns.
pub open spec fn is_row_of(cells: Seq<Option<Cell>>, record: Json, columns: Seq<Column>) -> bool {
    &&& cells.len() == columns.len()
    &&& forall|i: int|
        0 <= i < columns.len() ==> cell_view(#[trigger] cells[i]) == project_cell(
            record,
            columns[i].name@,
            columns[i].type_oid,
        )
}

/// Looks a column name up among the fields known by name.
pub fn shape_of(name: &str) -> (shape: Option<Shape>)
    ensures
        shape == named_shape(name@),
{
    if same_text(name, "hash") || same_text(name, "email") || same_text(name, "display_name")
        || same_text(name, "profile_url") || same_text(name, "avatar_url") || same_text(
        name,
        "avatar_alt_text",
    ) || same_text(name, "location") || same_text(name, "description") || same_text(
        name,
        "job_title",
    ) || same_text(name, "company") || same_text(name, "pronunciation") || same_text(
        name,
        "pronouns",
    ) || same_text(name, "timezone") || same_text(name, "first_name") || same_text(
        name,
        "last_name",
    ) || same_text(name, "last_profile_edit") || same_text(name, "registration_date") {
        Some(Shape::Text)
    } else if same_text(name, "verified_accounts") || same_text(name, "languages") || same_text(
        name,
        "links",
    ) || same_text(name, "interests") || same_text(name, "payments") || same_text(
        name,
        "contact_info",
    ) {
        Some(Shape::Nested)
    } else if same_text(name, "is_organization") {
        Some(Shape::Flag)
    } else if same_text(name, "number_verified_accounts") {
        Some(Shape::Integer)
    } else if same_text(name, "json") {
        Some(Shape::Whole)
    } else {
        None
    }
}

/// The document that the remote service returned for one key, with the key
/// itself stored under `email`.
#[derive(Debug)]
pub struct ProfileRecord {
    document: Document,
}

impl View for ProfileRecord {
    type V = Json;

    closed spec fn view(&self) -> Json {
        self.document@
    }
}

impl ProfileRecord {
    /// Makes the record of a lookup: the document, with the key put under
    /// `email` where the document is an object.
    pub fn new(document: Document, lookup_key: &str) -> (record: ProfileRecord)
        ensures
            record@ == document@.with_text(lookup_field(), lookup_key@),
    {
        let mut document = document;
        document.set_text("email", lookup_key);
        ProfileRecord { document }
    }

    fn text_cell(&self, name: &str) -> (cell: Option<Cell>)
        ensures
            cell_view(cell) == text_cell(self@, name@),
    {
        match self.document.member_str(name) {
            Some(s) => Some(Cell::String(s)),
            None => None,
        }
    }

    fn flag_cell(&self, name: &str) -> (cell: Option<Cell>)
        ensures
            cell_view(cell) == flag_cell(self@, name@),
    {
        match self.document.member_bool(name) {
            Some(b) => Some(Cell::Bool(b)),
            None => None,
        }
    }

    fn integer_cell(&self, name: &str) -> (cell: Option<Cell>)
        ensures
            cell_view(cell) == integer_cell(self@, name@),
    {
        match self.document.member_i64(name) {
            Some(i) => Some(Cell::I64(i)),
            None => None,
        }
    }

    fn narrow_cell(&self, name: &str) -> (cell: Option<Cell>)
        ensures
            cell_view(cell) == narrow_cell(self@, name@),
    {
        match self.document.member_i64(name) {
            Some(i) => Some(Cell::I32(#[verifier::truncate] (i as i32))),
            None => None,
        }
    }

    fn nested_cell(&self, name: &str) -> (cell: Option<Cell>)
        ensures
            cell_view(cell) == nested_cell(self@, name@),
    {
        match self.document.member_text(name) {
            Some(s) => Some(Cell::Json(s)),
            None => None,
        }
    }

    /// The cell of one column.
    pub fn cell(&self, column: &Column) -> (cell: Option<Cell>)
        ensures
            cell_view(cell) == project_cell(self@, column.name@, column.type_oid),
    {
        let name = column.name.as_str();
        match shape_of(name) {
            Some(Shape::Text) => self.text_cell(name),
            Some(Shape::Flag) => self.flag_cell(name),
            Some(Shape::Integer) => self.integer_cell(name),
            Some(Shape::Nested) => self.nested_cell(name),
            Some(Shape::Whole) => Some(Cell::Json(self.document.text())),
            None => match column.type_oid {
                TypeOid::Bool => self.flag_cell(name),
                TypeOid::String => self.text_cell(name),
                TypeOid::I32 => self.narrow_cell(name),
                TypeOid::I64 => self.integer_cell(name),
                TypeOid::Json => self.nested_cell(name),
                TypeOid::Other => None,
            },
        }
    }

    /// The row of this record: one cell for each requested column, in the
    /// order requested.
    pub fn project(&self, columns: &Vec<Column>) -> (cells: Vec<Option<Cell>>)
        ensures
            is_row_of(cells@, self@, columns@),
    {
        let mut cells: Vec<Option<Cell>> = Vec::new();
        let mut i: usize = 0;
        while i < columns.len()
            invariant
                i <= columns.len(),
                cells@.len() == i,
                forall|k: int|
                    0 <= k < i ==> cell_view(#[trigger] cells@[k]) == project_cell(
                        self@,
                        columns@[k].name@,
                        columns@[k].type_oid,
                    ),
            decreases columns.len() - i,
        {
            let cell = self.cell(&columns[i]);
            cells.push(cell);
            i += 1;
        }
        cells
    }
}

/// A field that a record lacks has no value in any column but the one
/// that holds the whole record.
pub proof fn lemma_absent_member_has_no_value(record: Json, name: Seq<char>, type_oid: TypeOid)
    requires
        record.member(name) is None,
        named_shape(name) != Some(Shape::Whole),
    ensures
        project_cell(record, name, type_oid) is None,
{
}

/// The key that a record was looked up by is what its `email` column
/// holds, whenever the remote document is an object.
pub proof fn lemma_lookup_key_is_projected(document: Json, key: Seq<char>, type_oid: TypeOid)
    requires
        document is Object,
    ensures
        project_cell(document.with_text(lookup_field(), key), lookup_field(), type_oid) == Some(
            CellValue::String(key),
        ),
{
}

} // verus!
