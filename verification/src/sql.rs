//! Values that travel between records and the store, and the statements that
//! carry them.

use vstd::prelude::*;

verus! {

/// What one column of a row holds, as far as the records care: nothing, a
/// 64-bit integer, well-formed text, or anything else (a real number, a blob,
/// text that is not UTF-8).
pub enum Cell {
    Null,
    Integer(i64),
    Text(Seq<char>),
    Other,
}

/// A value bound to a placeholder of a statement.
#[derive(Debug, Clone, PartialEq)]
pub enum SqlValue {
    Null,
    Integer(i64),
    Text(String),
}

impl View for SqlValue {
    type V = Cell;

    open spec fn view(&self) -> Cell {
        match self {
            SqlValue::Null => Cell::Null,
            SqlValue::Integer(i) => Cell::Integer(*i),
            SqlValue::Text(s) => Cell::Text(s@),
        }
    }
}

/// The cell for text that may be absent: absent text is stored as null.
pub open spec fn optional_text_cell(value: Option<Seq<char>>) -> Cell {
    match value {
        Some(text) => Cell::Text(text),
        None => Cell::Null,
    }
}

/// The cell for a flag: 1 for true, 0 for false.
pub open spec fn flag_cell(value: bool) -> Cell {
    Cell::Integer(
        if value {
            1
        } else {
            0
        },
    )
}

impl SqlValue {
    pub fn text(value: &String) -> (bound: SqlValue)
        ensures
            bound@ == Cell::Text(value@),
    {
        SqlValue::Text(value.clone())
    }

    pub fn optional_text(value: &Option<String>) -> (bound: SqlValue)
        ensures
            bound@ == optional_text_cell(value.deep_view()),
    {
        match value {
            Some(text) => SqlValue::Text(text.clone()),
            None => SqlValue::Null,
        }
    }

    pub fn integer(value: i32) -> (bound: SqlValue)
        ensures
            bound@ == Cell::Integer(value as i64),
    {
        SqlValue::Integer(value as i64)
    }

    pub fn flag(value: bool) -> (bound: SqlValue)
        ensures
            bound@ == flag_cell(value),
    {
        if value {
            SqlValue::Integer(1)
        } else {
            SqlValue::Integer(0)
        }
    }

    /// A second value that binds the same cell.
    pub fn duplicate(&self) -> (copy: SqlValue)
        ensures
            copy@ == self@,
    {
        match self {
            SqlValue::Null => SqlValue::Null,
            SqlValue::Integer(i) => SqlValue::Integer(*i),
            SqlValue::Text(text) => SqlValue::Text(text.clone()),
        }
    }
}

/// A statement as the store sees it: its text and the values for its
/// placeholders, in the order of the placeholders.
pub struct StatementView {
    pub sql: Seq<char>,
    pub params: Seq<Cell>,
}

/// One parameterized statement, ready to be handed to the store.
#[derive(Debug, Clone, PartialEq)]
pub struct Statement {
    pub sql: String,
    pub params: Vec<SqlValue>,
}

/// The cells that a list of values binds, in order.
pub open spec fn bound_cells(params: Seq<SqlValue>) -> Seq<Cell> {
    Seq::new(params.len(), |i: int| params[i]@)
}

impl View for Statement {
    type V = StatementView;

    open spec fn view(&self) -> StatementView {
        StatementView { sql: self.sql@, params: bound_cells(self.params@) }
    }
}

/// The text in column `idx`, where the column exists and holds text.
pub open spec fn text_at(cells: Seq<Cell>, idx: int) -> Option<Seq<char>> {
    if 0 <= idx < cells.len() && cells[idx] is Text {
        Some(cells[idx]->Text_0)
    } else {
        None
    }
}

/// The text in column `idx`, or its absence where the column holds null.
pub open spec fn optional_text_at(cells: Seq<Cell>, idx: int) -> Option<Option<Seq<char>>> {
    if 0 <= idx < cells.len() && cells[idx] is Null {
        Some(None)
    } else if text_at(cells, idx) is Some {
        Some(text_at(cells, idx))
    } else {
        None
    }
}

/// The integer in column `idx`, where the column exists and holds an integer
/// that fits in 32 bits.
pub open spec fn integer_at(cells: Seq<Cell>, idx: int) -> Option<i32> {
    if 0 <= idx < cells.len() && cells[idx] is Integer && i32::MIN <= cells[idx]->Integer_0
        <= i32::MAX {
        Some(cells[idx]->Integer_0 as i32)
    } else {
        None
    }
}

/// The flag in column `idx`, where the column exists and holds an integer:
/// true for every integer but 0, however large.
pub open spec fn flag_at(cells: Seq<Cell>, idx: int) -> Option<bool> {
    if 0 <= idx < cells.len() && cells[idx] is Integer {
        Some(cells[idx]->Integer_0 != 0)
    } else {
        None
    }
}

} // verus!
