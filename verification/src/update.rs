//! Partial updates: one statement that sets the columns a request names and
//! leaves every other column as it is.

use crate::sql::{bound_cells, flag_cell, Cell, SqlValue, Statement, StatementView};
use vstd::prelude::*;

verus! {

/// One column and the value it is to get.
pub struct AssignmentView {
    pub column: Seq<char>,
    pub value: Cell,
}

/// One column and the value it is to get.
#[derive(Debug, Clone, PartialEq)]
pub struct Assignment {
    pub column: &'static str,
    pub value: SqlValue,
}

impl View for Assignment {
    type V = AssignmentView;

    open spec fn view(&self) -> AssignmentView {
        AssignmentView { column: self.column@, value: self.value@ }
    }
}

/// The assignments of a list, each by its view.
pub open spec fn assignment_views(assignments: Seq<Assignment>) -> Seq<AssignmentView> {
    Seq::new(assignments.len(), |i: int| assignments[i]@)
}

/// The text between `SET` and `WHERE`: `column = ?` for each assignment, in
/// order, with `, ` between two of them.
pub open spec fn set_clause(assignments: Seq<AssignmentView>) -> Seq<char>
    decreases assignments.len(),
{
    if assignments.len() == 0 {
        Seq::empty()
    } else if assignments.len() == 1 {
        assignments[0].column + " = ?"@
    } else {
        set_clause(assignments.drop_last()) + ", "@ + assignments.last().column + " = ?"@
    }
}

/// The values of the assignments, in order.
pub open spec fn set_values(assignments: Seq<AssignmentView>) -> Seq<Cell> {
    Seq::new(assignments.len(), |i: int| assignments[i].value)
}

/// The update that a list of assignments asks for on the row `id` of `table`:
/// none at all for an empty list, else one statement that sets exactly the
/// listed columns and binds the row's id last.
pub open spec fn update_of(
    table: Seq<char>,
    assignments: Seq<AssignmentView>,
    id: Seq<char>,
) -> Option<StatementView> {
    if assignments.len() == 0 {
        None
    } else {
        Some(
            StatementView {
                sql: "UPDATE "@ + table + " SET "@ + set_clause(assignments) + " WHERE id = ?"@,
                params: set_values(assignments).push(Cell::Text(id)),
            },
        )
    }
}

/// Builds the update for the row `id` of `table`. With nothing to assign
/// there is no statement, and so nothing to run.
pub fn update_statement(table: &str, assignments: &Vec<Assignment>, id: &String) -> (statement:
    Option<Statement>)
    ensures
        match statement {
            Some(built) => update_of(table@, assignment_views(assignments@), id@) == Some(built@),
            None => update_of(table@, assignment_views(assignments@), id@) is None,
        },
{
    if assignments.len() == 0 {
        return None;
    }
    let ghost all = assignment_views(assignments@);
    let mut sql = String::from_str("UPDATE ");
    sql.append(table);
    sql.append(" SET ");
    let mut params: Vec<SqlValue> = Vec::new();
    let mut i: usize = 0;
    while i < assignments.len()
        invariant
            i <= assignments.len(),
            all == assignment_views(assignments@),
            sql@ == "UPDATE "@ + table@ + " SET "@ + set_clause(all.take(i as int)),
            params@.len() == i,
            bound_cells(params@) == set_values(all.take(i as int)),
        decreases assignments.len() - i,
    {
        let ghost before = all.take(i as int);
        let ghost after = all.take(i + 1);
        let ghost bound = params@;
        proof {
            assert(after.drop_last() == before);
            assert(after.last() == assignments@[i as int]@);
        }
        if i > 0 {
            sql.append(", ");
        }
        sql.append(assignments[i].column);
        sql.append(" = ?");
        params.push(assignments[i].value.duplicate());
        proof {
            assert(sql@ == "UPDATE "@ + table@ + " SET "@ + set_clause(after));
            assert(bound_cells(params@) =~= set_values(after)) by {
                assert forall|j: int| 0 <= j < i implies bound_cells(params@)[j] == set_values(
                    after,
                )[j] by {
                    assert(params@[j] == bound[j]);
                    assert(bound_cells(bound)[j] == set_values(before)[j]);
                    assert(before[j] == after[j]);
                }
            }
        }
        i += 1;
    }
    proof {
        assert(all.take(i as int) == all);
    }
    sql.append(" WHERE id = ?");
    params.push(SqlValue::text(id));
    let statement = Statement { sql, params };
    proof {
        assert(statement@.params == set_values(all).push(Cell::Text(id@)));
    }
    Some(statement)
}

/// The assignment of text to a column, where there is text.
pub open spec fn text_assignment(column: Seq<char>, value: Option<Seq<char>>) -> Seq<
    AssignmentView,
> {
    match value {
        Some(text) => seq![AssignmentView { column, value: Cell::Text(text) }],
        None => Seq::empty(),
    }
}

/// The assignment of a flag to a column, where there is a flag.
pub open spec fn flag_assignment(column: Seq<char>, value: Option<bool>) -> Seq<AssignmentView> {
    match value {
        Some(flag) => seq![AssignmentView { column, value: flag_cell(flag) }],
        None => Seq::empty(),
    }
}

/// The assignment of an integer to a column, where there is an integer.
pub open spec fn integer_assignment(column: Seq<char>, value: Option<i32>) -> Seq<AssignmentView> {
    match value {
        Some(integer) => seq![AssignmentView { column, value: Cell::Integer(integer as i64) }],
        None => Seq::empty(),
    }
}

/// Adds the assignment of `value` to `column`, where there is a value.
pub fn assign_text(assignments: &mut Vec<Assignment>, column: &'static str, value: &Option<String>)
    ensures
        assignment_views(final(assignments)@) == assignment_views(old(assignments)@)
            + text_assignment(column@, value.deep_view()),
{
    match value {
        Some(text) => {
            assignments.push(Assignment { column, value: SqlValue::text(text) });
        },
        None => {},
    }
    proof {
        assert(assignment_views(assignments@) =~= assignment_views(old(assignments)@)
            + text_assignment(column@, value.deep_view()));
    }
}

/// Adds the assignment of `value` to `column`, where there is a value.
pub fn assign_flag(assignments: &mut Vec<Assignment>, column: &'static str, value: Option<bool>)
    ensures
        assignment_views(final(assignments)@) == assignment_views(old(assignments)@)
            + flag_assignment(column@, value),
{
    match value {
        Some(flag) => {
            assignments.push(Assignment { column, value: SqlValue::flag(flag) });
        },
        None => {},
    }
    proof {
        assert(assignment_views(assignments@) =~= assignment_views(old(assignments)@)
            + flag_assignment(column@, value));
    }
}

/// Adds the assignment of `value` to `column`, where there is a value.
pub fn assign_integer(assignments: &mut Vec<Assignment>, column: &'static str, value: Option<i32>)
    ensures
        assignment_views(final(assignments)@) == assignment_views(old(assignments)@)
            + integer_assignment(column@, value),
{
    match value {
        Some(integer) => {
            assignments.push(Assignment { column, value: SqlValue::integer(integer) });
        },
        None => {},
    }
    proof {
        assert(assignment_views(assignments@) =~= assignment_views(old(assignments)@)
            + integer_assignment(column@, value));
    }
}

} // verus!
