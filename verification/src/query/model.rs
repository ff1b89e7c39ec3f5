//! The mathematical model of a statement under assembly, and what it
//! renders to: the SQL text, the failure that prevents rendering, and the
//! bound values in the order of their placeholders.

use vstd::prelude::*;
use vstd::string::*;

use crate::query::executor::Scalar;
use crate::query::{Dialect, JoinType, OrderDirection};
use crate::text::{decimal, join};

verus! {

/// The kind of statement a builder renders.
#[derive(Debug, Clone, Copy, PartialEq, Eq, Structural)]
pub enum QueryType {
    Select,
    Insert,
    Update,
    Delete,
}

/// One value position of a statement: SQL text written as it is, or a value
/// bound to a placeholder.
pub enum CellModel {
    Literal(Seq<char>),
    Bound(Scalar),
}

/// One conjunct of a `WHERE` clause: SQL text written as it is, or the test
/// that a column equals a bound value.
pub enum ConditionModel {
    Raw(Seq<char>),
    Equals(Seq<char>, Scalar),
}

/// One joined table.
pub struct JoinModel {
    pub kind: JoinType,
    pub table: Seq<char>,
    pub on: Seq<char>,
}

/// One `ORDER BY` entry.
pub struct OrderModel {
    pub column: Seq<char>,
    pub direction: OrderDirection,
}

/// One `SET` assignment of an `UPDATE`.
pub struct AssignmentModel {
    pub column: Seq<char>,
    pub value: CellModel,
}

/// Everything a builder has been told.
#[verifier::ext_equal]
pub struct StatementModel {
    pub dialect: Dialect,
    pub kind: QueryType,
    pub distinct: bool,
    pub columns: Seq<Seq<char>>,
    pub table: Option<Seq<char>>,
    pub joins: Seq<JoinModel>,
    pub conditions: Seq<ConditionModel>,
    pub group_by: Seq<Seq<char>>,
    pub having: Option<Seq<char>>,
    pub order_by: Seq<OrderModel>,
    pub limit: Option<u64>,
    pub offset: Option<u64>,
    pub insert_table: Option<Seq<char>>,
    pub insert_columns: Seq<Seq<char>>,
    pub insert_rows: Seq<Seq<CellModel>>,
    pub update_table: Option<Seq<char>>,
    pub assignments: Seq<AssignmentModel>,
    pub delete_table: Option<Seq<char>>,
    pub returning: Seq<Seq<char>>,
}

/// How a bound value is written into the text: rendering writes the
/// dialect's placeholder for every value.
pub type Inscribe = spec_fn(Scalar) -> Seq<char>;

/// The state of a fresh builder for `dialect`: a `SELECT` that names nothing.
pub open spec fn empty_statement(dialect: Dialect) -> StatementModel {
    StatementModel {
        dialect,
        kind: QueryType::Select,
        distinct: false,
        columns: Seq::empty(),
        table: None,
        joins: Seq::empty(),
        conditions: Seq::empty(),
        group_by: Seq::empty(),
        having: None,
        order_by: Seq::empty(),
        limit: None,
        offset: None,
        insert_table: None,
        insert_columns: Seq::empty(),
        insert_rows: Seq::empty(),
        update_table: None,
        assignments: Seq::empty(),
        delete_table: None,
        returning: Seq::empty(),
    }
}

/// The text of one value position.
pub open spec fn cell_text(c: CellModel, w: Inscribe) -> Seq<char> {
    match c {
        CellModel::Literal(t) => t,
        CellModel::Bound(v) => w(v),
    }
}

/// The text of one `WHERE` conjunct.
pub open spec fn condition_text(c: ConditionModel, w: Inscribe) -> Seq<char> {
    match c {
        ConditionModel::Raw(t) => t,
        ConditionModel::Equals(column, v) => column + " = "@ + w(v),
    }
}

/// The text of one join: ` <KIND> JOIN <table> ON <predicate>`.
pub open spec fn join_text(j: JoinModel) -> Seq<char> {
    " "@ + j.kind.keyword() + " JOIN "@ + j.table + " ON "@ + j.on
}

/// The text of one `ORDER BY` entry: `<column> <direction>`.
pub open spec fn order_text(o: OrderModel) -> Seq<char> {
    o.column + " "@ + o.direction.keyword()
}

/// The text of one assignment: `<column> = <value>`.
pub open spec fn assignment_text(a: AssignmentModel, w: Inscribe) -> Seq<char> {
    a.column + " = "@ + cell_text(a.value, w)
}

/// The text of one row of an `INSERT`: `(<value>, ...)`.
pub open spec fn row_text(row: Seq<CellModel>, w: Inscribe) -> Seq<char> {
    "("@ + join(row.map_values(|c: CellModel| cell_text(c, w)), ", "@) + ")"@
}

/// The joins, each behind the other in call order.
pub open spec fn joins_clause(joins: Seq<JoinModel>) -> Seq<char> {
    join(joins.map_values(|j: JoinModel| join_text(j)), Seq::empty())
}

/// The `WHERE` clause: nothing without conjuncts, else the conjuncts joined
/// by `AND`.
pub open spec fn where_clause(conditions: Seq<ConditionModel>, w: Inscribe) -> Seq<char> {
    if conditions.len() == 0 {
        Seq::empty()
    } else {
        " WHERE "@ + join(
            conditions.map_values(|c: ConditionModel| condition_text(c, w)),
            " AND "@,
        )
    }
}

/// The `GROUP BY` clause.
pub open spec fn group_clause(columns: Seq<Seq<char>>) -> Seq<char> {
    if columns.len() == 0 {
        Seq::empty()
    } else {
        " GROUP BY "@ + join(columns, ", "@)
    }
}

/// The `HAVING` clause.
pub open spec fn having_clause(having: Option<Seq<char>>) -> Seq<char> {
    match having {
        Some(h) => " HAVING "@ + h,
        None => Seq::empty(),
    }
}

/// The `ORDER BY` clause.
pub open spec fn order_clause(order_by: Seq<OrderModel>) -> Seq<char> {
    if order_by.len() == 0 {
        Seq::empty()
    } else {
        " ORDER BY "@ + join(order_by.map_values(|o: OrderModel| order_text(o)), ", "@)
    }
}

/// The `LIMIT` clause.
pub open spec fn limit_clause(limit: Option<u64>) -> Seq<char> {
    match limit {
        Some(n) => " LIMIT "@ + decimal(n as nat),
        None => Seq::empty(),
    }
}

/// The `OFFSET` clause.
pub open spec fn offset_clause(offset: Option<u64>) -> Seq<char> {
    match offset {
        Some(n) => " OFFSET "@ + decimal(n as nat),
        None => Seq::empty(),
    }
}

/// The `RETURNING` clause: present only where the dialect supports it and
/// columns were asked for.
pub open spec fn returning_clause(dialect: Dialect, columns: Seq<Seq<char>>) -> Seq<char> {
    if dialect.returning_supported() && columns.len() > 0 {
        " RETURNING "@ + join(columns, ", "@)
    } else {
        Seq::empty()
    }
}

/// The selected columns, or `*` when none were named.
pub open spec fn projection(columns: Seq<Seq<char>>) -> Seq<char> {
    if columns.len() == 0 {
        "*"@
    } else {
        join(columns, ", "@)
    }
}

/// A `SELECT` up to its `WHERE` clause:
/// `SELECT [DISTINCT] <columns|*> FROM <table> [joins]`.
pub open spec fn select_head(m: StatementModel) -> Seq<char>
    recommends
        m.table is Some,
{
    "SELECT "@ + (if m.distinct {
        "DISTINCT "@
    } else {
        Seq::empty()
    }) + projection(m.columns) + " FROM "@ + m.table->0 + joins_clause(m.joins)
}

/// A `SELECT` from behind its `WHERE` clause:
/// `[GROUP BY] [HAVING] [ORDER BY] [LIMIT] [OFFSET]`.
pub open spec fn select_tail(m: StatementModel) -> Seq<char> {
    group_clause(m.group_by) + having_clause(m.having) + order_clause(m.order_by) + limit_clause(
        m.limit,
    ) + offset_clause(m.offset)
}

/// `SELECT [DISTINCT] <columns|*> FROM <table> [joins] [WHERE] [GROUP BY]
/// [HAVING] [ORDER BY] [LIMIT] [OFFSET]`.
pub open spec fn select_text(m: StatementModel, w: Inscribe) -> Seq<char>
    recommends
        m.table is Some,
{
    select_head(m) + where_clause(m.conditions, w) + select_tail(m)
}

/// `INSERT INTO <table> (<columns>) VALUES (<row>), ... [RETURNING]`.
pub open spec fn insert_text(m: StatementModel, w: Inscribe) -> Seq<char>
    recommends
        m.insert_table is Some,
{
    "INSERT INTO "@ + m.insert_table->0 + " ("@ + join(m.insert_columns, ", "@) + ") VALUES "@
        + join(m.insert_rows.map_values(|r: Seq<CellModel>| row_text(r, w)), ", "@)
        + returning_clause(m.dialect, m.returning)
}

/// `UPDATE <table> SET <column> = <value>, ... [WHERE] [RETURNING]`.
pub open spec fn update_text(m: StatementModel, w: Inscribe) -> Seq<char>
    recommends
        m.update_table is Some,
{
    "UPDATE "@ + m.update_table->0 + " SET "@ + join(
        m.assignments.map_values(|a: AssignmentModel| assignment_text(a, w)),
        ", "@,
    ) + where_clause(m.conditions, w) + returning_clause(m.dialect, m.returning)
}

/// `DELETE FROM <table> [WHERE] [RETURNING]`.
pub open spec fn delete_text(m: StatementModel, w: Inscribe) -> Seq<char>
    recommends
        m.delete_table is Some,
{
    "DELETE FROM "@ + m.delete_table->0 + where_clause(m.conditions, w) + returning_clause(
        m.dialect,
        m.returning,
    )
}

/// The statement of the active kind, with bound values written by `w`.
pub open spec fn statement_text(m: StatementModel, w: Inscribe) -> Seq<char> {
    match m.kind {
        QueryType::Select => select_text(m, w),
        QueryType::Insert => insert_text(m, w),
        QueryType::Update => update_text(m, w),
        QueryType::Delete => delete_text(m, w),
    }
}

/// Writes the dialect's placeholder, whatever the value.
pub open spec fn as_placeholder(dialect: Dialect) -> Inscribe {
    |v: Scalar| dialect.placeholder_text()
}

/// The SQL that a renderable statement renders to.
pub open spec fn rendered_sql(m: StatementModel) -> Seq<char> {
    statement_text(m, as_placeholder(m.dialect))
}

/// Why a statement cannot be rendered, if it cannot: the part that the
/// active kind requires and that is missing.
pub open spec fn render_failure(m: StatementModel) -> Option<Seq<char>> {
    match m.kind {
        QueryType::Select => if m.table is None {
            Some("No table specified for SELECT"@)
        } else {
            None
        },
        QueryType::Insert => if m.insert_table is None {
            Some("No table specified for INSERT"@)
        } else if m.insert_columns.len() == 0 {
            Some("No columns specified for INSERT"@)
        } else if m.insert_rows.len() == 0 {
            Some("No values specified for INSERT"@)
        } else {
            None
        },
        QueryType::Update => if m.update_table is None {
            Some("No table specified for UPDATE"@)
        } else if m.assignments.len() == 0 {
            Some("No SET clauses specified for UPDATE"@)
        } else {
            None
        },
        QueryType::Delete => if m.delete_table is None {
            Some("No table specified for DELETE"@)
        } else {
            None
        },
    }
}

/// The value bound in a cell, if one is.
pub open spec fn cell_values(c: CellModel) -> Seq<Scalar> {
    match c {
        CellModel::Literal(_) => Seq::empty(),
        CellModel::Bound(v) => seq![v],
    }
}

/// The value bound in a conjunct, if one is.
pub open spec fn condition_values(c: ConditionModel) -> Seq<Scalar> {
    match c {
        ConditionModel::Raw(_) => Seq::empty(),
        ConditionModel::Equals(_, v) => seq![v],
    }
}

/// The values bound in a row, left to right.
pub open spec fn row_values(row: Seq<CellModel>) -> Seq<Scalar> {
    row.map_values(|c: CellModel| cell_values(c)).flatten()
}

/// The values bound in the rows, row after row.
pub open spec fn rows_values(rows: Seq<Seq<CellModel>>) -> Seq<Scalar> {
    rows.map_values(|r: Seq<CellModel>| row_values(r)).flatten()
}

/// The values bound in the assignments, left to right.
pub open spec fn assignments_values(assignments: Seq<AssignmentModel>) -> Seq<Scalar> {
    assignments.map_values(|a: AssignmentModel| cell_values(a.value)).flatten()
}

/// The values bound in the conjuncts, left to right.
pub open spec fn conditions_values(conditions: Seq<ConditionModel>) -> Seq<Scalar> {
    conditions.map_values(|c: ConditionModel| condition_values(c)).flatten()
}

/// The values bound in the statement of the active kind, in the order in
/// which their placeholders stand in the rendered text.
pub open spec fn bound_values(m: StatementModel) -> Seq<Scalar> {
    match m.kind {
        QueryType::Select => conditions_values(m.conditions),
        QueryType::Insert => rows_values(m.insert_rows),
        QueryType::Update => assignments_values(m.assignments) + conditions_values(m.conditions),
        QueryType::Delete => conditions_values(m.conditions),
    }
}

} // verus!
