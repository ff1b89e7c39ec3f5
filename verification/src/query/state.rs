//! The one implementation behind every builder: the state a statement is
//! assembled in, and its rendering.

use vstd::prelude::*;
use vstd::string::*;

use crate::error::Error;
use crate::query::executor::{scalars, QueryValue, Scalar};
use crate::query::model::{
    as_placeholder, assignment_text, assignments_values, bound_values, cell_text, cell_values,
    condition_text, condition_values, conditions_values, delete_text, empty_statement,
    group_clause, having_clause, insert_text, join_text, joins_clause, limit_clause,
    offset_clause, order_clause, order_text, projection, render_failure, rendered_sql,
    returning_clause, row_text, row_values, rows_values, select_head, select_tail, select_text,
    update_text,
    where_clause, AssignmentModel, CellModel, ConditionModel, JoinModel, OrderModel, QueryType,
    StatementModel,
};
use crate::query::{Dialect, JoinType, OrderDirection};
use crate::text::{join, join_strings, texts, u64_to_string};

verus! {

/// One value position: SQL text written as it is, or a bound value.
enum Cell {
    Literal(String),
    Bound(QueryValue),
}

impl View for Cell {
    type V = CellModel;

    closed spec fn view(&self) -> CellModel {
        match self {
            Cell::Literal(t) => CellModel::Literal(t@),
            Cell::Bound(v) => CellModel::Bound(v@),
        }
    }
}

/// One conjunct of a `WHERE` clause.
enum Condition {
    Raw(String),
    Equals(String, QueryValue),
}

impl View for Condition {
    type V = ConditionModel;

    closed spec fn view(&self) -> ConditionModel {
        match self {
            Condition::Raw(t) => ConditionModel::Raw(t@),
            Condition::Equals(c, v) => ConditionModel::Equals(c@, v@),
        }
    }
}

/// One joined table.
struct Join {
    kind: JoinType,
    table: String,
    on: String,
}

impl View for Join {
    type V = JoinModel;

    closed spec fn view(&self) -> JoinModel {
        JoinModel { kind: self.kind, table: self.table@, on: self.on@ }
    }
}

/// One `ORDER BY` entry.
struct OrderTerm {
    column: String,
    direction: OrderDirection,
}

impl View for OrderTerm {
    type V = OrderModel;

    closed spec fn view(&self) -> OrderModel {
        OrderModel { column: self.column@, direction: self.direction }
    }
}

/// One `SET` assignment.
struct Assignment {
    column: String,
    value: Cell,
}

impl View for Assignment {
    type V = AssignmentModel;

    closed spec fn view(&self) -> AssignmentModel {
        AssignmentModel { column: self.column@, value: self.value@ }
    }
}

spec fn cell_models(v: Seq<Cell>) -> Seq<CellModel> {
    v.map_values(|c: Cell| c@)
}

spec fn row_models(v: Seq<Vec<Cell>>) -> Seq<Seq<CellModel>> {
    v.map_values(|r: Vec<Cell>| cell_models(r@))
}

spec fn condition_models(v: Seq<Condition>) -> Seq<ConditionModel> {
    v.map_values(|c: Condition| c@)
}

spec fn join_models(v: Seq<Join>) -> Seq<JoinModel> {
    v.map_values(|j: Join| j@)
}

spec fn order_models(v: Seq<OrderTerm>) -> Seq<OrderModel> {
    v.map_values(|o: OrderTerm| o@)
}

spec fn assignment_models(v: Seq<Assignment>) -> Seq<AssignmentModel> {
    v.map_values(|a: Assignment| a@)
}

spec fn optional_text(s: Option<String>) -> Option<Seq<char>> {
    match s {
        Some(t) => Some(t@),
        None => None,
    }
}

/// The character sequences of a list of string slices.
pub open spec fn slice_texts(v: Seq<&str>) -> Seq<Seq<char>> {
    v.map_values(|s: &str| s@)
}

/// Copies each slice of `items` into a string of its own.
pub fn owned_strings(items: &[&str]) -> (out: Vec<String>)
    ensures
        texts(out@) == slice_texts(items@),
{
    let mut out: Vec<String> = Vec::new();
    let mut i: usize = 0;
    while i < items.len()
        invariant
            i <= items.len(),
            out@.len() == i,
            forall|j: int| 0 <= j < i ==> out@[j]@ == items@[j]@,
        decreases items.len() - i,
    {
        out.push(String::from_str(items[i]));
        i += 1;
    }
    assert(texts(out@) =~= slice_texts(items@));
    out
}

/// The state a statement is assembled in.
pub struct BuilderState {
    dialect: Dialect,
    kind: QueryType,
    distinct: bool,
    columns: Vec<String>,
    table: Option<String>,
    joins: Vec<Join>,
    conditions: Vec<Condition>,
    group_by: Vec<String>,
    having: Option<String>,
    order_by: Vec<OrderTerm>,
    limit: Option<u64>,
    offset: Option<u64>,
    insert_table: Option<String>,
    insert_columns: Vec<String>,
    insert_rows: Vec<Vec<Cell>>,
    update_table: Option<String>,
    assignments: Vec<Assignment>,
    delete_table: Option<String>,
    returning: Vec<String>,
}

impl View for BuilderState {
    type V = StatementModel;

    closed spec fn view(&self) -> StatementModel {
        StatementModel {
            dialect: self.dialect,
            kind: self.kind,
            distinct: self.distinct,
            columns: texts(self.columns@),
            table: optional_text(self.table),
            joins: join_models(self.joins@),
            conditions: condition_models(self.conditions@),
            group_by: texts(self.group_by@),
            having: optional_text(self.having),
            order_by: order_models(self.order_by@),
            limit: self.limit,
            offset: self.offset,
            insert_table: optional_text(self.insert_table),
            insert_columns: texts(self.insert_columns@),
            insert_rows: row_models(self.insert_rows@),
            update_table: optional_text(self.update_table),
            assignments: assignment_models(self.assignments@),
            delete_table: optional_text(self.delete_table),
            returning: texts(self.returning@),
        }
    }
}

impl BuilderState {
    /// A fresh state for `dialect`.
    pub fn new(dialect: Dialect) -> (s: Self)
        ensures
            s@ == empty_statement(dialect),
    {
        let s = BuilderState {
            dialect,
            kind: QueryType::Select,
            distinct: false,
            columns: Vec::new(),
            table: None,
            joins: Vec::new(),
            conditions: Vec::new(),
            group_by: Vec::new(),
            having: None,
            order_by: Vec::new(),
            limit: None,
            offset: None,
            insert_table: None,
            insert_columns: Vec::new(),
            insert_rows: Vec::new(),
            update_table: None,
            assignments: Vec::new(),
            delete_table: None,
            returning: Vec::new(),
        };
        assert(s@ =~~= empty_statement(dialect));
        s
    }

    /// Makes the statement a `SELECT` of the named columns.
    pub fn select(&mut self, names: Vec<String>)
        ensures
            final(self)@ == (StatementModel {
                kind: QueryType::Select,
                columns: texts(names@),
                ..old(self)@
            }),
    {
        self.kind = QueryType::Select;
        self.columns = names;
    }

    /// Names the table a `SELECT` reads.
    pub fn from(&mut self, table: &str)
        ensures
            final(self)@ == (StatementModel { table: Some(table@), ..old(self)@ }),
    {
        self.table = Some(String::from_str(table));
    }

    /// Adds a conjunct whose text is written into the statement as it is.
    pub fn where_clause(&mut self, condition: &str)
        ensures
            final(self)@ == (StatementModel {
                conditions: old(self)@.conditions.push(ConditionModel::Raw(condition@)),
                ..old(self)@
            }),
    {
        self.conditions.push(Condition::Raw(String::from_str(condition)));
        assert(condition_models(self.conditions@) =~= condition_models(old(self).conditions@).push(
            ConditionModel::Raw(condition@),
        ));
    }

    /// Adds the conjunct `<column> = <placeholder>` and binds `value` to it.
    pub fn where_eq(&mut self, column: &str, value: QueryValue)
        ensures
            final(self)@ == (StatementModel {
                conditions: old(self)@.conditions.push(ConditionModel::Equals(column@, value@)),
                ..old(self)@
            }),
    {
        self.conditions.push(Condition::Equals(String::from_str(column), value));
        assert(condition_models(self.conditions@) =~= condition_models(old(self).conditions@).push(
            ConditionModel::Equals(column@, value@),
        ));
    }

    /// Adds an `ORDER BY` entry.
    pub fn order_by(&mut self, column: &str, direction: OrderDirection)
        ensures
            final(self)@ == (StatementModel {
                order_by: old(self)@.order_by.push(OrderModel { column: column@, direction }),
                ..old(self)@
            }),
    {
        self.order_by.push(OrderTerm { column: String::from_str(column), direction });
        assert(order_models(self.order_by@) =~= order_models(old(self).order_by@).push(
            OrderModel { column: column@, direction },
        ));
    }

    /// Sets the `LIMIT`.
    pub fn limit(&mut self, limit: u64)
        ensures
            final(self)@ == (StatementModel { limit: Some(limit), ..old(self)@ }),
    {
        self.limit = Some(limit);
    }

    /// Sets the `OFFSET`.
    pub fn offset(&mut self, offset: u64)
        ensures
            final(self)@ == (StatementModel { offset: Some(offset), ..old(self)@ }),
    {
        self.offset = Some(offset);
    }

    /// Makes the statement an `INSERT` into `table` of the named columns.
    pub fn insert_into(&mut self, table: &str, columns: &[&str])
        ensures
            final(self)@ == (StatementModel {
                kind: QueryType::Insert,
                insert_table: Some(table@),
                insert_columns: slice_texts(columns@),
                ..old(self)@
            }),
    {
        self.kind = QueryType::Insert;
        self.insert_table = Some(String::from_str(table));
        self.insert_columns = owned_strings(columns);
    }

    /// Adds a row whose values are written into the statement as they are.
    pub fn values(&mut self, values: &[&str])
        ensures
            final(self)@ == (StatementModel {
                insert_rows: old(self)@.insert_rows.push(
                    slice_texts(values@).map_values(|t: Seq<char>| CellModel::Literal(t)),
                ),
                ..old(self)@
            }),
    {
        let mut row: Vec<Cell> = Vec::new();
        let mut i: usize = 0;
        while i < values.len()
            invariant
                i <= values.len(),
                row@.len() == i,
                forall|j: int| 0 <= j < i ==> row@[j]@ == CellModel::Literal(values@[j]@),
            decreases values.len() - i,
        {
            row.push(Cell::Literal(String::from_str(values[i])));
            i += 1;
        }
        assert(cell_models(row@) =~= slice_texts(values@).map_values(
            |t: Seq<char>| CellModel::Literal(t),
        ));
        self.insert_rows.push(row);
        assert(row_models(self.insert_rows@) =~= row_models(old(self).insert_rows@).push(
            cell_models(row@),
        ));
    }

    /// Adds a row of bound values, one placeholder each.
    pub fn values_params(&mut self, values: &[QueryValue])
        ensures
            final(self)@ == (StatementModel {
                insert_rows: old(self)@.insert_rows.push(
                    scalars(values@).map_values(|v: Scalar| CellModel::Bound(v)),
                ),
                ..old(self)@
            }),
    {
        let mut row: Vec<Cell> = Vec::new();
        let mut i: usize = 0;
        while i < values.len()
            invariant
                i <= values.len(),
                row@.len() == i,
                forall|j: int| 0 <= j < i ==> row@[j]@ == CellModel::Bound(values@[j]@),
            decreases values.len() - i,
        {
            row.push(Cell::Bound(values[i].clone()));
            i += 1;
        }
        assert(cell_models(row@) =~= scalars(values@).map_values(
            |v: Scalar| CellModel::Bound(v),
        ));
        self.insert_rows.push(row);
        assert(row_models(self.insert_rows@) =~= row_models(old(self).insert_rows@).push(
            cell_models(row@),
        ));
    }

    /// Makes the statement an `UPDATE` of `table`.
    pub fn update(&mut self, table: &str)
        ensures
            final(self)@ == (StatementModel {
                kind: QueryType::Update,
                update_table: Some(table@),
                ..old(self)@
            }),
    {
        self.kind = QueryType::Update;
        self.update_table = Some(String::from_str(table));
    }

    /// Adds the assignment `<column> = <value>`, the value written as it is.
    pub fn set(&mut self, column: &str, value: &str)
        ensures
            final(self)@ == (StatementModel {
                assignments: old(self)@.assignments.push(
                    AssignmentModel { column: column@, value: CellModel::Literal(value@) },
                ),
                ..old(self)@
            }),
    {
        self.assignments.push(
            Assignment {
                column: String::from_str(column),
                value: Cell::Literal(String::from_str(value)),
            },
        );
        assert(assignment_models(self.assignments@) =~= assignment_models(
            old(self).assignments@,
        ).push(AssignmentModel { column: column@, value: CellModel::Literal(value@) }));
    }

    /// Adds the assignment `<column> = <placeholder>` and binds `value` to it.
    pub fn set_param(&mut self, column: &str, value: QueryValue)
        ensures
            final(self)@ == (StatementModel {
                assignments: old(self)@.assignments.push(
                    AssignmentModel { column: column@, value: CellModel::Bound(value@) },
                ),
                ..old(self)@
            }),
    {
        self.assignments.push(
            Assignment { column: String::from_str(column), value: Cell::Bound(value) },
        );
        assert(assignment_models(self.assignments@) =~= assignment_models(
            old(self).assignments@,
        ).push(AssignmentModel { column: column@, value: CellModel::Bound(value@) }));
    }

    /// Makes the statement a `DELETE` from `table`.
    pub fn delete_from(&mut self, table: &str)
        ensures
            final(self)@ == (StatementModel {
                kind: QueryType::Delete,
                delete_table: Some(table@),
                ..old(self)@
            }),
    {
        self.kind = QueryType::Delete;
        self.delete_table = Some(String::from_str(table));
    }

    /// Asks for the named columns of the rows a mutating statement touches.
    pub fn returning(&mut self, columns: &[&str])
        ensures
            final(self)@ == (StatementModel {
                returning: slice_texts(columns@),
                ..old(self)@
            }),
    {
        self.returning = owned_strings(columns);
    }

    /// Adds a join.
    pub fn join(&mut self, table: &str, on: &str, join_type: JoinType)
        ensures
            final(self)@ == (StatementModel {
                joins: old(self)@.joins.push(
                    JoinModel { kind: join_type, table: table@, on: on@ },
                ),
                ..old(self)@
            }),
    {
        self.joins.push(
            Join { kind: join_type, table: String::from_str(table), on: String::from_str(on) },
        );
        assert(join_models(self.joins@) =~= join_models(old(self).joins@).push(
            JoinModel { kind: join_type, table: table@, on: on@ },
        ));
    }

    /// Sets the `GROUP BY` columns.
    pub fn group_by(&mut self, columns: &[&str])
        ensures
            final(self)@ == (StatementModel { group_by: slice_texts(columns@), ..old(self)@ }),
    {
        self.group_by = owned_strings(columns);
    }

    /// Sets the `HAVING` condition, written into the statement as it is.
    pub fn having(&mut self, condition: &str)
        ensures
            final(self)@ == (StatementModel { having: Some(condition@), ..old(self)@ }),
    {
        self.having = Some(String::from_str(condition));
    }

    /// Makes a `SELECT` return distinct rows only.
    pub fn distinct(&mut self)
        ensures
            final(self)@ == (StatementModel { distinct: true, ..old(self)@ }),
    {
        self.distinct = true;
    }

    /// Forgets everything but the dialect.
    pub fn reset(&mut self)
        ensures
            final(self)@ == empty_statement(old(self)@.dialect),
    {
        self.kind = QueryType::Select;
        self.distinct = false;
        self.columns.clear();
        self.table = None;
        self.joins.clear();
        self.conditions.clear();
        self.group_by.clear();
        self.having = None;
        self.order_by.clear();
        self.limit = None;
        self.offset = None;
        self.insert_table = None;
        self.insert_columns.clear();
        self.insert_rows.clear();
        self.update_table = None;
        self.assignments.clear();
        self.delete_table = None;
        self.returning.clear();
        assert(self@ =~~= empty_statement(old(self)@.dialect));
    }
}

/// Renders one value position.
fn cell_sql(cell: &Cell, dialect: Dialect) -> (out: String)
    ensures
        out@ == cell_text(cell@, as_placeholder(dialect)),
{
    match cell {
        Cell::Literal(t) => t.clone(),
        Cell::Bound(_) => String::from_str(dialect.placeholder()),
    }
}

/// Renders one row of an `INSERT`.
fn row_sql(row: &Vec<Cell>, dialect: Dialect) -> (out: String)
    ensures
        out@ == row_text(cell_models(row@), as_placeholder(dialect)),
{
    let ghost w = as_placeholder(dialect);
    let mut parts: Vec<String> = Vec::new();
    let mut i: usize = 0;
    while i < row.len()
        invariant
            i <= row.len(),
            parts@.len() == i,
            w == as_placeholder(dialect),
            forall|j: int| 0 <= j < i ==> parts@[j]@ == cell_text(row@[j]@, w),
        decreases row.len() - i,
    {
        parts.push(cell_sql(&row[i], dialect));
        i += 1;
    }
    assert(texts(parts@) =~= cell_models(row@).map_values(|c: CellModel| cell_text(c, w)));
    let mut out = String::from_str("(");
    let inner = join_strings(&parts, ", ");
    out.append(inner.as_str());
    out.append(")");
    out
}

impl BuilderState {
    /// Renders the joins.
    fn joins_sql(&self) -> (out: String)
        ensures
            out@ == joins_clause(self@.joins),
    {
        let mut parts: Vec<String> = Vec::new();
        let mut i: usize = 0;
        while i < self.joins.len()
            invariant
                i <= self.joins.len(),
                parts@.len() == i,
                forall|j: int| 0 <= j < i ==> parts@[j]@ == join_text(self.joins@[j]@),
            decreases self.joins.len() - i,
        {
            let j = &self.joins[i];
            let mut part = String::from_str(" ");
            part.append(j.kind.as_sql());
            part.append(" JOIN ");
            part.append(j.table.as_str());
            part.append(" ON ");
            part.append(j.on.as_str());
            parts.push(part);
            i += 1;
        }
        assert(texts(parts@) =~= self@.joins.map_values(|j: JoinModel| join_text(j)));
        let out = join_strings(&parts, "");
        proof {
            reveal_strlit("");
            assert(""@ =~= Seq::<char>::empty());
        }
        out
    }

    /// Renders the `WHERE` clause.
    fn where_sql(&self) -> (out: String)
        ensures
            out@ == where_clause(self@.conditions, as_placeholder(self@.dialect)),
    {
        let ghost w = as_placeholder(self.dialect);
        if self.conditions.len() == 0 {
            return String::new();
        }
        let mut parts: Vec<String> = Vec::new();
        let mut i: usize = 0;
        while i < self.conditions.len()
            invariant
                i <= self.conditions.len(),
                parts@.len() == i,
                w == as_placeholder(self.dialect),
                forall|j: int| 0 <= j < i ==> parts@[j]@ == condition_text(self.conditions@[j]@, w),
            decreases self.conditions.len() - i,
        {
            let part = match &self.conditions[i] {
                Condition::Raw(t) => t.clone(),
                Condition::Equals(column, _) => {
                    let mut part = column.clone();
                    part.append(" = ");
                    part.append(self.dialect.placeholder());
                    part
                },
            };
            parts.push(part);
            i += 1;
        }
        assert(texts(parts@) =~= self@.conditions.map_values(
            |c: ConditionModel| condition_text(c, w),
        ));
        let mut out = String::from_str(" WHERE ");
        let inner = join_strings(&parts, " AND ");
        out.append(inner.as_str());
        out
    }

    /// Renders the `ORDER BY` clause.
    fn order_sql(&self) -> (out: String)
        ensures
            out@ == order_clause(self@.order_by),
    {
        if self.order_by.len() == 0 {
            return String::new();
        }
        let mut parts: Vec<String> = Vec::new();
        let mut i: usize = 0;
        while i < self.order_by.len()
            invariant
                i <= self.order_by.len(),
                parts@.len() == i,
                forall|j: int| 0 <= j < i ==> parts@[j]@ == order_text(self.order_by@[j]@),
            decreases self.order_by.len() - i,
        {
            let o = &self.order_by[i];
            let mut part = o.column.clone();
            part.append(" ");
            part.append(o.direction.as_sql());
            parts.push(part);
            i += 1;
        }
        assert(texts(parts@) =~= self@.order_by.map_values(|o: OrderModel| order_text(o)));
        let mut out = String::from_str(" ORDER BY ");
        let inner = join_strings(&parts, ", ");
        out.append(inner.as_str());
        out
    }

    /// Renders the `RETURNING` clause.
    fn returning_sql(&self) -> (out: String)
        ensures
            out@ == returning_clause(self@.dialect, self@.returning),
    {
        if self.dialect.supports_returning() && self.returning.len() > 0 {
            let mut out = String::from_str(" RETURNING ");
            let inner = join_strings(&self.returning, ", ");
            out.append(inner.as_str());
            out
        } else {
            String::new()
        }
    }

    /// Renders the `GROUP BY` clause.
    fn group_sql(&self) -> (out: String)
        ensures
            out@ == group_clause(self@.group_by),
    {
        if self.group_by.len() == 0 {
            return String::new();
        }
        let mut out = String::from_str(" GROUP BY ");
        let cols = join_strings(&self.group_by, ", ");
        out.append(cols.as_str());
        out
    }

    /// Renders the `HAVING` clause.
    fn having_sql(&self) -> (out: String)
        ensures
            out@ == having_clause(self@.having),
    {
        match &self.having {
            Some(h) => {
                let mut out = String::from_str(" HAVING ");
                out.append(h.as_str());
                out
            },
            None => String::new(),
        }
    }

    /// Renders the `LIMIT` clause.
    fn limit_sql(&self) -> (out: String)
        ensures
            out@ == limit_clause(self@.limit),
    {
        match self.limit {
            Some(n) => {
                let mut out = String::from_str(" LIMIT ");
                let digits = u64_to_string(n);
                out.append(digits.as_str());
                out
            },
            None => String::new(),
        }
    }

    /// Renders the `OFFSET` clause.
    fn offset_sql(&self) -> (out: String)
        ensures
            out@ == offset_clause(self@.offset),
    {
        match self.offset {
            Some(n) => {
                let mut out = String::from_str(" OFFSET ");
                let digits = u64_to_string(n);
                out.append(digits.as_str());
                out
            },
            None => String::new(),
        }
    }

    /// Renders the selected columns, or `*`.
    fn projection_sql(&self) -> (out: String)
        ensures
            out@ == projection(self@.columns),
    {
        if self.columns.len() == 0 {
            String::from_str("*")
        } else {
            join_strings(&self.columns, ", ")
        }
    }

    /// Renders a `SELECT` up to its `WHERE` clause.
    fn select_head_sql(&self, table: &String) -> (out: String)
        requires
            self.table == Some(*table),
        ensures
            out@ == select_head(self@),
    {
        let mut sql = String::from_str("SELECT ");
        let quantifier = if self.distinct {
            "DISTINCT "
        } else {
            ""
        };
        proof {
            reveal_strlit("");
            assert(""@ =~= Seq::<char>::empty());
        }
        sql.append(quantifier);
        let columns = self.projection_sql();
        sql.append(columns.as_str());
        sql.append(" FROM ");
        sql.append(table.as_str());
        let joins = self.joins_sql();
        sql.append(joins.as_str());
        sql
    }

    /// Renders a `SELECT` from behind its `WHERE` clause.
    fn select_tail_sql(&self) -> (out: String)
        ensures
            out@ == select_tail(self@),
    {
        let mut sql = self.group_sql();
        let having = self.having_sql();
        sql.append(having.as_str());
        let order = self.order_sql();
        sql.append(order.as_str());
        let limit = self.limit_sql();
        sql.append(limit.as_str());
        let offset = self.offset_sql();
        sql.append(offset.as_str());
        sql
    }

    /// Renders the statement as a `SELECT`.
    pub fn build_select(&self) -> (r: Result<String, Error>)
        ensures
            match r {
                Ok(sql) => self@.table is Some && sql@ == select_text(
                    self@,
                    as_placeholder(self@.dialect),
                ),
                Err(e) => self@.table is None && e.is_query_error(
                    "No table specified for SELECT"@,
                ),
            },
    {
        let table = match &self.table {
            Some(t) => t,
            None => {
                return Err(Error::QueryError(String::from_str("No table specified for SELECT")));
            },
        };
        let mut sql = self.select_head_sql(table);
        let conditions = self.where_sql();
        sql.append(conditions.as_str());
        let tail = self.select_tail_sql();
        sql.append(tail.as_str());
        Ok(sql)
    }

    /// Renders the statement as an `INSERT`.
    pub fn build_insert(&self) -> (r: Result<String, Error>)
        ensures
            match r {
                Ok(sql) => {
                    &&& self@.insert_table is Some
                    &&& self@.insert_columns.len() > 0
                    &&& self@.insert_rows.len() > 0
                    &&& sql@ == insert_text(self@, as_placeholder(self@.dialect))
                },
                Err(e) => if self@.insert_table is None {
                    e.is_query_error("No table specified for INSERT"@)
                } else if self@.insert_columns.len() == 0 {
                    e.is_query_error("No columns specified for INSERT"@)
                } else {
                    self@.insert_rows.len() == 0 && e.is_query_error(
                        "No values specified for INSERT"@,
                    )
                },
            },
    {
        let ghost w = as_placeholder(self.dialect);
        let table = match &self.insert_table {
            Some(t) => t,
            None => {
                return Err(Error::QueryError(String::from_str("No table specified for INSERT")));
            },
        };
        if self.insert_columns.len() == 0 {
            return Err(Error::QueryError(String::from_str("No columns specified for INSERT")));
        }
        if self.insert_rows.len() == 0 {
            return Err(Error::QueryError(String::from_str("No values specified for INSERT")));
        }
        let mut sql = String::from_str("INSERT INTO ");
        sql.append(table.as_str());
        sql.append(" (");
        let cols = join_strings(&self.insert_columns, ", ");
        sql.append(cols.as_str());
        sql.append(") VALUES ");
        let mut groups: Vec<String> = Vec::new();
        let mut i: usize = 0;
        while i < self.insert_rows.len()
            invariant
                i <= self.insert_rows.len(),
                groups@.len() == i,
                w == as_placeholder(self.dialect),
                forall|j: int|
                    0 <= j < i ==> groups@[j]@ == row_text(cell_models(self.insert_rows@[j]@), w),
            decreases self.insert_rows.len() - i,
        {
            groups.push(row_sql(&self.insert_rows[i], self.dialect));
            i += 1;
        }
        assert(texts(groups@) =~= self@.insert_rows.map_values(
            |r: Seq<CellModel>| row_text(r, w),
        ));
        let rows = join_strings(&groups, ", ");
        sql.append(rows.as_str());
        let returning = self.returning_sql();
        sql.append(returning.as_str());
        assert(sql@ =~= insert_text(self@, w));
        Ok(sql)
    }

    /// Renders the statement as an `UPDATE`.
    pub fn build_update(&self) -> (r: Result<String, Error>)
        ensures
            match r {
                Ok(sql) => {
                    &&& self@.update_table is Some
                    &&& self@.assignments.len() > 0
                    &&& sql@ == update_text(self@, as_placeholder(self@.dialect))
                },
                Err(e) => if self@.update_table is None {
                    e.is_query_error("No table specified for UPDATE"@)
                } else {
                    self@.assignments.len() == 0 && e.is_query_error(
                        "No SET clauses specified for UPDATE"@,
                    )
                },
            },
    {
        let ghost w = as_placeholder(self.dialect);
        let table = match &self.update_table {
            Some(t) => t,
            None => {
                return Err(Error::QueryError(String::from_str("No table specified for UPDATE")));
            },
        };
        if self.assignments.len() == 0 {
            return Err(
                Error::QueryError(String::from_str("No SET clauses specified for UPDATE")),
            );
        }
        let mut sql = String::from_str("UPDATE ");
        sql.append(table.as_str());
        sql.append(" SET ");
        let mut parts: Vec<String> = Vec::new();
        let mut i: usize = 0;
        while i < self.assignments.len()
            invariant
                i <= self.assignments.len(),
                parts@.len() == i,
                w == as_placeholder(self.dialect),
                forall|j: int|
                    0 <= j < i ==> parts@[j]@ == assignment_text(self.assignments@[j]@, w),
            decreases self.assignments.len() - i,
        {
            let a = &self.assignments[i];
            let mut part = a.column.clone();
            part.append(" = ");
            let value = cell_sql(&a.value, self.dialect);
            part.append(value.as_str());
            parts.push(part);
            i += 1;
        }
        assert(texts(parts@) =~= self@.assignments.map_values(
            |a: AssignmentModel| assignment_text(a, w),
        ));
        let sets = join_strings(&parts, ", ");
        sql.append(sets.as_str());
        let conditions = self.where_sql();
        sql.append(conditions.as_str());
        let returning = self.returning_sql();
        sql.append(returning.as_str());
        assert(sql@ =~= update_text(self@, w));
        Ok(sql)
    }

    /// Renders the statement as a `DELETE`.
    pub fn build_delete(&self) -> (r: Result<String, Error>)
        ensures
            match r {
                Ok(sql) => self@.delete_table is Some && sql@ == delete_text(
                    self@,
                    as_placeholder(self@.dialect),
                ),
                Err(e) => self@.delete_table is None && e.is_query_error(
                    "No table specified for DELETE"@,
                ),
            },
    {
        let table = match &self.delete_table {
            Some(t) => t,
            None => {
                return Err(Error::QueryError(String::from_str("No table specified for DELETE")));
            },
        };
        let mut sql = String::from_str("DELETE FROM ");
        sql.append(table.as_str());
        let conditions = self.where_sql();
        sql.append(conditions.as_str());
        let returning = self.returning_sql();
        sql.append(returning.as_str());
        assert(sql@ =~= delete_text(self@, as_placeholder(self@.dialect)));
        Ok(sql)
    }

    /// Renders the statement of the active kind, or says which required
    /// part is missing.
    pub fn build(&self) -> (r: Result<String, Error>)
        ensures
            match r {
                Ok(sql) => render_failure(self@) is None && sql@ == rendered_sql(self@),
                Err(e) => render_failure(self@) is Some && e.is_query_error(
                    render_failure(self@)->0,
                ),
            },
    {
        match self.kind {
            QueryType::Select => self.build_select(),
            QueryType::Insert => self.build_insert(),
            QueryType::Update => self.build_update(),
            QueryType::Delete => self.build_delete(),
        }
    }
}

/// Appends the value bound in `cell`, if one is.
fn push_cell_value(cell: &Cell, out: &mut Vec<QueryValue>)
    ensures
        scalars(final(out)@) == scalars(old(out)@) + cell_values(cell@),
{
    match cell {
        Cell::Literal(_) => {
            assert(scalars(out@) =~= scalars(old(out)@) + cell_values(cell@));
        },
        Cell::Bound(v) => {
            out.push(v.clone());
            assert(scalars(out@) =~= scalars(old(out)@) + cell_values(cell@));
        },
    }
}

/// Appends the values bound in `row`, left to right.
fn push_row_values(row: &Vec<Cell>, out: &mut Vec<QueryValue>)
    ensures
        scalars(final(out)@) == scalars(old(out)@) + row_values(cell_models(row@)),
{
    let ghost cells = cell_models(row@);
    let mut i: usize = 0;
    assert(row_values(cells.take(0)) =~= Seq::<Scalar>::empty());
    assert(scalars(out@) =~= scalars(old(out)@) + row_values(cells.take(0)));
    while i < row.len()
        invariant
            i <= row.len(),
            cells == cell_models(row@),
            scalars(out@) == scalars(old(out)@) + row_values(cells.take(i as int)),
        decreases row.len() - i,
    {
        push_cell_value(&row[i], out);
        proof {
            let mapped = cells.take(i as int).map_values(|c: CellModel| cell_values(c));
            assert(cells.take(i + 1).map_values(|c: CellModel| cell_values(c)) =~= mapped.push(
                cell_values(cells[i as int]),
            ));
            mapped.lemma_flatten_push(cell_values(cells[i as int]));
            assert(scalars(out@) =~= scalars(old(out)@) + row_values(cells.take(i + 1)));
        }
        i += 1;
    }
    assert(cells.take(row.len() as int) =~= cells);
}

impl BuilderState {
    /// Appends the values bound in the conjuncts, left to right.
    fn push_condition_values(&self, out: &mut Vec<QueryValue>)
        ensures
            scalars(final(out)@) == scalars(old(out)@) + conditions_values(self@.conditions),
    {
        let ghost conds = self@.conditions;
        let mut i: usize = 0;
        assert(conditions_values(conds.take(0)) =~= Seq::<Scalar>::empty());
        assert(scalars(out@) =~= scalars(old(out)@) + conditions_values(conds.take(0)));
        while i < self.conditions.len()
            invariant
                i <= self.conditions.len(),
                conds == self@.conditions,
                scalars(out@) == scalars(old(out)@) + conditions_values(conds.take(i as int)),
            decreases self.conditions.len() - i,
        {
            let ghost before = out@;
            match &self.conditions[i] {
                Condition::Raw(_) => {},
                Condition::Equals(_, v) => {
                    out.push(v.clone());
                },
            }
            proof {
                assert(scalars(out@) =~= scalars(before) + condition_values(conds[i as int]));
                let mapped = conds.take(i as int).map_values(
                    |c: ConditionModel| condition_values(c),
                );
                assert(conds.take(i + 1).map_values(|c: ConditionModel| condition_values(c))
                    =~= mapped.push(condition_values(conds[i as int])));
                mapped.lemma_flatten_push(condition_values(conds[i as int]));
                assert(scalars(out@) =~= scalars(old(out)@) + conditions_values(
                    conds.take(i + 1),
                ));
            }
            i += 1;
        }
        assert(conds.take(self.conditions.len() as int) =~= conds);
    }

    /// Appends the values bound in the assignments, left to right.
    fn push_assignment_values(&self, out: &mut Vec<QueryValue>)
        ensures
            scalars(final(out)@) == scalars(old(out)@) + assignments_values(self@.assignments),
    {
        let ghost sets = self@.assignments;
        let mut i: usize = 0;
        assert(assignments_values(sets.take(0)) =~= Seq::<Scalar>::empty());
        assert(scalars(out@) =~= scalars(old(out)@) + assignments_values(sets.take(0)));
        while i < self.assignments.len()
            invariant
                i <= self.assignments.len(),
                sets == self@.assignments,
                scalars(out@) == scalars(old(out)@) + assignments_values(sets.take(i as int)),
            decreases self.assignments.len() - i,
        {
            push_cell_value(&self.assignments[i].value, out);
            proof {
                let mapped = sets.take(i as int).map_values(
                    |a: AssignmentModel| cell_values(a.value),
                );
                assert(sets.take(i + 1).map_values(|a: AssignmentModel| cell_values(a.value))
                    =~= mapped.push(cell_values(sets[i as int].value)));
                mapped.lemma_flatten_push(cell_values(sets[i as int].value));
                assert(scalars(out@) =~= scalars(old(out)@) + assignments_values(
                    sets.take(i + 1),
                ));
            }
            i += 1;
        }
        assert(sets.take(self.assignments.len() as int) =~= sets);
    }

    /// Appends the values bound in the rows, row after row.
    fn push_rows_values(&self, out: &mut Vec<QueryValue>)
        ensures
            scalars(final(out)@) == scalars(old(out)@) + rows_values(self@.insert_rows),
    {
        let ghost rows = self@.insert_rows;
        let mut i: usize = 0;
        assert(rows_values(rows.take(0)) =~= Seq::<Scalar>::empty());
        assert(scalars(out@) =~= scalars(old(out)@) + rows_values(rows.take(0)));
        while i < self.insert_rows.len()
            invariant
                i <= self.insert_rows.len(),
                rows == self@.insert_rows,
                scalars(out@) == scalars(old(out)@) + rows_values(rows.take(i as int)),
            decreases self.insert_rows.len() - i,
        {
            push_row_values(&self.insert_rows[i], out);
            proof {
                let mapped = rows.take(i as int).map_values(|r: Seq<CellModel>| row_values(r));
                assert(rows.take(i + 1).map_values(|r: Seq<CellModel>| row_values(r))
                    =~= mapped.push(row_values(rows[i as int])));
                mapped.lemma_flatten_push(row_values(rows[i as int]));
                assert(scalars(out@) =~= scalars(old(out)@) + rows_values(rows.take(i + 1)));
            }
            i += 1;
        }
        assert(rows.take(self.insert_rows.len() as int) =~= rows);
    }

    /// The values bound in the statement of the active kind, in the order
    /// in which their placeholders stand in the rendered text.
    pub fn params(&self) -> (out: Vec<QueryValue>)
        ensures
            scalars(out@) == bound_values(self@),
    {
        let mut out: Vec<QueryValue> = Vec::new();
        assert(scalars(out@) =~= Seq::<Scalar>::empty());
        match self.kind {
            QueryType::Select => {
                self.push_condition_values(&mut out);
            },
            QueryType::Insert => {
                self.push_rows_values(&mut out);
            },
            QueryType::Update => {
                self.push_assignment_values(&mut out);
                self.push_condition_values(&mut out);
            },
            QueryType::Delete => {
                self.push_condition_values(&mut out);
            },
        }
        assert(scalars(out@) =~= bound_values(self@));
        out
    }
}

} // verus!
