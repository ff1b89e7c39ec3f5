//! Statement assembly: the dialect, the shapes a statement can take, and the
//! builder that renders them.

pub mod binding;
pub mod builder;
pub mod executor;
pub mod laws;
pub mod model;
pub mod state;

use vstd::prelude::*;
use vstd::string::*;

pub use executor::{QueryValue, Scalar};

use crate::error::Error;
use crate::query::executor::scalars;
use crate::query::model::{
    bound_values, empty_statement, render_failure, rendered_sql, AssignmentModel, CellModel,
    ConditionModel, JoinModel, OrderModel, QueryType, StatementModel,
};
use crate::query::state::slice_texts;
use crate::schema::column::{column_names, Column};

verus! {

/// How a joined table's rows are matched with the rows already selected.
#[derive(Debug, Clone, Copy, PartialEq, Eq, Structural)]
pub enum JoinType {
    Inner,
    Left,
    Right,
    Full,
}

impl JoinType {
    /// The keyword that names the join in a statement.
    pub open spec fn keyword(self) -> Seq<char> {
        match self {
            JoinType::Inner => "INNER"@,
            JoinType::Left => "LEFT"@,
            JoinType::Right => "RIGHT"@,
            JoinType::Full => "FULL"@,
        }
    }

    /// The keyword that names the join in a statement.
    pub fn as_sql(self) -> (s: &'static str)
        ensures
            s@ == self.keyword(),
    {
        match self {
            JoinType::Inner => "INNER",
            JoinType::Left => "LEFT",
            JoinType::Right => "RIGHT",
            JoinType::Full => "FULL",
        }
    }
}

/// The direction in which an `ORDER BY` column sorts.
#[derive(Debug, Clone, Copy, PartialEq, Eq, Structural)]
pub enum OrderDirection {
    Asc,
    Desc,
}

impl OrderDirection {
    /// The keyword that names the direction in a statement.
    pub open spec fn keyword(self) -> Seq<char> {
        match self {
            OrderDirection::Asc => "ASC"@,
            OrderDirection::Desc => "DESC"@,
        }
    }

    /// The keyword that names the direction in a statement.
    pub fn as_sql(self) -> (s: &'static str)
        ensures
            s@ == self.keyword(),
    {
        match self {
            OrderDirection::Asc => "ASC",
            OrderDirection::Desc => "DESC",
        }
    }
}

/// The SQL variant that statements are rendered for.
#[derive(Debug, Clone, Copy, PartialEq, Eq, Structural)]
pub enum Dialect {
    SQLite,
    MySQL,
}

impl Dialect {
    /// Whether a mutating statement of this dialect may end in `RETURNING`.
    pub open spec fn returning_supported(self) -> bool {
        self == Dialect::SQLite
    }

    /// The token that stands for a bound parameter in rendered SQL.
    pub open spec fn placeholder_text(self) -> Seq<char> {
        "?"@
    }

    /// Whether a mutating statement of this dialect may end in `RETURNING`.
    #[verifier::when_used_as_spec(returning_supported)]
    pub fn supports_returning(self) -> (r: bool)
        ensures
            r == self.returning_supported(),
    {
        match self {
            Dialect::SQLite => true,
            Dialect::MySQL => false,
        }
    }

    /// The token that stands for a bound parameter in rendered SQL.
    pub fn placeholder(self) -> (s: &'static str)
        ensures
            s@ == self.placeholder_text(),
    {
        "?"
    }
}

/// The assembly of one statement at a time.
///
/// Every method that takes a `QueryValue` binds it: the text gets a
/// placeholder and the value goes to the parameters. Methods that take the
/// text of a condition or of a value write it into the statement as it is;
/// they are for text that the program itself wrote, never for input.
///
/// The methods may be called in any order; the clauses render in the order
/// of the SQL grammar. Calling the entry point of another kind of statement
/// changes the kind and keeps what was told before.
pub trait QueryBuilder: Sized {
    /// Everything the builder has been told.
    spec fn model(&self) -> StatementModel;

    /// Makes the statement a `SELECT` of the named columns; none means all.
    fn select(&mut self, columns: &[Column]) -> (ret: &mut Self)
        ensures
            ret.model() == (StatementModel {
                kind: QueryType::Select,
                columns: column_names(columns@),
                ..old(self).model()
            }),
            *final(self) == *final(ret),
    ;

    /// Names the table a `SELECT` reads.
    fn from(&mut self, table: &str) -> (ret: &mut Self)
        ensures
            ret.model() == (StatementModel {
                table: Some(table@),
                ..old(self).model()
            }),
            *final(self) == *final(ret),
    ;

    /// Adds a conjunct whose text is written into the statement as it is. Not
    /// for input: use `where_eq`.
    fn where_clause(&mut self, condition: &str) -> (ret: &mut Self)
        ensures
            ret.model() == (StatementModel {
                conditions: old(self).model().conditions.push(ConditionModel::Raw(condition@)),
                ..old(self).model()
            }),
            *final(self) == *final(ret),
    ;

    /// Adds the conjunct `<column> = <placeholder>` and binds `value` to it.
    fn where_eq(&mut self, column: &str, value: QueryValue) -> (ret: &mut Self)
        ensures
            ret.model() == (StatementModel {
                conditions: old(self).model().conditions.push(
                    ConditionModel::Equals(column@, value@),
                ),
                ..old(self).model()
            }),
            *final(self) == *final(ret),
    ;

    /// Adds an `ORDER BY` entry.
    fn order_by(&mut self, column: &str, direction: OrderDirection) -> (ret: &mut Self)
        ensures
            ret.model() == (StatementModel {
                order_by: old(self).model().order_by.push(OrderModel { column: column@, direction }),
                ..old(self).model()
            }),
            *final(self) == *final(ret),
    ;

    /// Sets the `LIMIT`.
    fn limit(&mut self, limit: u64) -> (ret: &mut Self)
        ensures
            ret.model() == (StatementModel {
                limit: Some(limit),
                ..old(self).model()
            }),
            *final(self) == *final(ret),
    ;

    /// Sets the `OFFSET`.
    fn offset(&mut self, offset: u64) -> (ret: &mut Self)
        ensures
            ret.model() == (StatementModel {
                offset: Some(offset),
                ..old(self).model()
            }),
            *final(self) == *final(ret),
    ;

    /// Makes the statement an `INSERT` into `table` of the named columns.
    fn insert_into(&mut self, table: &str, columns: &[&str]) -> (ret: &mut Self)
        ensures
            ret.model() == (StatementModel {
                kind: QueryType::Insert,
                insert_table: Some(table@),
                insert_columns: slice_texts(columns@),
                ..old(self).model()
            }),
            *final(self) == *final(ret),
    ;

    /// Adds a row whose values are written into the statement as they are.
    /// Not for input: use `values_params`.
    fn values(&mut self, values: &[&str]) -> (ret: &mut Self)
        ensures
            ret.model() == (StatementModel {
                insert_rows: old(self).model().insert_rows.push(
                    slice_texts(values@).map_values(|t: Seq<char>| CellModel::Literal(t)),
                ),
                ..old(self).model()
            }),
            *final(self) == *final(ret),
    ;

    /// Adds a row of bound values, one placeholder each.
    fn values_params(&mut self, values: &[QueryValue]) -> (ret: &mut Self)
        ensures
            ret.model() == (StatementModel {
                insert_rows: old(self).model().insert_rows.push(
                    scalars(values@).map_values(|v: Scalar| CellModel::Bound(v)),
                ),
                ..old(self).model()
            }),
            *final(self) == *final(ret),
    ;

    /// Makes the statement an `UPDATE` of `table`.
    fn update(&mut self, table: &str) -> (ret: &mut Self)
        ensures
            ret.model() == (StatementModel {
                kind: QueryType::Update,
                update_table: Some(table@),
                ..old(self).model()
            }),
            *final(self) == *final(ret),
    ;

    /// Adds the assignment `<column> = <value>`, the value written as it is.
    /// Not for input: use `set_param`.
    fn set(&mut self, column: &str, value: &str) -> (ret: &mut Self)
        ensures
            ret.model() == (StatementModel {
                assignments: old(self).model().assignments.push(
                    AssignmentModel { column: column@, value: CellModel::Literal(value@) },
                ),
                ..old(self).model()
            }),
            *final(self) == *final(ret),
    ;

    /// Adds the assignment `<column> = <placeholder>` and binds `value` to it.
    fn set_param(&mut self, column: &str, value: QueryValue) -> (ret: &mut Self)
        ensures
            ret.model() == (StatementModel {
                assignments: old(self).model().assignments.push(
                    AssignmentModel { column: column@, value: CellModel::Bound(value@) },
                ),
                ..old(self).model()
            }),
            *final(self) == *final(ret),
    ;

    /// Makes the statement a `DELETE` from `table`.
    fn delete_from(&mut self, table: &str) -> (ret: &mut Self)
        ensures
            ret.model() == (StatementModel {
                kind: QueryType::Delete,
                delete_table: Some(table@),
                ..old(self).model()
            }),
            *final(self) == *final(ret),
    ;

    /// Asks for the named columns of the rows a mutating statement touches.
    /// Accepted by every dialect; rendered only by those that support it.
    fn returning(&mut self, columns: &[&str]) -> (ret: &mut Self)
        ensures
            ret.model() == (StatementModel {
                returning: slice_texts(columns@),
                ..old(self).model()
            }),
            *final(self) == *final(ret),
    ;

    /// Adds a join; joins render in call order.
    fn join(&mut self, table: &str, on: &str, join_type: JoinType) -> (ret: &mut Self)
        ensures
            ret.model() == (StatementModel {
                joins: old(self).model().joins.push(
                    JoinModel { kind: join_type, table: table@, on: on@ },
                ),
                ..old(self).model()
            }),
            *final(self) == *final(ret),
    ;

    /// Adds an `INNER JOIN`.
    fn inner_join(&mut self, table: &str, on: &str) -> (ret: &mut Self)
        ensures
            ret.model() == (StatementModel {
                joins: old(self).model().joins.push(
                    JoinModel { kind: JoinType::Inner, table: table@, on: on@ },
                ),
                ..old(self).model()
            }),
            *final(self) == *final(ret),
    {
        self.join(table, on, JoinType::Inner)
    }

    /// Adds a `LEFT JOIN`.
    fn left_join(&mut self, table: &str, on: &str) -> (ret: &mut Self)
        ensures
            ret.model() == (StatementModel {
                joins: old(self).model().joins.push(
                    JoinModel { kind: JoinType::Left, table: table@, on: on@ },
                ),
                ..old(self).model()
            }),
            *final(self) == *final(ret),
    {
        self.join(table, on, JoinType::Left)
    }

    /// Adds a `RIGHT JOIN`.
    fn right_join(&mut self, table: &str, on: &str) -> (ret: &mut Self)
        ensures
            ret.model() == (StatementModel {
                joins: old(self).model().joins.push(
                    JoinModel { kind: JoinType::Right, table: table@, on: on@ },
                ),
                ..old(self).model()
            }),
            *final(self) == *final(ret),
    {
        self.join(table, on, JoinType::Right)
    }

    /// Sets the `GROUP BY` columns.
    fn group_by(&mut self, columns: &[&str]) -> (ret: &mut Self)
        ensures
            ret.model() == (StatementModel {
                group_by: slice_texts(columns@),
                ..old(self).model()
            }),
            *final(self) == *final(ret),
    ;

    /// Sets the `HAVING` condition, written into the statement as it is.
    fn having(&mut self, condition: &str) -> (ret: &mut Self)
        ensures
            ret.model() == (StatementModel {
                having: Some(condition@),
                ..old(self).model()
            }),
            *final(self) == *final(ret),
    ;

    /// Makes a `SELECT` return distinct rows only.
    fn distinct(&mut self) -> (ret: &mut Self)
        ensures
            ret.model() == (StatementModel {
                distinct: true,
                ..old(self).model()
            }),
            *final(self) == *final(ret),
    ;

    /// Renders the statement of the active kind, or says which required
    /// part is missing. Nothing is rendered in part.
    fn build(&self) -> (r: Result<String, Error>)
        ensures
            match r {
                Ok(sql) => render_failure(self.model()) is None && sql@ == rendered_sql(
                    self.model(),
                ),
                Err(e) => render_failure(self.model()) is Some && e.is_query_error(
                    render_failure(self.model())->0,
                ),
            },
    ;

    /// The values bound in the statement of the active kind, in the order
    /// in which their placeholders stand in the rendered text. They go to
    /// the store together with that text.
    fn params(&self) -> (out: Vec<QueryValue>)
        ensures
            scalars(out@) == bound_values(self.model()),
    ;

    /// Forgets everything but the dialect, the bound values too: what was
    /// told before cannot be rendered any more.
    fn reset(&mut self)
        ensures
            final(self).model() == empty_statement(old(self).model().dialect),
            render_failure(final(self).model()) == Some("No table specified for SELECT"@),
            bound_values(final(self).model()) == Seq::<Scalar>::empty(),
    ;
}

} // verus!
