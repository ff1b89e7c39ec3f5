//! The builders: one per dialect, and the one that stands for either. All
//! of them keep their statement in the same state and render it the same
//! way; only the dialect differs.

use vstd::prelude::*;
use vstd::string::*;

use crate::error::Error;
use crate::query::binding::{bind, placeholder_count};
use crate::query::executor::{QueryExecutor, QueryValue};
use crate::query::laws::{lemma_parameters_answer_placeholders, raw_text_is_plain};
use crate::query::model::{
    as_placeholder, bound_values, delete_text, empty_statement, insert_text, render_failure,
    rendered_sql, select_text, statement_text, update_text, Inscribe, StatementModel,
};
use crate::query::state::BuilderState;
use crate::query::{Dialect, JoinType, OrderDirection, QueryBuilder};
use crate::schema::column::{column_names, Column};
use crate::text::texts;

verus! {

/// The names of `columns`, each in a string of its own.
pub fn column_name_list(columns: &[Column]) -> (out: Vec<String>)
    ensures
        texts(out@) == column_names(columns@),
{
    let mut out: Vec<String> = Vec::new();
    let mut i: usize = 0;
    while i < columns.len()
        invariant
            i <= columns.len(),
            out@.len() == i,
            forall|j: int| 0 <= j < i ==> out@[j]@ == columns@[j]@.name,
        decreases columns.len() - i,
    {
        out.push(String::from_str(columns[i].name()));
        i += 1;
    }
    assert(texts(out@) =~= column_names(columns@));
    out
}

/// A builder of statements for SQLite.
pub struct SQLiteQueryBuilder {
    state: BuilderState,
}

/// A builder of statements for MySQL.
pub struct MySQLQueryBuilder {
    state: BuilderState,
}

/// A builder of statements for either dialect.
pub enum QueryBuilderEnum {
    SQLite(SQLiteQueryBuilder),
    MySQL(MySQLQueryBuilder),
}

impl SQLiteQueryBuilder {
    /// A builder that has been told nothing.
    pub fn new() -> (b: Self)
        ensures
            b.model() == empty_statement(Dialect::SQLite),
    {
        SQLiteQueryBuilder { state: BuilderState::new(Dialect::SQLite) }
    }

    /// Renders the statement as a `SELECT`, whatever the active kind.
    pub fn build_select(&self) -> (r: Result<String, Error>)
        ensures
            match r {
                Ok(sql) => self.model().table is Some && sql@ == select_text(
                    self.model(),
                    as_placeholder(self.model().dialect),
                ),
                Err(e) => self.model().table is None && e.is_query_error(
                    "No table specified for SELECT"@,
                ),
            },
    {
        self.state.build_select()
    }

    /// Renders the statement as an `INSERT`, whatever the active kind.
    pub fn build_insert(&self) -> (r: Result<String, Error>)
        ensures
            match r {
                Ok(sql) => {
                    &&& self.model().insert_table is Some
                    &&& self.model().insert_columns.len() > 0
                    &&& self.model().insert_rows.len() > 0
                    &&& sql@ == insert_text(self.model(), as_placeholder(self.model().dialect))
                },
                Err(e) => if self.model().insert_table is None {
                    e.is_query_error("No table specified for INSERT"@)
                } else if self.model().insert_columns.len() == 0 {
                    e.is_query_error("No columns specified for INSERT"@)
                } else {
                    self.model().insert_rows.len() == 0 && e.is_query_error(
                        "No values specified for INSERT"@,
                    )
                },
            },
    {
        self.state.build_insert()
    }

    /// Renders the statement as an `UPDATE`, whatever the active kind.
    pub fn build_update(&self) -> (r: Result<String, Error>)
        ensures
            match r {
                Ok(sql) => {
                    &&& self.model().update_table is Some
                    &&& self.model().assignments.len() > 0
                    &&& sql@ == update_text(self.model(), as_placeholder(self.model().dialect))
                },
                Err(e) => if self.model().update_table is None {
                    e.is_query_error("No table specified for UPDATE"@)
                } else {
                    self.model().assignments.len() == 0 && e.is_query_error(
                        "No SET clauses specified for UPDATE"@,
                    )
                },
            },
    {
        self.state.build_update()
    }

    /// Renders the statement as a `DELETE`, whatever the active kind.
    pub fn build_delete(&self) -> (r: Result<String, Error>)
        ensures
            match r {
                Ok(sql) => self.model().delete_table is Some && sql@ == delete_text(
                    self.model(),
                    as_placeholder(self.model().dialect),
                ),
                Err(e) => self.model().delete_table is None && e.is_query_error(
                    "No table specified for DELETE"@,
                ),
            },
    {
        self.state.build_delete()
    }
}

impl MySQLQueryBuilder {
    /// A builder that has been told nothing.
    pub fn new() -> (b: Self)
        ensures
            b.model() == empty_statement(Dialect::MySQL),
    {
        MySQLQueryBuilder { state: BuilderState::new(Dialect::MySQL) }
    }

    /// Renders the statement as a `SELECT`, whatever the active kind.
    pub fn build_select(&self) -> (r: Result<String, Error>)
        ensures
            match r {
                Ok(sql) => self.model().table is Some && sql@ == select_text(
                    self.model(),
                    as_placeholder(self.model().dialect),
                ),
                Err(e) => self.model().table is None && e.is_query_error(
                    "No table specified for SELECT"@,
                ),
            },
    {
        self.state.build_select()
    }

    /// Renders the statement as an `INSERT`, whatever the active kind.
    pub fn build_insert(&self) -> (r: Result<String, Error>)
        ensures
            match r {
                Ok(sql) => {
                    &&& self.model().insert_table is Some
                    &&& self.model().insert_columns.len() > 0
                    &&& self.model().insert_rows.len() > 0
                    &&& sql@ == insert_text(self.model(), as_placeholder(self.model().dialect))
                },
                Err(e) => if self.model().insert_table is None {
                    e.is_query_error("No table specified for INSERT"@)
                } else if self.model().insert_columns.len() == 0 {
                    e.is_query_error("No columns specified for INSERT"@)
                } else {
                    self.model().insert_rows.len() == 0 && e.is_query_error(
                        "No values specified for INSERT"@,
                    )
                },
            },
    {
        self.state.build_insert()
    }

    /// Renders the statement as an `UPDATE`, whatever the active kind.
    pub fn build_update(&self) -> (r: Result<String, Error>)
        ensures
            match r {
                Ok(sql) => {
                    &&& self.model().update_table is Some
                    &&& self.model().assignments.len() > 0
                    &&& sql@ == update_text(self.model(), as_placeholder(self.model().dialect))
                },
                Err(e) => if self.model().update_table is None {
                    e.is_query_error("No table specified for UPDATE"@)
                } else {
                    self.model().assignments.len() == 0 && e.is_query_error(
                        "No SET clauses specified for UPDATE"@,
                    )
                },
            },
    {
        self.state.build_update()
    }

    /// Renders the statement as a `DELETE`, whatever the active kind.
    pub fn build_delete(&self) -> (r: Result<String, Error>)
        ensures
            match r {
                Ok(sql) => self.model().delete_table is Some && sql@ == delete_text(
                    self.model(),
                    as_placeholder(self.model().dialect),
                ),
                Err(e) => self.model().delete_table is None && e.is_query_error(
                    "No table specified for DELETE"@,
                ),
            },
    {
        self.state.build_delete()
    }
}

impl QueryBuilderEnum {
    /// A builder for `dialect` that has been told nothing.
    pub fn new(dialect: Dialect) -> (b: Self)
        ensures
            b.model() == empty_statement(dialect),
    {
        match dialect {
            Dialect::SQLite => QueryBuilderEnum::SQLite(SQLiteQueryBuilder::new()),
            Dialect::MySQL => QueryBuilderEnum::MySQL(MySQLQueryBuilder::new()),
        }
    }
}

impl QueryBuilder for SQLiteQueryBuilder {
    closed spec fn model(&self) -> StatementModel {
        self.state@
    }

    fn select(&mut self, columns: &[Column]) -> (ret: &mut Self) {
        let names = column_name_list(columns);
        self.state.select(names);
        self
    }

    fn from(&mut self, table: &str) -> (ret: &mut Self) {
        self.state.from(table);
        self
    }

    fn where_clause(&mut self, condition: &str) -> (ret: &mut Self) {
        self.state.where_clause(condition);
        self
    }

    fn where_eq(&mut self, column: &str, value: QueryValue) -> (ret: &mut Self) {
        self.state.where_eq(column, value);
        self
    }

    fn order_by(&mut self, column: &str, direction: OrderDirection) -> (ret: &mut Self) {
        self.state.order_by(column, direction);
        self
    }

    fn limit(&mut self, limit: u64) -> (ret: &mut Self) {
        self.state.limit(limit);
        self
    }

    fn offset(&mut self, offset: u64) -> (ret: &mut Self) {
        self.state.offset(offset);
        self
    }

    fn insert_into(&mut self, table: &str, columns: &[&str]) -> (ret: &mut Self) {
        self.state.insert_into(table, columns);
        self
    }

    fn values(&mut self, values: &[&str]) -> (ret: &mut Self) {
        self.state.values(values);
        self
    }

    fn values_params(&mut self, values: &[QueryValue]) -> (ret: &mut Self) {
        self.state.values_params(values);
        self
    }

    fn update(&mut self, table: &str) -> (ret: &mut Self) {
        self.state.update(table);
        self
    }

    fn set(&mut self, column: &str, value: &str) -> (ret: &mut Self) {
        self.state.set(column, value);
        self
    }

    fn set_param(&mut self, column: &str, value: QueryValue) -> (ret: &mut Self) {
        self.state.set_param(column, value);
        self
    }

    fn delete_from(&mut self, table: &str) -> (ret: &mut Self) {
        self.state.delete_from(table);
        self
    }

    fn returning(&mut self, columns: &[&str]) -> (ret: &mut Self) {
        self.state.returning(columns);
        self
    }

    fn join(&mut self, table: &str, on: &str, join_type: JoinType) -> (ret: &mut Self) {
        self.state.join(table, on, join_type);
        self
    }

    fn group_by(&mut self, columns: &[&str]) -> (ret: &mut Self) {
        self.state.group_by(columns);
        self
    }

    fn having(&mut self, condition: &str) -> (ret: &mut Self) {
        self.state.having(condition);
        self
    }

    fn distinct(&mut self) -> (ret: &mut Self) {
        self.state.distinct();
        self
    }

    fn build(&self) -> (r: Result<String, Error>) {
        self.state.build()
    }

    fn params(&self) -> (out: Vec<QueryValue>) {
        self.state.params()
    }

    fn reset(&mut self) {
        self.state.reset();
    }
}

impl QueryBuilder for MySQLQueryBuilder {
    closed spec fn model(&self) -> StatementModel {
        self.state@
    }

    fn select(&mut self, columns: &[Column]) -> (ret: &mut Self) {
        let names = column_name_list(columns);
        self.state.select(names);
        self
    }

    fn from(&mut self, table: &str) -> (ret: &mut Self) {
        self.state.from(table);
        self
    }

    fn where_clause(&mut self, condition: &str) -> (ret: &mut Self) {
        self.state.where_clause(condition);
        self
    }

    fn where_eq(&mut self, column: &str, value: QueryValue) -> (ret: &mut Self) {
        self.state.where_eq(column, value);
        self
    }

    fn order_by(&mut self, column: &str, direction: OrderDirection) -> (ret: &mut Self) {
        self.state.order_by(column, direction);
        self
    }

    fn limit(&mut self, limit: u64) -> (ret: &mut Self) {
        self.state.limit(limit);
        self
    }

    fn offset(&mut self, offset: u64) -> (ret: &mut Self) {
        self.state.offset(offset);
        self
    }

    fn insert_into(&mut self, table: &str, columns: &[&str]) -> (ret: &mut Self) {
        self.state.insert_into(table, columns);
        self
    }

    fn values(&mut self, values: &[&str]) -> (ret: &mut Self) {
        self.state.values(values);
        self
    }

    fn values_params(&mut self, values: &[QueryValue]) -> (ret: &mut Self) {
        self.state.values_params(values);
        self
    }

    fn update(&mut self, table: &str) -> (ret: &mut Self) {
        self.state.update(table);
        self
    }

    fn set(&mut self, column: &str, value: &str) -> (ret: &mut Self) {
        self.state.set(column, value);
        self
    }

    fn set_param(&mut self, column: &str, value: QueryValue) -> (ret: &mut Self) {
        self.state.set_param(column, value);
        self
    }

    fn delete_from(&mut self, table: &str) -> (ret: &mut Self) {
        self.state.delete_from(table);
        self
    }

    fn returning(&mut self, columns: &[&str]) -> (ret: &mut Self) {
        self.state.returning(columns);
        self
    }

    fn join(&mut self, table: &str, on: &str, join_type: JoinType) -> (ret: &mut Self) {
        self.state.join(table, on, join_type);
        self
    }

    fn group_by(&mut self, columns: &[&str]) -> (ret: &mut Self) {
        self.state.group_by(columns);
        self
    }

    fn having(&mut self, condition: &str) -> (ret: &mut Self) {
        self.state.having(condition);
        self
    }

    fn distinct(&mut self) -> (ret: &mut Self) {
        self.state.distinct();
        self
    }

    fn build(&self) -> (r: Result<String, Error>) {
        self.state.build()
    }

    fn params(&self) -> (out: Vec<QueryValue>) {
        self.state.params()
    }

    fn reset(&mut self) {
        self.state.reset();
    }
}

impl QueryBuilder for QueryBuilderEnum {
    closed spec fn model(&self) -> StatementModel {
        match self {
            QueryBuilderEnum::SQLite(b) => b.state@,
            QueryBuilderEnum::MySQL(b) => b.state@,
        }
    }

    fn select(&mut self, columns: &[Column]) -> (ret: &mut Self) {
        let names = column_name_list(columns);
        match self {
            QueryBuilderEnum::SQLite(b) => {
                b.state.select(names);
            },
            QueryBuilderEnum::MySQL(b) => {
                b.state.select(names);
            },
        }
        self
    }

    fn from(&mut self, table: &str) -> (ret: &mut Self) {
        match self {
            QueryBuilderEnum::SQLite(b) => {
                b.state.from(table);
            },
            QueryBuilderEnum::MySQL(b) => {
                b.state.from(table);
            },
        }
        self
    }

    fn where_clause(&mut self, condition: &str) -> (ret: &mut Self) {
        match self {
            QueryBuilderEnum::SQLite(b) => {
                b.state.where_clause(condition);
            },
            QueryBuilderEnum::MySQL(b) => {
                b.state.where_clause(condition);
            },
        }
        self
    }

    fn where_eq(&mut self, column: &str, value: QueryValue) -> (ret: &mut Self) {
        match self {
            QueryBuilderEnum::SQLite(b) => {
                b.state.where_eq(column, value);
            },
            QueryBuilderEnum::MySQL(b) => {
                b.state.where_eq(column, value);
            },
        }
        self
    }

    fn order_by(&mut self, column: &str, direction: OrderDirection) -> (ret: &mut Self) {
        match self {
            QueryBuilderEnum::SQLite(b) => {
                b.state.order_by(column, direction);
            },
            QueryBuilderEnum::MySQL(b) => {
                b.state.order_by(column, direction);
            },
        }
        self
    }

    fn limit(&mut self, limit: u64) -> (ret: &mut Self) {
        match self {
            QueryBuilderEnum::SQLite(b) => {
                b.state.limit(limit);
            },
            QueryBuilderEnum::MySQL(b) => {
                b.state.limit(limit);
            },
        }
        self
    }

    fn offset(&mut self, offset: u64) -> (ret: &mut Self) {
        match self {
            QueryBuilderEnum::SQLite(b) => {
                b.state.offset(offset);
            },
            QueryBuilderEnum::MySQL(b) => {
                b.state.offset(offset);
            },
        }
        self
    }

    fn insert_into(&mut self, table: &str, columns: &[&str]) -> (ret: &mut Self) {
        match self {
            QueryBuilderEnum::SQLite(b) => {
                b.state.insert_into(table, columns);
            },
            QueryBuilderEnum::MySQL(b) => {
                b.state.insert_into(table, columns);
            },
        }
        self
    }

    fn values(&mut self, values: &[&str]) -> (ret: &mut Self) {
        match self {
            QueryBuilderEnum::SQLite(b) => {
                b.state.values(values);
            },
            QueryBuilderEnum::MySQL(b) => {
                b.state.values(values);
            },
        }
        self
    }

    fn values_params(&mut self, values: &[QueryValue]) -> (ret: &mut Self) {
        match self {
            QueryBuilderEnum::SQLite(b) => {
                b.state.values_params(values);
            },
            QueryBuilderEnum::MySQL(b) => {
                b.state.values_params(values);
            },
        }
        self
    }

    fn update(&mut self, table: &str) -> (ret: &mut Self) {
        match self {
            QueryBuilderEnum::SQLite(b) => {
                b.state.update(table);
            },
            QueryBuilderEnum::MySQL(b) => {
                b.state.update(table);
            },
        }
        self
    }

    fn set(&mut self, column: &str, value: &str) -> (ret: &mut Self) {
        match self {
            QueryBuilderEnum::SQLite(b) => {
                b.state.set(column, value);
            },
            QueryBuilderEnum::MySQL(b) => {
                b.state.set(column, value);
            },
        }
        self
    }

    fn set_param(&mut self, column: &str, value: QueryValue) -> (ret: &mut Self) {
        match self {
            QueryBuilderEnum::SQLite(b) => {
                b.state.set_param(column, value);
            },
            QueryBuilderEnum::MySQL(b) => {
                b.state.set_param(column, value);
            },
        }
        self
    }

    fn delete_from(&mut self, table: &str) -> (ret: &mut Self) {
        match self {
            QueryBuilderEnum::SQLite(b) => {
                b.state.delete_from(table);
            },
            QueryBuilderEnum::MySQL(b) => {
                b.state.delete_from(table);
            },
        }
        self
    }

    fn returning(&mut self, columns: &[&str]) -> (ret: &mut Self) {
        match self {
            QueryBuilderEnum::SQLite(b) => {
                b.state.returning(columns);
            },
            QueryBuilderEnum::MySQL(b) => {
                b.state.returning(columns);
            },
        }
        self
    }

    fn join(&mut self, table: &str, on: &str, join_type: JoinType) -> (ret: &mut Self) {
        match self {
            QueryBuilderEnum::SQLite(b) => {
                b.state.join(table, on, join_type);
            },
            QueryBuilderEnum::MySQL(b) => {
                b.state.join(table, on, join_type);
            },
        }
        self
    }

    fn group_by(&mut self, columns: &[&str]) -> (ret: &mut Self) {
        match self {
            QueryBuilderEnum::SQLite(b) => {
                b.state.group_by(columns);
            },
            QueryBuilderEnum::MySQL(b) => {
                b.state.group_by(columns);
            },
        }
        self
    }

    fn having(&mut self, condition: &str) -> (ret: &mut Self) {
        match self {
            QueryBuilderEnum::SQLite(b) => {
                b.state.having(condition);
            },
            QueryBuilderEnum::MySQL(b) => {
                b.state.having(condition);
            },
        }
        self
    }

    fn distinct(&mut self) -> (ret: &mut Self) {
        match self {
            QueryBuilderEnum::SQLite(b) => {
                b.state.distinct();
            },
            QueryBuilderEnum::MySQL(b) => {
                b.state.distinct();
            },
        }
        self
    }

    fn build(&self) -> (r: Result<String, Error>) {
        match self {
            QueryBuilderEnum::SQLite(b) => b.state.build(),
            QueryBuilderEnum::MySQL(b) => b.state.build(),
        }
    }

    fn params(&self) -> (out: Vec<QueryValue>) {
        match self {
            QueryBuilderEnum::SQLite(b) => b.state.params(),
            QueryBuilderEnum::MySQL(b) => b.state.params(),
        }
    }

    fn reset(&mut self) {
        match self {
            QueryBuilderEnum::SQLite(b) => b.state.reset(),
            QueryBuilderEnum::MySQL(b) => b.state.reset(),
        }
    }
}

/// Renders what `builder` holds and takes the bound values with the text:
/// the statement that goes to the store.
///
/// Where no text that the caller wrote as it is holds a placeholder, the
/// statement has one placeholder for each of its values, and the values
/// stand in the order of their placeholders.
pub fn prepare<B: QueryBuilder>(builder: &B) -> (r: Result<QueryExecutor, Error>)
    ensures
        match r {
            Ok(statement) => {
                &&& render_failure(builder.model()) is None
                &&& statement.spec_sql() == rendered_sql(builder.model())
                &&& statement.spec_params() == bound_values(builder.model())
                &&& raw_text_is_plain(builder.model()) ==> {
                    &&& placeholder_count(statement.spec_sql()) == statement.spec_params().len()
                    &&& forall|w: Inscribe|
                        bind(statement.spec_sql(), statement.spec_params(), w)
                            == #[trigger] statement_text(builder.model(), w)
                }
            },
            Err(e) => render_failure(builder.model()) is Some && e.is_query_error(
                render_failure(builder.model())->0,
            ),
        },
{
    match builder.build() {
        Ok(sql) => {
            let statement = QueryExecutor::from_parts(sql, builder.params());
            proof {
                if raw_text_is_plain(builder.model()) {
                    assert forall|w: Inscribe|
                        bind(statement.spec_sql(), statement.spec_params(), w)
                            == #[trigger] statement_text(builder.model(), w) by {
                        lemma_parameters_answer_placeholders(builder.model(), w);
                    }
                    lemma_parameters_answer_placeholders(
                        builder.model(),
                        as_placeholder(builder.model().dialect),
                    );
                }
            }
            Ok(statement)
        },
        Err(e) => Err(e),
    }
}

} // verus!
