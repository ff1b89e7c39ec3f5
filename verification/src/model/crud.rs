//! The statements behind the operations on records: which statement finds,
//! creates, updates, deletes or counts the rows of a table, and what is
//! bound to it.

use std::marker::PhantomData;
use vstd::prelude::*;
use vstd::string::*;

use crate::error::Error;
use crate::model::traits::{
    gives_key, gives_values, held_key, names_all_columns, names_key, names_table, FromRow, Model,
};
use crate::model::{lookup, FieldModel, Row, Value};
use crate::query::builder::{prepare, QueryBuilderEnum};
use crate::query::executor::{scalars, QueryExecutor, QueryValue, Scalar};
use crate::query::model::{
    bound_values, empty_statement, render_failure, rendered_sql, AssignmentModel, CellModel,
    ConditionModel, JoinModel, OrderModel, QueryType, StatementModel,
};
use crate::query::state::slice_texts;
use crate::query::{Dialect, JoinType, OrderDirection, QueryBuilder};
use crate::schema::column::{column_names, Column, ColumnType};

verus! {

/// The columns called `names`, as far as a `SELECT` needs them.
fn columns_named(names: &[&str]) -> (out: Vec<Column>)
    ensures
        column_names(out@) == slice_texts(names@),
{
    let mut out: Vec<Column> = Vec::new();
    let mut i: usize = 0;
    while i < names.len()
        invariant
            i <= names.len(),
            out@.len() == i,
            forall|j: int| 0 <= j < i ==> out@[j]@.name == names@[j]@,
        decreases names.len() - i,
    {
        out.push(Column::new(names[i], ColumnType::Text));
        i += 1;
    }
    assert(column_names(out@) =~= slice_texts(names@));
    out
}

/// The `SELECT` of the named columns of a table.
pub open spec fn query_model(
    dialect: Dialect,
    table: Seq<char>,
    columns: Seq<Seq<char>>,
) -> StatementModel {
    StatementModel {
        kind: QueryType::Select,
        columns,
        table: Some(table),
        ..empty_statement(dialect)
    }
}

/// A query for the rows of a table as values of `T`.
pub struct ModelQuery<T> {
    builder: QueryBuilderEnum,
    _phantom: PhantomData<T>,
}

impl<T> ModelQuery<T> {
    /// Everything the query has been told.
    pub closed spec fn model(&self) -> StatementModel {
        self.builder.model()
    }

    /// A query for `dialect` that has been told nothing.
    pub fn new(dialect: Dialect) -> (q: Self)
        ensures
            q.model() == empty_statement(dialect),
    {
        ModelQuery { builder: QueryBuilderEnum::new(dialect), _phantom: PhantomData }
    }

    /// The query for the named columns of every row of `table`.
    pub fn for_table(dialect: Dialect, table: &str, columns: &[&str]) -> (q: Self)
        ensures
            q.model() == query_model(dialect, table@, slice_texts(columns@)),
    {
        let mut builder = QueryBuilderEnum::new(dialect);
        let selected = columns_named(columns);
        builder.select(selected.as_slice());
        builder.from(table);
        ModelQuery { builder, _phantom: PhantomData }
    }

    /// Adds a conjunct whose text is written into the statement as it is.
    /// Not for input: use `where_eq`.
    pub fn where_clause(self, condition: &str) -> (q: Self)
        ensures
            q.model() == (StatementModel {
                conditions: self.model().conditions.push(ConditionModel::Raw(condition@)),
                ..self.model()
            }),
    {
        let mut q = self;
        q.builder.where_clause(condition);
        q
    }

    /// Adds the conjunct `<column> = <placeholder>` and binds `value`.
    pub fn where_eq(self, column: &str, value: QueryValue) -> (q: Self)
        ensures
            q.model() == (StatementModel {
                conditions: self.model().conditions.push(ConditionModel::Equals(column@, value@)),
                ..self.model()
            }),
    {
        let mut q = self;
        q.builder.where_eq(column, value);
        q
    }

    /// Adds an `ORDER BY` entry.
    pub fn order_by(self, column: &str, direction: OrderDirection) -> (q: Self)
        ensures
            q.model() == (StatementModel {
                order_by: self.model().order_by.push(OrderModel { column: column@, direction }),
                ..self.model()
            }),
    {
        let mut q = self;
        q.builder.order_by(column, direction);
        q
    }

    /// Sets the `LIMIT`.
    pub fn limit(self, limit: u64) -> (q: Self)
        ensures
            q.model() == (StatementModel { limit: Some(limit), ..self.model() }),
    {
        let mut q = self;
        q.builder.limit(limit);
        q
    }

    /// Sets the `OFFSET`.
    pub fn offset(self, offset: u64) -> (q: Self)
        ensures
            q.model() == (StatementModel { offset: Some(offset), ..self.model() }),
    {
        let mut q = self;
        q.builder.offset(offset);
        q
    }

    /// Adds a join.
    pub fn join(self, table: &str, on: &str, join_type: JoinType) -> (q: Self)
        ensures
            q.model() == (StatementModel {
                joins: self.model().joins.push(
                    JoinModel { kind: join_type, table: table@, on: on@ },
                ),
                ..self.model()
            }),
    {
        let mut q = self;
        q.builder.join(table, on, join_type);
        q
    }

    /// Adds an `INNER JOIN`.
    pub fn inner_join(self, table: &str, on: &str) -> (q: Self)
        ensures
            q.model() == (StatementModel {
                joins: self.model().joins.push(
                    JoinModel { kind: JoinType::Inner, table: table@, on: on@ },
                ),
                ..self.model()
            }),
    {
        self.join(table, on, JoinType::Inner)
    }

    /// Adds a `LEFT JOIN`.
    pub fn left_join(self, table: &str, on: &str) -> (q: Self)
        ensures
            q.model() == (StatementModel {
                joins: self.model().joins.push(
                    JoinModel { kind: JoinType::Left, table: table@, on: on@ },
                ),
                ..self.model()
            }),
    {
        self.join(table, on, JoinType::Left)
    }

    /// Sets the `GROUP BY` columns.
    pub fn group_by(self, columns: &[&str]) -> (q: Self)
        ensures
            q.model() == (StatementModel { group_by: slice_texts(columns@), ..self.model() }),
    {
        let mut q = self;
        q.builder.group_by(columns);
        q
    }

    /// Sets the `HAVING` condition, written into the statement as it is.
    pub fn having(self, condition: &str) -> (q: Self)
        ensures
            q.model() == (StatementModel { having: Some(condition@), ..self.model() }),
    {
        let mut q = self;
        q.builder.having(condition);
        q
    }

    /// Makes the query return distinct rows only.
    pub fn distinct(self) -> (q: Self)
        ensures
            q.model() == (StatementModel { distinct: true, ..self.model() }),
    {
        let mut q = self;
        q.builder.distinct();
        q
    }

    /// The text of the query.
    pub fn to_sql(&self) -> (r: Result<String, Error>)
        ensures
            match r {
                Ok(sql) => render_failure(self.model()) is None && sql@ == rendered_sql(
                    self.model(),
                ),
                Err(e) => render_failure(self.model()) is Some && e.is_query_error(
                    render_failure(self.model())->0,
                ),
            },
    {
        self.builder.build()
    }

    /// The query as a statement to fetch rows with: its text and its bound
    /// values.
    pub fn statement(&self) -> (r: Result<QueryExecutor, Error>)
        ensures
            match r {
                Ok(statement) => {
                    &&& render_failure(self.model()) is None
                    &&& statement.spec_sql() == rendered_sql(self.model())
                    &&& statement.spec_params() == bound_values(self.model())
                },
                Err(e) => render_failure(self.model()) is Some && e.is_query_error(
                    render_failure(self.model())->0,
                ),
            },
    {
        prepare(&self.builder)
    }
}

/// The `SELECT` that finds the row whose primary key is `id`.
pub open spec fn find_model(
    dialect: Dialect,
    table: Seq<char>,
    columns: Seq<Seq<char>>,
    primary_key: Seq<char>,
    id: Scalar,
) -> StatementModel {
    StatementModel {
        conditions: seq![ConditionModel::Equals(primary_key, id)],
        limit: Some(1u64),
        ..query_model(dialect, table, columns)
    }
}

/// The statement that fetches the row of `table` whose primary key is
/// `id`: it selects `columns`, binds `id` and asks for one row.
pub fn find_statement(
    dialect: Dialect,
    table: &str,
    columns: &[&str],
    primary_key: &str,
    id: &Value,
) -> (r: Result<QueryExecutor, Error>)
    ensures
        r matches Ok(statement) && {
            let m = find_model(dialect, table@, slice_texts(columns@), primary_key@, id@);
            &&& statement.spec_sql() == rendered_sql(m)
            &&& statement.spec_params() == bound_values(m)
            &&& statement.spec_params() == seq![id@]
        },
{
    let query = ModelQuery::<()>::for_table(dialect, table, columns).where_eq(
        primary_key,
        id.to_query_value(),
    ).limit(1);
    let ghost m = find_model(dialect, table@, slice_texts(columns@), primary_key@, id@);
    proof {
        assert(query.model().conditions =~= m.conditions);
        assert(query.model() =~= m);
        lemma_single_condition_value(primary_key@, id@);
    }
    query.statement()
}

/// One equality binds its one value.
pub proof fn lemma_single_condition_value(column: Seq<char>, v: Scalar)
    ensures
        crate::query::model::conditions_values(seq![ConditionModel::Equals(column, v)]) == seq![v],
{
    let conditions = seq![ConditionModel::Equals(column, v)];
    let mapped = conditions.map_values(
        |c: ConditionModel| crate::query::model::condition_values(c),
    );
    mapped.lemma_flatten_one_element();
    assert(mapped.first() == seq![v]);
}

/// The names of the fields of a record.
pub open spec fn field_names(data: Seq<FieldModel>) -> Seq<Seq<char>> {
    data.map_values(|f: FieldModel| f.name)
}

/// The values of the fields of a record, each bound.
pub open spec fn bound_row(data: Seq<FieldModel>) -> Seq<CellModel> {
    data.map_values(|f: FieldModel| CellModel::Bound(f.value))
}

/// The `INSERT` of one row: the record's names as columns, its values
/// bound in the same order.
pub open spec fn insert_model(
    dialect: Dialect,
    table: Seq<char>,
    data: Seq<FieldModel>,
    returning: Seq<Seq<char>>,
) -> StatementModel {
    StatementModel {
        kind: QueryType::Insert,
        insert_table: Some(table),
        insert_columns: field_names(data),
        insert_rows: seq![bound_row(data)],
        returning,
        ..empty_statement(dialect)
    }
}

/// The assignments of an `UPDATE` of a record: every field but the
/// primary key, its value bound, in the record's order.
pub open spec fn assignments_but(data: Seq<FieldModel>, primary_key: Seq<char>) -> Seq<
    AssignmentModel,
>
    decreases data.len(),
{
    if data.len() == 0 {
        Seq::empty()
    } else {
        let earlier = assignments_but(data.drop_last(), primary_key);
        if data.last().name == primary_key {
            earlier
        } else {
            earlier.push(
                AssignmentModel {
                    column: data.last().name,
                    value: CellModel::Bound(data.last().value),
                },
            )
        }
    }
}

/// The `UPDATE` of the row whose primary key is `key`.
pub open spec fn update_model(
    dialect: Dialect,
    table: Seq<char>,
    primary_key: Seq<char>,
    data: Seq<FieldModel>,
    key: Scalar,
) -> StatementModel {
    StatementModel {
        kind: QueryType::Update,
        update_table: Some(table),
        assignments: assignments_but(data, primary_key),
        conditions: seq![ConditionModel::Equals(primary_key, key)],
        ..empty_statement(dialect)
    }
}

/// The `DELETE` of the row whose primary key is `key`.
pub open spec fn delete_model(
    dialect: Dialect,
    table: Seq<char>,
    primary_key: Seq<char>,
    key: Scalar,
) -> StatementModel {
    StatementModel {
        kind: QueryType::Delete,
        delete_table: Some(table),
        conditions: seq![ConditionModel::Equals(primary_key, key)],
        ..empty_statement(dialect)
    }
}

/// The `DELETE` of the rows that meet a condition written as text.
pub open spec fn delete_where_model(
    dialect: Dialect,
    table: Seq<char>,
    condition: Seq<char>,
) -> StatementModel {
    StatementModel {
        kind: QueryType::Delete,
        delete_table: Some(table),
        conditions: seq![ConditionModel::Raw(condition)],
        ..empty_statement(dialect)
    }
}

/// The `SELECT` that counts the rows of a table, under the name `count`.
pub open spec fn count_model(dialect: Dialect, table: Seq<char>) -> StatementModel {
    query_model(dialect, table, seq!["COUNT(*) as count"@])
}

/// How a record is created and read back.
pub enum CreatePlan {
    /// One statement inserts the row and returns it: fetch one row with
    /// it.
    Returning(QueryExecutor),
    /// Run `insert`, then fetch the row by its primary key with `find`.
    Lookup { insert: QueryExecutor, find: QueryExecutor },
    /// Run `insert`; the row has no primary key yet to be found by, and
    /// the store does not return the one it assigns.
    Unretrievable { insert: QueryExecutor },
}

impl CreatePlan {
    /// The detail of the failure to read the created record back.
    pub open spec fn missing_detail(&self) -> Seq<char> {
        match self {
            CreatePlan::Returning(_) => "Failed to create record"@,
            CreatePlan::Lookup { .. } => "Failed to fetch created record"@,
            CreatePlan::Unretrievable {
                ..
            } => "Auto-increment ID retrieval not yet implemented for MySQL"@,
        }
    }

    /// The failure to report where the plan has run and no record came
    /// back.
    pub fn missing_record(&self) -> (e: Error)
        ensures
            e.is_query_error(self.missing_detail()),
    {
        match self {
            CreatePlan::Returning(_) => Error::QueryError(
                String::from_str("Failed to create record"),
            ),
            CreatePlan::Lookup { .. } => Error::QueryError(
                String::from_str("Failed to fetch created record"),
            ),
            CreatePlan::Unretrievable { .. } => Error::QueryError(
                String::from_str("Auto-increment ID retrieval not yet implemented for MySQL"),
            ),
        }
    }
}

/// Whether `statement` is the rendering of `m` with the values bound in
/// it.
pub open spec fn renders(statement: QueryExecutor, m: StatementModel) -> bool {
    &&& statement.spec_sql() == rendered_sql(m)
    &&& statement.spec_params() == bound_values(m)
}

/// The `INSERT` of the record `data` into `table`, asking for `returning`.
fn insert_statement(dialect: Dialect, table: &str, data: &Row, returning: &[&str]) -> (r: Result<
    QueryExecutor,
    Error,
>)
    ensures
        match r {
            Ok(statement) => data@.len() > 0 && renders(
                statement,
                insert_model(dialect, table@, data@, slice_texts(returning@)),
            ),
            Err(e) => data@.len() == 0 && e.is_query_error("No columns specified for INSERT"@),
        },
{
    let mut names: Vec<&str> = Vec::new();
    let mut values: Vec<QueryValue> = Vec::new();
    let mut i: usize = 0;
    while i < data.len()
        invariant
            i <= data@.len(),
            names@.len() == i,
            values@.len() == i,
            forall|j: int| 0 <= j < i ==> names@[j]@ == data@[j].name,
            forall|j: int| 0 <= j < i ==> values@[j]@ == data@[j].value,
        decreases data@.len() - i,
    {
        names.push(data.name_at(i));
        values.push(data.value_at(i).to_query_value());
        i += 1;
    }
    let mut builder = QueryBuilderEnum::new(dialect);
    builder.insert_into(table, names.as_slice());
    builder.values_params(values.as_slice());
    builder.returning(returning);
    proof {
        let m = insert_model(dialect, table@, data@, slice_texts(returning@));
        assert(slice_texts(names@) =~= field_names(data@));
        assert(scalars(values@).map_values(|v: Scalar| CellModel::Bound(v)) =~= bound_row(
            data@,
        ));
        assert(builder.model().insert_rows =~= m.insert_rows);
        assert(builder.model() =~= m);
    }
    prepare(&builder)
}

/// The primary key that a caller may hand over, as a value.
pub open spec fn key_of(key: Option<&Value>) -> Option<Scalar> {
    match key {
        Some(k) => Some(k@),
        None => None,
    }
}

/// Whether `r` is how the record `data` is created in `table` and read
/// back. Where the dialect supports `RETURNING`, one statement inserts the
/// row and returns `all_columns` of it. Where it does not, the row is
/// inserted and then found by `key`; without a key it cannot be read back.
/// A record without fields cannot be inserted.
pub open spec fn create_outcome(
    r: Result<CreatePlan, Error>,
    dialect: Dialect,
    table: Seq<char>,
    all_columns: Seq<Seq<char>>,
    primary_key: Seq<char>,
    data: Seq<FieldModel>,
    key: Option<Scalar>,
) -> bool {
    match r {
        Ok(plan) => data.len() > 0 && match plan {
            CreatePlan::Returning(statement) => dialect.returning_supported() && renders(
                statement,
                insert_model(dialect, table, data, all_columns),
            ),
            CreatePlan::Lookup { insert, find } => {
                &&& !dialect.returning_supported()
                &&& key matches Some(k)
                &&& renders(insert, insert_model(dialect, table, data, Seq::empty()))
                &&& renders(find, find_model(dialect, table, all_columns, primary_key, k))
            },
            CreatePlan::Unretrievable { insert } => {
                &&& !dialect.returning_supported()
                &&& key is None
                &&& renders(insert, insert_model(dialect, table, data, Seq::empty()))
            },
        },
        Err(e) => data.len() == 0 && e.is_query_error("No columns specified for INSERT"@),
    }
}

/// Whether `r` is the statement that writes the record `data` over the row
/// of `table` whose primary key is `key`, or the failure to make one: a
/// record without a primary key cannot be updated, nor one that has no
/// other field.
pub open spec fn update_outcome(
    r: Result<QueryExecutor, Error>,
    dialect: Dialect,
    table: Seq<char>,
    primary_key: Seq<char>,
    data: Seq<FieldModel>,
    key: Option<Scalar>,
) -> bool {
    match r {
        Ok(statement) => {
            &&& key matches Some(k)
            &&& assignments_but(data, primary_key).len() > 0
            &&& renders(statement, update_model(dialect, table, primary_key, data, k))
        },
        Err(e) => match key {
            None => e.is_query_error("Cannot update record without primary key"@),
            Some(_) => assignments_but(data, primary_key).len() == 0 && e.is_query_error(
                "No SET clauses specified for UPDATE"@,
            ),
        },
    }
}

/// Whether `r` is the statement that deletes the row of `table` whose
/// primary key is `key`, or the failure to make one: a record without a
/// primary key cannot be deleted.
pub open spec fn delete_outcome(
    r: Result<QueryExecutor, Error>,
    dialect: Dialect,
    table: Seq<char>,
    primary_key: Seq<char>,
    key: Option<Scalar>,
) -> bool {
    match r {
        Ok(statement) => key matches Some(k) && renders(
            statement,
            delete_model(dialect, table, primary_key, k),
        ),
        Err(e) => key is None && e.is_query_error("Cannot delete record without primary key"@),
    }
}

/// How the record `data` is created in `table` and read back.
///
/// Where the dialect supports `RETURNING`, one statement inserts the row
/// and returns `all_columns` of it. Where it does not, the row is inserted
/// and then found by `key`, its primary key; without one it cannot be read
/// back. A record without fields cannot be inserted.
pub fn create_plan(
    dialect: Dialect,
    table: &str,
    all_columns: &[&str],
    primary_key: &str,
    data: &Row,
    key: Option<&Value>,
) -> (r: Result<CreatePlan, Error>)
    ensures
        create_outcome(
            r,
            dialect,
            table@,
            slice_texts(all_columns@),
            primary_key@,
            data@,
            key_of(key),
        ),
{
    if dialect.supports_returning() {
        match insert_statement(dialect, table, data, all_columns) {
            Ok(statement) => Ok(CreatePlan::Returning(statement)),
            Err(e) => Err(e),
        }
    } else {
        let none: Vec<&str> = Vec::new();
        assert(slice_texts(none@) =~= Seq::<Seq<char>>::empty());
        match insert_statement(dialect, table, data, none.as_slice()) {
            Ok(insert) => match key {
                Some(k) => match find_statement(dialect, table, all_columns, primary_key, k) {
                    Ok(find) => Ok(CreatePlan::Lookup { insert, find }),
                    Err(e) => Err(e),
                },
                None => Ok(CreatePlan::Unretrievable { insert }),
            },
            Err(e) => Err(e),
        }
    }
}

/// The statement that writes the record `data` over the row of `table`
/// whose primary key is `key`: every field but the primary key is set to
/// its bound value. A record without a primary key cannot be updated, nor
/// one that has no other field.
pub fn update_statement(
    dialect: Dialect,
    table: &str,
    primary_key: &str,
    data: &Row,
    key: Option<&Value>,
) -> (r: Result<QueryExecutor, Error>)
    ensures
        update_outcome(r, dialect, table@, primary_key@, data@, key_of(key)),
{
    let k = match key {
        Some(k) => k,
        None => {
            return Err(
                Error::QueryError(String::from_str("Cannot update record without primary key")),
            );
        },
    };
    let key_name = String::from_str(primary_key);
    let mut builder = QueryBuilderEnum::new(dialect);
    builder.update(table);
    let mut i: usize = 0;
    assert(data@.take(0) =~= Seq::<FieldModel>::empty());
    assert(builder.model().assignments =~= assignments_but(data@.take(0), primary_key@));
    while i < data.len()
        invariant
            i <= data@.len(),
            key_name@ == primary_key@,
            builder.model() == (StatementModel {
                kind: QueryType::Update,
                update_table: Some(table@),
                assignments: assignments_but(data@.take(i as int), primary_key@),
                ..empty_statement(dialect)
            }),
        decreases data@.len() - i,
    {
        proof {
            assert(data@.take(i + 1).drop_last() =~= data@.take(i as int));
            assert(data@.take(i + 1).last() == data@[i as int]);
        }
        let name = String::from_str(data.name_at(i));
        if !(name == key_name) {
            builder.set_param(data.name_at(i), data.value_at(i).to_query_value());
        }
        i += 1;
    }
    assert(data@.take(data@.len() as int) =~= data@);
    builder.where_eq(primary_key, k.to_query_value());
    proof {
        let m = update_model(dialect, table@, primary_key@, data@, k@);
        assert(builder.model().conditions =~= m.conditions);
        assert(builder.model() =~= m);
    }
    prepare(&builder)
}

/// The statement that deletes the row of `table` whose primary key is
/// `key`. A record without a primary key cannot be deleted.
pub fn delete_statement(dialect: Dialect, table: &str, primary_key: &str, key: Option<&Value>) -> (r:
    Result<QueryExecutor, Error>)
    ensures
        delete_outcome(r, dialect, table@, primary_key@, key_of(key)),
{
    let k = match key {
        Some(k) => k,
        None => {
            return Err(
                Error::QueryError(String::from_str("Cannot delete record without primary key")),
            );
        },
    };
    let mut builder = QueryBuilderEnum::new(dialect);
    builder.delete_from(table);
    builder.where_eq(primary_key, k.to_query_value());
    proof {
        let m = delete_model(dialect, table@, primary_key@, k@);
        assert(builder.model().conditions =~= m.conditions);
        assert(builder.model() =~= m);
    }
    prepare(&builder)
}

/// The text of the statement that deletes the rows of `table` that meet
/// `condition`, which is written into it as it is. Not for input.
pub fn delete_where_statement(dialect: Dialect, table: &str, condition: &str) -> (r: Result<
    String,
    Error,
>)
    ensures
        r matches Ok(sql) && sql@ == rendered_sql(delete_where_model(dialect, table@, condition@)),
{
    let mut builder = QueryBuilderEnum::new(dialect);
    builder.delete_from(table);
    builder.where_clause(condition);
    proof {
        let m = delete_where_model(dialect, table@, condition@);
        assert(builder.model().conditions =~= m.conditions);
        assert(builder.model() =~= m);
    }
    builder.build()
}

/// The text of the statement that counts the rows of `table`.
pub fn count_statement(dialect: Dialect, table: &str) -> (r: Result<String, Error>)
    ensures
        r matches Ok(sql) && sql@ == rendered_sql(count_model(dialect, table@)),
{
    let mut names: Vec<&str> = Vec::new();
    names.push("COUNT(*) as count");
    assert(slice_texts(names@) =~= seq!["COUNT(*) as count"@]);
    let query = ModelQuery::<()>::for_table(dialect, table, names.as_slice());
    query.to_sql()
}

/// The count that the record of a counting statement holds.
pub open spec fn count_in(record: Seq<FieldModel>) -> Option<i64> {
    match lookup(record, "count"@) {
        Some(Scalar::I64(n)) => Some(n),
        Some(Scalar::I32(n)) => Some(n as i64),
        _ => None,
    }
}

/// Reads the count out of the answer to a counting statement: no record
/// counts as zero; a record must hold the count as an integer under
/// `count`.
pub fn count_from_record(record: Option<&Row>) -> (r: Result<i64, Error>)
    ensures
        match r {
            Ok(n) => match record {
                Some(row) => count_in(row@) == Some(n),
                None => n == 0,
            },
            Err(e) => {
                &&& record matches Some(row)
                &&& count_in(row@) is None
                &&& e.is_query_error("Failed to parse count result"@)
            },
        },
{
    match record {
        Some(row) => match row.get("count") {
            Some(Value::I64(n)) => Ok(*n),
            Some(Value::I32(n)) => Ok(*n as i64),
            _ => Err(Error::QueryError(String::from_str("Failed to parse count result"))),
        },
        None => Ok(0),
    }
}

/// The operations on the rows of a model's table, each as the statement
/// that performs it. The table, the columns and the primary key are those
/// that the model names; the values and the key of a record are those that
/// the record gives of itself.
pub trait ModelCrud: Model + FromRow {
    /// The query for all columns of every row.
    fn query(dialect: Dialect) -> (q: ModelQuery<Self>)
        ensures
            exists|table: Seq<char>, columns: Seq<Seq<char>>|
                names_table::<Self>(table) && names_all_columns::<Self>(columns) && q.model()
                    == query_model(dialect, table, columns),
    {
        let columns = Self::all_columns();
        let table = Self::table_name();
        let q = ModelQuery::for_table(dialect, table, columns.as_slice());
        proof {
            assert(names_table::<Self>(table@));
            assert(names_all_columns::<Self>(slice_texts(columns@)));
        }
        q
    }

    /// The statement that fetches the row whose primary key is `id`: it
    /// selects all columns, binds `id` and asks for one row.
    fn find(dialect: Dialect, id: Value) -> (r: Result<QueryExecutor, Error>)
        ensures
            r matches Ok(statement) && statement.spec_params() == seq![id@] && exists|
                table: Seq<char>,
                columns: Seq<Seq<char>>,
                key: Seq<char>,
            |
                names_table::<Self>(table) && names_all_columns::<Self>(columns) && names_key::<
                    Self,
                >(key) && renders(statement, find_model(dialect, table, columns, key, id@)),
    {
        let columns = Self::all_columns();
        let table = Self::table_name();
        let key = Self::primary_key();
        let r = find_statement(dialect, table, columns.as_slice(), key, &id);
        proof {
            assert(names_table::<Self>(table@));
            assert(names_all_columns::<Self>(slice_texts(columns@)));
            assert(names_key::<Self>(key@));
        }
        r
    }

    /// The query for every row: the same as `query`.
    fn all(dialect: Dialect) -> (q: ModelQuery<Self>)
        ensures
            exists|table: Seq<char>, columns: Seq<Seq<char>>|
                names_table::<Self>(table) && names_all_columns::<Self>(columns) && q.model()
                    == query_model(dialect, table, columns),
    {
        let columns = Self::all_columns();
        let table = Self::table_name();
        let q = ModelQuery::for_table(dialect, table, columns.as_slice());
        proof {
            assert(names_table::<Self>(table@));
            assert(names_all_columns::<Self>(slice_texts(columns@)));
        }
        q
    }

    /// The query for the rows that meet `condition`, written as text.
    fn where_clause(dialect: Dialect, condition: &str) -> (q: ModelQuery<Self>)
        ensures
            exists|table: Seq<char>, columns: Seq<Seq<char>>|
                names_table::<Self>(table) && names_all_columns::<Self>(columns) && q.model() == (
                StatementModel {
                    conditions: seq![ConditionModel::Raw(condition@)],
                    ..query_model(dialect, table, columns)
                }),
    {
        let columns = Self::all_columns();
        let table = Self::table_name();
        let q = ModelQuery::for_table(dialect, table, columns.as_slice()).where_clause(condition);
        proof {
            assert(names_table::<Self>(table@));
            assert(names_all_columns::<Self>(slice_texts(columns@)));
            assert(q.model().conditions =~= seq![ConditionModel::Raw(condition@)]);
            assert(q.model() =~= (StatementModel {
                conditions: seq![ConditionModel::Raw(condition@)],
                ..query_model(dialect, table@, slice_texts(columns@))
            }));
        }
        q
    }

    /// The query for every row, ordered by `column`.
    fn order_by(dialect: Dialect, column: &str, direction: OrderDirection) -> (q: ModelQuery<Self>)
        ensures
            exists|table: Seq<char>, columns: Seq<Seq<char>>|
                names_table::<Self>(table) && names_all_columns::<Self>(columns) && q.model() == (
                StatementModel {
                    order_by: seq![OrderModel { column: column@, direction }],
                    ..query_model(dialect, table, columns)
                }),
    {
        let columns = Self::all_columns();
        let table = Self::table_name();
        let q = ModelQuery::for_table(dialect, table, columns.as_slice()).order_by(
            column,
            direction,
        );
        proof {
            assert(names_table::<Self>(table@));
            assert(names_all_columns::<Self>(slice_texts(columns@)));
            assert(q.model().order_by =~= seq![OrderModel { column: column@, direction }]);
            assert(q.model() =~= (StatementModel {
                order_by: seq![OrderModel { column: column@, direction }],
                ..query_model(dialect, table@, slice_texts(columns@))
            }));
        }
        q
    }

    /// The query for at most `limit` rows.
    fn take(dialect: Dialect, limit: u64) -> (q: ModelQuery<Self>)
        ensures
            exists|table: Seq<char>, columns: Seq<Seq<char>>|
                names_table::<Self>(table) && names_all_columns::<Self>(columns) && q.model() == (
                StatementModel { limit: Some(limit), ..query_model(dialect, table, columns) }),
    {
        let columns = Self::all_columns();
        let table = Self::table_name();
        let q = ModelQuery::for_table(dialect, table, columns.as_slice()).limit(limit);
        proof {
            assert(names_table::<Self>(table@));
            assert(names_all_columns::<Self>(slice_texts(columns@)));
        }
        q
    }

    /// The query for the first row: at most one row.
    fn first(dialect: Dialect) -> (q: ModelQuery<Self>)
        ensures
            exists|table: Seq<char>, columns: Seq<Seq<char>>|
                names_table::<Self>(table) && names_all_columns::<Self>(columns) && q.model() == (
                StatementModel { limit: Some(1u64), ..query_model(dialect, table, columns) }),
    {
        let columns = Self::all_columns();
        let table = Self::table_name();
        let q = ModelQuery::for_table(dialect, table, columns.as_slice()).limit(1);
        proof {
            assert(names_table::<Self>(table@));
            assert(names_all_columns::<Self>(slice_texts(columns@)));
        }
        q
    }

    /// How `values` is created and read back: the plan for the record and
    /// the key that `values` gives of itself.
    fn create(dialect: Dialect, values: &Self) -> (r: Result<CreatePlan, Error>)
        ensures
            exists|
                table: Seq<char>,
                columns: Seq<Seq<char>>,
                key_name: Seq<char>,
                data: Seq<FieldModel>,
                key: Option<Scalar>,
            |
                names_table::<Self>(table) && names_all_columns::<Self>(columns) && names_key::<
                    Self,
                >(key_name) && gives_values(values, data) && gives_key(values, key)
                    && create_outcome(r, dialect, table, columns, key_name, data, key),
    {
        let columns = Self::all_columns();
        let data = values.to_values();
        let key = values.primary_key_value();
        let table = Self::table_name();
        let key_name = Self::primary_key();
        let key_ref = key.as_ref();
        let r = create_plan(dialect, table, columns.as_slice(), key_name, &data, key_ref);
        proof {
            assert(names_table::<Self>(table@));
            assert(names_all_columns::<Self>(slice_texts(columns@)));
            assert(names_key::<Self>(key_name@));
            assert(gives_values(values, data@));
            assert(gives_key(values, held_key(key)));
            assert(key_of(key_ref) == held_key(key));
        }
        r
    }

    /// The statement that writes the record over its row: every field that
    /// the record gives of itself but the primary key is set, in the row of
    /// the key that it gives.
    fn update(&self, dialect: Dialect) -> (r: Result<QueryExecutor, Error>)
        ensures
            exists|
                table: Seq<char>,
                key_name: Seq<char>,
                data: Seq<FieldModel>,
                key: Option<Scalar>,
            |
                names_table::<Self>(table) && names_key::<Self>(key_name) && gives_values(
                    self,
                    data,
                ) && gives_key(self, key) && update_outcome(
                    r,
                    dialect,
                    table,
                    key_name,
                    data,
                    key,
                ),
    {
        let data = self.to_values();
        let key = self.primary_key_value();
        let table = Self::table_name();
        let key_name = Self::primary_key();
        let key_ref = key.as_ref();
        let r = update_statement(dialect, table, key_name, &data, key_ref);
        proof {
            assert(names_table::<Self>(table@));
            assert(names_key::<Self>(key_name@));
            assert(gives_values(self, data@));
            assert(gives_key(self, held_key(key)));
            assert(key_of(key_ref) == held_key(key));
        }
        r
    }

    /// The statement that deletes the record's row: the row of the key that
    /// the record gives of itself.
    fn delete(&self, dialect: Dialect) -> (r: Result<QueryExecutor, Error>)
        ensures
            exists|table: Seq<char>, key_name: Seq<char>, key: Option<Scalar>|
                names_table::<Self>(table) && names_key::<Self>(key_name) && gives_key(self, key)
                    && delete_outcome(r, dialect, table, key_name, key),
    {
        let key = self.primary_key_value();
        let table = Self::table_name();
        let key_name = Self::primary_key();
        let key_ref = key.as_ref();
        let r = delete_statement(dialect, table, key_name, key_ref);
        proof {
            assert(names_table::<Self>(table@));
            assert(names_key::<Self>(key_name@));
            assert(gives_key(self, held_key(key)));
            assert(key_of(key_ref) == held_key(key));
        }
        r
    }

    /// The text of the statement that deletes the rows that meet
    /// `condition`, which is written into it as it is. Not for input.
    fn delete_where(dialect: Dialect, condition: &str) -> (r: Result<String, Error>)
        ensures
            r matches Ok(sql) && exists|table: Seq<char>|
                names_table::<Self>(table) && sql@ == rendered_sql(
                    delete_where_model(dialect, table, condition@),
                ),
    {
        let table = Self::table_name();
        let r = delete_where_statement(dialect, table, condition);
        proof {
            assert(names_table::<Self>(table@));
        }
        r
    }

    /// The text of the statement that counts the rows.
    fn count(dialect: Dialect) -> (r: Result<String, Error>)
        ensures
            r matches Ok(sql) && exists|table: Seq<char>|
                names_table::<Self>(table) && sql@ == rendered_sql(count_model(dialect, table)),
    {
        let table = Self::table_name();
        let r = count_statement(dialect, table);
        proof {
            assert(names_table::<Self>(table@));
        }
        r
    }
}

} // verus!
