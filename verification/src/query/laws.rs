//! What holds of every statement: the bound values answer the placeholders
//! of the rendered text one for one and in order, a fresh builder renders
//! nothing, and `RETURNING` shows exactly where the dialect supports it.

use vstd::prelude::*;
use vstd::string::*;

use crate::backend::{feature_supported, BackendFeature};
use crate::query::binding::{
    all_placeholder_free, bind, binds_to, lemma_binds_after, lemma_binds_before,
    lemma_binds_concat, lemma_free_binds, lemma_free_concat, lemma_free_decimal,
    lemma_free_join, lemma_join_binds, lemma_placeholder_binds, placeholder_count,
    placeholder_free,
};
use crate::query::executor::Scalar;
use crate::query::model::{
    as_placeholder, assignment_text, assignments_values, bound_values, cell_text, cell_values,
    condition_text, condition_values, conditions_values, delete_text, empty_statement,
    group_clause, having_clause, insert_text, join_text, joins_clause, limit_clause,
    offset_clause, order_clause, order_text, projection, render_failure, rendered_sql,
    returning_clause, row_text, row_values, rows_values, select_head, select_tail, select_text,
    statement_text,
    update_text, where_clause, AssignmentModel, CellModel, ConditionModel, Inscribe, JoinModel,
    OrderModel, QueryType, StatementModel,
};
use crate::query::{Dialect, JoinType, OrderDirection};
use crate::text::join;

verus! {

/// The text of `c` that is written as it is holds no placeholder.
pub open spec fn cell_is_plain(c: CellModel) -> bool {
    match c {
        CellModel::Literal(t) => placeholder_free(t),
        CellModel::Bound(_) => true,
    }
}

/// The text of `c` that is written as it is holds no placeholder.
pub open spec fn condition_is_plain(c: ConditionModel) -> bool {
    match c {
        ConditionModel::Raw(t) => placeholder_free(t),
        ConditionModel::Equals(column, _) => placeholder_free(column),
    }
}

/// The text, if there is one, holds no placeholder.
pub open spec fn optional_is_plain(t: Option<Seq<char>>) -> bool {
    match t {
        Some(t) => placeholder_free(t),
        None => true,
    }
}

/// Every cell of `row` is plain.
pub open spec fn row_is_plain(row: Seq<CellModel>) -> bool {
    forall|i: int| 0 <= i < row.len() ==> cell_is_plain(#[trigger] row[i])
}

/// No name or fragment that the caller wrote as text holds a placeholder:
/// every placeholder of the rendered statement then comes from a bound
/// value.
pub open spec fn raw_text_is_plain(m: StatementModel) -> bool {
    &&& all_placeholder_free(m.columns)
    &&& optional_is_plain(m.table)
    &&& forall|i: int|
        0 <= i < m.joins.len() ==> placeholder_free((#[trigger] m.joins[i]).table)
            && placeholder_free(m.joins[i].on)
    &&& forall|i: int| 0 <= i < m.conditions.len() ==> condition_is_plain(#[trigger] m.conditions[i])
    &&& all_placeholder_free(m.group_by)
    &&& optional_is_plain(m.having)
    &&& forall|i: int|
        0 <= i < m.order_by.len() ==> placeholder_free((#[trigger] m.order_by[i]).column)
    &&& optional_is_plain(m.insert_table)
    &&& all_placeholder_free(m.insert_columns)
    &&& forall|i: int| 0 <= i < m.insert_rows.len() ==> row_is_plain(#[trigger] m.insert_rows[i])
    &&& optional_is_plain(m.update_table)
    &&& forall|i: int|
        0 <= i < m.assignments.len() ==> placeholder_free((#[trigger] m.assignments[i]).column)
            && cell_is_plain(m.assignments[i].value)
    &&& optional_is_plain(m.delete_table)
    &&& all_placeholder_free(m.returning)
}

proof fn lemma_select_words_are_plain()
    ensures
        placeholder_free("SELECT "@),
        placeholder_free("DISTINCT "@),
        placeholder_free("*"@),
        placeholder_free(", "@),
        placeholder_free(" FROM "@),
        placeholder_free(" GROUP BY "@),
        placeholder_free(" HAVING "@),
        placeholder_free(" ORDER BY "@),
        placeholder_free(" LIMIT "@),
        placeholder_free(" OFFSET "@),
{
    reveal_strlit("SELECT ");
    reveal_strlit("DISTINCT ");
    reveal_strlit("*");
    reveal_strlit(", ");
    reveal_strlit(" FROM ");
    reveal_strlit(" GROUP BY ");
    reveal_strlit(" HAVING ");
    reveal_strlit(" ORDER BY ");
    reveal_strlit(" LIMIT ");
    reveal_strlit(" OFFSET ");
}

proof fn lemma_join_words_are_plain()
    ensures
        placeholder_free(" "@),
        placeholder_free(" JOIN "@),
        placeholder_free(" ON "@),
        forall|k: JoinType| placeholder_free(#[trigger] k.keyword()),
        forall|d: OrderDirection| placeholder_free(#[trigger] d.keyword()),
{
    reveal_strlit(" ");
    reveal_strlit(" JOIN ");
    reveal_strlit(" ON ");
    reveal_strlit("INNER");
    reveal_strlit("LEFT");
    reveal_strlit("RIGHT");
    reveal_strlit("FULL");
    reveal_strlit("ASC");
    reveal_strlit("DESC");
}

proof fn lemma_mutation_words_are_plain()
    ensures
        placeholder_free(" WHERE "@),
        placeholder_free(" AND "@),
        placeholder_free(" = "@),
        placeholder_free(" RETURNING "@),
        placeholder_free("INSERT INTO "@),
        placeholder_free(" ("@),
        placeholder_free(") VALUES "@),
        placeholder_free("("@),
        placeholder_free(")"@),
        placeholder_free("UPDATE "@),
        placeholder_free(" SET "@),
        placeholder_free("DELETE FROM "@),
        placeholder_free(", "@),
{
    reveal_strlit(" WHERE ");
    reveal_strlit(" AND ");
    reveal_strlit(" = ");
    reveal_strlit(" RETURNING ");
    reveal_strlit("INSERT INTO ");
    reveal_strlit(" (");
    reveal_strlit(") VALUES ");
    reveal_strlit("(");
    reveal_strlit(")");
    reveal_strlit("UPDATE ");
    reveal_strlit(" SET ");
    reveal_strlit("DELETE FROM ");
    reveal_strlit(", ");
}

/// A cell is bound to its own value, if it has one.
proof fn lemma_cell_binds(c: CellModel, dialect: Dialect, w: Inscribe)
    requires
        cell_is_plain(c),
    ensures
        binds_to(cell_text(c, as_placeholder(dialect)), cell_values(c), w, cell_text(c, w)),
{
    match c {
        CellModel::Literal(t) => {
            lemma_free_binds(t, w);
        },
        CellModel::Bound(v) => {
            lemma_placeholder_binds(v, w);
        },
    }
}

/// A conjunct is bound to its own value, if it has one.
proof fn lemma_condition_binds(c: ConditionModel, dialect: Dialect, w: Inscribe)
    requires
        condition_is_plain(c),
    ensures
        binds_to(
            condition_text(c, as_placeholder(dialect)),
            condition_values(c),
            w,
            condition_text(c, w),
        ),
{
    match c {
        ConditionModel::Raw(t) => {
            lemma_free_binds(t, w);
        },
        ConditionModel::Equals(column, v) => {
            lemma_mutation_words_are_plain();
            lemma_placeholder_binds(v, w);
            lemma_free_concat(column, " = "@);
            lemma_binds_after(column + " = "@, "?"@, seq![v], w(v), w);
        },
    }
}

/// The `WHERE` clause is bound to the values of its conjuncts, in order.
proof fn lemma_where_binds(conditions: Seq<ConditionModel>, dialect: Dialect, w: Inscribe)
    requires
        forall|i: int| 0 <= i < conditions.len() ==> condition_is_plain(#[trigger] conditions[i]),
    ensures
        binds_to(
            where_clause(conditions, as_placeholder(dialect)),
            conditions_values(conditions),
            w,
            where_clause(conditions, w),
        ),
{
    let ph = as_placeholder(dialect);
    if conditions.len() == 0 {
        assert(conditions_values(conditions) =~= Seq::<Scalar>::empty());
        lemma_free_binds(Seq::empty(), w);
    } else {
        lemma_mutation_words_are_plain();
        let parts = conditions.map_values(|c: ConditionModel| condition_text(c, ph));
        let values = conditions.map_values(|c: ConditionModel| condition_values(c));
        let targets = conditions.map_values(|c: ConditionModel| condition_text(c, w));
        assert forall|i: int| 0 <= i < parts.len() implies binds_to(
            parts[i],
            values[i],
            w,
            targets[i],
        ) by {
            lemma_condition_binds(conditions[i], dialect, w);
        }
        lemma_join_binds(parts, values, targets, " AND "@, w);
        lemma_binds_after(
            " WHERE "@,
            join(parts, " AND "@),
            values.flatten(),
            join(targets, " AND "@),
            w,
        );
    }
}

/// A row is bound to the values of its cells, in order.
proof fn lemma_row_binds(row: Seq<CellModel>, dialect: Dialect, w: Inscribe)
    requires
        row_is_plain(row),
    ensures
        binds_to(row_text(row, as_placeholder(dialect)), row_values(row), w, row_text(row, w)),
{
    let ph = as_placeholder(dialect);
    lemma_mutation_words_are_plain();
    let parts = row.map_values(|c: CellModel| cell_text(c, ph));
    let values = row.map_values(|c: CellModel| cell_values(c));
    let targets = row.map_values(|c: CellModel| cell_text(c, w));
    assert forall|i: int| 0 <= i < parts.len() implies binds_to(
        parts[i],
        values[i],
        w,
        targets[i],
    ) by {
        lemma_cell_binds(row[i], dialect, w);
    }
    lemma_join_binds(parts, values, targets, ", "@, w);
    lemma_binds_after("("@, join(parts, ", "@), values.flatten(), join(targets, ", "@), w);
    lemma_binds_before(
        "("@ + join(parts, ", "@),
        values.flatten(),
        "("@ + join(targets, ", "@),
        ")"@,
        w,
    );
}

/// The rows of an `INSERT` are bound to their values, row after row.
proof fn lemma_rows_binds(rows: Seq<Seq<CellModel>>, dialect: Dialect, w: Inscribe)
    requires
        forall|i: int| 0 <= i < rows.len() ==> row_is_plain(#[trigger] rows[i]),
    ensures
        binds_to(
            join(rows.map_values(|r: Seq<CellModel>| row_text(r, as_placeholder(dialect))), ", "@),
            rows_values(rows),
            w,
            join(rows.map_values(|r: Seq<CellModel>| row_text(r, w)), ", "@),
        ),
{
    let ph = as_placeholder(dialect);
    lemma_mutation_words_are_plain();
    let parts = rows.map_values(|r: Seq<CellModel>| row_text(r, ph));
    let values = rows.map_values(|r: Seq<CellModel>| row_values(r));
    let targets = rows.map_values(|r: Seq<CellModel>| row_text(r, w));
    assert forall|i: int| 0 <= i < parts.len() implies binds_to(
        parts[i],
        values[i],
        w,
        targets[i],
    ) by {
        lemma_row_binds(rows[i], dialect, w);
    }
    lemma_join_binds(parts, values, targets, ", "@, w);
}

/// The assignments of an `UPDATE` are bound to their values, in order.
proof fn lemma_assignments_bind(
    assignments: Seq<AssignmentModel>,
    dialect: Dialect,
    w: Inscribe,
)
    requires
        forall|i: int|
            0 <= i < assignments.len() ==> placeholder_free((#[trigger] assignments[i]).column)
                && cell_is_plain(assignments[i].value),
    ensures
        binds_to(
            join(
                assignments.map_values(
                    |a: AssignmentModel| assignment_text(a, as_placeholder(dialect)),
                ),
                ", "@,
            ),
            assignments_values(assignments),
            w,
            join(assignments.map_values(|a: AssignmentModel| assignment_text(a, w)), ", "@),
        ),
{
    let ph = as_placeholder(dialect);
    lemma_mutation_words_are_plain();
    let parts = assignments.map_values(|a: AssignmentModel| assignment_text(a, ph));
    let values = assignments.map_values(|a: AssignmentModel| cell_values(a.value));
    let targets = assignments.map_values(|a: AssignmentModel| assignment_text(a, w));
    assert forall|i: int| 0 <= i < parts.len() implies binds_to(
        parts[i],
        values[i],
        w,
        targets[i],
    ) by {
        let a = assignments[i];
        lemma_cell_binds(a.value, dialect, w);
        lemma_free_concat(a.column, " = "@);
        lemma_binds_after(
            a.column + " = "@,
            cell_text(a.value, ph),
            cell_values(a.value),
            cell_text(a.value, w),
            w,
        );
    }
    lemma_join_binds(parts, values, targets, ", "@, w);
}

/// The joins hold no placeholder.
proof fn lemma_joins_are_plain(joins: Seq<JoinModel>)
    requires
        forall|i: int|
            0 <= i < joins.len() ==> placeholder_free((#[trigger] joins[i]).table)
                && placeholder_free(joins[i].on),
    ensures
        placeholder_free(joins_clause(joins)),
{
    lemma_join_words_are_plain();
    let parts = joins.map_values(|j: JoinModel| join_text(j));
    assert forall|i: int| 0 <= i < parts.len() implies placeholder_free(#[trigger] parts[i]) by {
        let j = joins[i];
        lemma_free_concat(" "@, j.kind.keyword());
        lemma_free_concat(" "@ + j.kind.keyword(), " JOIN "@);
        lemma_free_concat(" "@ + j.kind.keyword() + " JOIN "@, j.table);
        lemma_free_concat(" "@ + j.kind.keyword() + " JOIN "@ + j.table, " ON "@);
        lemma_free_concat(" "@ + j.kind.keyword() + " JOIN "@ + j.table + " ON "@, j.on);
    }
    lemma_free_join(parts, Seq::empty());
}

/// The `ORDER BY` clause holds no placeholder.
proof fn lemma_order_is_plain(order_by: Seq<OrderModel>)
    requires
        forall|i: int|
            0 <= i < order_by.len() ==> placeholder_free((#[trigger] order_by[i]).column),
    ensures
        placeholder_free(order_clause(order_by)),
{
    lemma_join_words_are_plain();
    lemma_select_words_are_plain();
    if order_by.len() > 0 {
        let parts = order_by.map_values(|o: OrderModel| order_text(o));
        assert forall|i: int| 0 <= i < parts.len() implies placeholder_free(
            #[trigger] parts[i],
        ) by {
            let o = order_by[i];
            lemma_free_concat(o.column, " "@);
            lemma_free_concat(o.column + " "@, o.direction.keyword());
        }
        lemma_free_join(parts, ", "@);
        lemma_free_concat(" ORDER BY "@, join(parts, ", "@));
    }
}

/// The `RETURNING` clause holds no placeholder.
proof fn lemma_returning_is_plain(dialect: Dialect, columns: Seq<Seq<char>>)
    requires
        all_placeholder_free(columns),
    ensures
        placeholder_free(returning_clause(dialect, columns)),
{
    lemma_mutation_words_are_plain();
    if dialect.returning_supported() && columns.len() > 0 {
        lemma_free_join(columns, ", "@);
        lemma_free_concat(" RETURNING "@, join(columns, ", "@));
    }
}

/// What stands before the `WHERE` clause of a `SELECT` holds no
/// placeholder.
proof fn lemma_select_head_is_plain(m: StatementModel)
    requires
        raw_text_is_plain(m),
        m.table is Some,
    ensures
        placeholder_free(select_head(m)),
{
    lemma_select_words_are_plain();
    lemma_joins_are_plain(m.joins);
    let quantifier = if m.distinct {
        "DISTINCT "@
    } else {
        Seq::empty()
    };
    if m.columns.len() > 0 {
        lemma_free_join(m.columns, ", "@);
    }
    lemma_free_concat("SELECT "@, quantifier);
    lemma_free_concat("SELECT "@ + quantifier, projection(m.columns));
    lemma_free_concat("SELECT "@ + quantifier + projection(m.columns), " FROM "@);
    lemma_free_concat("SELECT "@ + quantifier + projection(m.columns) + " FROM "@, m.table->0);
    lemma_free_concat(
        "SELECT "@ + quantifier + projection(m.columns) + " FROM "@ + m.table->0,
        joins_clause(m.joins),
    );
}

/// What stands behind the `WHERE` clause of a `SELECT` holds no
/// placeholder.
proof fn lemma_select_tail_is_plain(m: StatementModel)
    requires
        raw_text_is_plain(m),
    ensures
        placeholder_free(select_tail(m)),
{
    lemma_select_words_are_plain();
    lemma_order_is_plain(m.order_by);
    if m.group_by.len() > 0 {
        lemma_free_join(m.group_by, ", "@);
        lemma_free_concat(" GROUP BY "@, join(m.group_by, ", "@));
    }
    if m.having is Some {
        lemma_free_concat(" HAVING "@, m.having->0);
    }
    if m.limit is Some {
        lemma_free_decimal(m.limit->0 as nat);
        lemma_free_concat(" LIMIT "@, crate::text::decimal(m.limit->0 as nat));
    }
    if m.offset is Some {
        lemma_free_decimal(m.offset->0 as nat);
        lemma_free_concat(" OFFSET "@, crate::text::decimal(m.offset->0 as nat));
    }
    lemma_free_concat(group_clause(m.group_by), having_clause(m.having));
    lemma_free_concat(
        group_clause(m.group_by) + having_clause(m.having),
        order_clause(m.order_by),
    );
    lemma_free_concat(
        group_clause(m.group_by) + having_clause(m.having) + order_clause(m.order_by),
        limit_clause(m.limit),
    );
    lemma_free_concat(
        group_clause(m.group_by) + having_clause(m.having) + order_clause(m.order_by)
            + limit_clause(m.limit),
        offset_clause(m.offset),
    );
}

proof fn lemma_select_binds(m: StatementModel, w: Inscribe)
    requires
        raw_text_is_plain(m),
        m.table is Some,
    ensures
        binds_to(
            select_text(m, as_placeholder(m.dialect)),
            conditions_values(m.conditions),
            w,
            select_text(m, w),
        ),
{
    let ph = as_placeholder(m.dialect);
    lemma_select_head_is_plain(m);
    lemma_select_tail_is_plain(m);
    lemma_where_binds(m.conditions, m.dialect, w);
    lemma_binds_after(
        select_head(m),
        where_clause(m.conditions, ph),
        conditions_values(m.conditions),
        where_clause(m.conditions, w),
        w,
    );
    lemma_binds_before(
        select_head(m) + where_clause(m.conditions, ph),
        conditions_values(m.conditions),
        select_head(m) + where_clause(m.conditions, w),
        select_tail(m),
        w,
    );
}

proof fn lemma_insert_binds(m: StatementModel, w: Inscribe)
    requires
        raw_text_is_plain(m),
        m.insert_table is Some,
    ensures
        binds_to(
            insert_text(m, as_placeholder(m.dialect)),
            rows_values(m.insert_rows),
            w,
            insert_text(m, w),
        ),
{
    let ph = as_placeholder(m.dialect);
    lemma_mutation_words_are_plain();
    lemma_rows_binds(m.insert_rows, m.dialect, w);
    lemma_returning_is_plain(m.dialect, m.returning);
    lemma_free_join(m.insert_columns, ", "@);
    let head = "INSERT INTO "@ + m.insert_table->0 + " ("@ + join(m.insert_columns, ", "@)
        + ") VALUES "@;
    lemma_free_concat("INSERT INTO "@, m.insert_table->0);
    lemma_free_concat("INSERT INTO "@ + m.insert_table->0, " ("@);
    lemma_free_concat("INSERT INTO "@ + m.insert_table->0 + " ("@, join(m.insert_columns, ", "@));
    lemma_free_concat(
        "INSERT INTO "@ + m.insert_table->0 + " ("@ + join(m.insert_columns, ", "@),
        ") VALUES "@,
    );
    let rows_ph = join(m.insert_rows.map_values(|r: Seq<CellModel>| row_text(r, ph)), ", "@);
    let rows_w = join(m.insert_rows.map_values(|r: Seq<CellModel>| row_text(r, w)), ", "@);
    lemma_binds_after(head, rows_ph, rows_values(m.insert_rows), rows_w, w);
    lemma_binds_before(
        head + rows_ph,
        rows_values(m.insert_rows),
        head + rows_w,
        returning_clause(m.dialect, m.returning),
        w,
    );
}

proof fn lemma_update_binds(m: StatementModel, w: Inscribe)
    requires
        raw_text_is_plain(m),
        m.update_table is Some,
    ensures
        binds_to(
            update_text(m, as_placeholder(m.dialect)),
            assignments_values(m.assignments) + conditions_values(m.conditions),
            w,
            update_text(m, w),
        ),
{
    let ph = as_placeholder(m.dialect);
    lemma_mutation_words_are_plain();
    lemma_assignments_bind(m.assignments, m.dialect, w);
    lemma_where_binds(m.conditions, m.dialect, w);
    lemma_returning_is_plain(m.dialect, m.returning);
    let head = "UPDATE "@ + m.update_table->0 + " SET "@;
    lemma_free_concat("UPDATE "@, m.update_table->0);
    lemma_free_concat("UPDATE "@ + m.update_table->0, " SET "@);
    let sets_ph = join(
        m.assignments.map_values(|a: AssignmentModel| assignment_text(a, ph)),
        ", "@,
    );
    let sets_w = join(m.assignments.map_values(|a: AssignmentModel| assignment_text(a, w)), ", "@);
    lemma_binds_after(head, sets_ph, assignments_values(m.assignments), sets_w, w);
    lemma_binds_concat(
        head + sets_ph,
        assignments_values(m.assignments),
        head + sets_w,
        where_clause(m.conditions, ph),
        conditions_values(m.conditions),
        where_clause(m.conditions, w),
        w,
    );
    lemma_binds_before(
        head + sets_ph + where_clause(m.conditions, ph),
        assignments_values(m.assignments) + conditions_values(m.conditions),
        head + sets_w + where_clause(m.conditions, w),
        returning_clause(m.dialect, m.returning),
        w,
    );
}

proof fn lemma_delete_binds(m: StatementModel, w: Inscribe)
    requires
        raw_text_is_plain(m),
        m.delete_table is Some,
    ensures
        binds_to(
            delete_text(m, as_placeholder(m.dialect)),
            conditions_values(m.conditions),
            w,
            delete_text(m, w),
        ),
{
    let ph = as_placeholder(m.dialect);
    lemma_mutation_words_are_plain();
    lemma_where_binds(m.conditions, m.dialect, w);
    lemma_returning_is_plain(m.dialect, m.returning);
    let head = "DELETE FROM "@ + m.delete_table->0;
    lemma_free_concat("DELETE FROM "@, m.delete_table->0);
    lemma_binds_after(
        head,
        where_clause(m.conditions, ph),
        conditions_values(m.conditions),
        where_clause(m.conditions, w),
        w,
    );
    lemma_binds_before(
        head + where_clause(m.conditions, ph),
        conditions_values(m.conditions),
        head + where_clause(m.conditions, w),
        returning_clause(m.dialect, m.returning),
        w,
    );
}

/// The bound values answer the placeholders one for one and in order.
///
/// Of every statement that renders, and in which no text that the caller
/// wrote as it is holds a placeholder: the rendered SQL has exactly as many
/// placeholders as there are bound values, and putting the values in the
/// places of the placeholders, left to right, gives the very text that comes
/// of writing each value at the place where it was bound, however a value
/// is written.
pub proof fn lemma_parameters_answer_placeholders(m: StatementModel, w: Inscribe)
    requires
        render_failure(m) is None,
        raw_text_is_plain(m),
    ensures
        placeholder_count(rendered_sql(m)) == bound_values(m).len(),
        bind(rendered_sql(m), bound_values(m), w) == statement_text(m, w),
{
    match m.kind {
        QueryType::Select => lemma_select_binds(m, w),
        QueryType::Insert => lemma_insert_binds(m, w),
        QueryType::Update => lemma_update_binds(m, w),
        QueryType::Delete => lemma_delete_binds(m, w),
    }
}

/// A builder that has been told nothing cannot render: it names no table.
pub proof fn lemma_fresh_statement_does_not_render(dialect: Dialect)
    ensures
        render_failure(empty_statement(dialect)) == Some("No table specified for SELECT"@),
{
}

/// `RETURNING` shows exactly where the dialect supports it.
///
/// What a backend reports of `RETURNING` is what its dialect supports.
/// Asking for columns never decides whether a statement renders. Where the
/// dialect lacks the clause, the rendered text is the one that comes
/// without the columns. Where it has the clause, a mutating statement that
/// asks for columns renders as the statement without them followed by
/// ` RETURNING ` and the columns, which is a different text.
pub proof fn lemma_returning_follows_dialect(m: StatementModel)
    ensures
        feature_supported(m.dialect, BackendFeature::Returning) == m.dialect.returning_supported(),
        render_failure(m) == render_failure(without_returning(m)),
        !m.dialect.returning_supported() ==> rendered_sql(m) == rendered_sql(without_returning(m)),
        m.dialect.returning_supported() && m.kind != QueryType::Select && m.returning.len() > 0
            ==> rendered_sql(m) == rendered_sql(without_returning(m)) + " RETURNING "@ + join(
            m.returning,
            ", "@,
        ) && rendered_sql(m) != rendered_sql(without_returning(m)),
{
    let base = without_returning(m);
    let ph = as_placeholder(m.dialect);
    assert(returning_clause(base.dialect, base.returning) =~= Seq::<char>::empty());
    if !m.dialect.returning_supported() {
        assert(rendered_sql(m) =~= rendered_sql(base));
    }
    if m.dialect.returning_supported() && m.kind != QueryType::Select && m.returning.len() > 0 {
        reveal_strlit(" RETURNING ");
        let clause = " RETURNING "@ + join(m.returning, ", "@);
        assert(rendered_sql(m) =~= rendered_sql(base) + clause);
        assert(rendered_sql(m) =~= rendered_sql(base) + " RETURNING "@ + join(m.returning, ", "@));
        assert(clause.len() > 0);
        assert(rendered_sql(m).len() != rendered_sql(base).len());
    }
}

/// The statement that asks for no `RETURNING` columns and is otherwise `m`.
pub open spec fn without_returning(m: StatementModel) -> StatementModel {
    StatementModel { returning: Seq::empty(), ..m }
}

} // verus!
