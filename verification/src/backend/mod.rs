//! The execution surface of a store: which store a connection descriptor
//! selects, what the store can do, and the handle that threads the store's
//! dialect into every builder made for it.

use vstd::prelude::*;
use vstd::string::*;

use crate::error::Error;
use crate::query::builder::QueryBuilderEnum;
use crate::query::executor::{scalars, QueryExecutor, QueryValue, Scalar};
use crate::query::model::empty_statement;
use crate::query::{Dialect, QueryBuilder};
use crate::text::{begins_with, has_prefix};
use crate::transaction::{Transaction, TransactionState};

verus! {

/// What is asked of the store.
#[derive(Debug, Clone, Copy, PartialEq, Eq, Structural)]
pub enum OperationKind {
    /// Run the statement; the answer is the number of rows it touched.
    Execute,
    /// Run the statement; the answer is every row, in order.
    FetchAll,
    /// Run the statement; the answer is the first row, if there is one.
    FetchOne,
}

/// One operation against a store: what is asked, and the statement with
/// its bound values.
#[derive(Debug)]
pub struct Operation {
    pub kind: OperationKind,
    pub statement: QueryExecutor,
}

/// Something a store may or may not be able to do.
#[derive(Debug, Clone, Copy, PartialEq, Eq, Structural)]
pub enum BackendFeature {
    Transactions,
    Savepoints,
    Returning,
    OnConflict,
    CTE,
    Window,
}

/// What a store of `dialect` can do. The answers are fixed per dialect; no
/// server is asked. `RETURNING` is what the dialect itself reports, so that
/// rendering and capability never disagree.
pub open spec fn feature_supported(dialect: Dialect, feature: BackendFeature) -> bool {
    match feature {
        BackendFeature::Transactions => true,
        BackendFeature::Savepoints => true,
        BackendFeature::Returning => dialect.returning_supported(),
        BackendFeature::OnConflict => dialect == Dialect::SQLite,
        BackendFeature::CTE => true,
        BackendFeature::Window => true,
    }
}

/// The store that a connection descriptor selects.
#[derive(Debug, Clone, Copy, PartialEq, Eq, Structural)]
pub enum DatabaseBackend {
    SQLite,
    MySQL,
}

/// The store that the scheme of `url` selects, if it selects one.
pub open spec fn backend_of_url(url: Seq<char>) -> Option<DatabaseBackend> {
    if begins_with(url, "sqlite:"@) {
        Some(DatabaseBackend::SQLite)
    } else if begins_with(url, "mysql://"@) {
        Some(DatabaseBackend::MySQL)
    } else {
        None
    }
}

impl DatabaseBackend {
    /// Selects the store by the scheme of a connection descriptor; a
    /// descriptor of another scheme is a configuration error.
    pub fn from_url(url: &str) -> (r: Result<Self, Error>)
        ensures
            match r {
                Ok(b) => backend_of_url(url@) == Some(b),
                Err(e) => {
                    &&& backend_of_url(url@) is None
                    &&& e is ConfigError
                    &&& e.detail() == "Unsupported database URL scheme"@
                },
            },
    {
        if has_prefix(url, "sqlite:") {
            Ok(DatabaseBackend::SQLite)
        } else if has_prefix(url, "mysql://") {
            Ok(DatabaseBackend::MySQL)
        } else {
            Err(Error::ConfigError(String::from_str("Unsupported database URL scheme")))
        }
    }

    /// The dialect that the store speaks.
    pub fn dialect(self) -> (d: Dialect)
        ensures
            d == match self {
                DatabaseBackend::SQLite => Dialect::SQLite,
                DatabaseBackend::MySQL => Dialect::MySQL,
            },
    {
        match self {
            DatabaseBackend::SQLite => Dialect::SQLite,
            DatabaseBackend::MySQL => Dialect::MySQL,
        }
    }
}

/// A store's handle: the pool of its sessions, its connection descriptor,
/// its dialect and its display name. None of them changes after
/// construction.
pub struct GenericBackend<P> {
    pool: P,
    connection_url: String,
    dialect: Dialect,
    name: &'static str,
}

impl<P> GenericBackend<P> {
    /// The pool that the backend owns.
    pub closed spec fn spec_pool(&self) -> P {
        self.pool
    }

    /// The connection descriptor that the backend was made with.
    pub closed spec fn spec_connection_url(&self) -> Seq<char> {
        self.connection_url@
    }

    /// The dialect that the backend was made with.
    pub closed spec fn spec_dialect(&self) -> Dialect {
        self.dialect
    }

    /// The display name that the backend was made with.
    pub closed spec fn spec_name(&self) -> Seq<char> {
        self.name@
    }

    pub fn new(pool: P, connection_url: String, dialect: Dialect, name: &'static str) -> (b: Self)
        ensures
            b.spec_pool() == pool,
            b.spec_connection_url() == connection_url@,
            b.spec_dialect() == dialect,
            b.spec_name() == name@,
    {
        GenericBackend { pool, connection_url, dialect, name }
    }

    pub fn pool(&self) -> (p: &P)
        ensures
            *p == self.spec_pool(),
    {
        &self.pool
    }

    pub fn name(&self) -> (n: &str)
        ensures
            n@ == self.spec_name(),
    {
        self.name
    }

    pub fn connection_url(&self) -> (u: &str)
        ensures
            u@ == self.spec_connection_url(),
    {
        self.connection_url.as_str()
    }

    pub fn dialect(&self) -> (d: Dialect)
        ensures
            d == self.spec_dialect(),
    {
        self.dialect
    }

    /// A builder for the backend's dialect that has been told nothing.
    pub fn query_builder(&self) -> (b: QueryBuilderEnum)
        ensures
            b.model() == empty_statement(self.spec_dialect()),
    {
        QueryBuilderEnum::new(self.dialect)
    }

    /// Whether the store can do `feature`.
    pub fn supports_feature(&self, feature: BackendFeature) -> (r: bool)
        ensures
            r == feature_supported(self.spec_dialect(), feature),
    {
        match feature {
            BackendFeature::Transactions => true,
            BackendFeature::Savepoints => true,
            BackendFeature::Returning => self.dialect.supports_returning(),
            BackendFeature::OnConflict => match self.dialect {
                Dialect::SQLite => true,
                Dialect::MySQL => false,
            },
            BackendFeature::CTE => true,
            BackendFeature::Window => true,
        }
    }

    /// Begins a transaction on `session`, a session checked out of the
    /// backend's pool: the transaction is active and owns the session.
    pub fn begin_transaction<S>(&self, session: S) -> (t: Transaction<S>)
        ensures
            t.session() == Some(session),
            t.state() == TransactionState::Active,
    {
        Transaction::new(session)
    }

    /// Asks to run `sql`, which binds nothing. For DDL and other text that
    /// the program itself wrote, never for input.
    pub fn execute_raw(&self, sql: &str) -> (op: Operation)
        ensures
            op.kind == OperationKind::Execute,
            op.statement.spec_sql() == sql@,
            op.statement.spec_params() == Seq::<Scalar>::empty(),
    {
        assert(scalars(Seq::<QueryValue>::empty()) =~= Seq::<Scalar>::empty());
        Operation { kind: OperationKind::Execute, statement: QueryExecutor::with_params(sql, &[]) }
    }

    /// Asks to run `sql` with `params` bound to its placeholders, in order.
    pub fn execute(&self, sql: &str, params: &[QueryValue]) -> (op: Operation)
        ensures
            op.kind == OperationKind::Execute,
            op.statement.spec_sql() == sql@,
            op.statement.spec_params() == scalars(params@),
    {
        Operation { kind: OperationKind::Execute, statement: QueryExecutor::with_params(sql, params) }
    }

    /// Asks for every row of `sql`, which binds nothing. For text that the
    /// program itself wrote, never for input.
    pub fn fetch_all(&self, sql: &str) -> (op: Operation)
        ensures
            op.kind == OperationKind::FetchAll,
            op.statement.spec_sql() == sql@,
            op.statement.spec_params() == Seq::<Scalar>::empty(),
    {
        assert(scalars(Seq::<QueryValue>::empty()) =~= Seq::<Scalar>::empty());
        Operation { kind: OperationKind::FetchAll, statement: QueryExecutor::with_params(sql, &[]) }
    }

    /// Asks for every row of `sql` with `params` bound to its placeholders,
    /// in order.
    pub fn fetch_all_params(&self, sql: &str, params: &[QueryValue]) -> (op: Operation)
        ensures
            op.kind == OperationKind::FetchAll,
            op.statement.spec_sql() == sql@,
            op.statement.spec_params() == scalars(params@),
    {
        Operation { kind: OperationKind::FetchAll, statement: QueryExecutor::with_params(sql, params) }
    }

    /// Asks for the first row of `sql`, which binds nothing. For text that
    /// the program itself wrote, never for input.
    pub fn fetch_one(&self, sql: &str) -> (op: Operation)
        ensures
            op.kind == OperationKind::FetchOne,
            op.statement.spec_sql() == sql@,
            op.statement.spec_params() == Seq::<Scalar>::empty(),
    {
        assert(scalars(Seq::<QueryValue>::empty()) =~= Seq::<Scalar>::empty());
        Operation { kind: OperationKind::FetchOne, statement: QueryExecutor::with_params(sql, &[]) }
    }

    /// Asks for the first row of `sql` with `params` bound to its
    /// placeholders, in order.
    pub fn fetch_one_params(&self, sql: &str, params: &[QueryValue]) -> (op: Operation)
        ensures
            op.kind == OperationKind::FetchOne,
            op.statement.spec_sql() == sql@,
            op.statement.spec_params() == scalars(params@),
    {
        Operation { kind: OperationKind::FetchOne, statement: QueryExecutor::with_params(sql, params) }
    }
}

} // verus!
