//! The transaction: a scope that owns one session of a store from its
//! beginning to exactly one end.

use vstd::prelude::*;
use vstd::string::*;

use crate::backend::{Operation, OperationKind};
use crate::error::Error;
use crate::query::executor::{scalars, QueryExecutor, QueryValue, Scalar};

verus! {

/// Where a transaction stands.
#[derive(Debug, Clone, Copy, PartialEq, Eq, Structural)]
pub enum TransactionState {
    /// The transaction holds its session; statements may run.
    Active,
    /// The transaction has ended; nothing may run any more.
    Consumed,
}

/// How a transaction ends.
pub enum Completion<S> {
    /// The session is to be committed, then returned to the pool.
    Commit(S),
    /// The session is to be rolled back, then returned to the pool.
    Rollback(S),
    /// The transaction had ended before; there is nothing to do.
    Nothing,
}

/// The failure of an operation on a transaction that has ended: an error
/// of the transaction's state.
pub open spec fn is_completed_error(e: Error) -> bool {
    e is TransactionError && e.detail() == "Transaction already completed"@
}

/// A transaction over a session of type `S`. It owns the session from its
/// beginning until it ends, and ends once.
pub struct Transaction<S> {
    inner: Option<S>,
}

impl<S> Transaction<S> {
    /// The session that the transaction holds, while it is active.
    pub closed spec fn session(&self) -> Option<S> {
        self.inner
    }

    /// Where the transaction stands.
    pub open spec fn state(&self) -> TransactionState {
        if self.session() is Some {
            TransactionState::Active
        } else {
            TransactionState::Consumed
        }
    }

    /// Begins a transaction on `session`.
    pub fn new(session: S) -> (t: Self)
        ensures
            t.session() == Some(session),
    {
        Transaction { inner: Some(session) }
    }

    /// Whether statements may still run.
    pub fn is_active(&self) -> (b: bool)
        ensures
            b == (self.state() == TransactionState::Active),
    {
        self.inner.is_some()
    }

    /// The operation `kind` on `sql` with `params`, if the transaction is
    /// active; the transaction stays as it is.
    fn operation(&self, kind: OperationKind, sql: &str, params: &[QueryValue]) -> (r: Result<
        Operation,
        Error,
    >)
        ensures
            match r {
                Ok(op) => {
                    &&& self.state() == TransactionState::Active
                    &&& op.kind == kind
                    &&& op.statement.spec_sql() == sql@
                    &&& op.statement.spec_params() == scalars(params@)
                },
                Err(e) => self.state() == TransactionState::Consumed && is_completed_error(e),
            },
    {
        if self.inner.is_some() {
            Ok(Operation { kind, statement: QueryExecutor::with_params(sql, params) })
        } else {
            Err(Error::TransactionError(String::from_str("Transaction already completed")))
        }
    }

    /// Asks to run `sql`, which binds nothing, on the transaction's session.
    /// For text that the program itself wrote, never for input.
    pub fn execute(&mut self, sql: &str) -> (r: Result<Operation, Error>)
        ensures
            final(self).session() == old(self).session(),
            match r {
                Ok(op) => {
                    &&& old(self).state() == TransactionState::Active
                    &&& op.kind == OperationKind::Execute
                    &&& op.statement.spec_sql() == sql@
                    &&& op.statement.spec_params() == Seq::<Scalar>::empty()
                },
                Err(e) => old(self).state() == TransactionState::Consumed && is_completed_error(
                    e,
                ),
            },
    {
        assert(scalars(Seq::<QueryValue>::empty()) =~= Seq::<Scalar>::empty());
        self.operation(OperationKind::Execute, sql, &[])
    }

    /// Asks to run `sql` with `params` bound to its placeholders, in order, on
    /// the transaction's session. Fails once the transaction has ended.
    pub fn execute_params(&mut self, sql: &str, params: &[QueryValue]) -> (r: Result<Operation, Error>)
        ensures
            final(self).session() == old(self).session(),
            match r {
                Ok(op) => {
                    &&& old(self).state() == TransactionState::Active
                    &&& op.kind == OperationKind::Execute
                    &&& op.statement.spec_sql() == sql@
                    &&& op.statement.spec_params() == scalars(params@)
                },
                Err(e) => old(self).state() == TransactionState::Consumed && is_completed_error(
                    e,
                ),
            },
    {
        self.operation(OperationKind::Execute, sql, params)
    }

    /// Asks for every row of `sql`, which binds nothing. For text that the
    /// program itself wrote, never for input.
    pub fn fetch_all(&mut self, sql: &str) -> (r: Result<Operation, Error>)
        ensures
            final(self).session() == old(self).session(),
            match r {
                Ok(op) => {
                    &&& old(self).state() == TransactionState::Active
                    &&& op.kind == OperationKind::FetchAll
                    &&& op.statement.spec_sql() == sql@
                    &&& op.statement.spec_params() == Seq::<Scalar>::empty()
                },
                Err(e) => old(self).state() == TransactionState::Consumed && is_completed_error(
                    e,
                ),
            },
    {
        assert(scalars(Seq::<QueryValue>::empty()) =~= Seq::<Scalar>::empty());
        self.operation(OperationKind::FetchAll, sql, &[])
    }

    /// Asks for every row of `sql` with `params` bound to its placeholders,
    /// in order. Fails once the transaction has ended.
    pub fn fetch_all_params(&mut self, sql: &str, params: &[QueryValue]) -> (r: Result<Operation, Error>)
        ensures
            final(self).session() == old(self).session(),
            match r {
                Ok(op) => {
                    &&& old(self).state() == TransactionState::Active
                    &&& op.kind == OperationKind::FetchAll
                    &&& op.statement.spec_sql() == sql@
                    &&& op.statement.spec_params() == scalars(params@)
                },
                Err(e) => old(self).state() == TransactionState::Consumed && is_completed_error(
                    e,
                ),
            },
    {
        self.operation(OperationKind::FetchAll, sql, params)
    }

    /// Asks for the first row of `sql`, which binds nothing. For text that
    /// the program itself wrote, never for input.
    pub fn fetch_one(&mut self, sql: &str) -> (r: Result<Operation, Error>)
        ensures
            final(self).session() == old(self).session(),
            match r {
                Ok(op) => {
                    &&& old(self).state() == TransactionState::Active
                    &&& op.kind == OperationKind::FetchOne
                    &&& op.statement.spec_sql() == sql@
                    &&& op.statement.spec_params() == Seq::<Scalar>::empty()
                },
                Err(e) => old(self).state() == TransactionState::Consumed && is_completed_error(
                    e,
                ),
            },
    {
        assert(scalars(Seq::<QueryValue>::empty()) =~= Seq::<Scalar>::empty());
        self.operation(OperationKind::FetchOne, sql, &[])
    }

    /// Asks for the first row of `sql` with `params` bound to its
    /// placeholders, in order. Fails once the transaction has ended.
    pub fn fetch_one_params(&mut self, sql: &str, params: &[QueryValue]) -> (r: Result<Operation, Error>)
        ensures
            final(self).session() == old(self).session(),
            match r {
                Ok(op) => {
                    &&& old(self).state() == TransactionState::Active
                    &&& op.kind == OperationKind::FetchOne
                    &&& op.statement.spec_sql() == sql@
                    &&& op.statement.spec_params() == scalars(params@)
                },
                Err(e) => old(self).state() == TransactionState::Consumed && is_completed_error(
                    e,
                ),
            },
    {
        self.operation(OperationKind::FetchOne, sql, params)
    }

    /// The session, for the operation at hand, while the transaction is
    /// active.
    pub fn session_mut(&mut self) -> (r: Option<&mut S>)
        ensures
            match r {
                Some(session) => {
                    &&& old(self).session() == Some(*session)
                    &&& final(self).session() == Some(*final(session))
                },
                None => old(self).session() is None && final(self).session() is None,
            },
    {
        self.inner.as_mut()
    }

    /// Ends the transaction by committing: what ran since the beginning is
    /// to be applied. The transaction is used up.
    pub fn commit(self) -> (c: Completion<S>)
        ensures
            c == match self.session() {
                Some(session) => Completion::Commit(session),
                None => Completion::Nothing,
            },
    {
        match self.inner {
            Some(session) => Completion::Commit(session),
            None => Completion::Nothing,
        }
    }

    /// Ends the transaction by rolling back: what ran since the beginning
    /// is to be discarded. The transaction is used up.
    pub fn rollback(self) -> (c: Completion<S>)
        ensures
            c == match self.session() {
                Some(session) => Completion::Rollback(session),
                None => Completion::Nothing,
            },
    {
        match self.inner {
            Some(session) => Completion::Rollback(session),
            None => Completion::Nothing,
        }
    }

    /// Ends a transaction that is being given up without a commit or a
    /// rollback: an active transaction is to be rolled back before its
    /// session returns to the pool. Afterwards the transaction has ended,
    /// whatever it was.
    pub fn abandon(&mut self) -> (c: Completion<S>)
        ensures
            final(self).state() == TransactionState::Consumed,
            c == match old(self).session() {
                Some(session) => Completion::Rollback(session),
                None => Completion::Nothing,
            },
    {
        match self.inner.take() {
            Some(session) => Completion::Rollback(session),
            None => Completion::Nothing,
        }
    }
}

} // verus!
