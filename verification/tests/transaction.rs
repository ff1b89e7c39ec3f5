use orm::backend::{GenericBackend, OperationKind};
use orm::error::Error;
use orm::query::{Dialect, QueryValue};
use orm::transaction::{Completion, Transaction};

#[derive(Debug, PartialEq)]
struct Session(u32);

fn completed(e: Error) -> bool {
    matches!(e, Error::TransactionError(ref d) if d == "Transaction already completed")
}

#[test]
fn an_active_transaction_asks_what_a_backend_asks() {
    let backend = GenericBackend::new((), "sqlite::memory:".to_string(), Dialect::SQLite, "SQLite");
    let mut tx = Transaction::new(Session(1));
    assert!(tx.is_active());
    let params = [QueryValue::I64(30), QueryValue::String("Alice".to_string())];
    let sql = "UPDATE accounts SET balance = balance - ? WHERE name = ?";

    let op = tx.execute_params(sql, &params).unwrap();
    let same = backend.execute(sql, &params);
    assert_eq!(op.kind, same.kind);
    assert_eq!(op.statement.sql(), same.statement.sql());
    assert_eq!(op.statement.params(), same.statement.params());

    assert_eq!(tx.execute("DELETE FROM t").unwrap().kind, OperationKind::Execute);
    assert_eq!(tx.fetch_all("SELECT 1").unwrap().kind, OperationKind::FetchAll);
    assert_eq!(tx.fetch_one("SELECT 1").unwrap().kind, OperationKind::FetchOne);
    let op = tx.fetch_all_params("SELECT ?", &params[..1]).unwrap();
    assert_eq!(op.kind, OperationKind::FetchAll);
    assert_eq!(op.statement.params(), &params[..1]);
    let op = tx.fetch_one_params("SELECT ?, ?", &params).unwrap();
    assert_eq!(op.kind, OperationKind::FetchOne);
    assert_eq!(op.statement.sql(), "SELECT ?, ?");
    assert!(tx.is_active());
}

#[test]
fn a_transaction_hands_out_its_own_session() {
    let mut tx = Transaction::new(Session(5));
    tx.session_mut().unwrap().0 += 1;
    assert_eq!(tx.session_mut(), Some(&mut Session(6)));
    assert!(matches!(tx.commit(), Completion::Commit(Session(6))));
}

#[test]
fn commit_ends_the_transaction_with_a_commit_of_its_session() {
    let tx = Transaction::new(Session(2));
    assert!(matches!(tx.commit(), Completion::Commit(Session(2))));
}

#[test]
fn rollback_ends_the_transaction_with_a_rollback_of_its_session() {
    let tx = Transaction::new(Session(3));
    assert!(matches!(tx.rollback(), Completion::Rollback(Session(3))));
}

#[test]
fn an_abandoned_transaction_is_rolled_back_once() {
    let mut tx = Transaction::new(Session(4));
    assert!(matches!(tx.abandon(), Completion::Rollback(Session(4))));
    assert!(!tx.is_active());
    assert!(matches!(tx.abandon(), Completion::Nothing));
    assert!(tx.session_mut().is_none());
    assert!(matches!(tx.commit(), Completion::Nothing));
}

#[test]
fn nothing_runs_on_a_transaction_that_has_ended() {
    let mut tx = Transaction::new(Session(9));
    tx.abandon();
    let params = [QueryValue::I32(1)];
    assert!(completed(tx.execute("DELETE FROM t").unwrap_err()));
    assert!(completed(tx.execute_params("DELETE FROM t WHERE a = ?", &params).unwrap_err()));
    assert!(completed(tx.fetch_all("SELECT 1").unwrap_err()));
    assert!(completed(tx.fetch_all_params("SELECT ?", &params).unwrap_err()));
    assert!(completed(tx.fetch_one("SELECT 1").unwrap_err()));
    assert!(completed(tx.fetch_one_params("SELECT ?", &params).unwrap_err()));
    let e = tx.execute("DELETE FROM t").unwrap_err();
    assert_eq!(e.message(), "Transaction error: Transaction already completed");
    assert!(matches!(tx.rollback(), Completion::Nothing));
}
