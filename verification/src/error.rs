//! The failure categories of the data-access layer.

use vstd::prelude::*;
use vstd::string::*;

verus! {

/// A failure, by category, with the detail that explains it.
#[derive(Debug)]
pub enum Error {
    /// The store could not be reached, or no session became available.
    ConnectionError(String),
    /// A statement could not be rendered or run.
    QueryError(String),
    /// An operation was attempted on a transaction in the wrong state.
    TransactionError(String),
    /// A schema migration failed.
    MigrationError(String),
    /// A record could not be decoded into the expected shape.
    SerializationError(String),
    /// The store rejected a write that breaks a constraint.
    ConstraintViolation(String),
    /// A configuration value, such as a connection descriptor, is unusable.
    ConfigError(String),
    /// A failure reported by the underlying driver, passed through.
    DatabaseError(String),
    /// A failure of the operating system's input or output.
    IoError(String),
}

impl Error {
    /// The detail carried by the error.
    pub open spec fn detail(&self) -> Seq<char> {
        match self {
            Error::ConnectionError(d) => d@,
            Error::QueryError(d) => d@,
            Error::TransactionError(d) => d@,
            Error::MigrationError(d) => d@,
            Error::SerializationError(d) => d@,
            Error::ConstraintViolation(d) => d@,
            Error::ConfigError(d) => d@,
            Error::DatabaseError(d) => d@,
            Error::IoError(d) => d@,
        }
    }

    /// The words that introduce the detail in the error's message.
    pub open spec fn label(&self) -> Seq<char> {
        match self {
            Error::ConnectionError(_) => "Connection error: "@,
            Error::QueryError(_) => "Query error: "@,
            Error::TransactionError(_) => "Transaction error: "@,
            Error::MigrationError(_) => "Migration error: "@,
            Error::SerializationError(_) => "Serialization error: "@,
            Error::ConstraintViolation(_) => "Constraint violation: "@,
            Error::ConfigError(_) => "Invalid configuration: "@,
            Error::DatabaseError(_) => "Database error: "@,
            Error::IoError(_) => "IO error: "@,
        }
    }

    /// Whether this is a query error with exactly the detail `detail`.
    pub open spec fn is_query_error(&self, detail: Seq<char>) -> bool {
        self is QueryError && self.detail() == detail
    }

    /// The message shown to a user: the category's label, then the detail.
    pub fn message(&self) -> (m: String)
        ensures
            m@ == self.label() + self.detail(),
    {
        let (label, detail) = match self {
            Error::ConnectionError(d) => ("Connection error: ", d),
            Error::QueryError(d) => ("Query error: ", d),
            Error::TransactionError(d) => ("Transaction error: ", d),
            Error::MigrationError(d) => ("Migration error: ", d),
            Error::SerializationError(d) => ("Serialization error: ", d),
            Error::ConstraintViolation(d) => ("Constraint violation: ", d),
            Error::ConfigError(d) => ("Invalid configuration: ", d),
            Error::DatabaseError(d) => ("Database error: ", d),
            Error::IoError(d) => ("IO error: ", d),
        };
        let mut m = String::from_str(label);
        m.append(detail.as_str());
        m
    }
}

} // verus!
