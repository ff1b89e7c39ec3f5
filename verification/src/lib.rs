//! A data-access layer that assembles SQL statements together with their
//! ordered bound parameters, so that caller-supplied values never become part
//! of the SQL grammar.

pub mod backend;
pub mod connection;
pub mod error;
pub mod migration;
pub mod model;
pub mod prelude;
pub mod query;
pub mod schema;
pub mod text;
pub mod transaction;
pub mod utils;

pub use error::Error;
