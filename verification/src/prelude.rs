//! The names that most programs need.

pub use crate::backend::{BackendFeature, DatabaseBackend, GenericBackend};
pub use crate::connection::{Pool, PoolConfig};
pub use crate::error::Error;
pub use crate::model::{FromRow, Model, ModelCrud, ModelQuery, Row, Value};
pub use crate::query::{Dialect, JoinType, OrderDirection, QueryBuilder, QueryValue};
pub use crate::schema::{Column, ColumnType, Table};
pub use crate::transaction::Transaction;
