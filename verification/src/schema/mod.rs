//! Declarative descriptions of tables and the DDL they stand for.

pub mod column;
pub mod introspect;
pub mod table;

pub use column::{Column, ColumnType};
pub use introspect::{export_schema, ColumnSchema, ForeignKeySchema, SchemaExport, TableSchema};
pub use table::{ForeignKey, ForeignKeyAction, Index, Table};
