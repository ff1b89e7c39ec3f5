//! Migrations: the schema changes they ask for, the DDL those changes
//! stand for, and the plan of which migration runs or is undone next.

pub mod runner;

use vstd::prelude::*;
use vstd::string::*;

pub use runner::{Migration, MigrationRunner};

use crate::query::Dialect;
use crate::schema::column::{column_sql, plain_column, Column, ColumnModel, ColumnType};
use crate::schema::table::{
    create_table_sql, drop_table_sql, ForeignKey, IndexModel, Table, TableModel,
};
use crate::text::{join, join_strings, texts};

verus! {

/// One change of a schema.
#[derive(Debug)]
pub enum SchemaOperation {
    CreateTable(Table),
    DropTable(String),
    AddColumn { table: String, column: Column },
    DropColumn { table: String, column: String },
    CreateIndex { table: String, name: String, columns: Vec<String>, unique: bool },
    DropIndex { name: String },
}

/// What a change of a schema is.
pub enum OperationModel {
    CreateTable(TableModel),
    DropTable(Seq<char>),
    AddColumn { table: Seq<char>, column: ColumnModel },
    DropColumn { table: Seq<char>, column: Seq<char> },
    CreateIndex { table: Seq<char>, name: Seq<char>, columns: Seq<Seq<char>>, unique: bool },
    DropIndex { name: Seq<char> },
}

impl View for SchemaOperation {
    type V = OperationModel;

    open spec fn view(&self) -> OperationModel {
        match self {
            SchemaOperation::CreateTable(t) => OperationModel::CreateTable(t@),
            SchemaOperation::DropTable(name) => OperationModel::DropTable(name@),
            SchemaOperation::AddColumn { table, column } => OperationModel::AddColumn {
                table: table@,
                column: column@,
            },
            SchemaOperation::DropColumn { table, column } => OperationModel::DropColumn {
                table: table@,
                column: column@,
            },
            SchemaOperation::CreateIndex {
                table,
                name,
                columns,
                unique,
            } => OperationModel::CreateIndex {
                table: table@,
                name: name@,
                columns: texts(columns@),
                unique: *unique,
            },
            SchemaOperation::DropIndex { name } => OperationModel::DropIndex { name: name@ },
        }
    }
}

/// The statement that makes a change in `dialect`.
pub open spec fn operation_sql(op: OperationModel, dialect: Dialect) -> Seq<char> {
    match op {
        OperationModel::CreateTable(t) => create_table_sql(t, dialect),
        OperationModel::DropTable(name) => drop_table_sql(name),
        OperationModel::AddColumn { table, column } => "ALTER TABLE "@ + table + " ADD COLUMN "@
            + column_sql(column, dialect),
        OperationModel::DropColumn { table, column } => "ALTER TABLE "@ + table
            + " DROP COLUMN "@ + column,
        OperationModel::CreateIndex { table, name, columns, unique } => "CREATE "@ + (if unique {
            "UNIQUE "@
        } else {
            Seq::empty()
        }) + "INDEX "@ + name + " ON "@ + table + " ("@ + join(columns, ", "@) + ")"@,
        OperationModel::DropIndex { name } => "DROP INDEX IF EXISTS "@ + name,
    }
}

/// The models of a list of changes.
pub open spec fn operation_models(ops: Seq<SchemaOperation>) -> Seq<OperationModel> {
    ops.map_values(|op: SchemaOperation| op@)
}

/// The changes that a migration asks for, in the order in which it asked.
pub struct SchemaModel {
    pub dialect: Dialect,
    pub operations: Seq<OperationModel>,
}

/// The statements of a list of changes, one for one and in order.
pub open spec fn statements_of(m: SchemaModel) -> Seq<Seq<char>> {
    m.operations.map_values(|op: OperationModel| operation_sql(op, m.dialect))
}

/// Collects the changes that a migration asks for.
pub struct Schema {
    dialect: Dialect,
    operations: Vec<SchemaOperation>,
}

impl View for Schema {
    type V = SchemaModel;

    closed spec fn view(&self) -> SchemaModel {
        SchemaModel { dialect: self.dialect, operations: operation_models(self.operations@) }
    }
}

impl Schema {
    /// A schema for `dialect` of which nothing has been asked.
    pub fn new(dialect: Dialect) -> (s: Self)
        ensures
            s@.dialect == dialect,
            s@.operations == Seq::<OperationModel>::empty(),
    {
        let s = Schema { dialect, operations: Vec::new() };
        assert(s@.operations =~= Seq::<OperationModel>::empty());
        s
    }

    /// Adds `op` behind the changes asked for so far.
    fn push(&mut self, op: SchemaOperation)
        ensures
            final(self)@.dialect == old(self)@.dialect,
            final(self)@.operations == old(self)@.operations.push(op@),
    {
        self.operations.push(op);
        assert(operation_models(self.operations@) =~= operation_models(old(self).operations@).push(
            op@,
        ));
    }

    /// Asks for the table that `builder` describes to be created.
    pub fn create_table(&mut self, builder: TableBuilder) -> (ret: &mut Self)
        ensures
            ret@.dialect == old(self)@.dialect,
            ret@.operations == old(self)@.operations.push(OperationModel::CreateTable(builder@)),
            *final(self) == *final(ret),
    {
        self.push(SchemaOperation::CreateTable(builder.build()));
        self
    }

    /// Asks for a table to be dropped.
    pub fn drop_table(&mut self, name: &str) -> (ret: &mut Self)
        ensures
            ret@.dialect == old(self)@.dialect,
            ret@.operations == old(self)@.operations.push(OperationModel::DropTable(name@)),
            *final(self) == *final(ret),
    {
        self.push(SchemaOperation::DropTable(String::from_str(name)));
        self
    }

    /// Asks for a column to be added to a table.
    pub fn add_column(&mut self, table: &str, column: Column) -> (ret: &mut Self)
        ensures
            ret@.dialect == old(self)@.dialect,
            ret@.operations == old(self)@.operations.push(
                OperationModel::AddColumn { table: table@, column: column@ },
            ),
            *final(self) == *final(ret),
    {
        self.push(SchemaOperation::AddColumn { table: String::from_str(table), column });
        self
    }

    /// Asks for a column to be dropped from a table.
    pub fn drop_column(&mut self, table: &str, column: &str) -> (ret: &mut Self)
        ensures
            ret@.dialect == old(self)@.dialect,
            ret@.operations == old(self)@.operations.push(
                OperationModel::DropColumn { table: table@, column: column@ },
            ),
            *final(self) == *final(ret),
    {
        self.push(
            SchemaOperation::DropColumn {
                table: String::from_str(table),
                column: String::from_str(column),
            },
        );
        self
    }

    /// Asks for an index to be created.
    pub fn create_index(
        &mut self,
        table: &str,
        name: &str,
        columns: Vec<String>,
        unique: bool,
    ) -> (ret: &mut Self)
        ensures
            ret@.dialect == old(self)@.dialect,
            ret@.operations == old(self)@.operations.push(
                OperationModel::CreateIndex {
                    table: table@,
                    name: name@,
                    columns: texts(columns@),
                    unique,
                },
            ),
            *final(self) == *final(ret),
    {
        self.push(
            SchemaOperation::CreateIndex {
                table: String::from_str(table),
                name: String::from_str(name),
                columns,
                unique,
            },
        );
        self
    }

    /// Asks for an index to be dropped. An index is known by its name
    /// alone; the table is not part of the statement.
    pub fn drop_index(&mut self, _table: &str, name: &str) -> (ret: &mut Self)
        ensures
            ret@.dialect == old(self)@.dialect,
            ret@.operations == old(self)@.operations.push(
                OperationModel::DropIndex { name: name@ },
            ),
            *final(self) == *final(ret),
    {
        self.push(SchemaOperation::DropIndex { name: String::from_str(name) });
        self
    }

    /// The statement that makes `operation` in the schema's dialect.
    pub fn operation_to_sql(&self, operation: &SchemaOperation) -> (sql: String)
        ensures
            sql@ == operation_sql(operation@, self@.dialect),
    {
        match operation {
            SchemaOperation::CreateTable(table) => table.to_create_sql(self.dialect),
            SchemaOperation::DropTable(name) => {
                let mut sql = String::from_str("DROP TABLE IF EXISTS ");
                sql.append(name.as_str());
                sql
            },
            SchemaOperation::AddColumn { table, column } => {
                let mut sql = String::from_str("ALTER TABLE ");
                sql.append(table.as_str());
                sql.append(" ADD COLUMN ");
                let definition = column.to_sql(self.dialect);
                sql.append(definition.as_str());
                sql
            },
            SchemaOperation::DropColumn { table, column } => {
                let mut sql = String::from_str("ALTER TABLE ");
                sql.append(table.as_str());
                sql.append(" DROP COLUMN ");
                sql.append(column.as_str());
                sql
            },
            SchemaOperation::CreateIndex { table, name, columns, unique } => {
                proof {
                    reveal_strlit("");
                    assert(""@ =~= Seq::<char>::empty());
                }
                let mut sql = String::from_str("CREATE ");
                sql.append(
                    if *unique {
                        "UNIQUE "
                    } else {
                        ""
                    },
                );
                sql.append("INDEX ");
                sql.append(name.as_str());
                sql.append(" ON ");
                sql.append(table.as_str());
                sql.append(" (");
                let list = join_strings(columns, ", ");
                sql.append(list.as_str());
                sql.append(")");
                sql
            },
            SchemaOperation::DropIndex { name } => {
                let mut sql = String::from_str("DROP INDEX IF EXISTS ");
                sql.append(name.as_str());
                sql
            },
        }
    }

    /// The statements that make the changes asked for, one for each change
    /// and in the order of asking. They are DDL, to be run as they are.
    pub fn statements(&self) -> (out: Vec<String>)
        ensures
            texts(out@) == statements_of(self@),
    {
        let mut out: Vec<String> = Vec::new();
        let mut i: usize = 0;
        while i < self.operations.len()
            invariant
                i <= self.operations.len(),
                out@.len() == i,
                forall|j: int|
                    0 <= j < i ==> out@[j]@ == operation_sql(
                        self.operations@[j]@,
                        self.dialect,
                    ),
            decreases self.operations.len() - i,
        {
            out.push(self.operation_to_sql(&self.operations[i]));
            i += 1;
        }
        assert(texts(out@) =~= statements_of(self@));
        out
    }
}

/// Describes a table column by column.
pub struct TableBuilder {
    table: Table,
}

impl View for TableBuilder {
    type V = TableModel;

    closed spec fn view(&self) -> TableModel {
        self.table@
    }
}

impl TableBuilder {
    /// The description of a table called `name` that has no column yet.
    pub fn new(name: &str) -> (b: Self)
        ensures
            b@ == (TableModel {
                name: name@,
                columns: Seq::empty(),
                primary_key: None,
                indexes: Seq::empty(),
                foreign_keys: Seq::empty(),
            }),
    {
        TableBuilder { table: Table::new(name) }
    }

    /// Adds the key column: a big integer that is the primary key and
    /// counts up by itself.
    pub fn id(&mut self, name: &str) -> (ret: &mut Self)
        ensures
            ret@ == (TableModel {
                columns: old(self)@.columns.push(
                    ColumnModel {
                        primary_key: true,
                        auto_increment: true,
                        ..plain_column(name@, ColumnType::BigInteger)
                    },
                ),
                ..old(self)@
            }),
            *final(self) == *final(ret),
    {
        let column = Column::new(name, ColumnType::BigInteger).primary_key().auto_increment();
        self.table.add_column(column);
        self
    }

    /// Adds a text column of at most `length` characters.
    pub fn string(&mut self, name: &str, length: usize) -> (ret: &mut Self)
        ensures
            ret@ == (TableModel {
                columns: old(self)@.columns.push(plain_column(name@, ColumnType::Varchar(length))),
                ..old(self)@
            }),
            *final(self) == *final(ret),
    {
        let column = Column::new(name, ColumnType::Varchar(length));
        self.table.add_column(column);
        self
    }

    /// Adds a text column.
    pub fn text(&mut self, name: &str) -> (ret: &mut Self)
        ensures
            ret@ == (TableModel {
                columns: old(self)@.columns.push(plain_column(name@, ColumnType::Text)),
                ..old(self)@
            }),
            *final(self) == *final(ret),
    {
        let column = Column::new(name, ColumnType::Text);
        self.table.add_column(column);
        self
    }

    /// Adds an integer column.
    pub fn integer(&mut self, name: &str) -> (ret: &mut Self)
        ensures
            ret@ == (TableModel {
                columns: old(self)@.columns.push(plain_column(name@, ColumnType::Integer)),
                ..old(self)@
            }),
            *final(self) == *final(ret),
    {
        let column = Column::new(name, ColumnType::Integer);
        self.table.add_column(column);
        self
    }

    /// Adds a big integer column.
    pub fn big_integer(&mut self, name: &str) -> (ret: &mut Self)
        ensures
            ret@ == (TableModel {
                columns: old(self)@.columns.push(plain_column(name@, ColumnType::BigInteger)),
                ..old(self)@
            }),
            *final(self) == *final(ret),
    {
        let column = Column::new(name, ColumnType::BigInteger);
        self.table.add_column(column);
        self
    }

    /// Adds a boolean column.
    pub fn boolean(&mut self, name: &str) -> (ret: &mut Self)
        ensures
            ret@ == (TableModel {
                columns: old(self)@.columns.push(plain_column(name@, ColumnType::Boolean)),
                ..old(self)@
            }),
            *final(self) == *final(ret),
    {
        let column = Column::new(name, ColumnType::Boolean);
        self.table.add_column(column);
        self
    }

    /// Adds a single-precision column.
    pub fn float(&mut self, name: &str) -> (ret: &mut Self)
        ensures
            ret@ == (TableModel {
                columns: old(self)@.columns.push(plain_column(name@, ColumnType::Float)),
                ..old(self)@
            }),
            *final(self) == *final(ret),
    {
        let column = Column::new(name, ColumnType::Float);
        self.table.add_column(column);
        self
    }

    /// Adds a double-precision column.
    pub fn double(&mut self, name: &str) -> (ret: &mut Self)
        ensures
            ret@ == (TableModel {
                columns: old(self)@.columns.push(plain_column(name@, ColumnType::Double)),
                ..old(self)@
            }),
            *final(self) == *final(ret),
    {
        let column = Column::new(name, ColumnType::Double);
        self.table.add_column(column);
        self
    }

    /// Adds a decimal column.
    pub fn decimal(&mut self, name: &str, precision: u8, scale: u8) -> (ret: &mut Self)
        ensures
            ret@ == (TableModel {
                columns: old(self)@.columns.push(plain_column(name@, ColumnType::Decimal { precision, scale })),
                ..old(self)@
            }),
            *final(self) == *final(ret),
    {
        let column = Column::new(name, ColumnType::Decimal { precision, scale });
        self.table.add_column(column);
        self
    }

    /// Adds a date column.
    pub fn date(&mut self, name: &str) -> (ret: &mut Self)
        ensures
            ret@ == (TableModel {
                columns: old(self)@.columns.push(plain_column(name@, ColumnType::Date)),
                ..old(self)@
            }),
            *final(self) == *final(ret),
    {
        let column = Column::new(name, ColumnType::Date);
        self.table.add_column(column);
        self
    }

    /// Adds a date-and-time column.
    pub fn datetime(&mut self, name: &str) -> (ret: &mut Self)
        ensures
            ret@ == (TableModel {
                columns: old(self)@.columns.push(plain_column(name@, ColumnType::DateTime)),
                ..old(self)@
            }),
            *final(self) == *final(ret),
    {
        let column = Column::new(name, ColumnType::DateTime);
        self.table.add_column(column);
        self
    }

    /// Adds a timestamp column.
    pub fn timestamp(&mut self, name: &str) -> (ret: &mut Self)
        ensures
            ret@ == (TableModel {
                columns: old(self)@.columns.push(plain_column(name@, ColumnType::Timestamp)),
                ..old(self)@
            }),
            *final(self) == *final(ret),
    {
        let column = Column::new(name, ColumnType::Timestamp);
        self.table.add_column(column);
        self
    }

    /// Adds a JSON column.
    pub fn json(&mut self, name: &str) -> (ret: &mut Self)
        ensures
            ret@ == (TableModel {
                columns: old(self)@.columns.push(plain_column(name@, ColumnType::Json)),
                ..old(self)@
            }),
            *final(self) == *final(ret),
    {
        let column = Column::new(name, ColumnType::Json);
        self.table.add_column(column);
        self
    }

    /// Adds a UUID column.
    pub fn uuid(&mut self, name: &str) -> (ret: &mut Self)
        ensures
            ret@ == (TableModel {
                columns: old(self)@.columns.push(plain_column(name@, ColumnType::Uuid)),
                ..old(self)@
            }),
            *final(self) == *final(ret),
    {
        let column = Column::new(name, ColumnType::Uuid);
        self.table.add_column(column);
        self
    }

    /// Adds the two timestamp columns `created_at` and `updated_at`.
    pub fn timestamps(&mut self) -> (ret: &mut Self)
        ensures
            ret@ == (TableModel {
                columns: old(self)@.columns.push(
                    plain_column("created_at"@, ColumnType::Timestamp),
                ).push(plain_column("updated_at"@, ColumnType::Timestamp)),
                ..old(self)@
            }),
            *final(self) == *final(ret),
    {
        self.timestamp("created_at");
        self.timestamp("updated_at");
        self
    }

    /// Adds a foreign key.
    pub fn foreign_key(&mut self, fk: ForeignKey) -> (ret: &mut Self)
        ensures
            ret@ == (TableModel {
                foreign_keys: old(self)@.foreign_keys.push(fk@),
                ..old(self)@
            }),
            *final(self) == *final(ret),
    {
        self.table.add_foreign_key(fk);
        self
    }

    /// Adds an index.
    pub fn index(&mut self, name: &str, columns: Vec<String>, unique: bool) -> (ret: &mut Self)
        ensures
            ret@ == (TableModel {
                indexes: old(self)@.indexes.push(
                    IndexModel { name: name@, columns: texts(columns@), unique },
                ),
                ..old(self)@
            }),
            *final(self) == *final(ret),
    {
        self.table.add_index(name, columns, unique);
        self
    }

    /// The table described.
    pub fn build(self) -> (t: Table)
        ensures
            t@ == self@,
    {
        self.table
    }
}

} // verus!
