//! A plain description of a schema, ready to be written out for the tools
//! that generate client code from it.

use vstd::prelude::*;
use vstd::string::*;

use crate::schema::column::{Column, ColumnModel, ColumnType};
use crate::schema::table::{ForeignKey, ForeignKeyModel, Table, TableModel};
use crate::text::{decimal, u64_to_string};

verus! {

/// The description of a schema.
#[derive(Debug, Clone)]
pub struct SchemaExport {
    pub tables: Vec<TableSchema>,
}

/// The description of a table.
#[derive(Debug, Clone)]
pub struct TableSchema {
    pub name: String,
    pub columns: Vec<ColumnSchema>,
    pub foreign_keys: Vec<ForeignKeySchema>,
}

/// The description of a column.
#[derive(Debug, Clone)]
pub struct ColumnSchema {
    pub name: String,
    pub data_type: String,
    pub typescript_type: String,
    pub nullable: bool,
    pub primary_key: bool,
    pub unique: bool,
    pub auto_increment: bool,
    pub default_value: Option<String>,
}

/// The description of a foreign key.
#[derive(Debug, Clone)]
pub struct ForeignKeySchema {
    pub column: String,
    pub references_table: String,
    pub references_column: String,
}

/// The name of a column type, whatever the dialect.
pub open spec fn type_label(t: ColumnType) -> Seq<char> {
    match t {
        ColumnType::Integer => "integer"@,
        ColumnType::BigInteger => "bigint"@,
        ColumnType::Text => "text"@,
        ColumnType::Varchar(len) => "varchar("@ + decimal(len as nat) + ")"@,
        ColumnType::Boolean => "boolean"@,
        ColumnType::Float => "float"@,
        ColumnType::Double => "double"@,
        ColumnType::Decimal { precision, scale } => "decimal("@ + decimal(precision as nat)
            + ","@ + decimal(scale as nat) + ")"@,
        ColumnType::Date => "date"@,
        ColumnType::DateTime => "datetime"@,
        ColumnType::Timestamp => "timestamp"@,
        ColumnType::Json => "json"@,
        ColumnType::Uuid => "uuid"@,
        ColumnType::Binary => "binary"@,
    }
}

/// The TypeScript type of a column's values that are present.
pub open spec fn typescript_base(t: ColumnType) -> Seq<char> {
    match t {
        ColumnType::Integer | ColumnType::BigInteger => "number"@,
        ColumnType::Float | ColumnType::Double => "number"@,
        ColumnType::Decimal { .. } => "number"@,
        ColumnType::Boolean => "boolean"@,
        ColumnType::Text | ColumnType::Varchar(_) => "string"@,
        ColumnType::Date | ColumnType::DateTime | ColumnType::Timestamp => "string"@,
        ColumnType::Uuid => "string"@,
        ColumnType::Json => "any"@,
        ColumnType::Binary => "Uint8Array"@,
    }
}

/// The TypeScript type of a column's values: a nullable column's may also
/// be `null`.
pub open spec fn typescript_type(t: ColumnType, nullable: bool) -> Seq<char> {
    if nullable {
        typescript_base(t) + " | null"@
    } else {
        typescript_base(t)
    }
}

impl ColumnSchema {
    /// Whether this is the description of the column `c`.
    pub open spec fn describes(&self, c: ColumnModel) -> bool {
        &&& self.name@ == c.name
        &&& self.data_type@ == type_label(c.column_type)
        &&& self.typescript_type@ == typescript_type(c.column_type, c.nullable)
        &&& self.nullable == c.nullable
        &&& self.primary_key == c.primary_key
        &&& self.unique == c.unique
        &&& self.auto_increment == c.auto_increment
        &&& match self.default_value {
            Some(d) => c.default == Some(d@),
            None => c.default is None,
        }
    }

    /// Describes a column.
    pub fn from_column(column: &Column) -> (s: Self)
        ensures
            s.describes(column@),
    {
        let data_type = column_type_to_string(column.column_type());
        let typescript_type = column_type_to_typescript(
            column.column_type(),
            column.is_nullable(),
        );
        ColumnSchema {
            name: String::from_str(column.name()),
            data_type,
            typescript_type,
            nullable: column.is_nullable(),
            primary_key: column.is_primary_key(),
            unique: column.is_unique(),
            auto_increment: column.is_auto_increment(),
            default_value: match column.default_value() {
                Some(d) => Some(String::from_str(d)),
                None => None,
            },
        }
    }
}

impl ForeignKeySchema {
    /// Whether this is the description of the foreign key `k`: its column
    /// and what it refers to.
    pub open spec fn describes(&self, k: ForeignKeyModel) -> bool {
        &&& self.column@ == k.column
        &&& self.references_table@ == k.references_table
        &&& self.references_column@ == k.references_column
    }

    /// Describes a foreign key.
    pub fn from_foreign_key(fk: &ForeignKey) -> (s: Self)
        ensures
            s.describes(fk@),
    {
        ForeignKeySchema {
            column: fk.column.clone(),
            references_table: fk.references_table.clone(),
            references_column: fk.references_column.clone(),
        }
    }
}

impl TableSchema {
    /// Whether this is the description of the table `t`: its name, and its
    /// columns and foreign keys one for one and in order.
    pub open spec fn describes(&self, t: TableModel) -> bool {
        &&& self.name@ == t.name
        &&& self.columns@.len() == t.columns.len()
        &&& forall|i: int|
            0 <= i < self.columns@.len() ==> (#[trigger] self.columns@[i]).describes(t.columns[i])
        &&& self.foreign_keys@.len() == t.foreign_keys.len()
        &&& forall|i: int|
            0 <= i < self.foreign_keys@.len() ==> (#[trigger] self.foreign_keys@[i]).describes(
                t.foreign_keys[i],
            )
    }

    /// Describes a table.
    pub fn from_table(table: &Table) -> (s: Self)
        ensures
            s.describes(table@),
    {
        let source_columns = table.columns();
        let mut columns: Vec<ColumnSchema> = Vec::new();
        let mut i: usize = 0;
        while i < source_columns.len()
            invariant
                i <= source_columns.len(),
                columns@.len() == i,
                forall|j: int|
                    0 <= j < i ==> (#[trigger] columns@[j]).describes(source_columns@[j]@),
            decreases source_columns.len() - i,
        {
            columns.push(ColumnSchema::from_column(&source_columns[i]));
            i += 1;
        }
        let source_keys = table.foreign_keys();
        let mut foreign_keys: Vec<ForeignKeySchema> = Vec::new();
        let mut k: usize = 0;
        while k < source_keys.len()
            invariant
                k <= source_keys.len(),
                foreign_keys@.len() == k,
                forall|j: int|
                    0 <= j < k ==> (#[trigger] foreign_keys@[j]).describes(source_keys@[j]@),
            decreases source_keys.len() - k,
        {
            foreign_keys.push(ForeignKeySchema::from_foreign_key(&source_keys[k]));
            k += 1;
        }
        let s = TableSchema { name: String::from_str(table.name()), columns, foreign_keys };
        proof {
            assert forall|j: int| 0 <= j < s.columns@.len() implies (#[trigger] s.columns@[j]).describes(
                table@.columns[j],
            ) by {
                assert(table@.columns[j] == source_columns@[j]@);
            }
            assert forall|j: int| 0 <= j < s.foreign_keys@.len() implies (
            #[trigger] s.foreign_keys@[j]).describes(table@.foreign_keys[j]) by {
                assert(table@.foreign_keys[j] == source_keys@[j]@);
            }
        }
        s
    }
}

/// The name of a column type, whatever the dialect.
pub fn column_type_to_string(col_type: &ColumnType) -> (s: String)
    ensures
        s@ == type_label(*col_type),
{
    match col_type {
        ColumnType::Integer => String::from_str("integer"),
        ColumnType::BigInteger => String::from_str("bigint"),
        ColumnType::Text => String::from_str("text"),
        ColumnType::Varchar(len) => {
            let mut s = String::from_str("varchar(");
            let digits = u64_to_string(*len as u64);
            s.append(digits.as_str());
            s.append(")");
            s
        },
        ColumnType::Boolean => String::from_str("boolean"),
        ColumnType::Float => String::from_str("float"),
        ColumnType::Double => String::from_str("double"),
        ColumnType::Decimal { precision, scale } => {
            let mut s = String::from_str("decimal(");
            let p = u64_to_string(*precision as u64);
            s.append(p.as_str());
            s.append(",");
            let d = u64_to_string(*scale as u64);
            s.append(d.as_str());
            s.append(")");
            s
        },
        ColumnType::Date => String::from_str("date"),
        ColumnType::DateTime => String::from_str("datetime"),
        ColumnType::Timestamp => String::from_str("timestamp"),
        ColumnType::Json => String::from_str("json"),
        ColumnType::Uuid => String::from_str("uuid"),
        ColumnType::Binary => String::from_str("binary"),
    }
}

/// The TypeScript type of a column's values.
pub fn column_type_to_typescript(col_type: &ColumnType, nullable: bool) -> (s: String)
    ensures
        s@ == typescript_type(*col_type, nullable),
{
    let base_type = match col_type {
        ColumnType::Integer | ColumnType::BigInteger => "number",
        ColumnType::Float | ColumnType::Double => "number",
        ColumnType::Decimal { .. } => "number",
        ColumnType::Boolean => "boolean",
        ColumnType::Text | ColumnType::Varchar(_) => "string",
        ColumnType::Date | ColumnType::DateTime | ColumnType::Timestamp => "string",
        ColumnType::Uuid => "string",
        ColumnType::Json => "any",
        ColumnType::Binary => "Uint8Array",
    };
    let mut s = String::from_str(base_type);
    if nullable {
        s.append(" | null");
    }
    s
}

/// Describes the tables of a schema, one for one and in order.
pub fn export_schema(tables: Vec<Table>) -> (s: SchemaExport)
    ensures
        s.tables@.len() == tables@.len(),
        forall|i: int| 0 <= i < tables@.len() ==> (#[trigger] s.tables@[i]).describes(tables@[i]@),
{
    let mut out: Vec<TableSchema> = Vec::new();
    let mut i: usize = 0;
    while i < tables.len()
        invariant
            i <= tables.len(),
            out@.len() == i,
            forall|j: int| 0 <= j < i ==> (#[trigger] out@[j]).describes(tables@[j]@),
        decreases tables.len() - i,
    {
        out.push(TableSchema::from_table(&tables[i]));
        i += 1;
    }
    SchemaExport { tables: out }
}

} // verus!
