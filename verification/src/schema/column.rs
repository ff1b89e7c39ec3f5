//! A column of a table and the SQL that defines it.

use vstd::prelude::*;
use vstd::string::*;

use crate::query::Dialect;
use crate::text::{decimal, u64_to_string};

verus! {

/// The type of the values a column holds.
#[derive(Debug, Clone, Copy, PartialEq, Eq, Structural)]
pub enum ColumnType {
    Integer,
    BigInteger,
    Text,
    Varchar(usize),
    Boolean,
    Float,
    Double,
    Decimal { precision: u8, scale: u8 },
    Date,
    DateTime,
    Timestamp,
    Json,
    Uuid,
    Binary,
}

/// What a column is: its name, its type and its constraints.
pub struct ColumnModel {
    pub name: Seq<char>,
    pub column_type: ColumnType,
    pub nullable: bool,
    pub default: Option<Seq<char>>,
    pub unique: bool,
    pub primary_key: bool,
    pub auto_increment: bool,
}

/// The spelling of a column type in `dialect`. An auto-incrementing big
/// integer is spelled `INTEGER` in SQLite, which counts only such keys.
pub open spec fn type_sql(t: ColumnType, auto_increment: bool, dialect: Dialect) -> Seq<char> {
    match t {
        ColumnType::Integer => match dialect {
            Dialect::SQLite => "INTEGER"@,
            Dialect::MySQL => "INT"@,
        },
        ColumnType::BigInteger => if dialect == Dialect::SQLite && auto_increment {
            "INTEGER"@
        } else {
            "BIGINT"@
        },
        ColumnType::Text => "TEXT"@,
        ColumnType::Varchar(len) => "VARCHAR("@ + decimal(len as nat) + ")"@,
        ColumnType::Boolean => match dialect {
            Dialect::SQLite => "INTEGER"@,
            Dialect::MySQL => "BOOLEAN"@,
        },
        ColumnType::Float => "FLOAT"@,
        ColumnType::Double => "DOUBLE"@,
        ColumnType::Decimal { precision, scale } => "DECIMAL("@ + decimal(precision as nat)
            + ", "@ + decimal(scale as nat) + ")"@,
        ColumnType::Date => "DATE"@,
        ColumnType::DateTime => match dialect {
            Dialect::SQLite => "TEXT"@,
            Dialect::MySQL => "DATETIME"@,
        },
        ColumnType::Timestamp => "TIMESTAMP"@,
        ColumnType::Json => match dialect {
            Dialect::SQLite => "TEXT"@,
            Dialect::MySQL => "JSON"@,
        },
        ColumnType::Uuid => match dialect {
            Dialect::SQLite => "TEXT"@,
            Dialect::MySQL => "CHAR(36)"@,
        },
        ColumnType::Binary => "BLOB"@,
    }
}

/// The keyword that makes a column count by itself.
pub open spec fn auto_increment_sql(dialect: Dialect) -> Seq<char> {
    match dialect {
        Dialect::SQLite => " AUTOINCREMENT"@,
        Dialect::MySQL => " AUTO_INCREMENT"@,
    }
}

/// The constraints of a column, in the order in which a definition lists
/// them. A primary key is neither marked `NOT NULL` nor `UNIQUE`: it is both
/// by itself.
pub open spec fn constraints_sql(c: ColumnModel, dialect: Dialect) -> Seq<char> {
    (if c.primary_key {
        " PRIMARY KEY"@
    } else {
        Seq::empty()
    }) + (if c.auto_increment {
        auto_increment_sql(dialect)
    } else {
        Seq::empty()
    }) + (if !c.nullable && !c.primary_key {
        " NOT NULL"@
    } else {
        Seq::empty()
    }) + (if c.unique && !c.primary_key {
        " UNIQUE"@
    } else {
        Seq::empty()
    }) + (match c.default {
        Some(d) => " DEFAULT "@ + d,
        None => Seq::empty(),
    })
}

/// The definition of a column: `<name> <type>[ <constraint>...]`.
pub open spec fn column_sql(c: ColumnModel, dialect: Dialect) -> Seq<char> {
    c.name + " "@ + type_sql(c.column_type, c.auto_increment, dialect) + constraints_sql(
        c,
        dialect,
    )
}

/// The column called `name` of type `column_type` that must hold a value
/// and has no other constraint.
pub open spec fn plain_column(name: Seq<char>, column_type: ColumnType) -> ColumnModel {
    ColumnModel {
        name,
        column_type,
        nullable: false,
        default: None,
        unique: false,
        primary_key: false,
        auto_increment: false,
    }
}

/// A column of a table.
#[derive(Debug, Clone)]
pub struct Column {
    name: String,
    column_type: ColumnType,
    nullable: bool,
    default: Option<String>,
    unique: bool,
    primary_key: bool,
    auto_increment: bool,
}

impl View for Column {
    type V = ColumnModel;

    closed spec fn view(&self) -> ColumnModel {
        ColumnModel {
            name: self.name@,
            column_type: self.column_type,
            nullable: self.nullable,
            default: match self.default {
                Some(d) => Some(d@),
                None => None,
            },
            unique: self.unique,
            primary_key: self.primary_key,
            auto_increment: self.auto_increment,
        }
    }
}

impl Column {
    /// A column that must hold a value and has no other constraint.
    pub fn new(name: &str, column_type: ColumnType) -> (c: Self)
        ensures
            c@ == plain_column(name@, column_type),
    {
        Column {
            name: String::from_str(name),
            column_type,
            nullable: false,
            default: None,
            unique: false,
            primary_key: false,
            auto_increment: false,
        }
    }

    pub fn name(&self) -> (n: &str)
        ensures
            n@ == self@.name,
    {
        self.name.as_str()
    }

    pub fn column_type(&self) -> (t: &ColumnType)
        ensures
            *t == self@.column_type,
    {
        &self.column_type
    }

    /// Says whether the column may hold no value.
    pub fn nullable(self, nullable: bool) -> (c: Self)
        ensures
            c@ == (ColumnModel { nullable, ..self@ }),
    {
        let mut c = self;
        c.nullable = nullable;
        c
    }

    pub fn is_nullable(&self) -> (b: bool)
        ensures
            b == self@.nullable,
    {
        self.nullable
    }

    /// Gives the column a default, written into its definition as it is.
    pub fn default(self, value: &str) -> (c: Self)
        ensures
            c@ == (ColumnModel { default: Some(value@), ..self@ }),
    {
        let mut c = self;
        c.default = Some(String::from_str(value));
        c
    }

    pub fn default_value(&self) -> (d: Option<&str>)
        ensures
            match d {
                Some(t) => self@.default == Some(t@),
                None => self@.default is None,
            },
    {
        match &self.default {
            Some(d) => Some(d.as_str()),
            None => None,
        }
    }

    /// Forbids that two rows hold the same value.
    pub fn unique(self) -> (c: Self)
        ensures
            c@ == (ColumnModel { unique: true, ..self@ }),
    {
        let mut c = self;
        c.unique = true;
        c
    }

    pub fn is_unique(&self) -> (b: bool)
        ensures
            b == self@.unique,
    {
        self.unique
    }

    /// Makes the column the table's primary key.
    pub fn primary_key(self) -> (c: Self)
        ensures
            c@ == (ColumnModel { primary_key: true, ..self@ }),
    {
        let mut c = self;
        c.primary_key = true;
        c
    }

    pub fn is_primary_key(&self) -> (b: bool)
        ensures
            b == self@.primary_key,
    {
        self.primary_key
    }

    /// Lets the store count the column's value up by itself.
    pub fn auto_increment(self) -> (c: Self)
        ensures
            c@ == (ColumnModel { auto_increment: true, ..self@ }),
    {
        let mut c = self;
        c.auto_increment = true;
        c
    }

    pub fn is_auto_increment(&self) -> (b: bool)
        ensures
            b == self@.auto_increment,
    {
        self.auto_increment
    }

    /// The spelling of the column's type in `dialect`.
    pub fn type_to_sql(&self, dialect: Dialect) -> (sql: String)
        ensures
            sql@ == type_sql(self@.column_type, self@.auto_increment, dialect),
    {
        match self.column_type {
            ColumnType::Integer => match dialect {
                Dialect::SQLite => String::from_str("INTEGER"),
                Dialect::MySQL => String::from_str("INT"),
            },
            ColumnType::BigInteger => match dialect {
                Dialect::SQLite => if self.auto_increment {
                    String::from_str("INTEGER")
                } else {
                    String::from_str("BIGINT")
                },
                Dialect::MySQL => String::from_str("BIGINT"),
            },
            ColumnType::Text => String::from_str("TEXT"),
            ColumnType::Varchar(len) => {
                let mut sql = String::from_str("VARCHAR(");
                let digits = u64_to_string(len as u64);
                sql.append(digits.as_str());
                sql.append(")");
                sql
            },
            ColumnType::Boolean => match dialect {
                Dialect::SQLite => String::from_str("INTEGER"),
                Dialect::MySQL => String::from_str("BOOLEAN"),
            },
            ColumnType::Float => String::from_str("FLOAT"),
            ColumnType::Double => String::from_str("DOUBLE"),
            ColumnType::Decimal { precision, scale } => {
                let mut sql = String::from_str("DECIMAL(");
                let p = u64_to_string(precision as u64);
                sql.append(p.as_str());
                sql.append(", ");
                let s = u64_to_string(scale as u64);
                sql.append(s.as_str());
                sql.append(")");
                sql
            },
            ColumnType::Date => String::from_str("DATE"),
            ColumnType::DateTime => match dialect {
                Dialect::SQLite => String::from_str("TEXT"),
                Dialect::MySQL => String::from_str("DATETIME"),
            },
            ColumnType::Timestamp => String::from_str("TIMESTAMP"),
            ColumnType::Json => match dialect {
                Dialect::SQLite => String::from_str("TEXT"),
                Dialect::MySQL => String::from_str("JSON"),
            },
            ColumnType::Uuid => match dialect {
                Dialect::SQLite => String::from_str("TEXT"),
                Dialect::MySQL => String::from_str("CHAR(36)"),
            },
            ColumnType::Binary => String::from_str("BLOB"),
        }
    }

    /// The constraints of the column's definition.
    fn constraints_to_sql(&self, dialect: Dialect) -> (sql: String)
        ensures
            sql@ == constraints_sql(self@, dialect),
    {
        proof {
            reveal_strlit("");
            assert(""@ =~= Seq::<char>::empty());
        }
        let mut sql = String::from_str(
            if self.primary_key {
                " PRIMARY KEY"
            } else {
                ""
            },
        );
        sql.append(
            if self.auto_increment {
                match dialect {
                    Dialect::SQLite => " AUTOINCREMENT",
                    Dialect::MySQL => " AUTO_INCREMENT",
                }
            } else {
                ""
            },
        );
        sql.append(
            if !self.nullable && !self.primary_key {
                " NOT NULL"
            } else {
                ""
            },
        );
        sql.append(
            if self.unique && !self.primary_key {
                " UNIQUE"
            } else {
                ""
            },
        );
        match &self.default {
            Some(d) => {
                sql.append(" DEFAULT ");
                sql.append(d.as_str());
                assert(sql@ =~= constraints_sql(self@, dialect));
            },
            None => {
                assert(sql@ =~= constraints_sql(self@, dialect));
            },
        }
        sql
    }

    /// The definition of the column in `dialect`.
    pub fn to_sql(&self, dialect: Dialect) -> (sql: String)
        ensures
            sql@ == column_sql(self@, dialect),
    {
        let mut sql = self.name.clone();
        sql.append(" ");
        let type_text = self.type_to_sql(dialect);
        sql.append(type_text.as_str());
        let constraints = self.constraints_to_sql(dialect);
        sql.append(constraints.as_str());
        sql
    }
}

/// The names of a list of columns.
pub open spec fn column_names(columns: Seq<Column>) -> Seq<Seq<char>> {
    columns.map_values(|c: Column| c@.name)
}

} // verus!
