//! A table, its indexes and foreign keys, and the DDL that creates and
//! drops it.

use vstd::prelude::*;
use vstd::string::*;

use crate::query::Dialect;
use crate::schema::column::{column_sql, Column, ColumnModel};
use crate::text::{join, join_strings, texts};

verus! {

/// What the store does to referring rows when the row they refer to is
/// deleted or changed.
#[derive(Debug, Clone, Copy, PartialEq, Eq, Structural)]
pub enum ForeignKeyAction {
    Cascade,
    SetNull,
    Restrict,
    NoAction,
}

impl ForeignKeyAction {
    /// The words that name the action in a definition.
    pub open spec fn keyword(self) -> Seq<char> {
        match self {
            ForeignKeyAction::Cascade => "CASCADE"@,
            ForeignKeyAction::SetNull => "SET NULL"@,
            ForeignKeyAction::Restrict => "RESTRICT"@,
            ForeignKeyAction::NoAction => "NO ACTION"@,
        }
    }

    /// The words that name the action in a definition.
    pub fn to_sql(&self) -> (s: &str)
        ensures
            s@ == self.keyword(),
    {
        match self {
            ForeignKeyAction::Cascade => "CASCADE",
            ForeignKeyAction::SetNull => "SET NULL",
            ForeignKeyAction::Restrict => "RESTRICT",
            ForeignKeyAction::NoAction => "NO ACTION",
        }
    }
}

/// An index over columns of a table.
#[derive(Debug, Clone)]
pub struct Index {
    pub name: String,
    pub columns: Vec<String>,
    pub unique: bool,
}

/// What an index is.
pub struct IndexModel {
    pub name: Seq<char>,
    pub columns: Seq<Seq<char>>,
    pub unique: bool,
}

impl View for Index {
    type V = IndexModel;

    open spec fn view(&self) -> IndexModel {
        IndexModel { name: self.name@, columns: texts(self.columns@), unique: self.unique }
    }
}

/// A column whose values refer to a column of another table.
#[derive(Debug, Clone)]
pub struct ForeignKey {
    pub column: String,
    pub references_table: String,
    pub references_column: String,
    pub on_delete: Option<ForeignKeyAction>,
    pub on_update: Option<ForeignKeyAction>,
}

/// What a foreign key is.
pub struct ForeignKeyModel {
    pub column: Seq<char>,
    pub references_table: Seq<char>,
    pub references_column: Seq<char>,
    pub on_delete: Option<ForeignKeyAction>,
    pub on_update: Option<ForeignKeyAction>,
}

impl View for ForeignKey {
    type V = ForeignKeyModel;

    open spec fn view(&self) -> ForeignKeyModel {
        ForeignKeyModel {
            column: self.column@,
            references_table: self.references_table@,
            references_column: self.references_column@,
            on_delete: self.on_delete,
            on_update: self.on_update,
        }
    }
}

/// What a table is.
#[verifier::ext_equal]
pub struct TableModel {
    pub name: Seq<char>,
    pub columns: Seq<ColumnModel>,
    pub primary_key: Option<Seq<char>>,
    pub indexes: Seq<IndexModel>,
    pub foreign_keys: Seq<ForeignKeyModel>,
}

/// The models of a list of columns.
pub open spec fn column_models(columns: Seq<Column>) -> Seq<ColumnModel> {
    columns.map_values(|c: Column| c@)
}

/// The models of a list of indexes.
pub open spec fn index_models(indexes: Seq<Index>) -> Seq<IndexModel> {
    indexes.map_values(|i: Index| i@)
}

/// The models of a list of foreign keys.
pub open spec fn foreign_key_models(keys: Seq<ForeignKey>) -> Seq<ForeignKeyModel> {
    keys.map_values(|k: ForeignKey| k@)
}

/// What the definition says of an action, if one was chosen.
pub open spec fn action_sql(lead: Seq<char>, action: Option<ForeignKeyAction>) -> Seq<char> {
    match action {
        Some(a) => lead + a.keyword(),
        None => Seq::empty(),
    }
}

/// A foreign key as it is added to a table's definition, on a line of its
/// own behind what came before.
pub open spec fn foreign_key_sql(k: ForeignKeyModel) -> Seq<char> {
    ",\n  "@ + "FOREIGN KEY ("@ + k.column + ") REFERENCES "@ + k.references_table + "("@
        + k.references_column + ")"@ + action_sql(" ON DELETE "@, k.on_delete) + action_sql(
        " ON UPDATE "@,
        k.on_update,
    )
}

/// A column's definition as a line of a table's definition.
pub open spec fn column_line(c: ColumnModel, dialect: Dialect) -> Seq<char> {
    "  "@ + column_sql(c, dialect)
}

/// `CREATE TABLE <name> (`, the columns one per line, the foreign keys one
/// per line, and the closing bracket on a line of its own.
pub open spec fn create_table_sql(t: TableModel, dialect: Dialect) -> Seq<char> {
    "CREATE TABLE "@ + t.name + " (\n"@ + join(
        t.columns.map_values(|c: ColumnModel| column_line(c, dialect)),
        ",\n"@,
    ) + join(t.foreign_keys.map_values(|k: ForeignKeyModel| foreign_key_sql(k)), Seq::empty())
        + "\n)"@
}

/// `DROP TABLE IF EXISTS <name>`.
pub open spec fn drop_table_sql(name: Seq<char>) -> Seq<char> {
    "DROP TABLE IF EXISTS "@ + name
}

/// A table.
#[derive(Debug, Clone)]
pub struct Table {
    name: String,
    columns: Vec<Column>,
    primary_key: Option<String>,
    indexes: Vec<Index>,
    foreign_keys: Vec<ForeignKey>,
}

impl View for Table {
    type V = TableModel;

    closed spec fn view(&self) -> TableModel {
        TableModel {
            name: self.name@,
            columns: column_models(self.columns@),
            primary_key: match self.primary_key {
                Some(k) => Some(k@),
                None => None,
            },
            indexes: index_models(self.indexes@),
            foreign_keys: foreign_key_models(self.foreign_keys@),
        }
    }
}

/// Renders one action of a foreign key.
fn action_to_sql(lead: &str, action: &Option<ForeignKeyAction>) -> (out: String)
    ensures
        out@ == action_sql(lead@, *action),
{
    match action {
        Some(a) => {
            let mut out = String::from_str(lead);
            out.append(a.to_sql());
            out
        },
        None => String::new(),
    }
}

/// Renders one foreign key of a table's definition.
fn foreign_key_to_sql(k: &ForeignKey) -> (out: String)
    ensures
        out@ == foreign_key_sql(k@),
{
    let mut out = String::from_str(",\n  ");
    out.append("FOREIGN KEY (");
    out.append(k.column.as_str());
    out.append(") REFERENCES ");
    out.append(k.references_table.as_str());
    out.append("(");
    out.append(k.references_column.as_str());
    out.append(")");
    let on_delete = action_to_sql(" ON DELETE ", &k.on_delete);
    out.append(on_delete.as_str());
    let on_update = action_to_sql(" ON UPDATE ", &k.on_update);
    out.append(on_update.as_str());
    out
}

impl Table {
    /// A table without columns.
    pub fn new(name: &str) -> (t: Self)
        ensures
            t@ == (TableModel {
                name: name@,
                columns: Seq::empty(),
                primary_key: None,
                indexes: Seq::empty(),
                foreign_keys: Seq::empty(),
            }),
    {
        let t = Table {
            name: String::from_str(name),
            columns: Vec::new(),
            primary_key: None,
            indexes: Vec::new(),
            foreign_keys: Vec::new(),
        };
        assert(t@ =~~= (TableModel {
            name: name@,
            columns: Seq::empty(),
            primary_key: None,
            indexes: Seq::empty(),
            foreign_keys: Seq::empty(),
        }));
        t
    }

    pub fn name(&self) -> (n: &str)
        ensures
            n@ == self@.name,
    {
        self.name.as_str()
    }

    /// Adds a column behind those that are there.
    pub fn add_column(&mut self, column: Column) -> (ret: &mut Self)
        ensures
            ret@ == (TableModel { columns: old(self)@.columns.push(column@), ..old(self)@ }),
            *final(self) == *final(ret),
    {
        self.columns.push(column);
        assert(column_models(self.columns@) =~= column_models(old(self).columns@).push(column@));
        self
    }

    pub fn columns(&self) -> (c: &[Column])
        ensures
            column_models(c@) == self@.columns,
    {
        self.columns.as_slice()
    }

    /// Names the column that is the table's primary key.
    pub fn set_primary_key(&mut self, column: &str) -> (ret: &mut Self)
        ensures
            ret@ == (TableModel { primary_key: Some(column@), ..old(self)@ }),
            *final(self) == *final(ret),
    {
        self.primary_key = Some(String::from_str(column));
        self
    }

    pub fn primary_key(&self) -> (k: Option<&str>)
        ensures
            match k {
                Some(t) => self@.primary_key == Some(t@),
                None => self@.primary_key is None,
            },
    {
        match &self.primary_key {
            Some(k) => Some(k.as_str()),
            None => None,
        }
    }

    /// Adds an index behind those that are there.
    pub fn add_index(&mut self, name: &str, columns: Vec<String>, unique: bool) -> (ret: &mut Self)
        ensures
            ret@ == (TableModel {
                indexes: old(self)@.indexes.push(
                    IndexModel { name: name@, columns: texts(columns@), unique },
                ),
                ..old(self)@
            }),
            *final(self) == *final(ret),
    {
        self.indexes.push(Index { name: String::from_str(name), columns, unique });
        assert(index_models(self.indexes@) =~= index_models(old(self).indexes@).push(
            IndexModel { name: name@, columns: texts(columns@), unique },
        ));
        self
    }

    /// Adds a foreign key behind those that are there.
    pub fn add_foreign_key(&mut self, fk: ForeignKey) -> (ret: &mut Self)
        ensures
            ret@ == (TableModel {
                foreign_keys: old(self)@.foreign_keys.push(fk@),
                ..old(self)@
            }),
            *final(self) == *final(ret),
    {
        self.foreign_keys.push(fk);
        assert(foreign_key_models(self.foreign_keys@) =~= foreign_key_models(
            old(self).foreign_keys@,
        ).push(fk@));
        self
    }

    pub fn indexes(&self) -> (i: &[Index])
        ensures
            index_models(i@) == self@.indexes,
    {
        self.indexes.as_slice()
    }

    pub fn foreign_keys(&self) -> (k: &[ForeignKey])
        ensures
            foreign_key_models(k@) == self@.foreign_keys,
    {
        self.foreign_keys.as_slice()
    }

    /// The statement that creates the table in `dialect`.
    pub fn to_create_sql(&self, dialect: Dialect) -> (sql: String)
        ensures
            sql@ == create_table_sql(self@, dialect),
    {
        let mut sql = String::from_str("CREATE TABLE ");
        sql.append(self.name.as_str());
        sql.append(" (\n");
        let mut lines: Vec<String> = Vec::new();
        let mut i: usize = 0;
        while i < self.columns.len()
            invariant
                i <= self.columns.len(),
                lines@.len() == i,
                forall|j: int|
                    0 <= j < i ==> lines@[j]@ == column_line(self.columns@[j]@, dialect),
            decreases self.columns.len() - i,
        {
            let mut line = String::from_str("  ");
            let definition = self.columns[i].to_sql(dialect);
            line.append(definition.as_str());
            lines.push(line);
            i += 1;
        }
        assert(texts(lines@) =~= self@.columns.map_values(
            |c: ColumnModel| column_line(c, dialect),
        ));
        let columns = join_strings(&lines, ",\n");
        sql.append(columns.as_str());
        let mut keys: Vec<String> = Vec::new();
        let mut k: usize = 0;
        while k < self.foreign_keys.len()
            invariant
                k <= self.foreign_keys.len(),
                keys@.len() == k,
                forall|j: int| 0 <= j < k ==> keys@[j]@ == foreign_key_sql(self.foreign_keys@[j]@),
            decreases self.foreign_keys.len() - k,
        {
            keys.push(foreign_key_to_sql(&self.foreign_keys[k]));
            k += 1;
        }
        assert(texts(keys@) =~= self@.foreign_keys.map_values(
            |k: ForeignKeyModel| foreign_key_sql(k),
        ));
        proof {
            reveal_strlit("");
            assert(""@ =~= Seq::<char>::empty());
        }
        let references = join_strings(&keys, "");
        sql.append(references.as_str());
        sql.append("\n)");
        sql
    }

    /// The statement that drops the table.
    pub fn to_drop_sql(&self) -> (sql: String)
        ensures
            sql@ == drop_table_sql(self@.name),
    {
        let mut sql = String::from_str("DROP TABLE IF EXISTS ");
        sql.append(self.name.as_str());
        sql
    }
}

} // verus!
