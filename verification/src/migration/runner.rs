//! The order of migrations: which of those registered are still to run,
//! which are undone by a rollback of a number of steps, and the statements
//! that keep the store's record of what has run.

use vstd::prelude::*;
use vstd::string::*;

use crate::error::Error;
use crate::migration::Schema;
use crate::model::{lookup, FieldModel, Row, Value};
use crate::query::executor::{QueryExecutor, QueryValue, Scalar};
use crate::query::Dialect;

verus! {

/// A named, versioned change of a schema, with its way back.
pub trait Migration {
    /// The migration's name.
    fn name(&self) -> &str;

    /// The migration's version: a timestamp by which migrations are told
    /// apart.
    fn version(&self) -> i64;

    /// Asks `schema` for the changes that the migration makes.
    fn up(&self, schema: &mut Schema) -> Result<(), Error>;

    /// Asks `schema` for the changes that undo the migration.
    fn down(&self, schema: &mut Schema) -> Result<(), Error>;
}

/// The positions, in order, of the versions that are not among `executed`.
pub open spec fn pending_among(versions: Seq<i64>, executed: Seq<i64>) -> Seq<int>
    decreases versions.len(),
{
    if versions.len() == 0 {
        Seq::empty()
    } else {
        let earlier = pending_among(versions.drop_last(), executed);
        if executed.contains(versions.last()) {
            earlier
        } else {
            earlier.push(versions.len() - 1)
        }
    }
}

/// The position of the first of `versions` that is `version`.
pub open spec fn first_with_version(versions: Seq<i64>, version: i64) -> Option<int>
    decreases versions.len(),
{
    if versions.len() == 0 {
        None
    } else {
        match first_with_version(versions.drop_last(), version) {
            Some(i) => Some(i),
            None => if versions.last() == version {
                Some(versions.len() - 1)
            } else {
                None
            },
        }
    }
}

/// The positions of the migrations that a rollback of `steps` steps
/// undoes: those of the last `steps` executed versions, the latest first; a
/// version that no registered migration has is passed over.
pub open spec fn rollback_among(versions: Seq<i64>, executed: Seq<i64>, steps: nat) -> Seq<int>
    decreases steps,
{
    if steps == 0 || executed.len() == 0 {
        Seq::empty()
    } else {
        let earlier = rollback_among(versions, executed.drop_last(), (steps - 1) as nat);
        match first_with_version(versions, executed.last()) {
            Some(i) => seq![i] + earlier,
            None => earlier,
        }
    }
}

/// The version that a record of the migrations table holds, if it holds
/// one as an integer.
pub open spec fn version_in(record: Seq<FieldModel>) -> Option<i64> {
    match lookup(record, "version"@) {
        Some(Scalar::I64(n)) => Some(n),
        Some(Scalar::I32(n)) => Some(n as i64),
        _ => None,
    }
}

/// The versions that the records hold, in the records' order; a record
/// without one is passed over.
pub open spec fn versions_in(records: Seq<Row>) -> Seq<i64>
    decreases records.len(),
{
    if records.len() == 0 {
        Seq::empty()
    } else {
        let earlier = versions_in(records.drop_last());
        match version_in(records.last()@) {
            Some(v) => earlier.push(v),
            None => earlier,
        }
    }
}

/// The positions as integers.
pub open spec fn positions(indexes: Seq<usize>) -> Seq<int> {
    indexes.map_values(|i: usize| i as int)
}

/// The statement that creates the table in which the store keeps the
/// record of the migrations that have run.
pub open spec fn migrations_table_sql(dialect: Dialect) -> Seq<char> {
    match dialect {
        Dialect::SQLite => "CREATE TABLE IF NOT EXISTS migrations (
                    id INTEGER PRIMARY KEY AUTOINCREMENT,
                    version BIGINT NOT NULL UNIQUE,
                    name TEXT NOT NULL,
                    executed_at TEXT NOT NULL
                )"@,
        Dialect::MySQL => "CREATE TABLE IF NOT EXISTS migrations (
                    id BIGINT PRIMARY KEY AUTO_INCREMENT,
                    version BIGINT NOT NULL UNIQUE,
                    name VARCHAR(255) NOT NULL,
                    executed_at TIMESTAMP DEFAULT CURRENT_TIMESTAMP
                )"@,
    }
}

/// The statement that records a migration as run; it binds the version,
/// then the name.
pub open spec fn record_sql(dialect: Dialect) -> Seq<char> {
    match dialect {
        Dialect::SQLite => "INSERT INTO migrations (version, name, executed_at) VALUES (?, ?, datetime('now'))"@,
        Dialect::MySQL => "INSERT INTO migrations (version, name, executed_at) VALUES (?, ?, NOW())"@,
    }
}

/// Whether `v` is among `items`.
fn contains_version(items: &Vec<i64>, v: i64) -> (r: bool)
    ensures
        r == items@.contains(v),
{
    let mut i: usize = 0;
    while i < items.len()
        invariant
            i <= items.len(),
            forall|j: int| 0 <= j < i ==> items@[j] != v,
        decreases items.len() - i,
    {
        if items[i] == v {
            return true;
        }
        i += 1;
    }
    false
}

/// `first_with_version` finds a position of the version, and the first.
pub proof fn lemma_first_with_version(versions: Seq<i64>, version: i64)
    ensures
        match first_with_version(versions, version) {
            Some(i) => {
                &&& 0 <= i < versions.len()
                &&& versions[i] == version
                &&& forall|j: int| 0 <= j < i ==> versions[j] != version
            },
            None => forall|j: int| 0 <= j < versions.len() ==> versions[j] != version,
        },
    decreases versions.len(),
{
    if versions.len() > 0 {
        let head = versions.drop_last();
        lemma_first_with_version(head, version);
        assert forall|j: int| 0 <= j < head.len() implies head[j] == versions[j] by {}
        match first_with_version(head, version) {
            Some(i) => {
                assert(head[i] == versions[i]);
                assert forall|j: int| 0 <= j < i implies versions[j] != version by {
                    assert(head[j] == versions[j]);
                }
            },
            None => {
                assert forall|j: int| 0 <= j < versions.len() - 1 implies versions[j]
                    != version by {
                    assert(head[j] == versions[j]);
                }
            },
        }
    }
}

/// Reads the versions out of the records of the migrations table.
pub fn executed_versions(records: &Vec<Row>) -> (out: Vec<i64>)
    ensures
        out@ == versions_in(records@),
{
    let mut out: Vec<i64> = Vec::new();
    let mut i: usize = 0;
    assert(records@.take(0) =~= Seq::<Row>::empty());
    while i < records.len()
        invariant
            i <= records.len(),
            out@ == versions_in(records@.take(i as int)),
        decreases records.len() - i,
    {
        proof {
            assert(records@.take(i + 1).drop_last() =~= records@.take(i as int));
            assert(records@.take(i + 1).last() == records@[i as int]);
        }
        match records[i].get("version") {
            Some(Value::I64(n)) => {
                out.push(*n);
            },
            Some(Value::I32(n)) => {
                out.push(*n as i64);
            },
            _ => {},
        }
        i += 1;
    }
    assert(records@.take(records.len() as int) =~= records@);
    out
}

/// A registered migration, with the version and the name that it gave
/// when it was registered.
struct Registered<M> {
    version: i64,
    name: String,
    migration: M,
}

/// Runs migrations in the order in which they were registered, and undoes
/// them latest first.
pub struct MigrationRunner<M> {
    dialect: Dialect,
    migrations: Vec<Registered<M>>,
}

impl<M: Migration> MigrationRunner<M> {
    /// Registers `migration` behind those registered before, under the
    /// version and the name that it gives now.
    pub fn add_migration(&mut self, migration: M)
        ensures
            final(self).spec_dialect() == old(self).spec_dialect(),
            final(self).registered() == old(self).registered().push(migration),
            final(self).versions().len() == old(self).versions().len() + 1,
            final(self).versions().drop_last() == old(self).versions(),
            final(self).names().drop_last() == old(self).names(),
    {
        let version = migration.version();
        let name = String::from_str(migration.name());
        self.register(version, name, migration);
        assert(self.versions().drop_last() =~= old(self).versions());
        assert(self.names().drop_last() =~= old(self).names());
    }
}

impl<M> MigrationRunner<M> {
    /// The dialect of the store that the migrations run on.
    pub closed spec fn spec_dialect(&self) -> Dialect {
        self.dialect
    }

    /// The registered migrations, in the order of their registration.
    pub closed spec fn registered(&self) -> Seq<M> {
        self.migrations@.map_values(|r: Registered<M>| r.migration)
    }

    /// The versions under which the migrations were registered.
    pub closed spec fn versions(&self) -> Seq<i64> {
        self.migrations@.map_values(|r: Registered<M>| r.version)
    }

    /// The names under which the migrations were registered.
    pub closed spec fn names(&self) -> Seq<Seq<char>> {
        self.migrations@.map_values(|r: Registered<M>| r.name@)
    }

    /// A runner with no migration registered.
    pub fn new(dialect: Dialect) -> (r: Self)
        ensures
            r.spec_dialect() == dialect,
            r.registered() == Seq::<M>::empty(),
            r.versions() == Seq::<i64>::empty(),
            r.names() == Seq::<Seq<char>>::empty(),
    {
        let r = MigrationRunner { dialect, migrations: Vec::new() };
        assert(r.registered() =~= Seq::<M>::empty());
        assert(r.versions() =~= Seq::<i64>::empty());
        assert(r.names() =~= Seq::<Seq<char>>::empty());
        r
    }

    /// Registers `migration` under `version` and `name`, behind those
    /// registered before.
    pub fn register(&mut self, version: i64, name: String, migration: M)
        ensures
            final(self).spec_dialect() == old(self).spec_dialect(),
            final(self).registered() == old(self).registered().push(migration),
            final(self).versions() == old(self).versions().push(version),
            final(self).names() == old(self).names().push(name@),
    {
        self.migrations.push(Registered { version, name, migration });
        assert(self.registered() =~= old(self).registered().push(migration));
        assert(self.versions() =~= old(self).versions().push(version));
        assert(self.names() =~= old(self).names().push(name@));
    }

    /// The number of registered migrations.
    pub fn len(&self) -> (n: usize)
        ensures
            n == self.registered().len(),
            n == self.versions().len(),
    {
        self.migrations.len()
    }

    /// The migration registered at `index`.
    pub fn migration(&self, index: usize) -> (m: &M)
        requires
            index < self.registered().len(),
        ensures
            *m == self.registered()[index as int],
    {
        &self.migrations[index].migration
    }

    /// The statement that creates the table of the migrations that have
    /// run, unless it is there.
    pub fn ensure_migrations_table(&self) -> (sql: &'static str)
        ensures
            sql@ == migrations_table_sql(self.spec_dialect()),
    {
        match self.dialect {
            Dialect::SQLite => "CREATE TABLE IF NOT EXISTS migrations (
                    id INTEGER PRIMARY KEY AUTOINCREMENT,
                    version BIGINT NOT NULL UNIQUE,
                    name TEXT NOT NULL,
                    executed_at TEXT NOT NULL
                )",
            Dialect::MySQL => "CREATE TABLE IF NOT EXISTS migrations (
                    id BIGINT PRIMARY KEY AUTO_INCREMENT,
                    version BIGINT NOT NULL UNIQUE,
                    name VARCHAR(255) NOT NULL,
                    executed_at TIMESTAMP DEFAULT CURRENT_TIMESTAMP
                )",
        }
    }

    /// The statement that asks the store for the versions that have run,
    /// in ascending order.
    pub fn get_executed_versions(&self) -> (sql: &'static str)
        ensures
            sql@ == "SELECT version FROM migrations ORDER BY version"@,
    {
        "SELECT version FROM migrations ORDER BY version"
    }

    /// The positions of the migrations that are still to run, given the
    /// versions that have run: every registered migration whose version is
    /// not among them, in the order of registration.
    pub fn run_pending(&self, executed: &Vec<i64>) -> (out: Vec<usize>)
        ensures
            positions(out@) == pending_among(self.versions(), executed@),
            forall|k: int| 0 <= k < out@.len() ==> out@[k] < self.versions().len(),
    {
        let ghost versions = self.versions();
        let mut out: Vec<usize> = Vec::new();
        let mut i: usize = 0;
        assert(positions(out@) =~= pending_among(versions.take(0), executed@));
        while i < self.migrations.len()
            invariant
                i <= self.migrations.len(),
                versions == self.versions(),
                versions.len() == self.migrations@.len(),
                positions(out@) == pending_among(versions.take(i as int), executed@),
                forall|k: int| 0 <= k < out@.len() ==> out@[k] < i,
            decreases self.migrations.len() - i,
        {
            proof {
                assert(versions.take(i + 1).drop_last() =~= versions.take(i as int));
                assert(versions.take(i + 1).last() == self.migrations@[i as int].version);
            }
            let ghost before = out@;
            if !contains_version(executed, self.migrations[i].version) {
                out.push(i);
                assert(positions(out@) =~= positions(before).push(i as int));
            }
            i += 1;
        }
        assert(versions.take(self.migrations.len() as int) =~= versions);
        out
    }

    /// The position of the first registered migration of `version`.
    fn find(&self, version: i64) -> (r: Option<usize>)
        ensures
            match r {
                Some(i) => i < self.versions().len() && first_with_version(
                    self.versions(),
                    version,
                ) == Some(i as int),
                None => first_with_version(self.versions(), version) is None,
            },
    {
        let ghost versions = self.versions();
        let mut i: usize = 0;
        while i < self.migrations.len()
            invariant
                i <= self.migrations.len(),
                versions == self.versions(),
                versions.len() == self.migrations@.len(),
                forall|j: int| 0 <= j < i ==> versions[j] != version,
            decreases self.migrations.len() - i,
        {
            if self.migrations[i].version == version {
                proof {
                    lemma_first_with_version(versions, version);
                    assert(versions[i as int] == version);
                }
                return Some(i);
            }
            i += 1;
        }
        proof {
            lemma_first_with_version(versions, version);
        }
        None
    }

    /// The positions of the migrations that a rollback of `steps` steps
    /// undoes, given the versions that have run in ascending order: the
    /// migrations of the last `steps` of them, the latest first.
    pub fn rollback(&self, executed: &Vec<i64>, steps: usize) -> (out: Vec<usize>)
        ensures
            positions(out@) == rollback_among(
                self.versions(),
                executed@,
                steps as nat,
            ),
            forall|k: int| 0 <= k < out@.len() ==> out@[k] < self.versions().len(),
    {
        let ghost versions = self.versions();
        let mut out: Vec<usize> = Vec::new();
        let mut remaining: usize = executed.len();
        let mut left: usize = steps;
        assert(executed@.take(remaining as int) =~= executed@);
        assert(positions(out@) + rollback_among(versions, executed@, steps as nat)
            =~= rollback_among(versions, executed@, steps as nat));
        while left > 0 && remaining > 0
            invariant
                remaining <= executed.len(),
                versions == self.versions(),
                versions.len() == self.migrations@.len(),
                positions(out@) + rollback_among(
                    versions,
                    executed@.take(remaining as int),
                    left as nat,
                ) == rollback_among(versions, executed@, steps as nat),
                forall|k: int| 0 <= k < out@.len() ==> out@[k] < self.migrations@.len(),
            decreases left,
        {
            let ghost before = out@;
            let ghost current = executed@.take(remaining as int);
            proof {
                assert(current.drop_last() =~= executed@.take(remaining - 1));
                assert(current.last() == executed@[remaining - 1]);
            }
            let version = executed[remaining - 1];
            match self.find(version) {
                Some(i) => {
                    out.push(i);
                    proof {
                        let earlier = rollback_among(
                            versions,
                            current.drop_last(),
                            (left - 1) as nat,
                        );
                        assert(positions(out@) =~= positions(before).push(i as int));
                        assert(positions(out@) + earlier =~= positions(before) + (seq![i as int]
                            + earlier));
                    }
                },
                None => {},
            }
            remaining -= 1;
            left -= 1;
        }
        proof {
            assert(rollback_among(versions, executed@.take(remaining as int), left as nat)
                =~= Seq::<int>::empty());
            assert(positions(out@) + Seq::<int>::empty() =~= positions(out@));
        }
        out
    }

    /// The statement that records the migration at `index` as run: it
    /// binds the migration's version, then its name.
    pub fn record_applied(&self, index: usize) -> (statement: QueryExecutor)
        requires
            index < self.versions().len(),
        ensures
            statement.spec_sql() == record_sql(self.spec_dialect()),
            statement.spec_params() == seq![
                Scalar::I64(self.versions()[index as int]),
                Scalar::Text(self.names()[index as int]),
            ],
    {
        let sql = match self.dialect {
            Dialect::SQLite => "INSERT INTO migrations (version, name, executed_at) VALUES (?, ?, datetime('now'))",
            Dialect::MySQL => "INSERT INTO migrations (version, name, executed_at) VALUES (?, ?, NOW())",
        };
        let m = &self.migrations[index];
        let statement = QueryExecutor::new(String::from_str(sql)).bind(
            QueryValue::I64(m.version),
        ).bind(QueryValue::String(m.name.clone()));
        assert(statement.spec_params() =~= seq![
            Scalar::I64(self.versions()[index as int]),
            Scalar::Text(self.names()[index as int]),
        ]);
        statement
    }

    /// The statement that removes the record of the migration at `index`:
    /// it binds the migration's version.
    pub fn record_reverted(&self, index: usize) -> (statement: QueryExecutor)
        requires
            index < self.versions().len(),
        ensures
            statement.spec_sql() == "DELETE FROM migrations WHERE version = ?"@,
            statement.spec_params() == seq![
                Scalar::I64(self.versions()[index as int]),
            ],
    {
        let m = &self.migrations[index];
        let statement = QueryExecutor::new(
            String::from_str("DELETE FROM migrations WHERE version = ?"),
        ).bind(QueryValue::I64(m.version));
        assert(statement.spec_params() =~= seq![
            Scalar::I64(self.versions()[index as int]),
        ]);
        statement
    }
}

} // verus!
