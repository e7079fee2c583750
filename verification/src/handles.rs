//! The driver's handles and the interface that a database back end implements.

use crate::codes::{CDataType, OdbcVersion};
use crate::info::{InfoType, InfoValue};
use std::sync::Arc;
use vstd::prelude::*;

verus! {

// ─── The back-end interface ──────────────────────────────────────────────────
/// A connection to a database. Everything specific to one database lives behind
/// this trait, which a back end implements.
pub trait DbConnection: Send + Sync {
    /// Whether `answer` is one the connection may give when asked to prepare the SQL
    /// text `sql`.
    /// The driver's contracts are stated in terms of this relation: it fixes what
    /// was asked and ties the driver's result to the answer that came back. Unless
    /// a back end narrows it, it holds of every answer, so on its own it says
    /// nothing about which answer comes.
    open spec fn gives_prepared(
        &self,
        sql: Seq<char>,
        answer: Result<Box<dyn ActiveStatement>, String>,
    ) -> bool {
        true
    }

    /// Prepares and eagerly executes a SQL query, returning the whole result set.
    fn prepare_statement(&self, sql: &str) -> (r: Result<Box<dyn ActiveStatement>, String>)
        ensures
            self.gives_prepared(sql@, r),
    ;

    /// Whether `answer` is one the connection may give when asked for the list of
    /// tables.
    /// The driver's contracts are stated in terms of this relation: it fixes what
    /// was asked and ties the driver's result to the answer that came back. Unless
    /// a back end narrows it, it holds of every answer, so on its own it says
    /// nothing about which answer comes.
    open spec fn gives_tables(&self, answer: Result<Box<dyn ActiveStatement>, String>) -> bool {
        true
    }

    /// Returns a result set of table names.
    fn get_tables(&self) -> (r: Result<Box<dyn ActiveStatement>, String>)
        ensures
            self.gives_tables(r),
    ;

    /// Whether `answer` is one the connection may give when asked for the columns of
    /// the table `table_name`.
    /// The driver's contracts are stated in terms of this relation: it fixes what
    /// was asked and ties the driver's result to the answer that came back. Unless
    /// a back end narrows it, it holds of every answer, so on its own it says
    /// nothing about which answer comes.
    open spec fn gives_columns(
        &self,
        table_name: Seq<char>,
        answer: Result<Box<dyn ActiveStatement>, String>,
    ) -> bool {
        true
    }

    /// Returns a result set of column metadata for a table.
    fn get_columns(&self, table_name: &str) -> (r: Result<Box<dyn ActiveStatement>, String>)
        ensures
            self.gives_columns(table_name@, r),
    ;

    /// Whether `answer` is one the connection may give when asked about the
    /// information type `info_type`.
    /// The driver's contracts are stated in terms of this relation: it fixes what
    /// was asked and ties the driver's result to the answer that came back. Unless
    /// a back end narrows it, it holds of every answer, so on its own it says
    /// nothing about which answer comes.
    open spec fn gives_info(&self, info_type: InfoType, answer: Option<InfoValue>) -> bool {
        true
    }

    /// Returns driver and data-source information for `SQLGetInfo`, or `None`
    /// where the back end has none for `info_type`.
    fn get_info(&self, info_type: InfoType) -> (r: Option<InfoValue>)
        ensures
            self.gives_info(info_type, r),
    ;
}

/// A fully executed statement whose results are ready to iterate.
pub trait ActiveStatement: Send + Sync {
    /// Whether `count` is a column count the statement may report.
    /// The driver's contracts are stated in terms of this relation: it fixes what
    /// was asked and ties the driver's result to the answer that came back. Unless
    /// a back end narrows it, it holds of every answer, so on its own it says
    /// nothing about which answer comes.
    open spec fn gives_column_count(&self, count: usize) -> bool {
        true
    }

    /// The number of columns of the result set.
    fn column_count(&self) -> (r: usize)
        ensures
            self.gives_column_count(r),
    ;

    /// Whether `answer` is one the statement may give when asked for the name of the
    /// column at `index`.
    /// The driver's contracts are stated in terms of this relation: it fixes what
    /// was asked and ties the driver's result to the answer that came back. Unless
    /// a back end narrows it, it holds of every answer, so on its own it says
    /// nothing about which answer comes.
    open spec fn gives_column_name(&self, index: usize, answer: Result<String, String>) -> bool {
        true
    }

    /// The name of the column at `index` (counted from 0).
    fn column_name(&self, index: usize) -> (r: Result<String, String>)
        ensures
            self.gives_column_name(index, r),
    ;

    /// Whether `answer` is one the statement, in this state, may give when asked to
    /// execute.
    /// The driver's contracts are stated in terms of this relation: it fixes what
    /// was asked and ties the driver's result to the answer that came back. Unless
    /// a back end narrows it, it holds of every answer, so on its own it says
    /// nothing about which answer comes.
    open spec fn gives_executed(&self, answer: Result<(), String>) -> bool {
        true
    }

    /// Executes the statement. Statements are executed eagerly when they are
    /// prepared, so this is a no-op: it reports success or failure and leaves the
    /// statement as it was, in everything the driver can observe of it (its
    /// cursor, its result set and the answers it gives).
    fn execute(&mut self) -> (r: Result<(), String>)
        ensures
            old(self).gives_executed(r),
            final(self).cursor() == old(self).cursor(),
            forall|a: Result<bool, String>|
                #[trigger] final(self).cursor_after_fetch(a) == old(self).cursor_after_fetch(a),
            forall|a: Result<bool, String>|
                #[trigger] final(self).gives_fetched(a) == old(self).gives_fetched(a),
            forall|a: Result<(), String>|
                #[trigger] final(self).gives_executed(a) == old(self).gives_executed(a),
            forall|n: usize|
                #[trigger] final(self).gives_column_count(n) == old(self).gives_column_count(n),
            forall|i: usize, a: Result<String, String>|
                #[trigger] final(self).gives_column_name(i, a) == old(self).gives_column_name(i, a),
            forall|i: usize, t: CDataType, a: Result<String, String>|
                #[trigger] final(self).gives_data(i, t, a) == old(self).gives_data(i, t, a),
            forall|c: u64|
                #[trigger] final(self).gives_row_changes(c) == old(self).gives_row_changes(c),
    ;

    /// Whether `answer` is one the statement, in this state, may give when asked to
    /// move to the next row.
    /// The driver's contracts are stated in terms of this relation: it fixes what
    /// was asked and ties the driver's result to the answer that came back. Unless
    /// a back end narrows it, it holds of every answer, so on its own it says
    /// nothing about which answer comes.
    open spec fn gives_fetched(&self, answer: Result<bool, String>) -> bool {
        true
    }

    /// The position of the statement's cursor in its result set. A back end that
    /// states nothing of it keeps the default, a position that never changes.
    open spec fn cursor(&self) -> nat {
        0
    }

    /// The position the cursor moves to when a fetch on the statement in this state
    /// answers `answer`. A back end that states nothing of it keeps the default,
    /// which matches the default [`ActiveStatement::cursor`].
    open spec fn cursor_after_fetch(&self, answer: Result<bool, String>) -> nat {
        0
    }

    /// Moves to the next row: `Ok(false)` when there is none. The cursor moves by
    /// this one fetch and no further.
    fn fetch_next_row(&mut self) -> (r: Result<bool, String>)
        ensures
            old(self).gives_fetched(r),
            final(self).cursor() == old(self).cursor_after_fetch(r),
    ;

    /// Whether `answer` is one the statement may give when asked for the value of the
    /// column at `col_index` converted for `target_type`.
    /// The driver's contracts are stated in terms of this relation: it fixes what
    /// was asked and ties the driver's result to the answer that came back. Unless
    /// a back end narrows it, it holds of every answer, so on its own it says
    /// nothing about which answer comes.
    open spec fn gives_data(
        &self,
        col_index: usize,
        target_type: CDataType,
        answer: Result<String, String>,
    ) -> bool {
        true
    }

    /// The value of the column at `col_index` (counted from 0) in the current row,
    /// converted for `target_type`.
    fn get_data(&self, col_index: usize, target_type: CDataType) -> (r: Result<String, String>)
        ensures
            self.gives_data(col_index, target_type, r),
    ;

    /// Whether `changes` is a number of changed rows the statement may report.
    /// The driver's contracts are stated in terms of this relation: it fixes what
    /// was asked and ties the driver's result to the answer that came back. Unless
    /// a back end narrows it, it holds of every answer, so on its own it says
    /// nothing about which answer comes.
    open spec fn gives_row_changes(&self, changes: u64) -> bool {
        true
    }

    /// The number of rows that the statement inserted, updated or deleted.
    fn row_changes(&self) -> (r: u64)
        ensures
            self.gives_row_changes(r),
    ;
}

/// Creates connections from a database path. One implementation is registered
/// when the driver starts.
pub trait DbConnectionFactory: Send + Sync {
    /// Whether `answer` is one the factory may give when asked to open the database
    /// at `database` (whether it opens depends on what is on disk).
    /// The driver's contracts are stated in terms of this relation: it fixes what
    /// was asked and ties the driver's result to the answer that came back. Unless
    /// a back end narrows it, it holds of every answer, so on its own it says
    /// nothing about which answer comes.
    open spec fn opens(&self, database: Seq<char>, answer: Result<Box<dyn DbConnection>, String>) -> bool {
        true
    }

    /// Opens the database at `database`.
    fn create(&self, database: &str) -> (r: Result<Box<dyn DbConnection>, String>)
        ensures
            self.opens(database@, r),
    ;
}

// ─── The factory registry ───────────────────────────────────────────────────
/// The registry of the factory that connections are created with. The first
/// registration stays: later ones are ignored. The factory is held behind an
/// `Arc` so that the driver's threads can share it.
pub struct FactoryRegistry {
    factory: Option<Arc<Box<dyn DbConnectionFactory>>>,
}

impl FactoryRegistry {
    /// The factory that the registry holds, if one was registered.
    pub closed spec fn registered(&self) -> Option<Arc<Box<dyn DbConnectionFactory>>> {
        self.factory
    }

    /// Creates an empty registry.
    pub fn new() -> (r: Self)
        ensures
            r.registered() is None,
    {
        FactoryRegistry { factory: None }
    }

    /// Whether a factory is registered.
    pub fn is_registered(&self) -> (r: bool)
        ensures
            r == self.registered() is Some,
    {
        self.factory.is_some()
    }

    /// The registered factory. Calling it before any registration is a
    /// programming error of the driver.
    pub fn factory(&self) -> (r: &Arc<Box<dyn DbConnectionFactory>>)
        requires
            self.registered() is Some,
        ensures
            *r == self.registered()->0,
    {
        self.factory.as_ref().unwrap()
    }
}

/// Registers the factory that connections are created with. Only the first
/// registration counts: a registry that already holds a factory keeps it, so
/// registering is idempotent.
pub fn register_factory(registry: &mut FactoryRegistry, factory: Arc<Box<dyn DbConnectionFactory>>)
    ensures
        old(registry).registered() is None ==> final(registry).registered() == Some(factory),
        old(registry).registered() is Some ==> final(registry).registered() == old(
            registry,
        ).registered(),
{
    if registry.factory.is_none() {
        registry.factory = Some(factory);
    }
}

// ─── Handles ────────────────────────────────────────────────────────────────
/// The state of an environment handle.
#[derive(Debug)]
pub struct EnvironmentHandle {
    /// The ODBC version the application asked for.
    pub odbc_version: OdbcVersion,
    /// Whether strings are returned NUL-terminated; always so.
    pub _output_nts: bool,
}

/// The environment `env` with its ODBC version set to `version`.
pub open spec fn with_odbc_version(env: EnvironmentHandle, version: OdbcVersion) -> EnvironmentHandle {
    EnvironmentHandle { odbc_version: version, _output_nts: env._output_nts }
}

impl Default for EnvironmentHandle {
    /// A new environment behaves as ODBC 3 and returns NUL-terminated strings.
    fn default() -> (r: Self)
        ensures
            r.odbc_version == OdbcVersion::Odbc3,
            r._output_nts,
    {
        EnvironmentHandle { odbc_version: OdbcVersion::Odbc3, _output_nts: true }
    }
}

impl EnvironmentHandle {
    /// The ODBC version of this environment.
    pub fn odbc_version(&self) -> (r: OdbcVersion)
        ensures
            r == self.odbc_version,
    {
        self.odbc_version
    }

    /// Sets the ODBC version of this environment.
    pub fn set_odbc_version(&mut self, version: OdbcVersion)
        ensures
            *final(self) == with_odbc_version(*old(self), version),
    {
        self.odbc_version = version;
    }
}

/// Reading the ODBC version gives back what was last set, and only the last
/// setting counts.
pub proof fn lemma_odbc_version_read_after_write(
    env: EnvironmentHandle,
    first: OdbcVersion,
    second: OdbcVersion,
)
    ensures
        with_odbc_version(env, first).odbc_version == first,
        with_odbc_version(with_odbc_version(env, first), second) == with_odbc_version(env, second),
{
}

/// The state of a connection handle: the open connection, once there is one.
pub struct ConnectionHandle {
    /// The database connection, shared with the statements allocated on it.
    pub connection: Option<Arc<Box<dyn DbConnection>>>,
}

/// Calls `Arc::clone`, which hands out another reference to the same connection.
#[verifier::external_body]
fn share_connection(connection: &Arc<Box<dyn DbConnection>>) -> (r: Arc<Box<dyn DbConnection>>)
    ensures
        r == *connection,
{
    Arc::clone(connection)
}

impl ConnectionHandle {
    /// A connection handle that is not connected yet.
    pub fn new() -> (r: Self)
        ensures
            r.connection is None,
    {
        ConnectionHandle { connection: None }
    }

    /// Allocates a statement handle on this connection: `None` when the handle is
    /// not connected, else a statement handle that shares the connection and holds
    /// no statement yet.
    pub fn allocate_stmt_handle(&self) -> (r: Option<StatementHandle>)
        ensures
            r is Some <==> self.connection is Some,
            r matches Some(s) ==> s.connection == self.connection->0 && s.active_statement is None,
    {
        match &self.connection {
            Some(connection) => Some(
                StatementHandle { connection: share_connection(connection), active_statement: None },
            ),
            None => None,
        }
    }
}

/// The state of a statement handle: its connection and the statement it last ran.
pub struct StatementHandle {
    /// The connection the statement handle was allocated on.
    pub connection: Arc<Box<dyn DbConnection>>,
    /// The statement whose results the handle currently holds.
    pub active_statement: Option<Box<dyn ActiveStatement>>,
}

} // verus!
