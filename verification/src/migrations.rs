//! Schema migrations: the fixed, ordered set of idempotent statements that
//! bring the database schema up to date, and a model of their effect.
//!
//! Every statement is guarded by "create if not exists" semantics, so
//! repeated runs across restarts are no-ops. The application executes the
//! statement text produced here against the pool before any request-serving
//! code runs; a failure is fatal to process startup.

use vstd::prelude::*;

use crate::error::DbError;

verus! {

/// The text of the migration batch: create the `files` table, keyed by id
/// with a unique path column, and the supporting index on path, each only
/// if it does not already exist.
pub open spec fn spec_create_files_table_sql() -> Seq<char> {
    "CREATE TABLE IF NOT EXISTS files (\n    id TEXT PRIMARY KEY,\n    path TEXT NOT NULL UNIQUE,\n    content BLOB NOT NULL,\n    content_type TEXT NOT NULL,\n    size INTEGER NOT NULL,\n    last_modified INTEGER NOT NULL,\n    created_at INTEGER NOT NULL\n);\nCREATE INDEX IF NOT EXISTS idx_files_path ON files(path);"@
}

/// The migration batch to run against the pool: the `files` table and its
/// path index, both guarded by `IF NOT EXISTS`.
pub fn create_files_table_sql() -> (r: String)
    ensures
        r@ == spec_create_files_table_sql(),
{
    String::from_str(
        "CREATE TABLE IF NOT EXISTS files (\n    id TEXT PRIMARY KEY,\n    path TEXT NOT NULL UNIQUE,\n    content BLOB NOT NULL,\n    content_type TEXT NOT NULL,\n    size INTEGER NOT NULL,\n    last_modified INTEGER NOT NULL,\n    created_at INTEGER NOT NULL\n);\nCREATE INDEX IF NOT EXISTS idx_files_path ON files(path);",
    )
}

/// The statement that inserts or replaces the sample development file row.
pub fn test_file_insert_sql() -> (r: String)
    ensures
        r@
            == "INSERT OR REPLACE INTO files (\n    id, path, content, content_type, size, last_modified, created_at\n) VALUES (\n    'test-file',\n    'test.txt',\n    X'54686973206973206A75737420612074657374206669',\n    'text/plain',\n    20,\n    strftime('%s', 'now'),\n    strftime('%s', 'now')\n);"@,
{
    String::from_str(
        "INSERT OR REPLACE INTO files (\n    id, path, content, content_type, size, last_modified, created_at\n) VALUES (\n    'test-file',\n    'test.txt',\n    X'54686973206973206A75737420612074657374206669',\n    'text/plain',\n    20,\n    strftime('%s', 'now'),\n    strftime('%s', 'now')\n);",
    )
}

/// Which of the schema objects managed by the migration set exist.
#[derive(Debug, Clone, Copy, PartialEq, Eq, Structural)]
pub struct Schema {
    /// The `files` table exists.
    pub files_table: bool,
    /// The `idx_files_path` index exists.
    pub files_index: bool,
}

/// The effect of one run of the migration batch on the schema: each
/// create-if-not-exists statement leaves its object present, whether or not
/// it already was, and touches nothing else.
pub open spec fn spec_apply_migrations(s: Schema) -> Schema {
    Schema { files_table: true, files_index: true }
}

/// Running the migration batch twice in sequence leaves exactly the schema
/// that one run leaves: the create-if-not-exists statements are idempotent.
pub proof fn lemma_migrations_idempotent(s: Schema)
    ensures
        spec_apply_migrations(spec_apply_migrations(s)) == spec_apply_migrations(s),
{
}

/// Wrap a driver failure to acquire a connection from the pool into the
/// taxonomy as a Connection error.
pub fn acquire_error(detail: String) -> (r: DbError)
    ensures
        r matches DbError::Connection(m) && m@ == "Failed to acquire database connection: "@
            + detail@,
{
    DbError::Connection(
        String::from_str("Failed to acquire database connection: ").concat(detail.as_str()),
    )
}

/// Wrap a driver failure of the migration batch into the taxonomy as a
/// Query error.
pub fn create_files_table_error(detail: String) -> (r: DbError)
    ensures
        r matches DbError::Query(m) && m@ == "Failed to create files table: "@ + detail@,
{
    DbError::Query(String::from_str("Failed to create files table: ").concat(detail.as_str()))
}

/// Wrap a driver failure of the sample-file insert into the taxonomy as a
/// Query error.
pub fn insert_test_file_error(detail: String) -> (r: DbError)
    ensures
        r matches DbError::Query(m) && m@ == "Failed to insert test file: "@ + detail@,
{
    DbError::Query(String::from_str("Failed to insert test file: ").concat(detail.as_str()))
}

} // verus!
