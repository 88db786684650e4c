//! Database error taxonomy.
//!
//! Every failure of the data tier is classified as one of four kinds:
//! connection failures (establishing or probing a backend handle),
//! query failures (an individual statement against an established handle),
//! configuration failures (bad or missing environment or setup input), and
//! initialization failures (setup-phase failures not otherwise classified).
//! Driver-specific errors are wrapped into this taxonomy at the boundary so
//! the rest of the system never inspects driver error types.

use vstd::prelude::*;

verus! {

/// Declares anyhow's opaque error type so that conversions from it can be
/// stated; nothing inside a value of it is visible here.
#[verifier::external_type_specification]
#[verifier::external_body]
pub struct ExAnyhowError(anyhow::Error);

/// Database specific errors. The payload of each variant is the detail
/// message; [`DbError::message`] renders the full user-visible text.
#[derive(Debug, Clone, PartialEq, Eq)]
pub enum DbError {
    /// Failure to establish or probe a backend handle.
    Connection(String),
    /// Failure of an individual statement against an established handle.
    Query(String),
    /// Bad or missing environment or setup input.
    Configuration(String),
    /// Setup-phase failure not otherwise classified.
    Initialization(String),
}

/// Result type for database operations.
pub type DbResult<T> = Result<T, DbError>;

impl DbError {
    /// The full user-visible text of this error: a fixed prefix naming the
    /// error kind, followed by the detail message.
    pub open spec fn spec_message(self) -> Seq<char> {
        match self {
            DbError::Connection(m) => "Database connection error: "@ + m@,
            DbError::Query(m) => "Database query error: "@ + m@,
            DbError::Configuration(m) => "Database configuration error: "@ + m@,
            DbError::Initialization(m) => "Database initialization error: "@ + m@,
        }
    }

    /// Render the full user-visible text of this error.
    pub fn message(&self) -> (r: String)
        ensures
            r@ == self.spec_message(),
    {
        match self {
            DbError::Connection(m) => {
                String::from_str("Database connection error: ").concat(m.as_str())
            },
            DbError::Query(m) => String::from_str("Database query error: ").concat(m.as_str()),
            DbError::Configuration(m) => {
                String::from_str("Database configuration error: ").concat(m.as_str())
            },
            DbError::Initialization(m) => {
                String::from_str("Database initialization error: ").concat(m.as_str())
            },
        }
    }

    /// Wrap an anyhow error into the taxonomy as a Query error whose detail
    /// is the error's own rendered text.
    pub fn from_anyhow(error: anyhow::Error) -> (r: DbError)
        ensures
            r matches DbError::Query(_),
    {
        DbError::Query(anyhow_text(&error))
    }
}

/// Relies on anyhow::Error's Display rendering for the detail text of the
/// wrapped error; nothing is assumed of what that text holds.
#[verifier::external_body]
fn anyhow_text(error: &anyhow::Error) -> (r: String) {
    error.to_string()
}

} // verus!
