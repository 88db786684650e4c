//! Connection and replication lifecycle manager for a file-serving backend.
//!
//! The data tier resolves, at startup, into one of three operating modes —
//! a local embedded database, a remote cloud database, or a locally-synced
//! replica of a remote primary. This crate holds the verified core of that
//! lifecycle: configuration resolution and mode classification, the
//! connection plan for each mode, probe-result classification, the schema
//! migration statements, and the error taxonomy. The asynchronous database
//! calls themselves are carried out by the surrounding application, which
//! feeds their outcomes back into the verified classifiers here.

pub mod connection;
pub mod error;
pub mod migrations;
pub mod text;

pub use connection::{ConnectPlan, DbConfig, Mode, ReplicaConfig};
pub use error::{DbError, DbResult};
