//! Configuration resolution, mode classification, and the connection plan.
//!
//! A configuration resolves into exactly one of three operating modes:
//! a local embedded database, a remote cloud database, or a locally-synced
//! replica of a remote primary. [`DbConfig::connect_plan`] turns a
//! configuration into the one backend the application must open, and the
//! probe classifiers below decide what the outcome of a liveness probe
//! means. The application performs the asynchronous driver calls and hands
//! their outcomes back here.

use vstd::prelude::*;

use crate::error::{DbError, DbResult};
use crate::text::{spec_contains, str_contains, str_starts_with};

verus! {

/// Database configuration, constructed once at startup.
#[derive(Debug, Clone)]
pub struct DbConfig {
    /// Database URL: a local file path or a networked database URL.
    pub url: String,
    /// Auth token for a remote database; required for Remote and Replica
    /// modes, ignored for Local.
    pub auth_token: Option<String>,
    /// Replica configuration; its presence forces Replica mode.
    pub replica: Option<ReplicaConfig>,
}

/// Configuration for an embedded replica of a remote primary.
#[derive(Debug, Clone)]
pub struct ReplicaConfig {
    /// Primary database URL to sync from.
    pub primary_url: String,
    /// Auth token for the primary database.
    pub auth_token: String,
    /// Local file path for the synced copy.
    pub local_path: String,
}

/// The operating mode a configuration resolves to.
#[derive(Debug, Clone, Copy, PartialEq, Eq, Structural)]
pub enum Mode {
    /// Embedded file-backed store.
    Local,
    /// Networked store with no local copy.
    Remote,
    /// Networked primary with a locally-synced copy.
    Replica,
}

/// True iff `url` begins with one of the networked scheme prefixes.
pub open spec fn spec_is_networked(url: Seq<char>) -> bool {
    ||| "libsql://"@.is_prefix_of(url)
    ||| "http://"@.is_prefix_of(url)
    ||| "https://"@.is_prefix_of(url)
}

/// An environment value counts as truthy exactly when it is `"true"`.
pub open spec fn spec_env_truthy(v: Option<String>) -> bool {
    v matches Some(s) && s@ == "true"@
}

/// An environment value counts as present only when it is set and non-empty.
pub open spec fn spec_env_present(v: Option<String>) -> bool {
    v matches Some(s) && s@.len() > 0
}

impl DbConfig {
    /// True iff the URL does not name a networked backend. Independent of
    /// the replica section: a configuration can look local by URL shape yet
    /// be forced into Replica mode.
    pub open spec fn spec_is_local(self) -> bool {
        !spec_is_networked(self.url@)
    }

    /// True iff a replica section is present.
    pub open spec fn spec_is_replica(self) -> bool {
        self.replica is Some
    }

    /// A well-formed configuration: when a replica section is present, both
    /// its primary URL and its auth token are non-empty.
    pub open spec fn wf(self) -> bool {
        self.replica matches Some(rc) ==> rc.primary_url@.len() > 0 && rc.auth_token@.len() > 0
    }

    /// The mode this configuration resolves to, in priority order: a
    /// replica section forces Replica mode; otherwise the URL shape decides
    /// between Local and Remote.
    pub open spec fn spec_mode(self) -> Mode {
        if self.spec_is_replica() {
            Mode::Replica
        } else if self.spec_is_local() {
            Mode::Local
        } else {
            Mode::Remote
        }
    }

    /// Resolve a configuration from the raw values of the environment
    /// variables `DATABASE_URL`, `DATABASE_AUTH_TOKEN`, `USE_REPLICA`,
    /// `PRIMARY_DATABASE_URL` and `REPLICA_LOCAL_PATH`, each `None` when
    /// unset. The URL defaults to `./turserver.db` and the replica's local
    /// path to `./replica.db`. When `USE_REPLICA` is `"true"`, a missing or
    /// empty primary URL or auth token is a Configuration error naming the
    /// missing variable; no I/O is attempted here.
    pub fn from_env(
        database_url: Option<String>,
        database_auth_token: Option<String>,
        use_replica: Option<String>,
        primary_database_url: Option<String>,
        replica_local_path: Option<String>,
    ) -> (r: DbResult<DbConfig>)
        ensures
            ({
                let truthy = spec_env_truthy(use_replica);
                let url_v = if database_url is Some {
                    database_url->0@
                } else {
                    "./turserver.db"@
                };
                let lp_v = if replica_local_path is Some {
                    replica_local_path->0@
                } else {
                    "./replica.db"@
                };
                &&& !truthy ==> (r matches Ok(c) && c.url@ == url_v && c.auth_token.deep_view()
                    == database_auth_token.deep_view() && c.replica is None)
                &&& truthy && !spec_env_present(primary_database_url) ==> (r matches Err(e)
                    && e matches DbError::Configuration(m) && m@
                    == "PRIMARY_DATABASE_URL must be set when USE_REPLICA=true"@)
                &&& truthy && spec_env_present(primary_database_url) && !spec_env_present(
                    database_auth_token,
                ) ==> (r matches Err(e) && e matches DbError::Configuration(m) && m@
                    == "DATABASE_AUTH_TOKEN must be set when USE_REPLICA=true"@)
                &&& truthy && spec_env_present(primary_database_url) && spec_env_present(
                    database_auth_token,
                ) ==> (r matches Ok(c) && c.url@ == url_v && c.auth_token.deep_view()
                    == database_auth_token.deep_view() && (c.replica matches Some(rc)
                    && rc.primary_url@ == primary_database_url->0@ && rc.auth_token@
                    == database_auth_token->0@ && rc.local_path@ == lp_v))
                &&& r matches Ok(c) ==> c.wf()
            }),
    {
        let url = match database_url {
            Some(u) => u,
            None => String::from_str("./turserver.db"),
        };
        let truthy = match &use_replica {
            Some(s) => {
                let t = String::from_str("true");
                *s == t
            },
            None => false,
        };
        if !truthy {
            return Ok(DbConfig { url, auth_token: database_auth_token, replica: None });
        }
        let primary_ok = match &primary_database_url {
            Some(p) => !p.as_str().is_empty(),
            None => false,
        };
        if !primary_ok {
            return Err(
                DbError::Configuration(
                    String::from_str("PRIMARY_DATABASE_URL must be set when USE_REPLICA=true"),
                ),
            );
        }
        let token_ok = match &database_auth_token {
            Some(t) => !t.as_str().is_empty(),
            None => false,
        };
        if !token_ok {
            return Err(
                DbError::Configuration(
                    String::from_str("DATABASE_AUTH_TOKEN must be set when USE_REPLICA=true"),
                ),
            );
        }
        let primary_url = primary_database_url.unwrap();
        let token = database_auth_token.as_ref().unwrap().clone();
        let local_path = match replica_local_path {
            Some(lp) => lp,
            None => String::from_str("./replica.db"),
        };
        Ok(
            DbConfig {
                url,
                auth_token: database_auth_token,
                replica: Some(
                    ReplicaConfig { primary_url, auth_token: token, local_path },
                ),
            },
        )
    }

    /// Check if this is a local database configuration: true iff the URL
    /// lacks every networked scheme prefix.
    pub fn is_local(&self) -> (r: bool)
        ensures
            r == self.spec_is_local(),
    {
        !str_starts_with(self.url.as_str(), "libsql://") && !str_starts_with(
            self.url.as_str(),
            "http://",
        ) && !str_starts_with(self.url.as_str(), "https://")
    }

    /// Check if this configuration uses embedded replication.
    pub fn is_replica(&self) -> (r: bool)
        ensures
            r == self.spec_is_replica(),
    {
        self.replica.is_some()
    }

    /// The operating mode this configuration resolves to.
    pub fn mode(&self) -> (r: Mode)
        ensures
            r == self.spec_mode(),
    {
        if self.is_replica() {
            Mode::Replica
        } else if self.is_local() {
            Mode::Local
        } else {
            Mode::Remote
        }
    }
}

/// The one backend the application must open for a configuration, with
/// everything the open call needs. Exactly one variant per operating mode.
#[derive(Debug, Clone, PartialEq, Eq)]
pub enum ConnectPlan {
    /// Open an embedded backend at `path`, creating the file if absent.
    Local { path: String },
    /// Open a networked backend against `url`, authenticated by
    /// `auth_token`.
    Remote { url: String, auth_token: String },
    /// Build a synced backend at `local_path`, bound to `primary_url` and
    /// authenticated by `auth_token`.
    Replica { primary_url: String, auth_token: String, local_path: String },
}

impl DbConfig {
    /// Decide which backend to open, in priority order: a replica section
    /// forces the Replica plan; a non-networked URL gives the Local plan;
    /// a networked URL requires the auth token and gives the Remote plan.
    /// A networked URL without a non-empty auth token, or a replica section
    /// with an empty primary URL or auth token, is a Configuration error —
    /// raised here, before any network call is attempted.
    pub fn connect_plan(&self) -> (r: DbResult<ConnectPlan>)
        ensures
            ({
                &&& self.replica matches Some(rc) ==> {
                    &&& rc.primary_url@.len() > 0 && rc.auth_token@.len() > 0 ==> (r
                        matches Ok(p) && (p matches ConnectPlan::Replica {
                        primary_url,
                        auth_token,
                        local_path,
                    } && primary_url@ == rc.primary_url@ && auth_token@ == rc.auth_token@
                        && local_path@ == rc.local_path@))
                    &&& !(rc.primary_url@.len() > 0 && rc.auth_token@.len() > 0) ==> (r
                        matches Err(e) && e matches DbError::Configuration(m) && m@
                        == "replica configuration requires a non-empty primary URL and auth token"@)
                }
                &&& self.replica is None && self.spec_is_local() ==> (r matches Ok(p) && (p
                    matches ConnectPlan::Local { path } && path@ == self.url@))
                &&& (self.replica is None && !self.spec_is_local() && spec_env_present(
                    self.auth_token,
                )) ==> (r matches Ok(p) && (p matches ConnectPlan::Remote { url, auth_token }
                    && url@ == self.url@ && auth_token@ == self.auth_token->0@))
                &&& (self.replica is None && !self.spec_is_local() && !spec_env_present(
                    self.auth_token,
                )) ==> (r matches Err(e) && e matches DbError::Configuration(m) && m@
                    == "auth token required"@)
            }),
    {
        match &self.replica {
            Some(rc) => {
                if rc.primary_url.as_str().is_empty() || rc.auth_token.as_str().is_empty() {
                    Err(
                        DbError::Configuration(
                            String::from_str(
                                "replica configuration requires a non-empty primary URL and auth token",
                            ),
                        ),
                    )
                } else {
                    Ok(
                        ConnectPlan::Replica {
                            primary_url: rc.primary_url.clone(),
                            auth_token: rc.auth_token.clone(),
                            local_path: rc.local_path.clone(),
                        },
                    )
                }
            },
            None => {
                if self.is_local() {
                    Ok(ConnectPlan::Local { path: self.url.clone() })
                } else {
                    match &self.auth_token {
                        Some(t) => {
                            if t.as_str().is_empty() {
                                Err(
                                    DbError::Configuration(
                                        String::from_str("auth token required"),
                                    ),
                                )
                            } else {
                                Ok(
                                    ConnectPlan::Remote {
                                        url: self.url.clone(),
                                        auth_token: t.clone(),
                                    },
                                )
                            }
                        },
                        None => Err(
                            DbError::Configuration(String::from_str("auth token required")),
                        ),
                    }
                }
            },
        }
    }
}

/// Classify the outcome of a liveness probe against a freshly opened
/// backend: `Ok` stays success, and an error whose text reports that the
/// probe "returned rows" also counts as success — a benign driver artifact
/// of a networked backend running a statement expected to return nothing,
/// not a real failure. Any other error becomes a Connection error naming
/// the proximate cause.
pub fn probe_result(outcome: Result<(), String>) -> (r: DbResult<()>)
    ensures
        outcome is Ok ==> r is Ok,
        outcome matches Err(m) ==> {
            &&& spec_contains(m@, "returned rows"@) ==> r is Ok
            &&& !spec_contains(m@, "returned rows"@) ==> (r matches Err(e)
                && e matches DbError::Connection(mm) && mm@ == "Failed to execute test query: "@
                + m@)
        },
{
    match outcome {
        Ok(_) => Ok(()),
        Err(m) => {
            if str_contains(m.as_str(), "returned rows") {
                Ok(())
            } else {
                Err(
                    DbError::Connection(
                        String::from_str("Failed to execute test query: ").concat(m.as_str()),
                    ),
                )
            }
        },
    }
}

/// Classify the outcome of the replica's initial-sync probe. Policy, chosen
/// deliberately: a failed initial sync is fatal, so setup aborts with a
/// Connection error rather than continuing on a possibly-stale local
/// replica.
pub fn sync_probe_result(outcome: Result<(), String>) -> (r: DbResult<()>)
    ensures
        outcome is Ok <==> r is Ok,
        outcome is Err ==> (r matches Err(e) && e matches DbError::Connection(m) && m@
            == "Initial sync failed"@),
{
    match outcome {
        Ok(_) => Ok(()),
        Err(_) => Err(DbError::Connection(String::from_str("Initial sync failed"))),
    }
}

/// The steps of replica setup, in the order they run. Each performs one
/// piece of outside work and each can fail independently.
#[derive(Debug, Clone, Copy, PartialEq, Eq, Structural)]
pub enum ReplicaStep {
    /// Create the parent directory of the replica's local path, if the
    /// path has one and it is missing.
    EnsureParentDir,
    /// Build the synced backend bound to the local path, the primary URL
    /// and the replica auth token.
    Build,
    /// Open a connection against the synced backend.
    Connect,
    /// Issue the liveness probe that forces an initial synchronization
    /// pass against the primary.
    SyncProbe,
}

/// The first step of replica setup: everything begins with the local
/// storage the synced copy will live in.
pub fn replica_setup_start() -> (r: ReplicaStep)
    ensures
        r == ReplicaStep::EnsureParentDir,
{
    ReplicaStep::EnsureParentDir
}

/// Advance replica setup by one step. The application performs the outside
/// work of `step` and hands back its outcome, with any driver failure
/// rendered as text; this decides what follows. On success the next step is
/// returned, or `None` after the final step, when the synced backend is
/// ready. On failure the step's failure classification is returned:
/// directory creation is a Configuration error (an unusable deployment
/// environment), while build, connect, and initial-sync failures are
/// Connection errors — a failed initial sync is fatal by policy rather than
/// continuing on a possibly-stale local replica.
pub fn replica_setup_step(step: ReplicaStep, outcome: Result<(), String>) -> (r: DbResult<
    Option<ReplicaStep>,
>)
    ensures
        outcome is Ok ==> r == Ok::<Option<ReplicaStep>, DbError>(
            match step {
                ReplicaStep::EnsureParentDir => Some(ReplicaStep::Build),
                ReplicaStep::Build => Some(ReplicaStep::Connect),
                ReplicaStep::Connect => Some(ReplicaStep::SyncProbe),
                ReplicaStep::SyncProbe => None,
            },
        ),
        outcome matches Err(m) ==> (r matches Err(e) && ({
            &&& step == ReplicaStep::EnsureParentDir ==> (e
                matches DbError::Configuration(mm) && mm@
                == "Failed to create directory for replica: "@ + m@)
            &&& step == ReplicaStep::Build ==> (e matches DbError::Connection(mm) && mm@
                == "Failed to build replica database: "@ + m@)
            &&& step == ReplicaStep::Connect ==> (e matches DbError::Connection(mm) && mm@
                == "Failed to connect to replica database: "@ + m@)
            &&& step == ReplicaStep::SyncProbe ==> (e matches DbError::Connection(mm) && mm@
                == "Initial sync failed"@)
        })),
{
    match outcome {
        Ok(_) => Ok(
            match step {
                ReplicaStep::EnsureParentDir => Some(ReplicaStep::Build),
                ReplicaStep::Build => Some(ReplicaStep::Connect),
                ReplicaStep::Connect => Some(ReplicaStep::SyncProbe),
                ReplicaStep::SyncProbe => None,
            },
        ),
        Err(m) => Err(
            match step {
                ReplicaStep::EnsureParentDir => replica_dir_error(m),
                ReplicaStep::Build => replica_build_error(m),
                ReplicaStep::Connect => replica_connect_error(m),
                ReplicaStep::SyncProbe => DbError::Connection(
                    String::from_str("Initial sync failed"),
                ),
            },
        ),
    }
}

/// Wrap a driver failure to open the embedded or networked backend pool
/// into the taxonomy as a Connection error.
pub fn pool_connect_error(detail: String) -> (r: DbError)
    ensures
        r matches DbError::Connection(m) && m@ == "Failed to create pool: "@ + detail@,
{
    DbError::Connection(String::from_str("Failed to create pool: ").concat(detail.as_str()))
}

/// Wrap a driver failure to open the pool over a synced replica into the
/// taxonomy as a Connection error.
pub fn replica_pool_error(detail: String) -> (r: DbError)
    ensures
        r matches DbError::Connection(m) && m@ == "Failed to create pool for replica: "@
            + detail@,
{
    DbError::Connection(
        String::from_str("Failed to create pool for replica: ").concat(detail.as_str()),
    )
}

/// Wrap a failure to create the replica's parent directory into the
/// taxonomy as a Configuration error: an unusable deployment environment is
/// a setup problem, not a runtime connection problem.
pub fn replica_dir_error(detail: String) -> (r: DbError)
    ensures
        r matches DbError::Configuration(m) && m@ == "Failed to create directory for replica: "@
            + detail@,
{
    DbError::Configuration(
        String::from_str("Failed to create directory for replica: ").concat(detail.as_str()),
    )
}

/// Wrap a driver failure to build the synced replica database into the
/// taxonomy as a Connection error.
pub fn replica_build_error(detail: String) -> (r: DbError)
    ensures
        r matches DbError::Connection(m) && m@ == "Failed to build replica database: "@
            + detail@,
{
    DbError::Connection(
        String::from_str("Failed to build replica database: ").concat(detail.as_str()),
    )
}

/// Wrap a driver failure to connect to the synced replica database into the
/// taxonomy as a Connection error.
pub fn replica_connect_error(detail: String) -> (r: DbError)
    ensures
        r matches DbError::Connection(m) && m@ == "Failed to connect to replica database: "@
            + detail@,
{
    DbError::Connection(
        String::from_str("Failed to connect to replica database: ").concat(detail.as_str()),
    )
}

/// Wrap the failure of an ordinary statement against an established handle
/// into the taxonomy as a Query error.
pub fn query_error(detail: String) -> (r: DbError)
    ensures
        r matches DbError::Query(m) && m@ == "Query execution error: "@ + detail@,
{
    DbError::Query(String::from_str("Query execution error: ").concat(detail.as_str()))
}

/// The liveness probe statement: trivial, reads no application data, and
/// mutates nothing.
pub fn probe_statement() -> (r: String)
    ensures
        r@ == "SELECT 1"@,
{
    String::from_str("SELECT 1")
}

/// The statement run once during pool creation to exercise plain statement
/// execution: create the `example` table if it does not exist.
pub fn example_table_sql() -> (r: String)
    ensures
        r@ == "CREATE TABLE IF NOT EXISTS example (id INTEGER PRIMARY KEY, value TEXT);"@,
{
    String::from_str("CREATE TABLE IF NOT EXISTS example (id INTEGER PRIMARY KEY, value TEXT);")
}

/// The parameterized statement run once during pool creation to exercise
/// bound-parameter execution against the `example` table.
pub fn example_insert_sql() -> (r: String)
    ensures
        r@ == "INSERT INTO example (id, value) VALUES (?, ?);"@,
{
    String::from_str("INSERT INTO example (id, value) VALUES (?, ?);")
}

/// A configuration whose replica section is absent and whose URL lacks a
/// networked scheme prefix is classified local and not replica.
pub proof fn lemma_plain_config_is_local(c: DbConfig)
    requires
        c.replica is None,
        !spec_is_networked(c.url@),
    ensures
        c.spec_is_local(),
        !c.spec_is_replica(),
        c.spec_mode() == Mode::Local,
{
}

/// A configuration whose URL begins with `libsql://`, `http://` or
/// `https://` is never classified local, whatever its replica section.
pub proof fn lemma_networked_url_is_not_local(c: DbConfig)
    requires
        "libsql://"@.is_prefix_of(c.url@) || "http://"@.is_prefix_of(c.url@)
            || "https://"@.is_prefix_of(c.url@),
    ensures
        !c.spec_is_local(),
{
}

/// A configuration with a replica section present is classified replica and
/// resolves to Replica mode, whatever the shape of its URL.
pub proof fn lemma_replica_section_forces_replica(c: DbConfig)
    requires
        c.replica is Some,
    ensures
        c.spec_is_replica(),
        c.spec_mode() == Mode::Replica,
{
}

} // verus!
