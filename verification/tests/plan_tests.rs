use turserver::connection::{
    pool_connect_error, probe_result, query_error, replica_pool_error, replica_setup_start,
    replica_setup_step, sync_probe_result, ConnectPlan, DbConfig, Mode, ReplicaConfig,
    ReplicaStep,
};
use turserver::error::DbError;
use turserver::migrations::{acquire_error, create_files_table_error, insert_test_file_error};
use turserver::text::{parent_of, str_contains, str_starts_with};

fn s(v: &str) -> String {
    v.to_string()
}

#[test]
fn local_config_plans_local_backend() {
    let config = DbConfig { url: s("./local.db"), auth_token: None, replica: None };
    assert_eq!(config.mode(), Mode::Local);
    let plan = config.connect_plan().unwrap();
    assert_eq!(plan, ConnectPlan::Local { path: s("./local.db") });
}

#[test]
fn remote_config_without_token_is_a_configuration_error() {
    let config = DbConfig { url: s("libsql://x"), auth_token: None, replica: None };
    match config.connect_plan().unwrap_err() {
        DbError::Configuration(m) => assert_eq!(m, "auth token required"),
        other => panic!("expected a configuration error, got {:?}", other),
    }
}

#[test]
fn remote_config_with_empty_token_is_a_configuration_error() {
    let config = DbConfig { url: s("https://x"), auth_token: Some(s("")), replica: None };
    assert!(matches!(config.connect_plan(), Err(DbError::Configuration(_))));
}

#[test]
fn remote_config_with_token_plans_remote_backend() {
    let config = DbConfig { url: s("libsql://x"), auth_token: Some(s("tok")), replica: None };
    let plan = config.connect_plan().unwrap();
    assert_eq!(plan, ConnectPlan::Remote { url: s("libsql://x"), auth_token: s("tok") });
}

#[test]
fn replica_config_plans_replica_backend_first() {
    let config = DbConfig {
        url: s("./ignored.db"),
        auth_token: None,
        replica: Some(ReplicaConfig {
            primary_url: s("libsql://p"),
            auth_token: s("t"),
            local_path: s("./r.db"),
        }),
    };
    let plan = config.connect_plan().unwrap();
    assert_eq!(
        plan,
        ConnectPlan::Replica {
            primary_url: s("libsql://p"),
            auth_token: s("t"),
            local_path: s("./r.db"),
        }
    );
}

#[test]
fn replica_config_with_empty_fields_is_a_configuration_error() {
    let config = DbConfig {
        url: s("./x.db"),
        auth_token: None,
        replica: Some(ReplicaConfig {
            primary_url: s(""),
            auth_token: s("t"),
            local_path: s("./r.db"),
        }),
    };
    assert!(matches!(config.connect_plan(), Err(DbError::Configuration(_))));
}

#[test]
fn probe_success_stays_success() {
    assert!(probe_result(Ok(())).is_ok());
}

#[test]
fn probe_returned_rows_error_counts_as_success() {
    let outcome = Err(s("Execute returned rows"));
    assert!(probe_result(outcome).is_ok());
}

#[test]
fn probe_other_error_is_a_connection_error() {
    let outcome = Err(s("no such table"));
    match probe_result(outcome).unwrap_err() {
        DbError::Connection(m) => {
            assert_eq!(m, "Failed to execute test query: no such table")
        }
        other => panic!("expected a connection error, got {:?}", other),
    }
}

#[test]
fn sync_probe_failure_is_fatal() {
    assert!(sync_probe_result(Ok(())).is_ok());
    match sync_probe_result(Err(s("primary unreachable"))).unwrap_err() {
        DbError::Connection(m) => assert_eq!(m, "Initial sync failed"),
        other => panic!("expected a connection error, got {:?}", other),
    }
}

#[test]
fn error_wrappers_classify_and_name_the_cause() {
    assert_eq!(
        pool_connect_error(s("io")).message(),
        "Database connection error: Failed to create pool: io"
    );
    assert_eq!(
        replica_pool_error(s("io")).message(),
        "Database connection error: Failed to create pool for replica: io"
    );
    assert_eq!(
        query_error(s("syntax")).message(),
        "Database query error: Query execution error: syntax"
    );
    assert_eq!(
        acquire_error(s("busy")).message(),
        "Database connection error: Failed to acquire database connection: busy"
    );
    assert_eq!(
        create_files_table_error(s("locked")).message(),
        "Database query error: Failed to create files table: locked"
    );
    assert_eq!(
        insert_test_file_error(s("full")).message(),
        "Database query error: Failed to insert test file: full"
    );
}

#[test]
fn replica_setup_steps_run_in_order() {
    assert_eq!(replica_setup_start(), ReplicaStep::EnsureParentDir);
    let next = replica_setup_step(ReplicaStep::EnsureParentDir, Ok(())).unwrap();
    assert_eq!(next, Some(ReplicaStep::Build));
    let next = replica_setup_step(ReplicaStep::Build, Ok(())).unwrap();
    assert_eq!(next, Some(ReplicaStep::Connect));
    let next = replica_setup_step(ReplicaStep::Connect, Ok(())).unwrap();
    assert_eq!(next, Some(ReplicaStep::SyncProbe));
    let next = replica_setup_step(ReplicaStep::SyncProbe, Ok(())).unwrap();
    assert_eq!(next, None);
}

#[test]
fn replica_setup_failures_are_classified_per_step() {
    let err = replica_setup_step(ReplicaStep::EnsureParentDir, Err(s("denied"))).unwrap_err();
    match err {
        DbError::Configuration(m) => {
            assert_eq!(m, "Failed to create directory for replica: denied")
        }
        other => panic!("expected a configuration error, got {:?}", other),
    }
    let err = replica_setup_step(ReplicaStep::Build, Err(s("bad url"))).unwrap_err();
    assert!(matches!(err, DbError::Connection(_)));
    let err = replica_setup_step(ReplicaStep::Connect, Err(s("locked"))).unwrap_err();
    assert!(matches!(err, DbError::Connection(_)));
    let err = replica_setup_step(ReplicaStep::SyncProbe, Err(s("timeout"))).unwrap_err();
    match err {
        DbError::Connection(m) => assert_eq!(m, "Initial sync failed"),
        other => panic!("expected a connection error, got {:?}", other),
    }
}

#[test]
fn parent_of_returns_the_directory_prefix() {
    assert_eq!(parent_of("./r.db"), Some(s(".")));
    assert_eq!(parent_of("data/replicas/r.db"), Some(s("data/replicas")));
    assert_eq!(parent_of("/r.db"), Some(s("/")));
    assert_eq!(parent_of("r.db"), None);
}

#[test]
fn prefix_and_substring_checks() {
    assert!(str_starts_with("libsql://x", "libsql://"));
    assert!(!str_starts_with("./local.db", "libsql://"));
    assert!(str_starts_with("anything", ""));
    assert!(str_contains("Execute returned rows", "returned rows"));
    assert!(!str_contains("no such table", "returned rows"));
    assert!(str_contains("returned rows", "returned rows"));
}
