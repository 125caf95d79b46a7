use kong_admin::cli::contains_flag;
use kong_admin::cli::parse_flags;
use kong_admin::cli::plan_run;
use kong_admin::cli::replica_url;
use kong_admin::cli::RunFlags;
use kong_admin::cli::RunStep;
use kong_admin::cli::StartupError;
use kong_admin::cli::LOCAL_REPLICA;
use kong_admin::cli::MAINNET_REPLICA;
use kong_admin::engine::SyncConfig;
use kong_admin::settings::default_connection_timeout_secs;
use kong_admin::settings::default_max_connections;
use kong_admin::settings::Database;
use kong_admin::settings::PoolLimits;
use kong_admin::settings::Settings;

fn settings(pem: Option<&str>, delay: Option<u64>) -> Settings {
    Settings {
        dfx_pem_file: pem.map(|p| p.to_string()),
        db_updates_delay_secs: delay,
        database: Database {
            host: "db.example".to_string(),
            port: 5432,
            user: "kong".to_string(),
            password: "SECRET-REDACTED".to_string(),
            ca_cert: None,
            db_name: "kong".to_string(),
            max_connections: default_max_connections(),
            connection_timeout_secs: default_connection_timeout_secs(),
        },
    }
}

fn args(list: &[&str]) -> Vec<String> {
    list.iter().map(|a| a.to_string()).collect()
}

fn no_flags() -> RunFlags {
    RunFlags { mainnet: false, kong_data: false, kong_backend: false, database: false, db_updates: false }
}

#[test]
fn defaults_of_the_database_settings() {
    assert_eq!(default_max_connections(), 16);
    assert_eq!(default_connection_timeout_secs(), 5);
}

#[test]
fn pool_limits_follow_the_settings() {
    let mut s = settings(None, None);
    assert_eq!(
        s.database.pool_limits(),
        PoolLimits { max_size: 16, wait_timeout_secs: 5, create_timeout_secs: 5, recycle_timeout_secs: 5 }
    );
    s.database.max_connections = 3;
    s.database.connection_timeout_secs = 40;
    assert_eq!(
        s.database.pool_limits(),
        PoolLimits { max_size: 3, wait_timeout_secs: 40, create_timeout_secs: 40, recycle_timeout_secs: 40 }
    );
}

#[test]
fn base_delay_comes_from_the_settings_or_the_default() {
    assert_eq!(settings(None, None).base_delay_secs(), 10);
    assert_eq!(settings(None, Some(60)).base_delay_secs(), 60);
    assert_eq!(settings(None, Some(0)).base_delay_secs(), 0);
    assert_eq!(
        settings(None, Some(60)).sync_config(),
        SyncConfig { base_delay_secs: 60, max_delay_secs: 300, operation_timeout_secs: 300, save_interval: 10 }
    );
    assert_eq!(
        settings(None, None).sync_config(),
        SyncConfig { base_delay_secs: 10, max_delay_secs: 300, operation_timeout_secs: 300, save_interval: 10 }
    );
}

#[test]
fn flags_are_found_anywhere_on_the_command_line() {
    let line = args(&["kong_admin", "--database", "extra", "--mainnet"]);
    assert!(contains_flag(&line, "--database"));
    assert!(contains_flag(&line, "--mainnet"));
    assert!(contains_flag(&line, "kong_admin"));
    assert!(!contains_flag(&line, "--db_updates"));
    assert!(!contains_flag(&line, "--data"));
    assert!(!contains_flag(&line, "--database "));
    assert!(!contains_flag(&args(&[]), "--database"));
}

#[test]
fn flags_combine() {
    assert_eq!(parse_flags(&args(&["kong_admin"])), no_flags());
    assert_eq!(
        parse_flags(&args(&["kong_admin", "--db_updates", "--database"])),
        RunFlags { database: true, db_updates: true, ..no_flags() }
    );
    assert_eq!(
        parse_flags(&args(&["--kong_backend", "--kong_data", "--mainnet", "--database", "--db_updates"])),
        RunFlags { mainnet: true, kong_data: true, kong_backend: true, database: true, db_updates: true }
    );
    assert_eq!(parse_flags(&args(&["--Mainnet", "-mainnet", "--kong_data=1"])), no_flags());
    assert_eq!(
        parse_flags(&args(&["--mainnet", "--mainnet"])),
        RunFlags { mainnet: true, ..no_flags() }
    );
}

#[test]
fn replica_addresses() {
    assert_eq!(LOCAL_REPLICA, "http://localhost:8000");
    assert_eq!(MAINNET_REPLICA, "https://ic0.app");
    assert_eq!(replica_url(false), "http://localhost:8000");
    assert_eq!(replica_url(true), "https://ic0.app");
}

#[test]
fn steps_follow_the_flags_in_order() {
    let with_pem = settings(Some("identity.pem"), None);
    assert_eq!(plan_run(&no_flags(), &with_pem), Ok(vec![]));
    assert_eq!(
        plan_run(&RunFlags { database: true, ..no_flags() }, &with_pem),
        Ok(vec![RunStep::OpenPool, RunStep::UpdateDatabase])
    );
    assert_eq!(
        plan_run(&RunFlags { db_updates: true, ..no_flags() }, &with_pem),
        Ok(vec![RunStep::OpenPool, RunStep::LoadCaches, RunStep::SyncLoop])
    );
    assert_eq!(
        plan_run(&RunFlags { database: true, db_updates: true, ..no_flags() }, &with_pem),
        Ok(vec![RunStep::OpenPool, RunStep::UpdateDatabase, RunStep::SyncLoop])
    );
    assert_eq!(
        plan_run(
            &RunFlags { mainnet: true, kong_data: true, kong_backend: true, database: true, db_updates: true },
            &with_pem
        ),
        Ok(vec![
            RunStep::UpdateKongData,
            RunStep::UpdateKongBackend,
            RunStep::OpenPool,
            RunStep::UpdateDatabase,
            RunStep::SyncLoop,
        ])
    );
    assert_eq!(
        plan_run(&RunFlags { mainnet: true, ..no_flags() }, &with_pem),
        Ok(vec![])
    );
}

#[test]
fn feed_backends_need_an_identity() {
    let without = settings(None, None);
    assert_eq!(
        plan_run(&RunFlags { kong_data: true, database: true, ..no_flags() }, &without),
        Err(StartupError::MissingIdentity { step: RunStep::UpdateKongData })
    );
    assert_eq!(
        plan_run(&RunFlags { kong_backend: true, ..no_flags() }, &without),
        Err(StartupError::MissingIdentity { step: RunStep::UpdateKongBackend })
    );
    assert_eq!(
        plan_run(&RunFlags { kong_data: true, kong_backend: true, ..no_flags() }, &without),
        Err(StartupError::MissingIdentity { step: RunStep::UpdateKongData })
    );
    assert_eq!(
        plan_run(&RunFlags { database: true, db_updates: true, ..no_flags() }, &without),
        Ok(vec![RunStep::OpenPool, RunStep::UpdateDatabase, RunStep::SyncLoop])
    );
}

#[test]
fn startup_error_messages() {
    assert_eq!(
        StartupError::MissingIdentity { step: RunStep::UpdateKongData }.message(),
        "dfx identity required for Kong Data"
    );
    assert_eq!(
        StartupError::MissingIdentity { step: RunStep::UpdateKongBackend }.message(),
        "dfx identity required for Kong Backend"
    );
}
