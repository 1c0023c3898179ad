use rs_gate_server::config::DatabaseConfig;
use rs_gate_server::database::{pool_settings_for_count, server_version};
use rs_gate_server::errors::ApiError;
use rs_gate_server::database::{
    connection_url, decimal_string, machine_pool_settings, pool_settings, MAX_POOL_CPUS,
};

#[test]
fn decimal_rendering() {
    assert_eq!(decimal_string(0), "0");
    assert_eq!(decimal_string(7), "7");
    assert_eq!(decimal_string(10), "10");
    assert_eq!(decimal_string(5432), "5432");
    assert_eq!(decimal_string(65535), "65535");
    assert_eq!(decimal_string(u64::MAX), u64::MAX.to_string());
}

#[test]
fn connection_url_has_all_parts() {
    let c = DatabaseConfig {
        host: "localhost".to_string(),
        port: 5432,
        user: "postgres".to_string(),
        password: "p@ss".to_string(),
        database: "gate".to_string(),
        schema: "public".to_string(),
    };
    assert_eq!(connection_url(&c), "postgres://postgres:p@ss@localhost:5432/gate");
}

#[test]
fn pool_sizes_have_floors() {
    let one = pool_settings(1, "public");
    assert_eq!(one.min_connections, 10);
    assert_eq!(one.max_connections, 20);
    let two = pool_settings(2, "public");
    assert_eq!(two.min_connections, 10);
    assert_eq!(two.max_connections, 20);
    let three = pool_settings(3, "app");
    assert_eq!(three.min_connections, 12);
    assert_eq!(three.max_connections, 24);
    assert_eq!(three.schema, "app");
    let many = pool_settings(16, "public");
    assert_eq!(many.min_connections, 64);
    assert_eq!(many.max_connections, 128);
    let zero = pool_settings(0, "public");
    assert_eq!(zero.min_connections, 10);
    assert_eq!(zero.max_connections, 20);
    let top = pool_settings(MAX_POOL_CPUS, "public");
    assert_eq!(top.max_connections, MAX_POOL_CPUS * 8);
}

#[test]
fn pool_timeouts_are_fixed() {
    let p = pool_settings(4, "public");
    assert_eq!(p.connect_timeout_secs, 10);
    assert_eq!(p.acquire_timeout_secs, 30);
    assert_eq!(p.idle_timeout_secs, 300);
    assert_eq!(p.max_lifetime_secs, 86400);
    assert!(!p.sqlx_logging);
}

#[test]
fn minimum_never_exceeds_maximum() {
    for cpus in [0u32, 1, 2, 3, 5, 9, 100, 4096, MAX_POOL_CPUS] {
        let p = pool_settings(cpus, "s");
        assert!(p.min_connections <= p.max_connections);
    }
}

#[test]
fn this_machine_gets_a_pool() {
    let p = machine_pool_settings("public").expect("a pool for this machine");
    assert!(p.min_connections >= 10);
    assert!(p.max_connections >= 20);
    assert!(p.min_connections <= p.max_connections);
    assert_eq!(p.schema, "public");
}

#[test]
fn missing_version_row_is_internal() {
    assert_eq!(server_version(Some("PostgreSQL 16.2".to_string())).unwrap(), "PostgreSQL 16.2");
    match server_version(None) {
        Err(ApiError::Internal(m)) => assert_eq!(m, "Failed to get database version"),
        other => panic!("unexpected {:?}", other),
    }
}

#[test]
fn pool_for_reported_counts() {
    let p = pool_settings_for_count(6, "public").unwrap();
    assert_eq!(p.min_connections, 24);
    assert_eq!(p.max_connections, 48);
    assert!(pool_settings_for_count(536870912, "public").is_none());
    assert_eq!(pool_settings_for_count((1usize << 32) + 6, "public").unwrap().min_connections, 24);
    assert_eq!(pool_settings_for_count(536870911, "public").unwrap().max_connections, 536870911 * 8);
}
