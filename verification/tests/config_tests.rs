use rs_gate_server::config::{AppConfig, DatabaseConfig, ServerConfig};

fn database() -> DatabaseConfig {
    DatabaseConfig {
        host: "db.local".to_string(),
        port: 5432,
        user: "gate".to_string(),
        password: "secret".to_string(),
        database: "gate_db".to_string(),
        schema: "public".to_string(),
    }
}

#[test]
fn sections_are_returned_as_given() {
    let cfg = AppConfig::new(
        ServerConfig { host: "0.0.0.0".to_string(), port: 8080 },
        database(),
    );
    assert_eq!(cfg.server().host, "0.0.0.0");
    assert_eq!(cfg.server().port, 8080);
    assert_eq!(cfg.database().host(), "db.local");
    assert_eq!(cfg.database().port(), 5432);
    assert_eq!(cfg.database().user(), "gate");
    assert_eq!(cfg.database().password(), "secret");
    assert_eq!(cfg.database().database(), "gate_db");
    assert_eq!(cfg.database().schema(), "public");
}
