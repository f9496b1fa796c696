use server::logger::LogLevel;
use server::settings::{Database, DatabaseType, Settings, StartServer, TracingSettings};

#[test]
fn database_new_is_postgres() {
    assert_eq!(Database::new().db_type, DatabaseType::Postgres);
    assert_eq!(Database::default(), Database::new());
    assert_eq!(DatabaseType::default(), DatabaseType::Postgres);
}

#[test]
fn settings_new_keeps_arguments() {
    let s = Settings::new(
        Some(Database { db_type: DatabaseType::InfuxDB }),
        "0.0.0.0:80".to_string(),
        LogLevel::Error,
    );
    assert_eq!(s.database, Some(Database { db_type: DatabaseType::InfuxDB }));
    assert_eq!(s.address, "0.0.0.0:80");
    assert_eq!(s.log_level, LogLevel::Error);
    assert!(!s.tracing.enabled);
    assert_eq!(s.tracing.service_name, "");
    assert_eq!(s.tracing.otlp_endpoint, "");
}

#[test]
fn settings_default() {
    let s = Settings::default();
    assert_eq!(s.database, Some(Database::new()));
    assert_eq!(s.address, "");
    assert_eq!(s.log_level, LogLevel::Info);
    assert!(!s.tracing.enabled);
}

#[test]
fn tracing_settings_default() {
    let t = TracingSettings::default();
    assert!(!t.enabled);
    assert!(t.service_name.is_empty());
    assert!(t.otlp_endpoint.is_empty());
}

#[test]
fn start_server_into_settings() {
    let start = StartServer { address: "127.0.0.1".to_string(), port: 3000 };
    let s: Settings = start.into();
    assert_eq!(s.database, None);
    assert_eq!(s.address, "127.0.0.1");
    assert_eq!(s.log_level, LogLevel::Debug);
    assert!(!s.tracing.enabled);
}
