//! The server's settings: where it listens, how verbose its log is, its
//! database and its telemetry.

use vstd::prelude::*;

use crate::logger::LogLevel;

verus! {

/// Where the server sends its traces.
pub struct TracingSettings {
    pub enabled: bool,
    pub service_name: String,
    pub otlp_endpoint: String,
}

impl Default for TracingSettings {
    /// Tracing switched off, with no service name and no endpoint.
    fn default() -> (r: Self)
        ensures
            !r.enabled,
            r.service_name@ == Seq::<char>::empty(),
            r.otlp_endpoint@ == Seq::<char>::empty(),
    {
        TracingSettings { enabled: false, service_name: String::new(), otlp_endpoint: String::new() }
    }
}

/// The kind of database the server stores its data in.
#[derive(Debug, Clone, Copy, PartialEq, Eq, Structural)]
pub enum DatabaseType {
    Postgres,
    InfuxDB,
}

impl Default for DatabaseType {
    fn default() -> (r: Self)
        ensures
            r == DatabaseType::Postgres,
    {
        DatabaseType::Postgres
    }
}

/// The server's database.
#[derive(Debug, Clone, Copy, PartialEq, Eq, Structural)]
pub struct Database {
    pub db_type: DatabaseType,
}

impl Database {
    /// A Postgres database.
    pub fn new() -> (r: Self)
        ensures
            r.db_type == DatabaseType::Postgres,
    {
        let db_type = DatabaseType::Postgres;
        Database { db_type }
    }
}

impl Default for Database {
    /// The default database is of the default type, Postgres.
    fn default() -> (r: Self)
        ensures
            r.db_type == DatabaseType::Postgres,
    {
        Database { db_type: DatabaseType::default() }
    }
}

/// Everything the server is started with.
pub struct Settings {
    pub database: Option<Database>,
    pub address: String,
    pub log_level: LogLevel,
    pub tracing: TracingSettings,
}

impl Settings {
    /// Settings with the given database, address and log level, and tracing
    /// switched off.
    pub fn new(database: Option<Database>, address: String, log_level: LogLevel) -> (r: Self)
        ensures
            r.database == database,
            r.address == address,
            r.log_level == log_level,
            !r.tracing.enabled,
            r.tracing.service_name@ == Seq::<char>::empty(),
            r.tracing.otlp_endpoint@ == Seq::<char>::empty(),
    {
        Settings { database, address, log_level, tracing: TracingSettings::default() }
    }
}

impl Default for Settings {
    /// A Postgres database, an empty address, the `Info` level and tracing
    /// switched off.
    fn default() -> (r: Self)
        ensures
            r.database == Some(Database { db_type: DatabaseType::Postgres }),
            r.address@ == Seq::<char>::empty(),
            r.log_level == LogLevel::Info,
            !r.tracing.enabled,
            r.tracing.service_name@ == Seq::<char>::empty(),
            r.tracing.otlp_endpoint@ == Seq::<char>::empty(),
    {
        Settings::new(Some(Database::new()), String::new(), LogLevel::Info)
    }
}

/// What the command-line launcher is given: an address and a port.
pub struct StartServer {
    pub address: String,
    pub port: u16,
}

impl vstd::std_specs::convert::FromSpecImpl<StartServer> for Settings {
    /// Settings hold strings, which no spec function can build, so the
    /// conversion has no model of its own; `from` states its result.
    open spec fn obeys_from_spec() -> bool {
        false
    }

    open spec fn from_spec(v: StartServer) -> Settings {
        arbitrary()
    }
}

impl From<StartServer> for Settings {
    /// Settings for the launcher: its address, no database and the `Debug`
    /// level. The port is not carried over.
    fn from(value: StartServer) -> (r: Settings)
        ensures
            r.database is None,
            r.address == value.address,
            r.log_level == LogLevel::Debug,
            !r.tracing.enabled,
            r.tracing.service_name@ == Seq::<char>::empty(),
            r.tracing.otlp_endpoint@ == Seq::<char>::empty(),
    {
        Settings::new(None, value.address, LogLevel::Debug)
    }
}

} // verus!
