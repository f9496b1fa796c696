//! Settings, command-line validation and telemetry configuration of an
//! HTTP server, with their contracts proved by Verus.
//!
//! The server itself (binding the socket, the router, the telemetry
//! pipelines and the logger) lives in the program around this library;
//! what it decides is computed here:
//!
//! - [`cli`]: the command-line options and when they are accepted;
//! - [`logger`]: log levels, their names and the logger's filter directives;
//! - [`settings`]: the settings the server is started with;
//! - [`server`]: what the routes answer;
//! - [`tracer`]: the protocol and endpoint of the trace exporter;
//! - [`text`]: character-level comparison and search on strings.

pub mod cli;
pub mod logger;
pub mod server;
pub mod settings;
pub mod text;
pub mod tracer;
