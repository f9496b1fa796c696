# server

An HTTP server with OpenTelemetry tracing, split in two:

- `src/` is a library verified with Verus: the settings, the command-line
  options and when they are accepted, the log levels and the log filter, the
  route bodies, and how the trace exporter's protocol and endpoint are
  completed from what is given.
- `app/` is the program around it: command-line parsing (clap), settings
  files (serde), error messages (thiserror), the logger, the tracing
  subscribers and OTLP exporter, and the axum server.

`tests/` runs the library on concrete values.
