use server::logger::{log_filter_directives, LogLevel};

#[test]
fn level_names() {
    assert_eq!(LogLevel::Debug.to_string(), "debug");
    assert_eq!(LogLevel::Trace.to_string(), "trace");
    assert_eq!(LogLevel::Info.to_string(), "info");
    assert_eq!(LogLevel::Wawn.to_string(), "warn");
    assert_eq!(LogLevel::Error.to_string(), "error");
}

#[test]
fn level_names_are_distinct() {
    let all = [LogLevel::Debug, LogLevel::Trace, LogLevel::Info, LogLevel::Wawn, LogLevel::Error];
    for a in all.iter() {
        for b in all.iter() {
            assert_eq!(a.to_string() == b.to_string(), a == b);
        }
    }
}

#[test]
fn default_level_is_debug() {
    assert_eq!(LogLevel::default(), LogLevel::Debug);
}

#[test]
fn levels_order_as_declared() {
    assert!(LogLevel::Debug < LogLevel::Trace);
    assert!(LogLevel::Trace < LogLevel::Info);
    assert!(LogLevel::Info < LogLevel::Wawn);
    assert!(LogLevel::Wawn < LogLevel::Error);
}

#[test]
fn directives_for_info() {
    assert_eq!(
        log_filter_directives(&LogLevel::Info),
        "info,axum_tracing_opentelemetry=info,otel=debug"
    );
}

#[test]
fn directives_for_warn_level() {
    assert_eq!(
        log_filter_directives(&LogLevel::Wawn),
        "warn,axum_tracing_opentelemetry=info,otel=debug"
    );
}
