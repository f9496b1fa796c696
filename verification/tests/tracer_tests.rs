use server::tracer::{infer_protocol_and_endpoint, is_http_protobuf};

fn infer(p: Option<&str>, e: Option<&str>) -> (String, String) {
    infer_protocol_and_endpoint((p.map(|s| s.to_string()), e.map(|s| s.to_string())))
}

#[test]
fn nothing_given_is_local_http() {
    assert_eq!(infer(None, None), ("http/protobuf".to_string(), "http://localhost:4318".to_string()));
}

#[test]
fn grpc_port_means_grpc() {
    assert_eq!(
        infer(None, Some("http://collector:4317")),
        ("grpc".to_string(), "http://collector:4317".to_string())
    );
}

#[test]
fn other_port_means_http() {
    assert_eq!(
        infer(None, Some("http://collector:4318/v1/traces")),
        ("http/protobuf".to_string(), "http://collector:4318/v1/traces".to_string())
    );
}

#[test]
fn grpc_protocol_without_endpoint_is_local_grpc() {
    assert_eq!(infer(Some("grpc"), None), ("grpc".to_string(), "http://localhost:4317".to_string()));
}

#[test]
fn unknown_protocol_without_endpoint_is_local_grpc() {
    assert_eq!(infer(Some("foo"), None), ("foo".to_string(), "http://localhost:4317".to_string()));
}

#[test]
fn http_protocol_without_endpoint_is_local_http() {
    assert_eq!(
        infer(Some("http/protobuf"), None),
        ("http/protobuf".to_string(), "http://localhost:4318".to_string())
    );
}

#[test]
fn given_values_are_kept() {
    assert_eq!(
        infer(Some("http/protobuf"), Some("http://x:4317")),
        ("http/protobuf".to_string(), "http://x:4317".to_string())
    );
}

#[test]
fn inferring_twice_changes_nothing() {
    for (p, e) in [(None, None), (None, Some("a:4317")), (Some("grpc"), None), (Some("x"), Some("y"))] {
        let (p1, e1) = infer(p, e);
        assert_eq!(infer(Some(&p1), Some(&e1)), (p1.clone(), e1.clone()));
    }
}

#[test]
fn inferred_protocol_matches_completed_endpoint() {
    for e in [None, Some("a:4317"), Some("b:9999")] {
        let (p1, e1) = infer(None, e);
        assert_eq!(infer(None, Some(&e1)).0, p1);
    }
}

#[test]
fn http_protobuf_is_recognised() {
    assert!(is_http_protobuf("http/protobuf"));
    assert!(!is_http_protobuf("grpc"));
    assert!(!is_http_protobuf("http/protobu"));
    assert!(!is_http_protobuf(""));
}

#[test]
fn collector_cases() {
    let cases = [
        (None, None, "http/protobuf", "http://localhost:4318"),
        (Some("http/protobuf"), None, "http/protobuf", "http://localhost:4318"),
        (Some("grpc"), None, "grpc", "http://localhost:4317"),
        (None, Some("http://localhost:4317"), "grpc", "http://localhost:4317"),
        (Some("http/protobuf"), Some("http://localhost:4318"), "http/protobuf", "http://localhost:4318"),
        (Some("http/protobuf"), Some("https://examples.com:4318"), "http/protobuf", "https://examples.com:4318"),
        (Some("http/protobuf"), Some("https://examples.com:4317"), "http/protobuf", "https://examples.com:4317"),
    ];
    for (p, e, want_p, want_e) in cases {
        assert_eq!(infer(p, e), (want_p.to_string(), want_e.to_string()));
    }
}

#[test]
fn default_endpoints_match_transport() {
    assert_eq!(infer(None, Some("http://localhost:4317")).0, "grpc");
    assert_eq!(infer(None, Some("http://localhost:4318")).0, "http/protobuf");
}
