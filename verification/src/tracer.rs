//! Which protocol and which endpoint the trace exporter uses.
//!
//! A collector speaks OTLP over gRPC on port 4317 or over HTTP (protobuf
//! bodies) on port 4318. Whatever is not given is inferred from what is.

use vstd::prelude::*;

use crate::text::{seq_contains, str_contains, str_equals};

verus! {

/// The OTLP-over-HTTP protocol name.
pub open spec fn http_protobuf() -> Seq<char> {
    "http/protobuf"@
}

/// The OTLP-over-gRPC protocol name.
pub open spec fn grpc() -> Seq<char> {
    "grpc"@
}

/// An endpoint that mentions this port is taken for a gRPC collector.
pub open spec fn grpc_port() -> Seq<char> {
    ":4317"@
}

/// The local HTTP collector.
pub open spec fn default_http_endpoint() -> Seq<char> {
    "http://localhost:4318"@
}

/// The local gRPC collector.
pub open spec fn default_grpc_endpoint() -> Seq<char> {
    "http://localhost:4317"@
}

/// The view of an optional string.
pub open spec fn opt_view(o: Option<String>) -> Option<Seq<char>> {
    match o {
        Some(s) => Some(s@),
        None => None,
    }
}

/// Searching for the gRPC port is looking for `:4317` at every position.
pub proof fn lemma_contains_port_exactly(e: Seq<char>)
    ensures
        seq_contains(e, grpc_port()) <==> (exists|i: int, j: int|
            0 <= i && j == i + 5 && j <= e.len()
                && #[trigger] e.subrange(i, j) == ":4317"@),
{
    reveal_strlit(":4317");
    if seq_contains(e, grpc_port()) {
        let i = choose|i: int| #[trigger] crate::text::occurs_at(e, grpc_port(), i);
        assert(e.subrange(i, i + 5) == ":4317"@);
    }
    if (exists|i: int, j: int|
            0 <= i && j == i + 5 && j <= e.len()
                && #[trigger] e.subrange(i, j) == ":4317"@) {
        let (i, j) = choose|i: int, j: int|
            0 <= i && j == i + 5 && j <= e.len() && #[trigger] e.subrange(i, j) == ":4317"@;
        assert(crate::text::occurs_at(e, grpc_port(), i));
    }
}

/// The protocol: the one given, else gRPC when the endpoint given mentions
/// port 4317, else HTTP.
pub open spec fn inferred_protocol(protocol: Option<Seq<char>>, endpoint: Option<Seq<char>>) -> Seq<
    char,
> {
    match protocol {
        Some(p) => p,
        None => if endpoint matches Some(e) && seq_contains(e, grpc_port()) {
            grpc()
        } else {
            http_protobuf()
        },
    }
}

/// The endpoint: the one given, else the local collector of the protocol
/// (any protocol but HTTP is served as gRPC).
pub open spec fn inferred_endpoint(protocol: Seq<char>, endpoint: Option<Seq<char>>) -> Seq<char> {
    match endpoint {
        Some(e) => e,
        None => if protocol == http_protobuf() {
            default_http_endpoint()
        } else {
            default_grpc_endpoint()
        },
    }
}

/// Whether the exporter speaks OTLP over HTTP; any other protocol name is
/// served over gRPC.
pub fn is_http_protobuf(protocol: &str) -> (r: bool)
    ensures
        r == (protocol@ == http_protobuf()),
{
    str_equals(protocol, "http/protobuf")
}

/// Completes an optional protocol and an optional endpoint: a value given is
/// kept; a missing protocol is inferred from the endpoint, and a missing
/// endpoint is the local collector of the protocol.
pub fn infer_protocol_and_endpoint(given: (Option<String>, Option<String>)) -> (r: (String, String))
    ensures
        r.0@ == inferred_protocol(opt_view(given.0), opt_view(given.1)),
        r.1@ == inferred_endpoint(r.0@, opt_view(given.1)),
        given.0 is Some ==> r.0@ == given.0.unwrap()@,
        given.1 is Some ==> r.1@ == given.1.unwrap()@,
        given.0 is None ==> (r.0@ == "grpc"@ || r.0@ == "http/protobuf"@),
        (given.0 is None && given.1 is Some) ==> (r.0@ == "grpc"@ <==> (exists|i: int, j: int|
            0 <= i && j == i + 5 && j <= given.1.unwrap()@.len()
                && #[trigger] given.1.unwrap()@.subrange(i, j) == ":4317"@)),
        (given.0 is None && given.1 is None) ==> r.0@ == "http/protobuf"@,
        (given.1 is None && r.0@ == "http/protobuf"@) ==> r.1@ == "http://localhost:4318"@,
        (given.1 is None && r.0@ != "http/protobuf"@) ==> r.1@ == "http://localhost:4317"@,
{
    let ghost given_endpoint = opt_view(given.1);
    proof {
        reveal_strlit("grpc");
        reveal_strlit("http/protobuf");
        assert("grpc"@.len() != "http/protobuf"@.len());
        if given_endpoint is Some {
            lemma_contains_port_exactly(given_endpoint.unwrap());
        }
    }
    let (maybe_protocol, maybe_endpoint) = given;
    let protocol = match maybe_protocol {
        Some(p) => p,
        None => {
            let on_grpc_port = match &maybe_endpoint {
                Some(e) => str_contains(e.as_str(), ":4317"),
                None => false,
            };
            if on_grpc_port {
                "grpc".to_string()
            } else {
                "http/protobuf".to_string()
            }
        },
    };
    let endpoint = match maybe_endpoint {
        Some(e) => e,
        None => if is_http_protobuf(protocol.as_str()) {
            "http://localhost:4318".to_string()
        } else {
            "http://localhost:4317".to_string()
        },
    };
    (protocol, endpoint)
}

/// Completing what was already completed changes nothing.
pub proof fn lemma_infer_idempotent(protocol: Option<Seq<char>>, endpoint: Option<Seq<char>>)
    ensures
        ({
            let p = inferred_protocol(protocol, endpoint);
            let e = inferred_endpoint(p, endpoint);
            inferred_protocol(Some(p), Some(e)) == p && inferred_endpoint(p, Some(e)) == e
        }),
{
}

/// The default HTTP endpoint does not mention the gRPC port.
proof fn lemma_default_http_endpoint_not_grpc()
    ensures
        !seq_contains(default_http_endpoint(), grpc_port()),
{
    reveal_strlit("http://localhost:4318");
    reveal_strlit(":4317");
    let s = default_http_endpoint();
    let pat = grpc_port();
    let chars: Seq<char> = seq![
        'h', 't', 't', 'p', ':', '/', '/', 'l', 'o', 'c', 'a', 'l', 'h', 'o', 's', 't', ':', '4',
        '3', '1', '8',
    ];
    assert(s =~= chars);
    assert(pat =~= seq![':', '4', '3', '1', '7']);
    // The pattern ends in '7', and no character of the endpoint is a '7'.
    assert forall|i: int| !#[trigger] crate::text::occurs_at(s, pat, i) by {
        if crate::text::occurs_at(s, pat, i) {
            assert(s.subrange(i, i + 5)[4] == '7');
            assert(chars[i + 4] == '7');
            assert(i == 0 || i == 1 || i == 2 || i == 3 || i == 4 || i == 5 || i == 6 || i == 7
                || i == 8 || i == 9 || i == 10 || i == 11 || i == 12 || i == 13 || i == 14 || i
                == 15 || i == 16);
        }
    }
}

/// When no protocol is given, the protocol inferred is the one the completed
/// endpoint itself points to: inferring again from the endpoint alone gives
/// the same protocol.
pub proof fn lemma_inferred_protocol_matches_endpoint(endpoint: Option<Seq<char>>)
    ensures
        ({
            let p = inferred_protocol(None, endpoint);
            let e = inferred_endpoint(p, endpoint);
            inferred_protocol(None, Some(e)) == p
        }),
{
    reveal_strlit("http/protobuf");
    reveal_strlit("grpc");
    if endpoint is None {
        lemma_default_http_endpoint_not_grpc();
    }
}

/// Each local collector's endpoint points back to its own transport:
/// inferring the protocol from the default gRPC endpoint gives gRPC, and from
/// the default HTTP endpoint gives HTTP.
pub proof fn lemma_default_endpoints_match_transport()
    ensures
        inferred_protocol(None, Some(default_grpc_endpoint())) == grpc(),
        inferred_protocol(None, Some(default_http_endpoint())) == http_protobuf(),
{
    reveal_strlit("http://localhost:4317");
    reveal_strlit(":4317");
    assert(crate::text::occurs_at(default_grpc_endpoint(), grpc_port(), 16)) by {
        assert(default_grpc_endpoint().subrange(16, 21) =~= grpc_port());
    }
    lemma_default_http_endpoint_not_grpc();
}

/// A protocol that is given is kept, whatever the endpoint.
pub proof fn lemma_given_protocol_kept(p: Seq<char>, endpoint: Option<Seq<char>>)
    ensures
        inferred_protocol(Some(p), endpoint) == p,
{
}

/// An endpoint that is given is kept, whatever the protocol.
pub proof fn lemma_given_endpoint_kept(protocol: Seq<char>, e: Seq<char>)
    ensures
        inferred_endpoint(protocol, Some(e)) == e,
{
}

/// With no protocol given, the protocol is gRPC exactly when the endpoint
/// given mentions `:4317` anywhere, and HTTP otherwise (also when no endpoint
/// is given).
pub proof fn lemma_protocol_from_endpoint(endpoint: Option<Seq<char>>)
    ensures
        inferred_protocol(None, endpoint) == (if endpoint matches Some(e) && (exists|i: int, j: int|
            0 <= i && j == i + 5 && j <= e.len()
                && #[trigger] e.subrange(i, j) == ":4317"@) {
            "grpc"@
        } else {
            "http/protobuf"@
        }),
{
    if endpoint is Some {
        lemma_contains_port_exactly(endpoint.unwrap());
    }
}

/// With no endpoint given, the endpoint is the local HTTP collector for the
/// HTTP protocol and the local gRPC collector for any other protocol.
pub proof fn lemma_default_endpoint(protocol: Seq<char>)
    ensures
        inferred_endpoint(protocol, None) == (if protocol == "http/protobuf"@ {
            "http://localhost:4318"@
        } else {
            "http://localhost:4317"@
        }),
{
}

} // verus!
