use request_executor::{materialize, prepare, ApiRequest, ExecError, Method, TransportOutcome};

#[test]
fn supported_methods_accepted_any_case() {
    let cases = [
        ("GET", Method::Get),
        ("get", Method::Get),
        ("GeT", Method::Get),
        ("POST", Method::Post),
        ("post", Method::Post),
        ("pOsT", Method::Post),
        ("PUT", Method::Put),
        ("put", Method::Put),
        ("DELETE", Method::Delete),
        ("delete", Method::Delete),
        ("dElEtE", Method::Delete),
        ("PATCH", Method::Patch),
        ("patch", Method::Patch),
    ];
    for (spelled, expected) in cases {
        assert_eq!(Method::resolve(spelled), Some(expected));
    }
}

#[test]
fn accepted_methods_dispatch_as_canonical_uppercase() {
    assert_eq!(Method::resolve("get").unwrap().verb(), "GET");
    assert_eq!(Method::resolve("pOsT").unwrap().verb(), "POST");
    assert_eq!(Method::resolve("put").unwrap().verb(), "PUT");
    assert_eq!(Method::resolve("Delete").unwrap().verb(), "DELETE");
    assert_eq!(Method::resolve("patch").unwrap().verb(), "PATCH");
}

#[test]
fn unsupported_methods_rejected() {
    for spelled in ["HEAD", "", "get ", " get", "OPTIONS", "GETS", "G ET", "TRACE", "CONNECT"] {
        assert_eq!(Method::resolve(spelled), None);
    }
}

#[test]
fn prepare_rejects_unsupported_method_with_message() {
    let req = ApiRequest {
        method: String::from("HEAD"),
        url: String::from("http://example.com/"),
        headers: vec![],
        body: None,
    };
    match prepare(req) {
        Err(ExecError::Validation(msg)) => assert_eq!(msg, "Unsupported method: HEAD"),
        other => panic!("expected a validation failure, got {:?}", other),
    }
}

#[test]
fn prepare_passes_request_through_unchanged() {
    let req = ApiRequest {
        method: String::from("post"),
        url: String::from("https://example.com/items?q=1"),
        headers: vec![
            (String::from("Content-Type"), String::from("application/json")),
            (String::from("X-Trace"), String::from("abc")),
        ],
        body: Some(String::from("{\"k\":2}")),
    };
    let prepared = prepare(req).unwrap();
    assert_eq!(prepared.method, Method::Post);
    assert_eq!(prepared.url, "https://example.com/items?q=1");
    assert_eq!(
        prepared.headers,
        vec![
            (String::from("Content-Type"), String::from("application/json")),
            (String::from("X-Trace"), String::from("abc")),
        ]
    );
    assert_eq!(prepared.body, Some(String::from("{\"k\":2}")));
}

#[test]
fn round_trip_echoed_exchange() {
    let outcome = TransportOutcome::Success {
        status: 200,
        elapsed_ms: 12,
        headers: vec![(String::from("X-Test"), String::from("1"))],
        body: String::from("hello"),
    };
    let resp = materialize(outcome).unwrap();
    assert_eq!(resp.status, 200);
    assert_eq!(resp.time_ms, 12);
    assert_eq!(resp.headers, vec![(String::from("X-Test"), String::from("1"))]);
    assert_eq!(resp.body, "hello");
    assert_eq!(resp.size_bytes, 5);
}

#[test]
fn duplicate_response_headers_collapse_to_last_value() {
    let outcome = TransportOutcome::Success {
        status: 200,
        elapsed_ms: 0,
        headers: vec![
            (String::from("Set-Cookie"), String::from("a=1")),
            (String::from("X-Once"), String::from("v")),
            (String::from("Set-Cookie"), String::from("b=2")),
        ],
        body: String::from(""),
    };
    let resp = materialize(outcome).unwrap();
    assert_eq!(resp.headers.len(), 2);
    assert!(resp.headers.contains(&(String::from("Set-Cookie"), String::from("b=2"))));
    assert!(resp.headers.contains(&(String::from("X-Once"), String::from("v"))));
}

#[test]
fn size_bytes_is_byte_length_not_char_count() {
    let outcome = TransportOutcome::Success {
        status: 200,
        elapsed_ms: 0,
        headers: vec![],
        body: String::from("h\u{e9}llo"),
    };
    let resp = materialize(outcome).unwrap();
    assert_eq!(resp.body.chars().count(), 5);
    assert_eq!(resp.size_bytes, 6);
}

#[test]
fn size_bytes_of_empty_body_is_zero() {
    let outcome = TransportOutcome::Success {
        status: 204,
        elapsed_ms: 3,
        headers: vec![],
        body: String::new(),
    };
    let resp = materialize(outcome).unwrap();
    assert_eq!(resp.body, "");
    assert_eq!(resp.size_bytes, 0);
}

#[test]
fn time_ms_is_the_exchange_duration_as_reported() {
    let outcome = TransportOutcome::Success {
        status: 200,
        elapsed_ms: 37,
        headers: vec![],
        body: String::from("ok"),
    };
    let resp = materialize(outcome).unwrap();
    assert_eq!(resp.time_ms, 37);
}

#[test]
fn transport_failure_surfaces_underlying_message() {
    let outcome = TransportOutcome::Failure {
        message: String::from("error sending request: connection refused"),
    };
    let err = match materialize(outcome) {
        Err(e) => e,
        Ok(resp) => panic!("expected a transport failure, got {:?}", resp),
    };
    assert!(matches!(err, ExecError::Transport(_)));
    let msg = err.message();
    assert!(msg.contains("connection refused"));
    assert_eq!(msg, "error sending request: connection refused");
}

#[test]
fn concurrent_style_invocations_do_not_share_state() {
    let first = TransportOutcome::Success {
        status: 200,
        elapsed_ms: 1,
        headers: vec![(String::from("X-A"), String::from("one"))],
        body: String::from("first body"),
    };
    let second = TransportOutcome::Success {
        status: 404,
        elapsed_ms: 2,
        headers: vec![(String::from("X-B"), String::from("two"))],
        body: String::from("second body"),
    };
    let r1 = materialize(first).unwrap();
    let r2 = materialize(second).unwrap();
    assert_eq!(r1.headers, vec![(String::from("X-A"), String::from("one"))]);
    assert_eq!(r2.headers, vec![(String::from("X-B"), String::from("two"))]);
    assert_ne!(r1.headers, r2.headers);
    assert_eq!(r1.body, "first body");
    assert_eq!(r2.body, "second body");
    assert_eq!(r1.status, 200);
    assert_eq!(r2.status, 404);
}

#[test]
fn validation_message_projects_through_error() {
    let req = ApiRequest {
        method: String::from(""),
        url: String::from("http://example.com/"),
        headers: vec![],
        body: None,
    };
    let err = prepare(req).unwrap_err();
    assert_eq!(err.message(), "Unsupported method: ");
}
