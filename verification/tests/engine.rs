//! Scenario tests for the proxy-or-mock engine: each drives the engine with
//! a concrete request and event and checks the exact action that comes out.

use http_proxy_mock::headers::Headers;
use http_proxy_mock::json::Json;
use http_proxy_mock::service::{
    decode_mock, parse_body_to_json, plan_evaluation, plan_forward, translate_outcome, Action,
    EngineError, Envelope, Event, ForwardOutcome, ForwardRequest, Method, ProxyService, Request,
};

fn headers(entries: &[(&str, &str)]) -> Headers {
    Headers {
        entries: entries
            .iter()
            .map(|(k, v)| (String::from(*k), String::from(*v)))
            .collect(),
    }
}

fn get_request(entries: &[(&str, &str)]) -> Request {
    Request {
        method: Method::Get,
        path: String::from("some/path"),
        headers: headers(entries),
        body: None,
    }
}

fn ok_body() -> Json {
    Json::Obj(vec![(String::from("ok"), Json::Bool(true))])
}

#[test]
fn no_feature_header_goes_straight_to_forwarding() {
    let req = get_request(&[("X-MOCK-ORIGINAL-URL", "http://example.test")]);
    match ProxyService::proxy_or_mock(req, true, Event::Start) {
        Action::Forward(f) => {
            assert_eq!(f.origin_url, "http://example.test");
            assert_eq!(f.method, Method::Get);
        }
        _ => panic!("expected a forward, no evaluation"),
    }
}

#[test]
fn no_evaluation_service_goes_straight_to_forwarding() {
    let req = get_request(&[
        ("X-MOCK-ORIGINAL-URL", "http://example.test"),
        ("X-MOCK-FEATURE", "checkout-mock"),
    ]);
    match ProxyService::proxy_or_mock(req, false, Event::Start) {
        Action::Forward(_) => {}
        _ => panic!("expected a forward, no evaluation"),
    }
}

#[test]
fn feature_header_with_service_asks_for_evaluation() {
    let req = Request {
        method: Method::Post,
        path: String::from("orders"),
        headers: headers(&[("X-MOCK-FEATURE", "checkout-mock")]),
        body: Some(ok_body()),
    };
    match ProxyService::proxy_or_mock(req, true, Event::Start) {
        Action::Evaluate(q) => {
            assert_eq!(q.feature, "checkout-mock");
            assert_eq!(q.method_attr, "POST");
            assert_eq!(q.path_attr, "/orders");
            assert_eq!(q.body_attr, "{\"ok\":true}");
            assert_eq!(q.request_id.len(), 36);
        }
        _ => panic!("expected an evaluation"),
    }
}

#[test]
fn sentinel_evaluation_forwards_instead_of_mocking() {
    for value in ["None", ""] {
        let req = get_request(&[
            ("X-MOCK-ORIGINAL-URL", "http://example.test"),
            ("X-MOCK-FEATURE", "checkout-mock"),
        ]);
        match ProxyService::proxy_or_mock(req, true, Event::Evaluated(String::from(value))) {
            Action::Forward(f) => assert_eq!(f.origin_url, "http://example.test"),
            _ => panic!("expected a forward for sentinel {value:?}"),
        }
    }
}

#[test]
fn mock_evaluation_replies_without_forwarding() {
    let req = get_request(&[("X-MOCK-FEATURE", "checkout-mock")]);
    let value = String::from("{\"response_status_code\":201,\"body\":{\"ok\":true}}");
    match ProxyService::proxy_or_mock(req, true, Event::Evaluated(value)) {
        Action::Reply(env) => {
            assert_eq!(env.status, 201);
            assert_eq!(env.body, ok_body());
        }
        _ => panic!("expected a mock reply"),
    }
}

#[test]
fn out_of_range_mock_status_fails_with_500() {
    let value = String::from("{\"response_status_code\":9999,\"body\":{}}");
    match decode_mock(String::from("checkout-mock"), &value) {
        Err(e) => {
            assert_eq!(e, EngineError::MockStatus(String::from("checkout-mock"), 9999));
            assert_eq!(e.status_code(), 500);
        }
        Ok(_) => panic!("expected a status error"),
    }
}

#[test]
fn non_integer_mock_status_fails_with_500() {
    for value in [
        "{\"response_status_code\":\"created\",\"body\":{}}",
        "{\"response_status_code\":201.5,\"body\":{}}",
        "not json at all",
        "{\"response_status_code\":201}",
    ] {
        match decode_mock(String::from("checkout-mock"), value) {
            Err(e) => {
                assert_eq!(e, EngineError::MockDecode(String::from("checkout-mock")));
                assert_eq!(e.status_code(), 500);
            }
            Ok(_) => panic!("expected a decode error for {value:?}"),
        }
    }
}

#[test]
fn mock_with_null_body_replies_null() {
    let value = String::from("{\"response_status_code\":204,\"body\":null}");
    match decode_mock(String::from("f"), &value) {
        Ok(env) => {
            assert_eq!(env.status, 204);
            assert_eq!(env.body, Json::Null);
        }
        Err(e) => panic!("expected a mock reply, got {e:?}"),
    }
}

#[test]
fn low_mock_status_fails_with_500() {
    let value = String::from("{\"response_status_code\":99,\"body\":{}}");
    match decode_mock(String::from("f"), &value) {
        Err(EngineError::MockStatus(_, 99)) => {}
        other => panic!("expected a status error, got {other:?}"),
    }
}

#[test]
fn post_forwards_body_and_headers_minus_host() {
    let req = Request {
        method: Method::Post,
        path: String::from("orders/42"),
        headers: headers(&[
            ("Host", "caller.test"),
            ("X-Trace-Id", "abc123"),
            ("X-MOCK-ORIGINAL-URL", "http://example.test"),
            ("Accept", "application/json"),
        ]),
        body: Some(ok_body()),
    };
    match plan_forward(req) {
        Ok(f) => {
            assert_eq!(f.origin_url, "http://example.test");
            assert_eq!(f.method, Method::Post);
            assert_eq!(f.path, "/orders/42");
            assert_eq!(f.body, Some(ok_body()));
            assert_eq!(f.timeout_ms, 1000);
            assert_eq!(f.connect_timeout_ms, 1000);
            let keys: Vec<&str> = f.headers.entries.iter().map(|e| e.0.as_str()).collect();
            assert_eq!(
                keys,
                vec!["X-Trace-Id", "X-MOCK-ORIGINAL-URL", "Accept"]
            );
        }
        Err(e) => panic!("expected a forward plan, got {e:?}"),
    }
}

#[test]
fn bodiless_write_forwards_null_body() {
    let req = Request {
        method: Method::Put,
        path: String::new(),
        headers: headers(&[("x-mock-original-url", "http://example.test")]),
        body: None,
    };
    let f = plan_forward(req).expect("a forward plan");
    assert_eq!(f.body, Some(Json::Null));
    assert_eq!(f.path, "/");
}

#[test]
fn get_forwards_without_body() {
    let req = get_request(&[("X-MOCK-ORIGINAL-URL", "http://example.test")]);
    let f = plan_forward(req).expect("a forward plan");
    assert_eq!(f.body, None);
}

#[test]
fn missing_origin_url_is_a_400_before_any_network_activity() {
    let req = get_request(&[("Accept", "application/json")]);
    match ProxyService::proxy_or_mock(req, true, Event::Start) {
        Action::Fail(e) => {
            assert_eq!(e, EngineError::MissingOriginUrl);
            assert_eq!(e.status_code(), 400);
            assert_eq!(e.message(), "X-MOCK-ORIGINAL-URL header is missing");
        }
        _ => panic!("expected a request error"),
    }
}

#[test]
fn unsupported_method_is_a_501() {
    let req = Request {
        method: Method::Other(String::from("TRACE")),
        path: String::new(),
        headers: headers(&[("X-MOCK-ORIGINAL-URL", "http://example.test")]),
        body: None,
    };
    match plan_forward(req) {
        Err(e) => {
            assert_eq!(e, EngineError::UnsupportedMethod(String::from("TRACE")));
            assert_eq!(e.status_code(), 501);
            assert_eq!(e.message(), "Unsupported method: TRACE");
        }
        Ok(_) => panic!("expected a refusal"),
    }
}

#[test]
fn timeout_directive_is_read_and_falls_back_to_1000() {
    let cases = [
        (Some("250"), 250),
        (Some("not a number"), 1000),
        (Some("+42"), 42),
        (Some("99999999999999999999999"), 1000),
        (Some("-5"), 1000),
        (None, 1000),
    ];
    for (value, expected) in cases {
        let mut entries = vec![("X-MOCK-ORIGINAL-URL", "http://example.test")];
        if let Some(v) = value {
            entries.push(("X-MOCK-TIMEOUT", v));
        }
        let f = plan_forward(get_request(&entries)).expect("a forward plan");
        assert_eq!(f.timeout_ms, expected, "for {value:?}");
    }
}

#[test]
fn header_lookup_ignores_ascii_case() {
    let req = get_request(&[("x-mock-original-url", "http://lower.test")]);
    let f = plan_forward(req).expect("a forward plan");
    assert_eq!(f.origin_url, "http://lower.test");

    let h = headers(&[("HOST", "caller.test"), ("Via", "proxy")]);
    let kept = h.without_host();
    assert_eq!(kept.entries, vec![(String::from("Via"), String::from("proxy"))]);
}

#[test]
fn forwarder_failure_becomes_a_response() {
    let outcome = ForwardOutcome::Failure {
        status: 502,
        json_body: None,
        text_body: Some(String::from("connection refused")),
    };
    match ProxyService::proxy_or_mock(get_request(&[]), false, Event::Forwarded(outcome)) {
        Action::Reply(env) => {
            assert_eq!(env.status, 502);
            assert_eq!(env.body, Json::Str(String::from("connection refused")));
        }
        _ => panic!("expected a reply"),
    }
}

#[test]
fn forwarder_failure_body_priority() {
    let with_json = ForwardOutcome::Failure {
        status: 503,
        json_body: Some(ok_body()),
        text_body: Some(String::from("ignored")),
    };
    assert_eq!(
        translate_outcome(with_json),
        Envelope { status: 503, body: ok_body() }
    );
    let bare = ForwardOutcome::Failure { status: 500, json_body: None, text_body: None };
    assert_eq!(translate_outcome(bare), Envelope { status: 500, body: Json::Null });
}

#[test]
fn forwarder_success_relays_status_and_body() {
    let outcome = ForwardOutcome::Success { status: 204, body: None };
    assert_eq!(translate_outcome(outcome), Envelope { status: 204, body: Json::Null });
    let outcome = ForwardOutcome::Success { status: 200, body: Some(ok_body()) };
    assert_eq!(translate_outcome(outcome), Envelope { status: 200, body: ok_body() });
}

#[test]
fn identical_requests_plan_identical_forwards() {
    let entries = [
        ("Host", "caller.test"),
        ("X-MOCK-ORIGINAL-URL", "http://example.test"),
        ("X-MOCK-TIMEOUT", "250"),
        ("Accept", "application/json"),
    ];
    let shape = |f: ForwardRequest| {
        (
            f.origin_url,
            f.timeout_ms,
            f.connect_timeout_ms,
            f.method,
            f.path,
            f.body,
            f.headers.entries,
        )
    };
    let first = shape(plan_forward(get_request(&entries)).expect("a forward plan"));
    let second = shape(plan_forward(get_request(&entries)).expect("a forward plan"));
    assert_eq!(first, second);
}

#[test]
fn inbound_body_parsing() {
    assert_eq!(parse_body_to_json(""), Ok(None));
    assert_eq!(
        parse_body_to_json("{\"a\":1}"),
        Ok(Some(Json::Obj(vec![(String::from("a"), Json::Num(String::from("1")))])))
    );
    match parse_body_to_json("{oops") {
        Err(e) => {
            assert_eq!(e, EngineError::InvalidJsonBody);
            assert_eq!(e.status_code(), 400);
            assert_eq!(e.message(), "Invalid JSON");
        }
        Ok(_) => panic!("expected a rejection"),
    }
}

#[test]
fn evaluation_query_shape_without_body() {
    let req = get_request(&[("X-MOCK-FEATURE", "f")]);
    let q = plan_evaluation(String::from("f"), req);
    assert_eq!(q.feature, "f");
    assert_eq!(q.method_attr, "GET");
    assert_eq!(q.path_attr, "/some/path");
    assert_eq!(q.body_attr, "");
    assert_eq!(q.request_id.len(), 36);
}

#[test]
fn mock_decode_error_names_the_feature() {
    let e = EngineError::MockDecode(String::from("checkout-mock"));
    assert_eq!(e.message(), "Failed to deserialize feature checkout-mock with mock");
    let e = EngineError::MockStatus(String::from("checkout-mock"), 9999);
    assert_eq!(
        e.message(),
        "Invalid mock response status code for feature checkout-mock"
    );
}
