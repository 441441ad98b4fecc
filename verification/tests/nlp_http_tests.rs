use backend_dispatch::http_client::decimal_text;
use backend_dispatch::nlp_http::{
    model_id_header_name, transport_error, DEFAULT_PORT, STATUS_OK,
};
use backend_dispatch::{
    create_http_client, interpret_reply, interpret_response, interpret_stream,
    interpret_stream_reply, Endpoint, Error, Header, Headers, HttpClient, NlpClientHttp, Operation,
    ServiceConfig,
};

fn endpoint(hostname: &str, port: Option<u16>, tls: bool) -> Endpoint {
    Endpoint { hostname: hostname.to_string(), port, tls }
}

fn config(service: Endpoint, health_service: Option<Endpoint>) -> ServiceConfig {
    ServiceConfig { service, health_service, request_timeout: Some(30) }
}

#[test]
fn constants_have_their_values() {
    assert_eq!(DEFAULT_PORT, 8085);
    assert_eq!(STATUS_OK, 200);
    assert_eq!(model_id_header_name(), "mm-model-id");
    assert_eq!(backend_dispatch::error::TIMEOUT_STATUS, 408);
}

#[test]
fn decimal_text_of_numbers() {
    assert_eq!(decimal_text(0), "0");
    assert_eq!(decimal_text(9), "9");
    assert_eq!(decimal_text(10), "10");
    assert_eq!(decimal_text(8085), "8085");
    assert_eq!(decimal_text(1234), "1234");
    assert_eq!(decimal_text(65535), "65535");
}

#[test]
fn connection_uses_default_port_where_none_is_named() {
    let client = create_http_client(8085, &endpoint("nlp.local", None, false), None);
    assert_eq!(
        client,
        HttpClient { hostname: "nlp.local".to_string(), port: 8085, tls: false, request_timeout: None }
    );
    assert_eq!(client.base_url(), "http://nlp.local:8085");
}

#[test]
fn connection_uses_named_port_and_tls() {
    let client = create_http_client(8085, &endpoint("nlp.local", Some(443), true), Some(5));
    assert_eq!(client.port, 443);
    assert_eq!(client.request_timeout, Some(5));
    assert_eq!(client.base_url(), "https://nlp.local:443");
    assert_eq!(client.join("/health"), "https://nlp.local:443/health");
}

#[test]
fn operation_paths_are_fixed() {
    assert_eq!(Operation::Tokenization.path(), "/api/v1/task/tokenization");
    assert_eq!(Operation::TokenClassification.path(), "/api/v1/task/token-classification");
    assert_eq!(Operation::TextGeneration.path(), "/api/v1/task/text-generation");
    assert_eq!(Operation::StreamingTextGeneration.path(), "/api/v1/task/streaming-text-generation");
}

#[test]
fn only_streaming_text_generation_streams() {
    assert!(!Operation::Tokenization.is_streaming());
    assert!(!Operation::TokenClassification.is_streaming());
    assert!(!Operation::TextGeneration.is_streaming());
    assert!(Operation::StreamingTextGeneration.is_streaming());
}

#[test]
fn client_without_health_config_probes_primary() {
    let client = NlpClientHttp::new(&config(endpoint("nlp.local", None, false), None));
    assert_eq!(client.name(), "nlp_http");
    assert_eq!(client.client().port, 8085);
    assert_eq!(client.health_client(), None);
    assert!(std::ptr::eq(client.health_connection(), client.client()));
    assert_eq!(client.health_connection().base_url(), "http://nlp.local:8085");
}

#[test]
fn client_with_health_config_probes_health_connection() {
    let client = NlpClientHttp::new(&config(
        endpoint("nlp.local", Some(9000), true),
        Some(endpoint("health.local", None, false)),
    ));
    assert_eq!(client.client().base_url(), "https://nlp.local:9000");
    let health = client.health_client().unwrap();
    assert_eq!(health.base_url(), "http://health.local:8085");
    assert_eq!(health.request_timeout, Some(30));
    assert!(std::ptr::eq(client.health_connection(), health));
    assert!(!std::ptr::eq(client.health_connection(), client.client()));
}

#[test]
fn prepare_joins_url_and_sets_trace_header() {
    let client = NlpClientHttp::new(&config(endpoint("nlp.local", None, false), None));
    let mut headers = Headers::new();
    headers.append("traceparent".to_string(), "forged".to_string());
    headers.append("mm-model-id".to_string(), "m".to_string());
    let request = client.prepare(Operation::Tokenization, &headers, &"trace-7".to_string());
    assert_eq!(request.url, "http://nlp.local:8085/api/v1/task/tokenization");
    assert!(!request.streaming);
    assert_eq!(
        request.headers.entries,
        vec![
            Header { name: "mm-model-id".to_string(), value: "m".to_string() },
            Header { name: "traceparent".to_string(), value: "trace-7".to_string() },
        ]
    );
}

#[test]
fn prepare_for_each_operation() {
    let client = NlpClientHttp::new(&config(endpoint("h", Some(1), false), None));
    let headers = Headers::new();
    let trace = "t".to_string();
    assert_eq!(
        client.prepare(Operation::TokenClassification, &headers, &trace).url,
        "http://h:1/api/v1/task/token-classification"
    );
    assert_eq!(
        client.prepare(Operation::TextGeneration, &headers, &trace).url,
        "http://h:1/api/v1/task/text-generation"
    );
    let streaming = client.prepare(Operation::StreamingTextGeneration, &headers, &trace);
    assert_eq!(streaming.url, "http://h:1/api/v1/task/streaming-text-generation");
    assert!(streaming.streaming);
}

#[test]
fn ok_status_with_decoded_payload_is_the_payload() {
    let outcome = interpret_response(200, Ok(vec!["a".to_string(), "b".to_string()]), None);
    assert_eq!(outcome, Ok(vec!["a".to_string(), "b".to_string()]));
    let ignored_envelope = interpret_response(200, Ok(7u32), Some("ignored".to_string()));
    assert_eq!(ignored_envelope, Ok(7));
}

#[test]
fn ok_status_with_undecodable_payload_is_decode_error() {
    let outcome: Result<u32, Error> = interpret_response(200, Err("expected value".to_string()), None);
    assert_eq!(outcome, Err(Error::Decode { message: "expected value".to_string() }));
}

#[test]
fn other_status_with_envelope_carries_its_message() {
    let outcome: Result<u32, Error> =
        interpret_response(404, Err(String::new()), Some("model not found".to_string()));
    assert_eq!(
        outcome,
        Err(Error::Transport { status: 404, message: "model not found".to_string() })
    );
    let decoded_payload_is_not_read: Result<u32, Error> =
        interpret_response(201, Ok(1), Some("created".to_string()));
    assert_eq!(
        decoded_payload_is_not_read,
        Err(Error::Transport { status: 201, message: "created".to_string() })
    );
}

#[test]
fn other_status_without_envelope_carries_fallback_message() {
    let outcome: Result<u32, Error> = interpret_response(500, Err(String::new()), None);
    assert_eq!(
        outcome,
        Err(Error::Transport { status: 500, message: "unknown error occurred".to_string() })
    );
    assert_eq!(
        transport_error(503, None),
        Error::Transport { status: 503, message: "unknown error occurred".to_string() }
    );
}

#[test]
fn reply_with_transport_status_code() {
    let ok = interpret_reply(&hyper::StatusCode::OK, Ok(5u32), None);
    assert_eq!(ok, Ok(5));
    let missing: Result<u32, Error> =
        interpret_reply(&hyper::StatusCode::NOT_FOUND, Ok(5), Some("gone".to_string()));
    assert_eq!(missing, Err(Error::Transport { status: 404, message: "gone".to_string() }));
    let unavailable: Result<u32, Error> =
        interpret_reply(&hyper::StatusCode::SERVICE_UNAVAILABLE, Err(String::new()), None);
    assert_eq!(
        unavailable,
        Err(Error::Transport { status: 503, message: "unknown error occurred".to_string() })
    );
}

#[test]
fn error_status_and_timeout() {
    assert_eq!(Error::Transport { status: 502, message: String::new() }.status(), Some(502));
    assert_eq!(Error::Decode { message: String::new() }.status(), None);
    assert_eq!(Error::Upstream { message: "x".to_string() }.status(), None);
    assert_eq!(
        Error::NotFound { kind: "nlp".to_string(), name: "x".to_string() }.status(),
        None
    );
    assert_eq!(
        Error::timeout("timed out".to_string()),
        Error::Transport { status: 408, message: "timed out".to_string() }
    );
}

fn header_map(lines: &[(&str, &str)]) -> hyper::HeaderMap {
    let mut map = hyper::HeaderMap::new();
    for (name, value) in lines {
        map.append(
            hyper::header::HeaderName::from_bytes(name.as_bytes()).unwrap(),
            hyper::header::HeaderValue::from_str(value).unwrap(),
        );
    }
    map
}

#[test]
fn header_map_is_read_and_given_the_trace_header() {
    let map = header_map(&[("mm-model-id", "m"), ("Traceparent", "forged")]);
    let sent = Headers::from_map_with_trace_header(&map, &"trace-9".to_string()).unwrap();
    assert_eq!(
        sent.entries,
        vec![
            Header { name: "mm-model-id".to_string(), value: "m".to_string() },
            Header { name: "traceparent".to_string(), value: "trace-9".to_string() },
        ]
    );
}

#[test]
fn empty_header_map_gives_only_the_trace_header() {
    let sent = Headers::from_map_with_trace_header(&hyper::HeaderMap::new(), &"t".to_string());
    assert_eq!(
        sent.unwrap().entries,
        vec![Header { name: "traceparent".to_string(), value: "t".to_string() }]
    );
}

#[test]
fn header_map_with_repeated_name_keeps_each_value() {
    let map = header_map(&[("accept", "a"), ("accept", "b")]);
    let sent = Headers::from_map_with_trace_header(&map, &"t".to_string()).unwrap();
    assert_eq!(
        sent.entries,
        vec![
            Header { name: "accept".to_string(), value: "a".to_string() },
            Header { name: "accept".to_string(), value: "b".to_string() },
            Header { name: "traceparent".to_string(), value: "t".to_string() },
        ]
    );
}

#[test]
fn header_map_with_value_that_is_not_text_is_refused() {
    let mut map = hyper::HeaderMap::new();
    map.insert(
        hyper::header::HeaderName::from_static("x-raw"),
        hyper::header::HeaderValue::from_bytes(&[0xff, 0xfe]).unwrap(),
    );
    assert_eq!(Headers::from_map_with_trace_header(&map, &"t".to_string()), None);
    let client = NlpClientHttp::new(&config(endpoint("h", None, false), None));
    assert_eq!(client.prepare_for_map(Operation::Tokenization, &map, &"t".to_string()), None);
}

#[test]
fn prepare_for_header_map() {
    let client = NlpClientHttp::new(&config(endpoint("nlp.local", None, true), None));
    let map = header_map(&[("traceparent", "forged"), ("mm-model-id", "m")]);
    let request = client
        .prepare_for_map(Operation::TextGeneration, &map, &"trace-5".to_string())
        .unwrap();
    assert_eq!(request.url, "https://nlp.local:8085/api/v1/task/text-generation");
    assert!(!request.streaming);
    assert_eq!(
        request.headers.entries,
        vec![
            Header { name: "mm-model-id".to_string(), value: "m".to_string() },
            Header { name: "traceparent".to_string(), value: "trace-5".to_string() },
        ]
    );
}

#[test]
fn stream_with_ok_status_gives_its_frames() {
    let elements = interpret_stream(200, vec![Ok(1u32), Ok(2), Err("bad".to_string()), Ok(4)], None);
    assert_eq!(elements, vec![Ok(1), Ok(2), Err(Error::Decode { message: "bad".to_string() })]);
    let none: Vec<Result<u32, Error>> = interpret_stream(200, Vec::new(), Some("x".to_string()));
    assert!(none.is_empty());
}

#[test]
fn stream_with_other_status_gives_one_transport_error() {
    let elements = interpret_stream(429, vec![Ok(1u32), Ok(2)], Some("slow down".to_string()));
    assert_eq!(
        elements,
        vec![Err(Error::Transport { status: 429, message: "slow down".to_string() })]
    );
    let fallback: Vec<Result<u32, Error>> = interpret_stream(500, Vec::new(), None);
    assert_eq!(
        fallback,
        vec![Err(Error::Transport { status: 500, message: "unknown error occurred".to_string() })]
    );
}

#[test]
fn stream_reply_with_transport_status_code() {
    let ok = interpret_stream_reply(&hyper::StatusCode::OK, vec![Ok(1u32)], None);
    assert_eq!(ok, vec![Ok(1)]);
    let failed = interpret_stream_reply(&hyper::StatusCode::BAD_GATEWAY, vec![Ok(1u32)], None);
    assert_eq!(
        failed,
        vec![Err(Error::Transport { status: 502, message: "unknown error occurred".to_string() })]
    );
}
