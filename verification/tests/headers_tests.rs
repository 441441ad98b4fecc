use backend_dispatch::headers::{is_same_name, trace_header_name, Header, Headers};

fn line(name: &str, value: &str) -> Header {
    Header { name: name.to_string(), value: value.to_string() }
}

fn headers_of(lines: &[(&str, &str)]) -> Headers {
    let mut headers = Headers::new();
    for (name, value) in lines {
        headers.append(name.to_string(), value.to_string());
    }
    headers
}

#[test]
fn new_headers_are_empty() {
    let headers = Headers::new();
    assert_eq!(headers.len(), 0);
    assert!(headers.entries.is_empty());
}

#[test]
fn append_keeps_order_and_repeated_names() {
    let headers = headers_of(&[("accept", "a"), ("x-id", "1"), ("accept", "b")]);
    assert_eq!(headers.len(), 3);
    assert_eq!(headers.entries, vec![line("accept", "a"), line("x-id", "1"), line("accept", "b")]);
}

#[test]
fn get_gives_first_value() {
    let headers = headers_of(&[("accept", "a"), ("x-id", "1"), ("accept", "b")]);
    assert_eq!(headers.get(&"accept".to_string()), Some(&"a".to_string()));
    assert_eq!(headers.get(&"x-id".to_string()), Some(&"1".to_string()));
    assert_eq!(headers.get(&"missing".to_string()), None);
}

#[test]
fn trace_header_name_is_traceparent() {
    assert_eq!(trace_header_name(), "traceparent");
}

#[test]
fn trace_header_is_added_to_empty_headers() {
    let sent = Headers::new().with_trace_header(&"trace-1".to_string());
    assert_eq!(sent.entries, vec![line("traceparent", "trace-1")]);
}

#[test]
fn trace_header_replaces_conflicting_caller_header() {
    let caller = headers_of(&[("mm-model-id", "m1"), ("traceparent", "forged"), ("accept", "json")]);
    let sent = caller.with_trace_header(&"trace-2".to_string());
    assert_eq!(
        sent.entries,
        vec![line("mm-model-id", "m1"), line("accept", "json"), line("traceparent", "trace-2")]
    );
}

#[test]
fn trace_header_replaces_every_conflicting_line() {
    let caller = headers_of(&[("traceparent", "a"), ("x", "1"), ("traceparent", "b"), ("x", "2")]);
    let sent = caller.with_trace_header(&"t".to_string());
    assert_eq!(sent.entries, vec![line("x", "1"), line("x", "2"), line("traceparent", "t")]);
    let count = sent.entries.iter().filter(|h| h.name == "traceparent").count();
    assert_eq!(count, 1);
}

#[test]
fn caller_headers_are_left_as_they_were() {
    let caller = headers_of(&[("traceparent", "a"), ("x", "1")]);
    let _sent = caller.with_trace_header(&"t".to_string());
    assert_eq!(caller.entries, vec![line("traceparent", "a"), line("x", "1")]);
}

#[test]
fn model_id_header_passes_through() {
    let caller = headers_of(&[("mm-model-id", "granite")]);
    let sent = caller.with_trace_header(&"t".to_string());
    assert_eq!(sent.get(&"mm-model-id".to_string()), Some(&"granite".to_string()));
    assert_eq!(sent.get(&"traceparent".to_string()), Some(&"t".to_string()));
}

#[test]
fn names_are_the_same_whatever_the_case_of_letters() {
    assert!(is_same_name("traceparent", "traceparent"));
    assert!(is_same_name("TraceParent", "traceparent"));
    assert!(is_same_name("MM-MODEL-ID", "mm-model-id"));
    assert!(is_same_name("", ""));
    assert!(!is_same_name("traceparent", "tracestate"));
    assert!(!is_same_name("traceparent", "traceparen"));
    assert!(!is_same_name("trace_parent", "trace-parent"));
    assert!(!is_same_name("a@", "a`"));
    assert!(!is_same_name("a[", "a{"));
    assert!(!is_same_name("a0", "aP"));
}

#[test]
fn trace_header_replaces_conflicting_header_in_another_case() {
    let caller = headers_of(&[("TraceParent", "forged"), ("Accept", "json"), ("TRACEPARENT", "x")]);
    let sent = caller.with_trace_header(&"trace-3".to_string());
    assert_eq!(sent.entries, vec![line("Accept", "json"), line("traceparent", "trace-3")]);
}

#[test]
fn get_ignores_the_case_of_letters() {
    let headers = headers_of(&[("Accept", "a"), ("accept", "b")]);
    assert_eq!(headers.get("ACCEPT"), Some(&"a".to_string()));
    assert_eq!(headers.get("accept"), Some(&"a".to_string()));
    assert_eq!(headers.get("accep"), None);
}
