use reqtrace::headers::HeaderEntry;
use reqtrace::pipeline::{InboundRequest, ObservabilityPipeline};
use reqtrace::sensitive::SensitiveNameSet;

fn entry(name: &str, value: &[u8]) -> HeaderEntry {
    HeaderEntry { name: name.to_string(), value: value.to_vec() }
}

fn request(headers: Vec<HeaderEntry>) -> InboundRequest {
    InboundRequest { method: "GET".to_string(), uri: "/".to_string(), headers }
}

#[test]
fn scenario_access_token_masked_and_fresh_id() {
    let pipeline = ObservabilityPipeline::with_default_redaction();
    let mut req = request(vec![entry("access-token", b"secret123")]);
    let (event, ctx) = pipeline.on_request(&mut req);

    assert_eq!(event.message, "Request initiated");
    assert_eq!(event.method, "GET");
    assert_eq!(event.uri, "/");
    assert!(event.header_summary.contains("access-token: ******"));
    assert!(!event.header_summary.contains("secret123"));
    assert!(!ctx.correlation_id.text.is_empty());
    assert_eq!(ctx.correlation_id.text.len(), 36);
    assert_eq!(event.correlation_id, ctx.correlation_id.text);

    let mut response_headers: Vec<HeaderEntry> = Vec::new();
    let ev = pipeline.on_response(&ctx, 200, 1250, &mut response_headers);
    assert_eq!(ev.message, "Request processed");
    assert_eq!(ev.status, 200);
    assert_eq!(ev.latency_micros, 1250);
    assert_eq!(ev.correlation_id, ctx.correlation_id.text);

    let id_header = response_headers
        .iter()
        .find(|h| h.name == "x-request-id")
        .expect("response must carry the correlation header");
    assert!(!id_header.value.is_empty());
    assert_eq!(id_header.value, ctx.correlation_id.text.as_bytes().to_vec());
}

#[test]
fn scenario_inbound_id_reused_exactly() {
    let pipeline = ObservabilityPipeline::with_default_redaction();
    let mut req = request(vec![entry("x-request-id", b"abc-123")]);
    let (event, ctx) = pipeline.on_request(&mut req);

    assert_eq!(ctx.correlation_id.text, "abc-123");
    assert_eq!(event.correlation_id, "abc-123");

    let mut response_headers: Vec<HeaderEntry> = Vec::new();
    pipeline.on_response(&ctx, 200, 1, &mut response_headers);
    let id_header = response_headers
        .iter()
        .find(|h| h.name == "x-request-id")
        .expect("response must carry the correlation header");
    assert_eq!(id_header.value, b"abc-123".to_vec());
}

#[test]
fn scenario_invalid_encoding_rendered_as_placeholder() {
    let pipeline = ObservabilityPipeline::with_default_redaction();
    let mut req = request(vec![entry("weird", &[0xff, 0xfe, 0x01])]);
    let (event, ctx) = pipeline.on_request(&mut req);
    assert!(event.header_summary.contains("weird: <non-utf8>"));

    let mut response_headers: Vec<HeaderEntry> = Vec::new();
    let ev = pipeline.on_response(&ctx, 200, 7, &mut response_headers);
    assert_eq!(ev.status, 200);
}

#[test]
fn fresh_id_when_header_absent() {
    let pipeline = ObservabilityPipeline::with_default_redaction();
    let mut req = request(vec![entry("accept", b"text/plain")]);
    let (_, ctx) = pipeline.on_request(&mut req);
    assert_eq!(ctx.correlation_id.text.len(), 36);
    for c in ctx.correlation_id.text.chars() {
        assert!(c == '-' || c.is_ascii_digit() || ('a' <= c && c <= 'f'));
    }
}

#[test]
fn malformed_inbound_id_replaced_by_fresh_one() {
    let pipeline = ObservabilityPipeline::with_default_redaction();
    let mut req = request(vec![entry("x-request-id", &[0xff, 0x00])]);
    let (event, ctx) = pipeline.on_request(&mut req);
    assert_eq!(ctx.correlation_id.text.len(), 36);
    assert_eq!(event.correlation_id, ctx.correlation_id.text);
    // a present header, even a malformed one, is left on the request
    assert_eq!(req.headers.len(), 1);
    assert_eq!(req.headers[0].value, vec![0xff, 0x00]);
}

#[test]
fn request_gains_correlation_header_when_absent() {
    let pipeline = ObservabilityPipeline::with_default_redaction();
    let mut req = request(vec![entry("accept", b"*/*")]);
    let (_, ctx) = pipeline.on_request(&mut req);
    assert_eq!(req.headers.len(), 2);
    assert_eq!(req.headers[1].name, "x-request-id");
    assert_eq!(req.headers[1].value, ctx.correlation_id.text.as_bytes().to_vec());
}

#[test]
fn correlation_header_excluded_from_summary() {
    let pipeline = ObservabilityPipeline::with_default_redaction();
    let mut with_id = request(vec![entry("a", b"1"), entry("x-request-id", b"abc"), entry("b", b"2")]);
    let mut without_id = request(vec![entry("a", b"1"), entry("b", b"2")]);
    let (ev1, _) = pipeline.on_request(&mut with_id);
    let (ev2, _) = pipeline.on_request(&mut without_id);
    assert!(!ev1.header_summary.contains("x-request-id"));
    assert!(!ev1.header_summary.contains("abc"));
    assert_eq!(ev1.header_summary, ev2.header_summary);
    assert_eq!(ev1.header_summary, "a: 1; b: 2");
}

#[test]
fn exactly_one_event_pair_with_shared_id() {
    let pipeline = ObservabilityPipeline::with_default_redaction();
    let mut req = request(vec![]);
    let (request_event, ctx) = pipeline.on_request(&mut req);
    let mut response_headers: Vec<HeaderEntry> = Vec::new();
    let response_event = pipeline.on_response(&ctx, 500, 42, &mut response_headers);
    assert_eq!(request_event.correlation_id, response_event.correlation_id);
    assert_eq!(response_event.status, 500);
}

#[test]
fn generated_ids_are_distinct() {
    let mut seen = std::collections::HashSet::new();
    for _ in 0..10_000 {
        let id = reqtrace::correlation::provide_correlation_id(None);
        assert_eq!(id.text.len(), 36);
        assert!(seen.insert(id.text), "correlation id collided");
    }
}

#[test]
fn propagation_overwrites_handler_header() {
    let pipeline = ObservabilityPipeline::with_default_redaction();
    let mut req = request(vec![entry("x-request-id", b"the-real-id")]);
    let (_, ctx) = pipeline.on_request(&mut req);
    let mut response_headers = vec![
        entry("content-type", b"text/plain"),
        entry("x-request-id", b"handler-set-this"),
        entry("server", b"demo"),
    ];
    pipeline.on_response(&ctx, 200, 3, &mut response_headers);
    assert_eq!(response_headers.len(), 3);
    assert_eq!(response_headers[0].name, "content-type");
    assert_eq!(response_headers[1].name, "server");
    assert_eq!(response_headers[2].name, "x-request-id");
    assert_eq!(response_headers[2].value, b"the-real-id".to_vec());
}

#[test]
fn custom_sensitive_set_is_case_insensitive() {
    let set = SensitiveNameSet::new(vec!["Authorization".to_string()]);
    let pipeline = ObservabilityPipeline::new(set);
    let mut req = request(vec![entry("AUTHORIZATION", b"Bearer token123")]);
    let (event, _) = pipeline.on_request(&mut req);
    assert!(event.header_summary.contains("AUTHORIZATION: ******"));
    assert!(!event.header_summary.contains("token123"));
}
