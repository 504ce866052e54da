use reqtrace::correlation::{get_request_id, request_id_to_string, provide_correlation_id};
use reqtrace::events::{build_request_event, build_response_event, header_summary};
use reqtrace::headers::HeaderEntry;
use reqtrace::sensitive::SensitiveNameSet;
use reqtrace::text::{eq_ignore_case, text_safe};

fn entry(name: &str, value: &[u8]) -> HeaderEntry {
    HeaderEntry { name: name.to_string(), value: value.to_vec() }
}

#[test]
fn text_safety_of_bytes() {
    assert!(text_safe(&b"plain text, tab\tand ~tilde".to_vec()));
    assert!(text_safe(&Vec::new()));
    assert!(!text_safe(&vec![0x7f]));
    assert!(!text_safe(&vec![b'a', 0x00, b'b']));
    assert!(!text_safe(&vec![0xc3, 0xa9])); // valid UTF-8, but not visible ASCII
}

#[test]
fn case_insensitive_comparison() {
    assert!(eq_ignore_case("Access-Token", "access-token"));
    assert!(eq_ignore_case("", ""));
    assert!(!eq_ignore_case("access-token", "access-tokens"));
    assert!(!eq_ignore_case("a_b", "a-b"));
}

#[test]
fn sensitive_membership() {
    let set = SensitiveNameSet::with_default_names();
    assert!(set.is_sensitive("access-token"));
    assert!(set.is_sensitive("Access-Token"));
    assert!(!set.is_sensitive("accept"));
    let empty = SensitiveNameSet::new(Vec::new());
    assert!(!empty.is_sensitive("access-token"));
}

#[test]
fn summary_joins_lines_in_received_order() {
    let set = SensitiveNameSet::with_default_names();
    let headers = vec![entry("b", b"2"), entry("a", b"1"), entry("b", b"3")];
    assert_eq!(header_summary(&headers, &set), "b: 2; a: 1; b: 3");
    assert_eq!(header_summary(&Vec::new(), &set), "");
}

#[test]
fn summary_masks_only_sensitive_values() {
    let set = SensitiveNameSet::with_default_names();
    let headers = vec![entry("access-token", b"secret123"), entry("accept", b"*/*")];
    assert_eq!(header_summary(&headers, &set), "access-token: ******; accept: */*");
}

#[test]
fn request_id_rendering() {
    assert_eq!(request_id_to_string(&b"abc-123".to_vec()), "abc-123");
    assert_eq!(request_id_to_string(&vec![0xff]), "");
    assert_eq!(get_request_id(&Some(b"abc".to_vec())), "abc");
    assert_eq!(get_request_id(&Some(vec![0x01])), "");
    assert_eq!(get_request_id(&None), "");
}

#[test]
fn event_builders_fill_every_field() {
    let set = SensitiveNameSet::with_default_names();
    let id = provide_correlation_id(Some(&b"id-1".to_vec()));
    assert_eq!(id.text, "id-1");
    let headers = vec![entry("accept", b"*/*")];
    let request_event = build_request_event("POST", "/things?x=1", &headers, &set, &id);
    assert_eq!(request_event.message, "Request initiated");
    assert_eq!(request_event.correlation_id, "id-1");
    assert_eq!(request_event.method, "POST");
    assert_eq!(request_event.uri, "/things?x=1");
    assert_eq!(request_event.header_summary, "accept: */*");

    let response_event = build_response_event(&id, 404, 99);
    assert_eq!(response_event.message, "Request processed");
    assert_eq!(response_event.correlation_id, "id-1");
    assert_eq!(response_event.status, 404);
    assert_eq!(response_event.latency_micros, 99);
}

#[test]
fn empty_inbound_value_is_reused() {
    // an empty but well-formed inbound value is a present header, reused as is
    let id = provide_correlation_id(Some(&Vec::new()));
    assert_eq!(id.text, "");
}
