use socktrace::framer::{parse_request, HeaderField};
use socktrace::propagate::{build_carrier, inject_context, Carrier};
use socktrace::span::{client_span, response_span};

fn field(name: &str, value: &[u8]) -> HeaderField {
    HeaderField { name: name.to_string(), value: value.to_vec() }
}

#[test]
fn context_line_is_appended_after_the_header_lines() {
    let payload = b"GET /index HTTP/1.1\r\nHost: example.com\r\n\r\n";
    let block = inject_context(payload, payload.len(), b"abc:1:0:1");
    assert_eq!(
        block,
        b"GET /index HTTP/1.1\r\nHost: example.com\r\nuber-trace-id: abc:1:0:1\r\n\r\n".to_vec()
    );
}

#[test]
fn body_is_left_out_of_the_header_block() {
    let payload = b"POST /p HTTP/1.1\r\nContent-Length: 4\r\n\r\nbody";
    let body_start = payload.len() - 4;
    let block = inject_context(payload, body_start, b"7:8:0:1");
    assert_eq!(
        block,
        b"POST /p HTTP/1.1\r\nContent-Length: 4\r\nuber-trace-id: 7:8:0:1\r\n\r\n".to_vec()
    );
}

#[test]
fn splice_at_the_smallest_offset() {
    assert_eq!(inject_context(b"\r\n", 2, b"x"), b"uber-trace-id: x\r\n\r\n".to_vec());
    assert_eq!(inject_context(b"ab\r\nrest", 4, b""), b"abuber-trace-id: \r\n\r\n".to_vec());
}

#[test]
fn synthetic_block_decodes_to_the_same_request_line() {
    let payload = b"GET /index HTTP/1.1\r\nHost: example.com\r\nAccept: */*\r\n\r\n";
    let sent = parse_request(payload).unwrap();
    let block = inject_context(payload, sent.body_start, b"6309ab92c95468ed:409423a204bc17a8:0:1");
    let decoded = parse_request(&block).unwrap();
    assert_eq!(decoded.method, sent.method);
    assert_eq!(decoded.path, sent.path);
    assert_eq!(decoded.body_start, block.len());
    assert_eq!(decoded.headers.len(), sent.headers.len() + 1);
    let carrier = build_carrier(&decoded.headers);
    let context_fields: Vec<&HeaderField> =
        carrier.fields.iter().filter(|f| f.name == "uber-trace-id").collect();
    assert_eq!(context_fields.len(), 1);
    assert_eq!(context_fields[0].value, b"6309ab92c95468ed:409423a204bc17a8:0:1".to_vec());
    assert_eq!(carrier.get(&"Host".to_string()), Some(&b"example.com".to_vec()));
}

#[test]
fn carrier_keeps_the_last_value_of_a_name() {
    let headers = vec![field("A", b"1"), field("B", b"2"), field("A", b"3")];
    let carrier = build_carrier(&headers);
    assert_eq!(carrier.fields.len(), 2);
    assert_eq!(carrier.get(&"A".to_string()), Some(&b"3".to_vec()));
    assert_eq!(carrier.get(&"B".to_string()), Some(&b"2".to_vec()));
    assert_eq!(carrier.get(&"C".to_string()), None);
}

#[test]
fn carrier_names_are_case_sensitive() {
    let headers = vec![field("Host", b"a"), field("host", b"b")];
    let carrier = build_carrier(&headers);
    assert_eq!(carrier.fields.len(), 2);
    assert_eq!(carrier.get(&"Host".to_string()), Some(&b"a".to_vec()));
    assert_eq!(carrier.get(&"host".to_string()), Some(&b"b".to_vec()));
}

#[test]
fn carrier_insert_replaces_in_place() {
    let mut carrier = Carrier::new();
    assert!(carrier.fields.is_empty());
    carrier.insert("x".to_string(), b"1".to_vec());
    carrier.insert("y".to_string(), b"2".to_vec());
    carrier.insert("x".to_string(), b"3".to_vec());
    assert_eq!(carrier.fields.len(), 2);
    assert_eq!(carrier.fields[0].name, "x");
    assert_eq!(carrier.fields[0].value, b"3".to_vec());
    assert_eq!(carrier.fields[1].name, "y");
}

#[test]
fn empty_header_list_gives_empty_carrier() {
    let carrier = build_carrier(&Vec::new());
    assert!(carrier.fields.is_empty());
    assert_eq!(carrier.get(&"uber-trace-id".to_string()), None);
}

#[test]
fn span_plans_are_named_after_the_request_line() {
    let head = parse_request(b"DELETE /items/9 HTTP/1.1\r\n\r\n").unwrap();
    let client = client_span(&head, Some(b"10.0.0.1:80".to_vec()));
    assert_eq!(client.name, b"DELETE /items/9".to_vec());
    assert_eq!(client.tag_key, "to");
    assert_eq!(client.tag_value, Some(b"10.0.0.1:80".to_vec()));
    let response = response_span(&head, 204);
    assert_eq!(response.name, b"DELETE /items/9".to_vec());
    assert_eq!(response.tag_key, "code");
    assert_eq!(response.tag_value, Some(b"204".to_vec()));
}
