use socktrace::framer::{
    accept_head, looks_like_request, parse_request, parse_response, HeaderField, RequestHead,
    HEAD_TERMINATOR_LEN, MAX_HEADERS,
};

#[test]
fn request_head_is_framed() {
    let buf = b"GET /index HTTP/1.1\r\nHost: example.com\r\n\r\n";
    let head = parse_request(buf).unwrap();
    assert_eq!(head.method, b"GET".to_vec());
    assert_eq!(head.path, b"/index".to_vec());
    assert_eq!(head.body_start, buf.len());
    assert_eq!(head.headers.len(), 1);
    assert_eq!(head.headers[0].name, "Host");
    assert_eq!(head.headers[0].value, b"example.com".to_vec());
}

#[test]
fn body_offset_points_past_the_blank_line() {
    let buf = b"POST /submit HTTP/1.1\r\nContent-Length: 5\r\n\r\nhello";
    let head = parse_request(buf).unwrap();
    assert_eq!(head.method, b"POST".to_vec());
    assert_eq!(head.body_start, buf.len() - 5);
    assert_eq!(&buf[head.body_start..], b"hello");
    assert_eq!(&buf[head.body_start - HEAD_TERMINATOR_LEN..head.body_start], b"\r\n");
}

#[test]
fn header_fields_come_in_order() {
    let buf = b"GET / HTTP/1.1\r\nA: 1\r\nB: 2\r\nA: 3\r\n\r\n";
    let head = parse_request(buf).unwrap();
    let names: Vec<&str> = head.headers.iter().map(|h| h.name.as_str()).collect();
    assert_eq!(names, vec!["A", "B", "A"]);
    assert_eq!(head.headers[2].value, b"3".to_vec());
}

#[test]
fn truncated_request_is_not_framed() {
    assert!(parse_request(b"GET /index HTTP/1.1\r\nHost: exam").is_none());
    assert!(parse_request(b"GET /index HTTP/1.1\r\nHost: example.com\r\n").is_none());
    assert!(parse_request(b"").is_none());
}

#[test]
fn malformed_request_is_not_framed() {
    assert!(parse_request(b"\x01\x02\x03").is_none());
    assert!(parse_request(b"GET /index HTTP/9.9\r\n\r\n").is_none());
    assert!(parse_request(b"HTTP/1.1 200 OK\r\n\r\n").is_none());
}

#[test]
fn header_cap_is_sixteen() {
    assert_eq!(MAX_HEADERS, 16);
    let mut at_cap = b"GET / HTTP/1.1\r\n".to_vec();
    for i in 0..16 {
        at_cap.extend_from_slice(format!("H{}: v\r\n", i).as_bytes());
    }
    let mut over_cap = at_cap.clone();
    at_cap.extend_from_slice(b"\r\n");
    over_cap.extend_from_slice(b"H16: v\r\n\r\n");
    assert_eq!(parse_request(&at_cap).unwrap().headers.len(), 16);
    assert!(parse_request(&over_cap).is_none());
}

#[test]
fn response_code_is_read() {
    assert_eq!(parse_response(b"HTTP/1.1 200 OK\r\n\r\n"), Some(200));
    assert_eq!(parse_response(b"HTTP/1.1 404 Not Found\r\nServer: x\r\n\r\nbody"), Some(404));
}

#[test]
fn incomplete_or_malformed_response_has_no_code() {
    assert_eq!(parse_response(b"HTTP/1.1 200 OK\r\n"), None);
    assert_eq!(parse_response(b"GET / HTTP/1.1\r\n\r\n"), None);
    assert_eq!(parse_response(b"\x01\x02\x03"), None);
    assert_eq!(parse_response(b""), None);
}

#[test]
fn response_over_the_header_cap_has_no_code() {
    let mut buf = b"HTTP/1.1 200 OK\r\n".to_vec();
    for i in 0..17 {
        buf.extend_from_slice(format!("H{}: v\r\n", i).as_bytes());
    }
    buf.extend_from_slice(b"\r\n");
    assert_eq!(parse_response(&buf), None);
}

fn head_at(body_start: usize) -> RequestHead {
    RequestHead {
        method: b"GET".to_vec(),
        path: b"/".to_vec(),
        body_start,
        headers: vec![HeaderField { name: "Host".to_string(), value: b"h".to_vec() }],
    }
}

#[test]
fn head_is_accepted_only_if_it_can_be_split() {
    assert!(accept_head(None, 10).is_none());
    assert!(accept_head(Some(head_at(1)), 10).is_none());
    assert!(accept_head(Some(head_at(11)), 10).is_none());
    assert_eq!(accept_head(Some(head_at(2)), 10).unwrap().body_start, 2);
    assert_eq!(accept_head(Some(head_at(10)), 10).unwrap().body_start, 10);
}

#[test]
fn request_prefix_is_get() {
    assert!(looks_like_request(b"GET / HTTP/1.1\r\n\r\n"));
    assert!(looks_like_request(b"GET"));
    assert!(!looks_like_request(b"GE"));
    assert!(!looks_like_request(b""));
    assert!(!looks_like_request(b"get / HTTP/1.1\r\n\r\n"));
    assert!(!looks_like_request(b"POST / HTTP/1.1\r\n\r\n"));
    assert!(!looks_like_request(b"\x01\x02\x03"));
}
