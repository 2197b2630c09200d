//! Message framing: splitting a captured byte buffer into an HTTP/1.x head
//! and the offset at which the body begins.
//!
//! The grammar itself is `httparse`'s. This module fixes how the parser is
//! called, names what it returns, and decides which of its answers the rest
//! of the library accepts as a head.

use vstd::prelude::*;

verus! {

/// The most header fields a head may carry. A head with more is not framed.
pub const MAX_HEADERS: usize = 16;

/// Length in bytes of the line break that stands for the blank line after the
/// last header line.
pub const HEAD_TERMINATOR_LEN: usize = 2;

/// One header field of a parsed head.
#[derive(Debug)]
pub struct HeaderField {
    pub name: String,
    pub value: Vec<u8>,
}

/// A header field as contracts see it.
pub struct HeaderFieldView {
    pub name: Seq<char>,
    pub value: Seq<u8>,
}

impl View for HeaderField {
    type V = HeaderFieldView;

    open spec fn view(&self) -> HeaderFieldView {
        HeaderFieldView { name: self.name@, value: self.value@ }
    }
}

/// The head of a request: request line, header fields, and where the body
/// starts in the buffer the head was parsed from.
#[derive(Debug)]
pub struct RequestHead {
    pub method: Vec<u8>,
    pub path: Vec<u8>,
    pub body_start: usize,
    pub headers: Vec<HeaderField>,
}

/// A request head as contracts see it.
pub struct RequestHeadView {
    pub method: Seq<u8>,
    pub path: Seq<u8>,
    pub body_start: nat,
    pub headers: Seq<HeaderFieldView>,
}

/// The views of a list of header fields, in order.
pub open spec fn fields_view(fields: Seq<HeaderField>) -> Seq<HeaderFieldView> {
    fields.map_values(|f: HeaderField| f@)
}

impl View for RequestHead {
    type V = RequestHeadView;

    open spec fn view(&self) -> RequestHeadView {
        RequestHeadView {
            method: self.method@,
            path: self.path@,
            body_start: self.body_start as nat,
            headers: fields_view(self.headers@),
        }
    }
}

/// What `httparse::Request::parse` makes of `buf` when given room for
/// `max_headers` header fields: the head, if the buffer holds a complete one.
pub uninterp spec fn spec_parse_request(buf: Seq<u8>, max_headers: nat) -> Option<RequestHeadView>;

/// What `httparse::Response::parse` makes of `buf` when given room for
/// `max_headers` header fields: the status code, if the buffer holds a
/// complete response head.
pub uninterp spec fn spec_parse_response(buf: Seq<u8>, max_headers: nat) -> Option<u16>;

/// Runs `httparse::Request::parse` on `buf` with `max_headers` empty header
/// slots. Trusted: the result is the parser's answer, `Some` exactly when the
/// parser reports a complete head, with method, path, header fields and the
/// byte count it consumed copied out unchanged. A partial head and every
/// parse error give `None`.
#[verifier::external_body]
fn httparse_request(buf: &[u8], max_headers: usize) -> (head: Option<RequestHead>)
    requires
        max_headers <= MAX_HEADERS,
    ensures
        match head {
            Some(h) => spec_parse_request(buf@, max_headers as nat) == Some(h@),
            None => spec_parse_request(buf@, max_headers as nat) is None,
        },
{
    let mut slots = vec![httparse::EMPTY_HEADER; max_headers];
    let mut request = httparse::Request::new(&mut slots);
    match request.parse(buf) {
        Ok(httparse::Status::Complete(consumed)) => Some(RequestHead {
            method: request.method?.as_bytes().to_vec(),
            path: request.path?.as_bytes().to_vec(),
            body_start: consumed,
            headers: request.headers.iter().map(|h| HeaderField { name: h.name.to_string(), value: h.value.to_vec() }).collect(),
        }),
        Ok(httparse::Status::Partial) => None,
        Err(_) => None,
    }
}

/// Runs `httparse::Response::parse` on `buf` with `max_headers` empty header
/// slots. Trusted: the result is the status code the parser found, `Some`
/// exactly when it reports a complete head.
#[verifier::external_body]
fn httparse_response(buf: &[u8], max_headers: usize) -> (code: Option<u16>)
    requires
        max_headers <= MAX_HEADERS,
    ensures
        code == spec_parse_response(buf@, max_headers as nat),
{
    let mut slots = vec![httparse::EMPTY_HEADER; max_headers];
    let mut response = httparse::Response::new(&mut slots);
    match response.parse(buf) {
        Ok(httparse::Status::Complete(_)) => response.code,
        Ok(httparse::Status::Partial) => None,
        Err(_) => None,
    }
}

/// Whether a parsed head can be split at its body offset: the offset lies
/// inside a buffer of `buf_len` bytes and leaves room for the terminator
/// before it.
pub open spec fn splittable(head: RequestHeadView, buf_len: nat) -> bool {
    HEAD_TERMINATOR_LEN <= head.body_start <= buf_len
}

/// The request head the library frames `buf` as, if any: the parser's head
/// under the header cap, kept only when it can be split.
pub open spec fn request_head(buf: Seq<u8>) -> Option<RequestHeadView> {
    match spec_parse_request(buf, MAX_HEADERS as nat) {
        Some(h) => if splittable(h, buf.len()) { Some(h) } else { None },
        None => None,
    }
}

/// The status code the library reads from `buf`, if it frames as a response.
pub open spec fn response_code(buf: Seq<u8>) -> Option<u16> {
    spec_parse_response(buf, MAX_HEADERS as nat)
}

/// Keeps a parsed head only if it can be split inside a buffer of `buf_len`
/// bytes.
pub fn accept_head(parsed: Option<RequestHead>, buf_len: usize) -> (head: Option<RequestHead>)
    ensures
        head == match parsed {
            Some(h) => if splittable(h@, buf_len as nat) { Some(h) } else { None },
            None => None,
        },
{
    match parsed {
        Some(h) => {
            if HEAD_TERMINATOR_LEN <= h.body_start && h.body_start <= buf_len {
                Some(h)
            } else {
                None
            }
        },
        None => None,
    }
}

/// Frames `buf` as a request head. `None` means the buffer is not a request
/// this library traces: malformed, cut short, or with too many headers.
pub fn parse_request(buf: &[u8]) -> (head: Option<RequestHead>)
    ensures
        match head {
            Some(h) => request_head(buf@) == Some(h@),
            None => request_head(buf@) is None,
        },
{
    accept_head(httparse_request(buf, MAX_HEADERS), buf.len())
}

/// Frames `buf` as a response head and returns its status code. `None` means
/// the buffer is not a complete response head.
pub fn parse_response(buf: &[u8]) -> (code: Option<u16>)
    ensures
        code == response_code(buf@),
{
    httparse_response(buf, MAX_HEADERS)
}

/// The offset at which the header lines of a head end: the body offset less
/// the terminator.
pub open spec fn splice_point(body_start: nat) -> int {
    body_start - HEAD_TERMINATOR_LEN
}

/// Computes the splice point of a head that can be split.
pub fn splice_offset(body_start: usize) -> (at: usize)
    requires
        HEAD_TERMINATOR_LEN <= body_start,
    ensures
        at == splice_point(body_start as nat),
{
    body_start - HEAD_TERMINATOR_LEN
}

/// The bytes that mark an outgoing buffer as a request worth framing.
pub open spec fn request_prefix() -> Seq<u8> {
    seq![0x47u8, 0x45u8, 0x54u8]
}

/// Whether `buf` starts with the method token `GET`.
pub open spec fn spec_looks_like_request(buf: Seq<u8>) -> bool {
    buf.len() >= 3 && buf.subrange(0, 3) == request_prefix()
}

/// Whether an outgoing buffer starts like a request.
pub fn looks_like_request(buf: &[u8]) -> (yes: bool)
    ensures
        yes == spec_looks_like_request(buf@),
{
    if buf.len() < 3 {
        return false;
    }
    let yes = buf[0] == 0x47u8 && buf[1] == 0x45u8 && buf[2] == 0x54u8;
    if yes {
        assert(buf@.subrange(0, 3) =~= request_prefix());
    }
    yes
}

} // verus!
