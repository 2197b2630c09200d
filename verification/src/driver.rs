//! The span lifecycle: what each observed socket event does to the trace
//! store, and which spans it starts.
//!
//! Per descriptor the store moves from no entry, to an addressed entry, to an
//! entry awaiting its response, and back to no entry. A request opens the
//! exchange, a response closes it, and a failure on the way never reaches the
//! traced process: the event is dropped and, on the response side, the entry
//! with it.

use rustracing::span::SpanContext;
use rustracing_jaeger::span::SpanContextState;
use rustracing_jaeger::Tracer;
use vstd::prelude::*;
use crate::bytes::{copy_range, decimal};
use crate::endpoint::{
    classifiable,
    decodes_to,
    endpoint_text,
    from_libc_sockaddr,
    Endpoint,
    AF_INET,
};
use crate::framer::{
    looks_like_request,
    parse_request,
    parse_response,
    request_head,
    response_code,
    spec_looks_like_request,
    HeaderFieldView,
    RequestHead,
    HEAD_TERMINATOR_LEN,
};
use crate::propagate::{
    body_bytes,
    build_carrier,
    carrier_map,
    inject_context,
    lemma_carrier_domain,
    synthetic_headers,
    Carrier,
};
use crate::span::{
    carries_context_field,
    client_span,
    extract_context,
    launch,
    names_context,
    response_span,
    span_name,
    spec_context_answer,
    tag_view,
    SpanPlan,
    TAG_DESTINATION,
    TAG_STATUS,
};
use crate::store::{
    add_trace,
    add_trace_spec,
    fresh_entry,
    phase_of,
    PendingRequest,
    PendingView,
    Phase,
    Trace,
    TraceView,
    Traces,
};

verus! {

/// The address family whose sockets arm the reentrancy guard: IPv4.
pub const GUARDED_DOMAIN: i32 = AF_INET;

/// The process-wide mark that an exchange is being traced. While it is set,
/// new IPv4 sockets are taken to be the tracing backend's own and are not
/// registered.
///
/// One mark serves the whole process, so at most one exchange is traced at a
/// time, and the backend is taken to open no second connection while it
/// reports.
#[derive(Debug)]
pub struct ReentrancyGuard {
    pub running: bool,
}

impl ReentrancyGuard {
    /// A guard that is not set.
    pub fn new() -> (guard: ReentrancyGuard)
        ensures
            !guard.running,
    {
        ReentrancyGuard { running: false }
    }

    /// Sets the guard and says whether it was set before.
    pub fn acquire(&mut self) -> (was_running: bool)
        ensures
            was_running == old(self).running,
            final(self).running,
    {
        let was_running = self.running;
        self.running = true;
        was_running
    }

    /// Takes note of a new socket in address family `domain` and says
    /// whether the socket is to be registered: it is if it is an IPv4
    /// socket and the guard was not set. An IPv4 socket sets the guard.
    pub fn note_socket(&mut self, domain: i32) -> (register: bool)
        ensures
            register == (domain == GUARDED_DOMAIN && !old(self).running),
            final(self).running == (old(self).running || domain == GUARDED_DOMAIN),
    {
        if domain == GUARDED_DOMAIN {
            !self.acquire()
        } else {
            false
        }
    }

    /// Clears the guard.
    pub fn release(&mut self)
        ensures
            !final(self).running,
    {
        self.running = false;
    }

    /// Whether the guard is set.
    pub fn is_running(&self) -> (running: bool)
        ensures
            running == self.running,
    {
        self.running
    }
}

/// How a request event ended.
#[derive(Debug)]
pub enum OpenOutcome {
    /// The descriptor has no entry: the socket is not traced.
    Untracked,
    /// The buffer does not frame as a request.
    NotRequest,
    /// The tracer started no span, so there is no context to send along.
    Unsampled,
    /// A span was started and the request is pending. `context` is the text
    /// that went into the synthetic header.
    Opened { context: Vec<u8> },
}

/// How a response event ended.
#[derive(Clone, Copy, Debug, PartialEq, Eq, Structural)]
pub enum CloseOutcome {
    /// The descriptor has no entry: the socket is not traced.
    Untracked,
    /// The descriptor has no request in flight.
    Idle,
    /// The buffer does not frame as a response.
    BadResponse,
    /// The stored header block no longer frames as a request.
    BadHeaders,
    /// The stored header block carries a context that cannot be read.
    ContextRejected,
    /// The stored header block carries no context.
    ContextMissing,
    /// The response span was started. The finished spans are due to be
    /// reported, and after that the guard is to be released.
    Closed,
}

impl ReentrancyGuard {
    /// Settles the guard once a response event is dealt with and, if the
    /// event ended as `Closed`, the spans are reported: a closed exchange
    /// clears the guard, any other outcome leaves it as it is.
    pub fn settle(&mut self, outcome: CloseOutcome)
        ensures
            final(self).running == (old(self).running && outcome != CloseOutcome::Closed),
    {
        if outcome == CloseOutcome::Closed {
            self.release();
        }
    }
}

/// The entry of a descriptor once its request has gone out: the address it
/// had, and the request pending with the context written into its headers.
pub open spec fn opened_entry(
    before: TraceView,
    payload: Seq<u8>,
    body_start: nat,
    context: Seq<u8>,
) -> TraceView {
    TraceView {
        dst_addr: before.dst_addr,
        pending: Some(
            PendingView {
                headers: synthetic_headers(payload, body_start, context),
                body: body_bytes(payload, body_start),
            },
        ),
    }
}

/// Whether `after` and `outcome` are what a request event with buffer
/// `payload` on `sockfd` may leave of a store that held `before`.
///
/// Which outcome comes is settled by the store and the buffer, except that
/// of a traced request the tracer decides whether it is `Opened` or
/// `Unsampled`. The store changes under `Opened` alone.
pub open spec fn request_settled(
    before: Map<i32, TraceView>,
    after: Map<i32, TraceView>,
    sockfd: i32,
    payload: Seq<u8>,
    outcome: OpenOutcome,
) -> bool {
    match outcome {
        OpenOutcome::Untracked => !before.contains_key(sockfd) && after == before,
        OpenOutcome::NotRequest => {
            &&& before.contains_key(sockfd)
            &&& request_head(payload) is None
            &&& after == before
        },
        OpenOutcome::Unsampled => {
            &&& before.contains_key(sockfd)
            &&& request_head(payload) is Some
            &&& after == before
        },
        OpenOutcome::Opened { context } => {
            &&& before.contains_key(sockfd)
            &&& request_head(payload) matches Some(head)
            &&& after == before.insert(
                sockfd,
                opened_entry(before[sockfd], payload, head.body_start, context@),
            )
        },
    }
}

/// Stores a request as pending, given what the tracer returned for its span.
///
/// With a context the entry of `sockfd` keeps its address and takes the
/// synthetic header block and the body; without one nothing changes. A
/// descriptor without an entry gets none.
pub fn record_request(
    sockfd: i32,
    payload: &[u8],
    body_start: usize,
    context: Option<Vec<u8>>,
    t: &mut Traces,
) -> (outcome: OpenOutcome)
    requires
        HEAD_TERMINATOR_LEN <= body_start <= payload.len(),
    ensures
        match outcome {
            OpenOutcome::Untracked => !old(t)@.contains_key(sockfd) && final(t)@ == old(t)@,
            OpenOutcome::NotRequest => false,
            OpenOutcome::Unsampled => {
                &&& old(t)@.contains_key(sockfd)
                &&& context is None
                &&& final(t)@ == old(t)@
            },
            OpenOutcome::Opened { context: sent } => {
                &&& old(t)@.contains_key(sockfd)
                &&& context == Some(sent)
                &&& final(t)@ == old(t)@.insert(
                    sockfd,
                    opened_entry(old(t)@[sockfd], payload@, body_start as nat, sent@),
                )
            },
        },
        old(t)@.contains_key(sockfd) && context is Some ==> outcome is Opened,
{
    if !t.contains(sockfd) {
        return OpenOutcome::Untracked;
    }
    let context = match context {
        Some(context) => context,
        None => { return OpenOutcome::Unsampled; },
    };
    let dst_addr = match t.get(sockfd) {
        Some(entry) => entry.dst_addr,
        None => None,
    };
    let pending = PendingRequest {
        headers: inject_context(payload, body_start, context.as_slice()),
        body: copy_range(payload, body_start, payload.len()),
    };
    t.put(sockfd, Trace { dst_addr, pending: Some(pending) });
    OpenOutcome::Opened { context }
}

/// The text a client span is tagged with for an entry's destination, if the
/// entry has one.
pub open spec fn destination_text(entry: TraceView) -> Option<Seq<u8>> {
    match entry.dst_addr {
        Some(endpoint) => Some(endpoint_text(endpoint)),
        None => None,
    }
}

/// Decides what a request event calls for, before any span is started.
///
/// `Err` says why the event is dropped: the descriptor is not tracked, or
/// the buffer does not frame as a request. `Ok` holds the request's head and
/// the client span to start: named after the request line, and tagged with
/// the destination's text if the entry has a destination.
pub fn plan_request(sockfd: i32, payload: &[u8], t: &Traces) -> (plan: Result<
    (RequestHead, SpanPlan),
    OpenOutcome,
>)
    ensures
        match plan {
            Ok((head, span)) => {
                &&& t@.contains_key(sockfd)
                &&& request_head(payload@) == Some(head@)
                &&& span.name@ == span_name(head.method@, head.path@)
                &&& span.tag_key@ == TAG_DESTINATION@
                &&& tag_view(span.tag_value) == destination_text(t@[sockfd])
            },
            Err(OpenOutcome::Untracked) => !t@.contains_key(sockfd),
            Err(OpenOutcome::NotRequest) => t@.contains_key(sockfd) && request_head(payload@)
                is None,
            Err(_) => false,
        },
{
    let destination = match t.get(sockfd) {
        Some(entry) => match &entry.dst_addr {
            Some(endpoint) => Some(endpoint.to_text()),
            None => None,
        },
        None => { return Err(OpenOutcome::Untracked); },
    };
    let head = match parse_request(payload) {
        Some(head) => head,
        None => { return Err(OpenOutcome::NotRequest); },
    };
    let span = client_span(&head, destination);
    Ok((head, span))
}

/// Handles a request leaving on `sockfd`.
///
/// If the descriptor is tracked and the buffer frames as a request, the
/// client span planned by `plan_request` is started, and the request is
/// stored as pending with the span's context written into its headers.
pub fn start_trace(sockfd: i32, payload: &[u8], t: &mut Traces, tracer: &Tracer) -> (outcome:
    OpenOutcome)
    ensures
        request_settled(old(t)@, final(t)@, sockfd, payload@, outcome),
{
    let (head, span) = match plan_request(sockfd, payload, t) {
        Ok(plan) => plan,
        Err(OpenOutcome::Untracked) => { return OpenOutcome::Untracked; },
        Err(_) => { return OpenOutcome::NotRequest; },
    };
    let context = launch(tracer, &span, &None);
    record_request(sockfd, payload, head.body_start, context, t)
}

/// Decides what a response with status `code` calls for, before the backend
/// is asked anything: the span to start, named after the request line of
/// the stored head `req` and tagged with the status code in decimal, and the
/// carrier the causal context is to be read from, which holds the head's
/// fields by name, the later of two fields with one name.
pub fn plan_response(code: u16, req: &RequestHead) -> (plan: (SpanPlan, Carrier))
    ensures
        plan.0.name@ == span_name(req.method@, req.path@),
        plan.0.tag_key@ == TAG_STATUS@,
        tag_view(plan.0.tag_value) == Some(decimal(code as nat)),
        plan.1.wf(),
        plan.1@ == carrier_map(req@.headers),
{
    (response_span(req, code), build_carrier(&req.headers))
}

/// Decides how a response event ends, given what the backend read out of the
/// stored headers, and starts the planned response span if it read a
/// context.
pub fn follow_up(
    found: Result<Option<SpanContext<SpanContextState>>, rustracing::Error>,
    span: &SpanPlan,
    tracer: &Tracer,
) -> (outcome: CloseOutcome)
    ensures
        outcome == match found {
            Err(_) => CloseOutcome::ContextRejected,
            Ok(None) => CloseOutcome::ContextMissing,
            Ok(Some(_)) => CloseOutcome::Closed,
        },
{
    match found {
        Err(_) => CloseOutcome::ContextRejected,
        Ok(follows) => {
            if follows.is_none() {
                CloseOutcome::ContextMissing
            } else {
                let _ = launch(tracer, span, &follows);
                CloseOutcome::Closed
            }
        },
    }
}

/// How a response event ends for each answer of the backend: with an error
/// the context is rejected, without a context it is missing, and with a
/// context the exchange is closed.
pub open spec fn close_outcome(answer: Option<bool>) -> CloseOutcome {
    match answer {
        None => CloseOutcome::ContextRejected,
        Some(false) => CloseOutcome::ContextMissing,
        Some(true) => CloseOutcome::Closed,
    }
}

/// How a response event ends for a stored head with the fields `headers`:
/// as the backend answers for the carrier of those fields. A head without a
/// field that names a context ends as `ContextMissing`.
pub open spec fn context_settled(headers: Seq<HeaderFieldView>, outcome: CloseOutcome) -> bool {
    &&& outcome == close_outcome(spec_context_answer(carrier_map(headers)))
    &&& outcome == CloseOutcome::ContextMissing <==> !carries_context_field(carrier_map(headers))
}

/// Starts the span that records a response with status `code` to the request
/// whose synthetic head is `req`, following from the context that head
/// carries. The span and the carrier are those of `plan_response`.
pub fn add_span(code: u16, req: &RequestHead, tracer: &Tracer) -> (outcome: CloseOutcome)
    ensures
        context_settled(req@.headers, outcome),
{
    let (span, carrier) = plan_response(code, req);
    let found = extract_context(&carrier);
    follow_up(found, &span, tracer)
}

/// What a response event on `sockfd` leaves of a store that held `before`:
/// an entry with a request in flight is removed, whatever comes of the
/// response, and nothing else changes.
pub open spec fn end_trace_spec(before: Map<i32, TraceView>, sockfd: i32) -> Map<i32, TraceView> {
    if before.contains_key(sockfd) && before[sockfd].pending is Some {
        before.remove(sockfd)
    } else {
        before
    }
}

/// Whether `outcome` is how a response event with buffer `payload` on
/// `sockfd` ends, for a store that held `before`.
///
/// The store and the two buffers settle the outcome: whether the descriptor
/// is tracked and has a request in flight, whether the buffer frames as a
/// response, whether the stored headers frame as a request, and what the
/// backend answers for the fields of the stored head.
pub open spec fn response_settled(
    before: Map<i32, TraceView>,
    sockfd: i32,
    payload: Seq<u8>,
    outcome: CloseOutcome,
) -> bool {
    if !before.contains_key(sockfd) {
        outcome == CloseOutcome::Untracked
    } else {
        match before[sockfd].pending {
            None => outcome == CloseOutcome::Idle,
            Some(pending) => {
                if response_code(payload) is None {
                    outcome == CloseOutcome::BadResponse
                } else if request_head(pending.headers) is None {
                    outcome == CloseOutcome::BadHeaders
                } else {
                    context_settled(request_head(pending.headers).unwrap().headers, outcome)
                }
            },
        }
    }
}

/// Handles a response arriving on `sockfd`.
///
/// Without a request in flight nothing happens. With one, the entry is
/// removed; and if the buffer frames as a response and the stored headers
/// yield a context, the response span is started and the outcome is
/// `Closed`.
pub fn end_trace(sockfd: i32, payload: &[u8], t: &mut Traces, tracer: &Tracer) -> (outcome:
    CloseOutcome)
    ensures
        final(t)@ == end_trace_spec(old(t)@, sockfd),
        response_settled(old(t)@, sockfd, payload@, outcome),
{
    match t.get(sockfd) {
        None => { return CloseOutcome::Untracked; },
        Some(entry) => {
            if entry.pending.is_none() {
                return CloseOutcome::Idle;
            }
        },
    }
    let pending = match t.remove(sockfd) {
        Some(Trace { dst_addr: _, pending: Some(pending) }) => pending,
        _ => { return CloseOutcome::Idle; },
    };
    let code = match parse_response(payload) {
        Some(code) => code,
        None => { return CloseOutcome::BadResponse; },
    };
    let req = match parse_request(pending.headers.as_slice()) {
        Some(req) => req,
        None => { return CloseOutcome::BadHeaders; },
    };
    add_span(code, &req, tracer)
}

/// Handles the creation of a socket in address family `domain`.
///
/// An IPv4 socket sets the guard. If the guard was not set before, the
/// socket is registered without an address, and whatever entry the
/// descriptor had from an earlier use is dropped; if the guard was set, the
/// socket is taken to be the backend's own and left out. Other families
/// change nothing.
pub fn on_socket(sockfd: i32, domain: i32, guard: &mut ReentrancyGuard, t: &mut Traces)
    ensures
        final(guard).running == (old(guard).running || domain == GUARDED_DOMAIN),
        final(t)@ == if domain == GUARDED_DOMAIN && !old(guard).running {
            old(t)@.insert(sockfd, fresh_entry(None))
        } else {
            old(t)@
        },
{
    if guard.note_socket(domain) {
        add_trace(sockfd, None, t);
    }
}

/// Handles a connect of `sockfd` to the raw address `addr`.
///
/// An address that classifies is recorded for the descriptor if the
/// descriptor is tracked; its record starts afresh. Any other address
/// changes nothing. Returns the endpoint the address classified as.
pub fn on_connect(sockfd: i32, addr: Option<&[u8]>, t: &mut Traces) -> (endpoint: Option<Endpoint>)
    ensures
        endpoint is Some <==> (addr matches Some(buf) && classifiable(buf@)),
        endpoint matches Some(e) ==> decodes_to(addr.unwrap()@, e),
        final(t)@ == if endpoint is Some {
            add_trace_spec(old(t)@, sockfd, endpoint)
        } else {
            old(t)@
        },
{
    let endpoint = from_libc_sockaddr(addr);
    if endpoint.is_some() {
        add_trace(sockfd, endpoint, t);
    }
    endpoint
}

/// Handles a write of `payload` to `sockfd`: a buffer that starts like a
/// request is a request event, any other buffer changes nothing.
pub fn on_write(sockfd: i32, payload: &[u8], t: &mut Traces, tracer: &Tracer) -> (outcome:
    OpenOutcome)
    ensures
        if spec_looks_like_request(payload@) {
            request_settled(old(t)@, final(t)@, sockfd, payload@, outcome)
        } else {
            outcome is NotRequest && final(t)@ == old(t)@
        },
{
    if looks_like_request(payload) {
        start_trace(sockfd, payload, t, tracer)
    } else {
        OpenOutcome::NotRequest
    }
}

/// A request event neither registers nor drops a descriptor, and it leaves
/// every other descriptor's entry as it was.
pub proof fn law_request_keeps_descriptors(
    before: Map<i32, TraceView>,
    after: Map<i32, TraceView>,
    sockfd: i32,
    payload: Seq<u8>,
    outcome: OpenOutcome,
)
    requires
        request_settled(before, after, sockfd, payload, outcome),
    ensures
        after.dom() == before.dom(),
        forall|other: i32| other != sockfd && before.contains_key(other) ==> after[other]
            == before[other],
        outcome is Opened ==> phase_of(after, sockfd) == Phase::AwaitingResponse,
        !(outcome is Opened) ==> after == before,
{
}

/// A response event for a descriptor with no request in flight is a no-op:
/// the store stays as it is, no entry appears, and the event ends as
/// `Untracked` or `Idle`, the two outcomes under which no span is started.
pub proof fn law_close_without_open_is_noop(
    before: Map<i32, TraceView>,
    sockfd: i32,
    payload: Seq<u8>,
    outcome: CloseOutcome,
)
    requires
        phase_of(before, sockfd) != Phase::AwaitingResponse,
        response_settled(before, sockfd, payload, outcome),
    ensures
        end_trace_spec(before, sockfd) == before,
        outcome == CloseOutcome::Untracked || outcome == CloseOutcome::Idle,
        outcome == CloseOutcome::Untracked <==> !before.contains_key(sockfd),
{
}

/// After a request event that opened an exchange and the response event
/// that follows it, the descriptor has no entry, however the response event
/// ended; and the store is what it was before the request, less that
/// descriptor.
pub proof fn law_cycle_leaves_no_entry(
    before: Map<i32, TraceView>,
    opened: Map<i32, TraceView>,
    sockfd: i32,
    request: Seq<u8>,
    outcome: OpenOutcome,
)
    requires
        outcome is Opened,
        request_settled(before, opened, sockfd, request, outcome),
    ensures
        phase_of(opened, sockfd) == Phase::AwaitingResponse,
        phase_of(end_trace_spec(opened, sockfd), sockfd) == Phase::Absent,
        end_trace_spec(opened, sockfd) == before.remove(sockfd),
{
}

/// A response event never leaves a request in flight on its descriptor, and
/// it touches no other descriptor.
pub proof fn law_response_is_terminal(before: Map<i32, TraceView>, sockfd: i32)
    ensures
        phase_of(end_trace_spec(before, sockfd), sockfd) != Phase::AwaitingResponse,
        forall|other: i32|
            other != sockfd ==> phase_of(end_trace_spec(before, sockfd), other) == phase_of(
                before,
                other,
            ),
{
}

/// A stored head none of whose fields names a context ends the response
/// event as `ContextMissing`, and a stored head with such a field never
/// does: the exchange is then closed, or its context is rejected.
pub proof fn law_context_field_decides_missing(headers: Seq<HeaderFieldView>, outcome: CloseOutcome)
    requires
        context_settled(headers, outcome),
    ensures
        outcome == CloseOutcome::ContextMissing <==> forall|i: int|
            0 <= i < headers.len() ==> !names_context((#[trigger] headers[i]).name),
        outcome == CloseOutcome::ContextRejected || outcome == CloseOutcome::ContextMissing
            || outcome == CloseOutcome::Closed,
{
    let carrier = carrier_map(headers);
    if carries_context_field(carrier) {
        let name = choose|name: Seq<char>| #[trigger]
            carrier.contains_key(name) && names_context(name);
        lemma_carrier_domain(headers, name);
    } else {
        assert forall|i: int| 0 <= i < headers.len() implies !names_context(
            (#[trigger] headers[i]).name,
        ) by {
            lemma_carrier_domain(headers, headers[i].name);
        }
    }
}

} // verus!
