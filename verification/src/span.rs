//! The tracing backend as this library meets it: starting spans on a
//! `rustracing_jaeger` tracer and reading a causal context out of a carrier.
//!
//! What a span is to be called and tagged is decided here in plain values.
//! Starting it is the backend's work, and nothing is promised of what the
//! backend hands back.

use std::collections::HashMap;
use rustracing::span::SpanContext;
use rustracing::tag::Tag;
use rustracing_jaeger::span::SpanContextState;
use rustracing_jaeger::Tracer;
use vstd::prelude::*;
use crate::bytes::{append_bytes, decimal, decimal_text};
use crate::framer::RequestHead;
use crate::propagate::Carrier;

verus! {

/// `rustracing_jaeger::Tracer`, carried through and never looked into.
#[verifier::external_type_specification]
#[verifier::external_body]
pub struct ExTracer(Tracer);

/// `rustracing::span::SpanContext`, carried through and never looked into.
#[verifier::external_type_specification]
#[verifier::external_body]
#[verifier::reject_recursive_types(T)]
pub struct ExSpanContext<T>(SpanContext<T>);

/// `rustracing_jaeger::span::SpanContextState`, carried through and never
/// looked into.
#[verifier::external_type_specification]
#[verifier::external_body]
pub struct ExSpanContextState(SpanContextState);

/// `rustracing::Error`, carried through and never looked into.
#[verifier::external_type_specification]
#[verifier::external_body]
pub struct ExTracingError(rustracing::Error);

/// The tag key under which a client span names its destination.
pub const TAG_DESTINATION: &'static str = "to";

/// The tag key under which a response span names the status code.
pub const TAG_STATUS: &'static str = "code";

/// What a span is started with: its operation name and at most one tag.
#[derive(Debug)]
pub struct SpanPlan {
    pub name: Vec<u8>,
    pub tag_key: &'static str,
    pub tag_value: Option<Vec<u8>>,
}

/// The view of an optional tag value.
pub open spec fn tag_view(value: Option<Vec<u8>>) -> Option<Seq<u8>> {
    match value {
        Some(text) => Some(text@),
        None => None,
    }
}

/// The name of the span for a request: method, a space, path.
pub open spec fn span_name(method: Seq<u8>, path: Seq<u8>) -> Seq<u8> {
    method + seq![0x20u8] + path
}

fn name_for(head: &RequestHead) -> (name: Vec<u8>)
    ensures
        name@ == span_name(head.method@, head.path@),
{
    let mut name: Vec<u8> = Vec::new();
    append_bytes(&mut name, head.method.as_slice());
    name.push(0x20u8);
    append_bytes(&mut name, head.path.as_slice());
    name
}

/// Plans the client span of a request: named after the request line and
/// tagged with the destination's text, if the destination is known.
pub fn client_span(head: &RequestHead, destination: Option<Vec<u8>>) -> (plan: SpanPlan)
    ensures
        plan.name@ == span_name(head.method@, head.path@),
        plan.tag_key@ == TAG_DESTINATION@,
        plan.tag_value == destination,
{
    SpanPlan { name: name_for(head), tag_key: TAG_DESTINATION, tag_value: destination }
}

/// Plans the span that records a response: named after the request line it
/// answers and tagged with the status code in decimal.
pub fn response_span(head: &RequestHead, code: u16) -> (plan: SpanPlan)
    ensures
        plan.name@ == span_name(head.method@, head.path@),
        plan.tag_key@ == TAG_STATUS@,
        tag_view(plan.tag_value) == Some(decimal(code as nat)),
{
    SpanPlan { name: name_for(head), tag_key: TAG_STATUS, tag_value: Some(decimal_text(code)) }
}

/// Starts a span named `name` on `tracer`, following from `follows` if that
/// holds a context, and lets it finish at once. Returns the text of the new
/// span's context, or `None` if the tracer did not sample the span.
///
/// Wraps `Tracer::span` with `StartSpanOptions::follows_from` and `start`.
/// Trusted, and nothing is claimed: the ids in the context are drawn at
/// random.
#[verifier::external_body]
fn start_span(tracer: &Tracer, name: &[u8], follows: &Option<SpanContext<SpanContextState>>) -> (context:
    Option<Vec<u8>>) {
    let name = String::from_utf8_lossy(name).into_owned();
    let span = tracer.span(name).follows_from(follows).start();
    span.context().map(|c| c.state().to_string().into_bytes())
}

/// Starts a span as `start_span` does, with one tag set on it.
///
/// Wraps `Tracer::span` with `StartSpanOptions::tag`, `follows_from` and
/// `start`. Trusted, and nothing is claimed: the ids in the context are
/// drawn at random.
#[verifier::external_body]
fn start_tagged_span(
    tracer: &Tracer,
    name: &[u8],
    key: &'static str,
    value: &[u8],
    follows: &Option<SpanContext<SpanContextState>>,
) -> (context: Option<Vec<u8>>) {
    let name = String::from_utf8_lossy(name).into_owned();
    let tag = Tag::new(key, String::from_utf8_lossy(value).into_owned());
    let span = tracer.span(name).tag(tag).follows_from(follows).start();
    span.context().map(|c| c.state().to_string().into_bytes())
}

/// Starts the span `plan` describes on `tracer`: with its tag if the plan
/// has a tag value, without a tag if it has none. Returns what the tracer
/// returns, of which nothing is known.
pub(crate) fn launch(
    tracer: &Tracer,
    plan: &SpanPlan,
    follows: &Option<SpanContext<SpanContextState>>,
) -> (context: Option<Vec<u8>>) {
    match &plan.tag_value {
        Some(value) => start_tagged_span(
            tracer,
            plan.name.as_slice(),
            plan.tag_key,
            value.as_slice(),
            follows,
        ),
        None => start_span(tracer, plan.name.as_slice(), follows),
    }
}

/// The name of the header field the backend reads a trace context from.
pub const TRACE_CONTEXT_FIELD: &'static str = "uber-trace-id";

/// The name of the header field the backend reads a debug id from. A debug
/// id alone makes a context too.
pub const DEBUG_ID_FIELD: &'static str = "jaeger-debug-id";

/// Whether two characters are the same but for the case of an ASCII letter.
pub open spec fn same_letter(a: char, b: char) -> bool {
    ||| a == b
    ||| 0x41 <= a as u32 <= 0x5a && a as u32 + 0x20 == b as u32
    ||| 0x41 <= b as u32 <= 0x5a && b as u32 + 0x20 == a as u32
}

/// Whether two names are the same but for the case of ASCII letters.
pub open spec fn same_name(a: Seq<char>, b: Seq<char>) -> bool {
    a.len() == b.len() && forall|i: int| 0 <= i < a.len() ==> same_letter(#[trigger] a[i], b[i])
}

/// Whether the backend takes a field of this name for one that holds a
/// context.
pub open spec fn names_context(name: Seq<char>) -> bool {
    same_name(name, TRACE_CONTEXT_FIELD@) || same_name(name, DEBUG_ID_FIELD@)
}

/// Whether a carrier holds a field that the backend reads a context from.
pub open spec fn carries_context_field(carrier: Map<Seq<char>, Seq<u8>>) -> bool {
    exists|name: Seq<char>| #[trigger] carrier.contains_key(name) && names_context(name)
}

/// What `SpanContext::extract_from_http_header` answers for the fields of
/// `carrier`: `Some(true)` if it reads a context, `Some(false)` if it finds
/// none, `None` if it finds one that it cannot read.
pub uninterp spec fn spec_context_answer(carrier: Map<Seq<char>, Seq<u8>>) -> Option<bool>;

/// Reads a causal context out of a carrier with
/// `SpanContext::extract_from_http_header`, handing it every field of the
/// carrier under its name.
///
/// Trusted: whether the backend reads a context, finds none or gives an
/// error depends on the carrier's fields alone, each of which it reads by
/// itself; and it finds none exactly when no field is named `uber-trace-id`
/// or `jaeger-debug-id`, the case of letters apart. Nothing is claimed of
/// the context it reads.
#[verifier::external_body]
pub(crate) fn extract_context(carrier: &Carrier) -> (found: Result<
    Option<SpanContext<SpanContextState>>,
    rustracing::Error,
>)
    requires
        carrier.wf(),
    ensures
        match found {
            Err(_) => spec_context_answer(carrier@) is None,
            Ok(None) => spec_context_answer(carrier@) == Some(false),
            Ok(Some(_)) => spec_context_answer(carrier@) == Some(true),
        },
        found matches Ok(None) <==> !carries_context_field(carrier@),
{
    let fields: HashMap<&str, &[u8]> = carrier.fields.iter().map(
        |f| (f.name.as_str(), f.value.as_slice()),
    ).collect();
    SpanContext::extract_from_http_header(&fields)
}

} // verus!
