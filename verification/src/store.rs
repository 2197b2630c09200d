//! The trace store: what is known, per socket descriptor, about the exchange
//! in flight on that socket.
//!
//! The store is a plain value. Whoever shares it between threads guards it
//! with one lock and holds that lock across each call into this library.

use std::collections::HashMap;
use vstd::prelude::*;
use crate::endpoint::Endpoint;

verus! {

broadcast use vstd::std_specs::hash::group_hash_axioms;

/// A request that went out and waits for its response.
#[derive(Debug)]
pub struct PendingRequest {
    /// The request's header lines with the trace-context line appended.
    pub headers: Vec<u8>,
    /// The request's body as captured.
    pub body: Vec<u8>,
}

/// A pending request as contracts see it.
pub struct PendingView {
    pub headers: Seq<u8>,
    pub body: Seq<u8>,
}

impl View for PendingRequest {
    type V = PendingView;

    open spec fn view(&self) -> PendingView {
        PendingView { headers: self.headers@, body: self.body@ }
    }
}

/// What the store holds for one socket descriptor.
#[derive(Debug)]
pub struct Trace {
    /// Where the socket is connected to, once that is known.
    pub dst_addr: Option<Endpoint>,
    /// The request in flight, from its egress until its response is seen.
    pub pending: Option<PendingRequest>,
}

/// A store entry as contracts see it.
pub struct TraceView {
    pub dst_addr: Option<Endpoint>,
    pub pending: Option<PendingView>,
}

/// The view of an optional pending request.
pub open spec fn pending_view(pending: Option<PendingRequest>) -> Option<PendingView> {
    match pending {
        Some(p) => Some(p@),
        None => None,
    }
}

impl View for Trace {
    type V = TraceView;

    open spec fn view(&self) -> TraceView {
        TraceView { dst_addr: self.dst_addr, pending: pending_view(self.pending) }
    }
}

/// The entry a descriptor gets when it is first seen or seen anew: the
/// address given, and no request in flight.
pub open spec fn fresh_entry(addr: Option<Endpoint>) -> TraceView {
    TraceView { dst_addr: addr, pending: None }
}

/// Where a descriptor stands in its exchange.
#[derive(Clone, Copy, Debug, PartialEq, Eq, Structural)]
pub enum Phase {
    /// The store has no entry: the socket is not traced.
    Absent,
    /// The socket is tracked and no request has gone out.
    Addressed,
    /// A request went out and its span is open.
    AwaitingResponse,
}

/// The phase of `sockfd` in a store with contents `store`.
pub open spec fn phase_of(store: Map<i32, TraceView>, sockfd: i32) -> Phase {
    if !store.contains_key(sockfd) {
        Phase::Absent
    } else if store[sockfd].pending is None {
        Phase::Addressed
    } else {
        Phase::AwaitingResponse
    }
}

/// The trace store: at most one entry per socket descriptor.
pub struct Traces {
    pub inner: HashMap<i32, Trace>,
}

impl View for Traces {
    type V = Map<i32, TraceView>;

    open spec fn view(&self) -> Map<i32, TraceView> {
        self.inner@.map_values(|t: Trace| t@)
    }
}

impl Traces {
    /// An empty store.
    pub fn new() -> (store: Traces)
        ensures
            store@ == Map::<i32, TraceView>::empty(),
    {
        let store = Traces { inner: HashMap::new() };
        store
    }

    /// Whether the store has an entry for `sockfd`.
    pub fn contains(&self, sockfd: i32) -> (found: bool)
        ensures
            found == self@.contains_key(sockfd),
    {
        self.inner.contains_key(&sockfd)
    }

    /// The entry for `sockfd`, if there is one.
    pub fn get(&self, sockfd: i32) -> (entry: Option<&Trace>)
        ensures
            match entry {
                Some(trace) => self@.contains_key(sockfd) && self@[sockfd] == trace@,
                None => !self@.contains_key(sockfd),
            },
    {
        self.inner.get(&sockfd)
    }

    /// Puts `trace` under `sockfd`, in place of whatever was there.
    pub fn put(&mut self, sockfd: i32, trace: Trace)
        ensures
            final(self)@ == old(self)@.insert(sockfd, trace@),
    {
        self.inner.insert(sockfd, trace);
    }

    /// Puts `trace` under `sockfd` unless the descriptor already has an
    /// entry. Says whether it did.
    pub fn insert_if_absent(&mut self, sockfd: i32, trace: Trace) -> (inserted: bool)
        ensures
            inserted == !old(self)@.contains_key(sockfd),
            final(self)@ == if inserted {
                old(self)@.insert(sockfd, trace@)
            } else {
                old(self)@
            },
    {
        if self.inner.contains_key(&sockfd) {
            false
        } else {
            self.put(sockfd, trace);
            true
        }
    }

    /// Takes the entry for `sockfd` out of the store.
    pub fn remove(&mut self, sockfd: i32) -> (entry: Option<Trace>)
        ensures
            final(self)@ == old(self)@.remove(sockfd),
            match entry {
                Some(trace) => old(self)@.contains_key(sockfd) && old(self)@[sockfd] == trace@,
                None => !old(self)@.contains_key(sockfd),
            },
    {
        let entry = self.inner.remove(&sockfd);
        entry
    }

    /// The number of descriptors with an entry.
    pub fn len(&self) -> (n: usize)
        ensures
            n == self@.len(),
    {
        assert(self@.dom() =~= self.inner@.dom());
        self.inner.len()
    }
}

/// Starts the record for `sockfd` afresh: whatever the store held for the
/// descriptor is dropped, and the new entry has the given address and no
/// request in flight.
pub fn create_trace(sockfd: i32, t: &mut Traces, addr_in: Option<Endpoint>)
    ensures
        final(t)@ == old(t)@.insert(sockfd, fresh_entry(addr_in)),
{
    let trace = Trace { dst_addr: addr_in, pending: None };
    t.put(sockfd, trace);
}

/// What a creation or addressing event does to a store with contents
/// `store`.
///
/// A creation event, which comes without an address, starts the
/// descriptor's record afresh whether or not the descriptor is known: a
/// descriptor handed out anew takes nothing over from its last use. An
/// addressing event starts the record afresh with the address if the
/// descriptor is known, and registers nothing if it is not.
pub open spec fn add_trace_spec(
    store: Map<i32, TraceView>,
    sockfd: i32,
    addr_in: Option<Endpoint>,
) -> Map<i32, TraceView> {
    if addr_in is None || store.contains_key(sockfd) {
        store.insert(sockfd, fresh_entry(addr_in))
    } else {
        store
    }
}

/// Records a creation or addressing event for `sockfd`.
pub fn add_trace(sockfd: i32, addr_in: Option<Endpoint>, t: &mut Traces)
    ensures
        final(t)@ == add_trace_spec(old(t)@, sockfd, addr_in),
{
    if addr_in.is_none() || t.contains(sockfd) {
        create_trace(sockfd, t, addr_in);
    }
}

/// Recording one event twice in a row leaves what recording it once leaves.
/// For a descriptor that has an entry that is: the same descriptors have
/// entries as before, and the entry of `sockfd` is the fresh one.
pub proof fn law_addressing_is_idempotent(
    store: Map<i32, TraceView>,
    sockfd: i32,
    addr_in: Option<Endpoint>,
)
    ensures
        add_trace_spec(add_trace_spec(store, sockfd, addr_in), sockfd, addr_in) == add_trace_spec(
            store,
            sockfd,
            addr_in,
        ),
        store.contains_key(sockfd) ==> add_trace_spec(store, sockfd, addr_in).dom() == store.dom(),
        store.contains_key(sockfd) ==> add_trace_spec(store, sockfd, addr_in)[sockfd]
            == fresh_entry(addr_in),
{
}

/// An address binds only to a descriptor that is tracked: an addressing
/// event for a descriptor without an entry registers nothing, while a
/// creation event registers the descriptor in any case.
pub proof fn law_addressing_is_asymmetric(
    store: Map<i32, TraceView>,
    sockfd: i32,
    addr_in: Option<Endpoint>,
)
    ensures
        !store.contains_key(sockfd) && addr_in is Some ==> add_trace_spec(store, sockfd, addr_in)
            == store,
        addr_in is None ==> add_trace_spec(store, sockfd, addr_in) == store.insert(
            sockfd,
            fresh_entry(None),
        ),
{
}

/// A creation or addressing event on a descriptor that still has an entry
/// replaces the entry whole: the store is as if the leftover had never been
/// there, and no request is in flight on the descriptor.
pub proof fn law_recreation_replaces(
    store: Map<i32, TraceView>,
    sockfd: i32,
    leftover: TraceView,
    addr_in: Option<Endpoint>,
)
    ensures
        add_trace_spec(store.insert(sockfd, leftover), sockfd, addr_in) == store.insert(
            sockfd,
            fresh_entry(addr_in),
        ),
        phase_of(add_trace_spec(store.insert(sockfd, leftover), sockfd, addr_in), sockfd)
            == Phase::Addressed,
{
}

} // verus!
