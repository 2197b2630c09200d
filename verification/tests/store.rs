use socktrace::endpoint::Endpoint;
use socktrace::store::{PendingRequest, Trace};
use socktrace::{add_trace, create_trace, Traces};

fn peer(last: u8) -> Endpoint {
    Endpoint::Inet4 { addr: [10, 0, 0, last], port: 80 }
}

#[test]
fn new_store_is_empty() {
    let t = Traces::new();
    assert_eq!(t.len(), 0);
    assert!(!t.contains(7));
    assert!(t.get(7).is_none());
}

#[test]
fn create_trace_registers_the_descriptor() {
    let mut t = Traces::new();
    create_trace(7, &mut t, Some(peer(1)));
    assert!(t.contains(7));
    assert_eq!(t.len(), 1);
    let entry = t.get(7).unwrap();
    assert_eq!(entry.dst_addr, Some(peer(1)));
    assert!(entry.pending.is_none());
}

#[test]
fn creation_without_address_registers_a_new_descriptor() {
    let mut t = Traces::new();
    add_trace(7, None, &mut t);
    assert!(t.contains(7));
    assert_eq!(t.get(7).unwrap().dst_addr, None);
}

#[test]
fn creation_starts_a_known_descriptor_afresh() {
    let mut t = Traces::new();
    create_trace(7, &mut t, Some(peer(1)));
    add_trace(7, None, &mut t);
    let entry = t.get(7).unwrap();
    assert_eq!(entry.dst_addr, None);
    assert!(entry.pending.is_none());
    assert_eq!(t.len(), 1);
}

#[test]
fn creation_drops_the_leftover_request() {
    let mut t = Traces::new();
    t.put(
        7,
        Trace {
            dst_addr: Some(peer(1)),
            pending: Some(PendingRequest { headers: b"stale".to_vec(), body: b"old".to_vec() }),
        },
    );
    t.put(8, Trace { dst_addr: Some(peer(2)), pending: None });
    add_trace(7, None, &mut t);
    let entry = t.get(7).unwrap();
    assert_eq!(entry.dst_addr, None);
    assert!(entry.pending.is_none());
    assert_eq!(t.get(8).unwrap().dst_addr, Some(peer(2)));
    assert_eq!(t.len(), 2);
}

#[test]
fn creation_twice_makes_no_second_entry() {
    let mut t = Traces::new();
    add_trace(7, None, &mut t);
    add_trace(7, None, &mut t);
    assert_eq!(t.len(), 1);
    assert_eq!(t.get(7).unwrap().dst_addr, None);
}

#[test]
fn address_for_an_unknown_descriptor_registers_nothing() {
    let mut t = Traces::new();
    add_trace(7, Some(peer(1)), &mut t);
    assert!(!t.contains(7));
    assert_eq!(t.len(), 0);
}

#[test]
fn address_for_a_known_descriptor_replaces_its_endpoint() {
    let mut t = Traces::new();
    add_trace(7, None, &mut t);
    add_trace(7, Some(peer(1)), &mut t);
    assert_eq!(t.get(7).unwrap().dst_addr, Some(peer(1)));
    add_trace(7, Some(peer(2)), &mut t);
    assert_eq!(t.get(7).unwrap().dst_addr, Some(peer(2)));
    assert_eq!(t.len(), 1);
}

#[test]
fn addressing_twice_with_one_address_makes_no_second_entry() {
    let mut t = Traces::new();
    add_trace(7, None, &mut t);
    add_trace(9, None, &mut t);
    add_trace(7, Some(peer(1)), &mut t);
    add_trace(7, Some(peer(1)), &mut t);
    assert_eq!(t.len(), 2);
    assert_eq!(t.get(7).unwrap().dst_addr, Some(peer(1)));
    assert_eq!(t.get(9).unwrap().dst_addr, None);
}

#[test]
fn recreation_drops_the_leftover_request() {
    let mut t = Traces::new();
    t.put(
        7,
        Trace {
            dst_addr: Some(peer(1)),
            pending: Some(PendingRequest { headers: b"stale".to_vec(), body: b"old".to_vec() }),
        },
    );
    create_trace(7, &mut t, Some(peer(2)));
    let entry = t.get(7).unwrap();
    assert_eq!(entry.dst_addr, Some(peer(2)));
    assert!(entry.pending.is_none());
    assert_eq!(t.len(), 1);
}

#[test]
fn readdressing_drops_the_leftover_request() {
    let mut t = Traces::new();
    t.put(
        7,
        Trace {
            dst_addr: None,
            pending: Some(PendingRequest { headers: b"stale".to_vec(), body: Vec::new() }),
        },
    );
    add_trace(7, Some(peer(3)), &mut t);
    let entry = t.get(7).unwrap();
    assert_eq!(entry.dst_addr, Some(peer(3)));
    assert!(entry.pending.is_none());
}

#[test]
fn insert_if_absent_keeps_the_first_entry() {
    let mut t = Traces::new();
    assert!(t.insert_if_absent(7, Trace { dst_addr: Some(peer(1)), pending: None }));
    assert!(!t.insert_if_absent(7, Trace { dst_addr: Some(peer(2)), pending: None }));
    assert_eq!(t.get(7).unwrap().dst_addr, Some(peer(1)));
    assert_eq!(t.len(), 1);
}

#[test]
fn remove_takes_the_entry_out() {
    let mut t = Traces::new();
    create_trace(7, &mut t, Some(peer(1)));
    create_trace(8, &mut t, None);
    let taken = t.remove(7).unwrap();
    assert_eq!(taken.dst_addr, Some(peer(1)));
    assert!(!t.contains(7));
    assert!(t.contains(8));
    assert!(t.remove(7).is_none());
    assert_eq!(t.len(), 1);
}

#[test]
fn negative_descriptors_are_keys_like_any_other() {
    let mut t = Traces::new();
    add_trace(-1, None, &mut t);
    assert!(t.contains(-1));
    assert!(!t.contains(1));
}
