use socktrace::endpoint::{from_libc_sockaddr, Endpoint};

fn inet4(a: [u8; 4], port: u16) -> Vec<u8> {
    let mut raw = vec![2u8, 0];
    raw.extend_from_slice(&port.to_be_bytes());
    raw.extend_from_slice(&a);
    raw.extend_from_slice(&[0u8; 8]);
    raw
}

fn inet6(a: [u8; 16], port: u16, flowinfo: u32, scope_id: u32) -> Vec<u8> {
    let mut raw = vec![10u8, 0];
    raw.extend_from_slice(&port.to_be_bytes());
    raw.extend_from_slice(&flowinfo.to_le_bytes());
    raw.extend_from_slice(&a);
    raw.extend_from_slice(&scope_id.to_le_bytes());
    raw
}

fn link(halen: u8, addr: [u8; 8]) -> Vec<u8> {
    let mut raw = vec![17u8, 0];
    raw.extend_from_slice(&0x0008u16.to_le_bytes());
    raw.extend_from_slice(&3u32.to_le_bytes());
    raw.extend_from_slice(&1u16.to_le_bytes());
    raw.push(4);
    raw.push(halen);
    raw.extend_from_slice(&addr);
    raw
}

#[test]
fn ipv4_address_is_classified() {
    let raw = inet4([93, 184, 216, 34], 80);
    assert_eq!(raw.len(), 16);
    assert_eq!(
        from_libc_sockaddr(Some(&raw)),
        Some(Endpoint::Inet4 { addr: [93, 184, 216, 34], port: 80 })
    );
    let high = inet4([10, 0, 0, 1], 0xabcd);
    assert_eq!(
        from_libc_sockaddr(Some(&high)),
        Some(Endpoint::Inet4 { addr: [10, 0, 0, 1], port: 0xabcd })
    );
}

#[test]
fn ipv6_address_is_classified() {
    let mut a = [0u8; 16];
    a[0] = 0x20;
    a[1] = 0x01;
    a[15] = 1;
    let raw = inet6(a, 8080, 0x01020304, 0x0a0b0c0d);
    assert_eq!(raw.len(), 28);
    assert_eq!(
        from_libc_sockaddr(Some(&raw)),
        Some(Endpoint::Inet6 { addr: a, port: 8080, flowinfo: 0x01020304, scope_id: 0x0a0b0c0d })
    );
}

#[test]
fn netlink_address_is_classified() {
    let mut raw = vec![16u8, 0, 0, 0];
    raw.extend_from_slice(&4321u32.to_le_bytes());
    raw.extend_from_slice(&0x8000_0001u32.to_le_bytes());
    assert_eq!(
        from_libc_sockaddr(Some(&raw)),
        Some(Endpoint::Netlink { pid: 4321, groups: 0x8000_0001 })
    );
}

#[test]
fn link_address_is_classified() {
    let raw = link(6, [1, 2, 3, 4, 5, 6, 0, 0]);
    assert_eq!(raw.len(), 20);
    assert_eq!(
        from_libc_sockaddr(Some(&raw)),
        Some(Endpoint::Link {
            protocol: 8,
            ifindex: 3,
            hatype: 1,
            pkttype: 4,
            halen: 6,
            addr: [1, 2, 3, 4, 5, 6, 0, 0],
        })
    );
}

#[test]
fn vsock_address_is_classified() {
    let mut raw = vec![40u8, 0, 0, 0];
    raw.extend_from_slice(&5000u32.to_le_bytes());
    raw.extend_from_slice(&3u32.to_le_bytes());
    raw.extend_from_slice(&[0u8; 4]);
    assert_eq!(from_libc_sockaddr(Some(&raw)), Some(Endpoint::Vsock { cid: 3, port: 5000 }));
}

#[test]
fn empty_link_address_is_absent() {
    assert_eq!(from_libc_sockaddr(Some(&link(0, [0; 8]))), None);
    assert_eq!(from_libc_sockaddr(Some(&link(0, [1, 2, 3, 4, 5, 6, 0, 0]))), None);
}

#[test]
fn unix_address_is_absent() {
    let mut raw = vec![1u8, 0];
    raw.extend_from_slice(b"/tmp/socket\0");
    raw.resize(110, 0);
    assert_eq!(from_libc_sockaddr(Some(&raw)), None);
}

#[test]
fn unknown_family_is_absent() {
    for tag in [0u16, 3, 9, 11, 15, 18, 39, 41, 255, 256 + 2, 0xffff] {
        let mut raw = tag.to_le_bytes().to_vec();
        raw.resize(128, 7);
        assert_eq!(from_libc_sockaddr(Some(&raw)), None, "tag {}", tag);
    }
}

#[test]
fn missing_address_is_absent() {
    assert_eq!(from_libc_sockaddr(None), None);
    assert_eq!(from_libc_sockaddr(Some(&[])), None);
    assert_eq!(from_libc_sockaddr(Some(&[2])), None);
}

#[test]
fn truncated_address_is_absent() {
    let v4 = inet4([127, 0, 0, 1], 80);
    assert_eq!(from_libc_sockaddr(Some(&v4[..15])), None);
    let v6 = inet6([0; 16], 80, 0, 0);
    assert_eq!(from_libc_sockaddr(Some(&v6[..27])), None);
    let ll = link(6, [1; 8]);
    assert_eq!(from_libc_sockaddr(Some(&ll[..19])), None);
    let mut nl = vec![16u8, 0, 0, 0];
    nl.extend_from_slice(&[0u8; 7]);
    assert_eq!(from_libc_sockaddr(Some(&nl)), None);
    let mut vm = vec![40u8, 0, 0, 0];
    vm.extend_from_slice(&[0u8; 11]);
    assert_eq!(from_libc_sockaddr(Some(&vm)), None);
}

#[test]
fn longer_buffer_is_read_by_its_family_layout() {
    let mut raw = inet4([1, 2, 3, 4], 443);
    raw.extend_from_slice(&[9u8; 100]);
    assert_eq!(
        from_libc_sockaddr(Some(&raw)),
        Some(Endpoint::Inet4 { addr: [1, 2, 3, 4], port: 443 })
    );
}

#[test]
fn ipv4_endpoint_text() {
    let e = Endpoint::Inet4 { addr: [93, 184, 216, 34], port: 80 };
    assert_eq!(e.to_text(), b"93.184.216.34:80".to_vec());
}

#[test]
fn ipv6_endpoint_text() {
    let mut a = [0u8; 16];
    a[15] = 1;
    let e = Endpoint::Inet6 { addr: a, port: 8080, flowinfo: 0, scope_id: 0 };
    assert_eq!(e.to_text(), b"[::1]:8080".to_vec());
}

#[test]
fn netlink_endpoint_text() {
    let e = Endpoint::Netlink { pid: 12, groups: 3 };
    assert_eq!(e.to_text(), b"pid: 12 groups: 3".to_vec());
}

#[test]
fn link_endpoint_text() {
    let e = Endpoint::Link {
        protocol: 8,
        ifindex: 3,
        hatype: 1,
        pkttype: 4,
        halen: 6,
        addr: [0x00, 0x1b, 0x2c, 0x3d, 0x4e, 0xff, 0, 0],
    };
    assert_eq!(e.to_text(), b"00:1b:2c:3d:4e:ff".to_vec());
}

#[test]
fn vsock_endpoint_text() {
    let e = Endpoint::Vsock { cid: 3, port: 5000 };
    assert_eq!(e.to_text(), b"cid: 3 port: 5000".to_vec());
}
