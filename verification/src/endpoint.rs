//! Address classification: decoding a raw socket address into a typed
//! endpoint, by address family.
//!
//! A raw address is the byte image of a `sockaddr` as Linux lays it out: two
//! bytes of family tag in host order, then a family-specific body. Host-order
//! fields are read little-endian, the byte order of the targets this agent
//! is built for; network-order fields are read big-endian.

use vstd::prelude::*;
use crate::bytes::decimal;

verus! {

/// The address families the classifier tells apart.
#[derive(Clone, Copy, Debug, PartialEq, Eq, Structural)]
pub enum Family {
    Unix,
    Inet,
    Inet6,
    Netlink,
    Packet,
    Vsock,
}

/// A classified destination address.
#[derive(Clone, Copy, Debug, PartialEq, Eq)]
#[allow(inconsistent_fields)]
pub enum Endpoint {
    /// IPv4 address and port.
    Inet4 { addr: [u8; 4], port: u16 },
    /// IPv6 address and port, with flow information and scope.
    Inet6 { addr: [u8; 16], port: u16, flowinfo: u32, scope_id: u32 },
    /// Netlink port id and multicast group mask.
    Netlink { pid: u32, groups: u32 },
    /// Link-layer (hardware) address.
    Link { protocol: u16, ifindex: u32, hatype: u16, pkttype: u8, halen: u8, addr: [u8; 8] },
    /// Kernel virtual-socket context id and port.
    Vsock { cid: u32, port: u32 },
}

/// Size in bytes of the family tag at the start of every raw address.
pub const TAG_LEN: usize = 2;

/// Size in bytes of a raw IPv4 address.
pub const INET_LEN: usize = 16;

/// Size in bytes of a raw IPv6 address.
pub const INET6_LEN: usize = 28;

/// Size in bytes of a raw netlink address.
pub const NETLINK_LEN: usize = 12;

/// Size in bytes of a raw link-layer address.
pub const LINK_LEN: usize = 20;

/// Size in bytes of a raw virtual-socket address.
pub const VSOCK_LEN: usize = 16;

/// The tag of the Unix-domain family on Linux.
pub const AF_UNIX: i32 = 1;

/// The tag of the IPv4 family on Linux.
pub const AF_INET: i32 = 2;

/// The tag of the IPv6 family on Linux.
pub const AF_INET6: i32 = 10;

/// The tag of the netlink family on Linux.
pub const AF_NETLINK: i32 = 16;

/// The tag of the link-layer packet family on Linux.
pub const AF_PACKET: i32 = 17;

/// The tag of the virtual-socket family on Linux.
pub const AF_VSOCK: i32 = 40;

/// The family a tag stands for on Linux, if it is one the classifier knows.
pub open spec fn family_of(tag: i32) -> Option<Family> {
    if tag == AF_UNIX {
        Some(Family::Unix)
    } else if tag == AF_INET {
        Some(Family::Inet)
    } else if tag == AF_INET6 {
        Some(Family::Inet6)
    } else if tag == AF_NETLINK {
        Some(Family::Netlink)
    } else if tag == AF_PACKET {
        Some(Family::Packet)
    } else if tag == AF_VSOCK {
        Some(Family::Vsock)
    } else {
        None
    }
}

/// Asks `nix::sys::socket::AddressFamily::from_i32` which family `tag`
/// names. Trusted: on Linux that function answers for exactly the six
/// families below, under libc's `AF_UNIX`, `AF_INET`, `AF_INET6`,
/// `AF_NETLINK`, `AF_PACKET` and `AF_VSOCK`, and for no other tag.
#[verifier::external_body]
fn address_family(tag: i32) -> (family: Option<Family>)
    ensures
        family == family_of(tag),
{
    match nix::sys::socket::AddressFamily::from_i32(tag) {
        Some(nix::sys::socket::AddressFamily::Unix) => Some(Family::Unix),
        Some(nix::sys::socket::AddressFamily::Inet) => Some(Family::Inet),
        Some(nix::sys::socket::AddressFamily::Inet6) => Some(Family::Inet6),
        Some(nix::sys::socket::AddressFamily::Netlink) => Some(Family::Netlink),
        Some(nix::sys::socket::AddressFamily::Packet) => Some(Family::Packet),
        Some(nix::sys::socket::AddressFamily::Vsock) => Some(Family::Vsock),
        _ => None,
    }
}

/// The value of two bytes read little-endian.
pub open spec fn le16(b0: u8, b1: u8) -> int {
    b0 + b1 * 0x100
}

/// The value of two bytes read big-endian.
pub open spec fn be16(b0: u8, b1: u8) -> int {
    b0 * 0x100 + b1
}

/// The value of four bytes read little-endian.
pub open spec fn le32(b0: u8, b1: u8, b2: u8, b3: u8) -> int {
    b0 + b1 * 0x100 + b2 * 0x1_0000 + b3 * 0x100_0000
}

/// The value of the four bytes of `buf` that start at `at`, little-endian.
pub open spec fn le32_at(buf: Seq<u8>, at: int) -> int {
    le32(buf[at], buf[at + 1], buf[at + 2], buf[at + 3])
}

/// The family tag a raw address declares.
pub open spec fn declared_tag(buf: Seq<u8>) -> int {
    le16(buf[0], buf[1])
}

/// The family a raw address declares, if the buffer holds a tag and the tag
/// names a known family.
pub open spec fn declared_family(buf: Seq<u8>) -> Option<Family> {
    if buf.len() >= TAG_LEN {
        family_of(declared_tag(buf) as i32)
    } else {
        None
    }
}

/// Whether `e` is what the raw address `buf` decodes to.
pub open spec fn decodes_to(buf: Seq<u8>, e: Endpoint) -> bool {
    match e {
        Endpoint::Inet4 { addr, port } => {
            &&& declared_family(buf) == Some(Family::Inet)
            &&& buf.len() >= INET_LEN
            &&& port == be16(buf[2], buf[3])
            &&& addr@ == buf.subrange(4, 8)
        },
        Endpoint::Inet6 { addr, port, flowinfo, scope_id } => {
            &&& declared_family(buf) == Some(Family::Inet6)
            &&& buf.len() >= INET6_LEN
            &&& port == be16(buf[2], buf[3])
            &&& flowinfo == le32_at(buf, 4)
            &&& addr@ == buf.subrange(8, 24)
            &&& scope_id == le32_at(buf, 24)
        },
        Endpoint::Netlink { pid, groups } => {
            &&& declared_family(buf) == Some(Family::Netlink)
            &&& buf.len() >= NETLINK_LEN
            &&& pid == le32_at(buf, 4)
            &&& groups == le32_at(buf, 8)
        },
        Endpoint::Link { protocol, ifindex, hatype, pkttype, halen, addr } => {
            &&& declared_family(buf) == Some(Family::Packet)
            &&& buf.len() >= LINK_LEN
            &&& protocol == le16(buf[2], buf[3])
            &&& ifindex == le32_at(buf, 4)
            &&& hatype == le16(buf[8], buf[9])
            &&& pkttype == buf[10]
            &&& halen == buf[11]
            &&& halen != 0
            &&& addr@ == buf.subrange(12, 20)
        },
        Endpoint::Vsock { cid, port } => {
            &&& declared_family(buf) == Some(Family::Vsock)
            &&& buf.len() >= VSOCK_LEN
            &&& port == le32_at(buf, 4)
            &&& cid == le32_at(buf, 8)
        },
    }
}

/// Whether the raw address `buf` names an endpoint at all: its family is one
/// of the five that are traced, the buffer is as long as that family's
/// layout, and a link-layer address is not empty.
pub open spec fn classifiable(buf: Seq<u8>) -> bool {
    match declared_family(buf) {
        Some(Family::Inet) => buf.len() >= INET_LEN,
        Some(Family::Inet6) => buf.len() >= INET6_LEN,
        Some(Family::Netlink) => buf.len() >= NETLINK_LEN,
        Some(Family::Packet) => buf.len() >= LINK_LEN && buf[11] != 0,
        Some(Family::Vsock) => buf.len() >= VSOCK_LEN,
        Some(Family::Unix) => false,
        None => false,
    }
}

fn read_le16(buf: &[u8], at: usize) -> (v: u16)
    requires
        at + 2 <= buf.len(),
    ensures
        v == le16(buf[at as int], buf[at + 1]),
{
    let lo: u16 = buf[at] as u16;
    let hi: u16 = buf[at + 1] as u16;
    lo + hi * 0x100
}

fn read_be16(buf: &[u8], at: usize) -> (v: u16)
    requires
        at + 2 <= buf.len(),
    ensures
        v == be16(buf[at as int], buf[at + 1]),
{
    let hi: u16 = buf[at] as u16;
    let lo: u16 = buf[at + 1] as u16;
    hi * 0x100 + lo
}

fn read_le32(buf: &[u8], at: usize) -> (v: u32)
    requires
        at + 4 <= buf.len(),
    ensures
        v == le32_at(buf@, at as int),
{
    let b0: u32 = buf[at] as u32;
    let b1: u32 = buf[at + 1] as u32;
    let b2: u32 = buf[at + 2] as u32;
    let b3: u32 = buf[at + 3] as u32;
    b0 + b1 * 0x100 + b2 * 0x1_0000 + b3 * 0x100_0000
}

fn read4(buf: &[u8], at: usize) -> (out: [u8; 4])
    requires
        at + 4 <= buf.len(),
    ensures
        out@ == buf@.subrange(at as int, at + 4),
{
    let out = [buf[at], buf[at + 1], buf[at + 2], buf[at + 3]];
    out
}

fn read8(buf: &[u8], at: usize) -> (out: [u8; 8])
    requires
        at + 8 <= buf.len(),
    ensures
        out@ == buf@.subrange(at as int, at + 8),
{
    let out = [
        buf[at],
        buf[at + 1],
        buf[at + 2],
        buf[at + 3],
        buf[at + 4],
        buf[at + 5],
        buf[at + 6],
        buf[at + 7],
    ];
    out
}

fn read16(buf: &[u8], at: usize) -> (out: [u8; 16])
    requires
        at + 16 <= buf.len(),
    ensures
        out@ == buf@.subrange(at as int, at + 16),
{
    let out = [
        buf[at],
        buf[at + 1],
        buf[at + 2],
        buf[at + 3],
        buf[at + 4],
        buf[at + 5],
        buf[at + 6],
        buf[at + 7],
        buf[at + 8],
        buf[at + 9],
        buf[at + 10],
        buf[at + 11],
        buf[at + 12],
        buf[at + 13],
        buf[at + 14],
        buf[at + 15],
    ];
    out
}

/// The lower-case hexadecimal digit for `d`.
pub open spec fn hex_digit(d: nat) -> u8
    recommends
        d < 16,
{
    if d < 10 {
        (0x30 + d) as u8
    } else {
        (0x57 + d) as u8
    }
}

/// A byte as two lower-case hexadecimal digits.
pub open spec fn hex_pair(b: u8) -> Seq<u8> {
    seq![hex_digit(b as nat / 16), hex_digit(b as nat % 16)]
}

/// The text `.`.
pub open spec fn dot() -> Seq<u8> {
    seq![0x2eu8]
}

/// The text `:`.
pub open spec fn colon() -> Seq<u8> {
    seq![0x3au8]
}

/// The text `pid: `.
pub open spec fn pid_label() -> Seq<u8> {
    seq![0x70u8, 0x69u8, 0x64u8, 0x3au8, 0x20u8]
}

/// The text ` groups: `.
pub open spec fn groups_label() -> Seq<u8> {
    seq![0x20u8, 0x67u8, 0x72u8, 0x6fu8, 0x75u8, 0x70u8, 0x73u8, 0x3au8, 0x20u8]
}

/// The text `cid: `.
pub open spec fn cid_label() -> Seq<u8> {
    seq![0x63u8, 0x69u8, 0x64u8, 0x3au8, 0x20u8]
}

/// The text ` port: `.
pub open spec fn port_label() -> Seq<u8> {
    seq![0x20u8, 0x70u8, 0x6fu8, 0x72u8, 0x74u8, 0x3au8, 0x20u8]
}

/// The text of an IPv4 socket address: the four address bytes in decimal
/// with dots between them, a colon, the port in decimal.
pub open spec fn inet4_text_of(addr: Seq<u8>, port: u16) -> Seq<u8> {
    decimal(addr[0] as nat) + dot() + decimal(addr[1] as nat) + dot() + decimal(addr[2] as nat)
        + dot() + decimal(addr[3] as nat) + colon() + decimal(port as nat)
}

/// The text std renders the IPv6 address with the sixteen bytes `addr` as.
pub uninterp spec fn spec_ipv6_text(addr: Seq<u8>) -> Seq<u8>;

/// The text of an IPv6 socket address whose address part reads `ip`: the
/// address in square brackets, a colon, the port in decimal.
pub open spec fn inet6_text_of(ip: Seq<u8>, port: u16) -> Seq<u8> {
    seq![0x5bu8] + ip + seq![0x5du8] + colon() + decimal(port as nat)
}

/// The text of a netlink address: port id and group mask in decimal, each
/// behind its label.
pub open spec fn netlink_text_of(pid: u32, groups: u32) -> Seq<u8> {
    pid_label() + decimal(pid as nat) + groups_label() + decimal(groups as nat)
}

/// The text of a link-layer address: the first six bytes of the hardware
/// address, two hexadecimal digits each, with colons between them.
pub open spec fn link_text_of(addr: Seq<u8>) -> Seq<u8> {
    hex_pair(addr[0]) + colon() + hex_pair(addr[1]) + colon() + hex_pair(addr[2]) + colon()
        + hex_pair(addr[3]) + colon() + hex_pair(addr[4]) + colon() + hex_pair(addr[5])
}

/// The text of a virtual-socket address: context id and port in decimal,
/// each behind its label.
pub open spec fn vsock_text_of(cid: u32, port: u32) -> Seq<u8> {
    cid_label() + decimal(cid as nat) + port_label() + decimal(port as nat)
}

/// Renders an IPv4 address and port with `nix`'s `Display` for `InetAddr`.
/// Trusted: `nix` writes the four address bytes in decimal with dots between
/// them, then a colon and the port in decimal.
#[verifier::external_body]
fn inet4_text(addr: &[u8; 4], port: u16) -> (text: Vec<u8>)
    ensures
        text@ == inet4_text_of(addr@, port),
{
    let ip = nix::sys::socket::IpAddr::new_v4(addr[0], addr[1], addr[2], addr[3]);
    nix::sys::socket::InetAddr::new(ip, port).to_string().into_bytes()
}

/// Renders an IPv6 address and port with `nix`'s `Display` for `InetAddr`.
/// Trusted: `nix` writes the address as std renders it, in square brackets,
/// then a colon and the port in decimal; and std's text of the address
/// depends on the sixteen address bytes alone.
#[verifier::external_body]
fn inet6_text(addr: &[u8; 16], port: u16) -> (text: Vec<u8>)
    ensures
        text@ == inet6_text_of(spec_ipv6_text(addr@), port),
{
    let ip = nix::sys::socket::Ipv6Addr(libc::in6_addr { s6_addr: *addr });
    nix::sys::socket::InetAddr::new(nix::sys::socket::IpAddr::V6(ip), port).to_string().into_bytes()
}

/// Renders a netlink address with `nix`'s `Display` for `NetlinkAddr`.
/// Trusted: `nix` writes `pid: `, the port id in decimal, ` groups: `, the
/// group mask in decimal.
#[verifier::external_body]
fn netlink_text(pid: u32, groups: u32) -> (text: Vec<u8>)
    ensures
        text@ == netlink_text_of(pid, groups),
{
    nix::sys::socket::NetlinkAddr::new(pid, groups).to_string().into_bytes()
}

/// Renders a link-layer address with `nix`'s `Display` for `LinkAddr`.
/// Trusted: `nix` writes the first six bytes of the hardware address, two
/// lower-case hexadecimal digits each, with colons between them, and looks
/// at no other field.
#[verifier::external_body]
fn link_text(protocol: u16, ifindex: u32, hatype: u16, pkttype: u8, halen: u8, addr: &[u8; 8]) -> (text:
    Vec<u8>)
    ensures
        text@ == link_text_of(addr@),
{
    nix::sys::socket::LinkAddr(
        libc::sockaddr_ll {
            sll_family: libc::AF_PACKET as u16,
            sll_protocol: protocol,
            sll_ifindex: ifindex as i32,
            sll_hatype: hatype,
            sll_pkttype: pkttype,
            sll_halen: halen,
            sll_addr: *addr,
        },
    ).to_string().into_bytes()
}

/// Renders a virtual-socket address with `nix`'s `Display` for `VsockAddr`.
/// Trusted: `nix` writes `cid: `, the context id in decimal, ` port: `, the
/// port in decimal.
#[verifier::external_body]
fn vsock_text(cid: u32, port: u32) -> (text: Vec<u8>)
    ensures
        text@ == vsock_text_of(cid, port),
{
    nix::sys::socket::VsockAddr::new(cid, port).to_string().into_bytes()
}

/// The canonical text of an endpoint. It serves to tag spans and plays no
/// part in telling sockets apart.
pub open spec fn endpoint_text(e: Endpoint) -> Seq<u8> {
    match e {
        Endpoint::Inet4 { addr, port } => inet4_text_of(addr@, port),
        Endpoint::Inet6 { addr, port, flowinfo, scope_id } => inet6_text_of(
            spec_ipv6_text(addr@),
            port,
        ),
        Endpoint::Netlink { pid, groups } => netlink_text_of(pid, groups),
        Endpoint::Link { protocol, ifindex, hatype, pkttype, halen, addr } => link_text_of(addr@),
        Endpoint::Vsock { cid, port } => vsock_text_of(cid, port),
    }
}

impl Endpoint {
    /// Renders the endpoint as text.
    pub fn to_text(&self) -> (text: Vec<u8>)
        ensures
            text@ == endpoint_text(*self),
    {
        match self {
            Endpoint::Inet4 { addr, port } => inet4_text(addr, *port),
            Endpoint::Inet6 { addr, port, flowinfo: _, scope_id: _ } => inet6_text(addr, *port),
            Endpoint::Netlink { pid, groups } => netlink_text(*pid, *groups),
            Endpoint::Link { protocol, ifindex, hatype, pkttype, halen, addr } => link_text(
                *protocol,
                *ifindex,
                *hatype,
                *pkttype,
                *halen,
                addr,
            ),
            Endpoint::Vsock { cid, port } => vsock_text(*cid, *port),
        }
    }
}

/// Classifies a raw socket address.
///
/// `None` stands for every address that is not traced: no address at all, a
/// buffer too short for its tag or for the layout its tag declares, the
/// Unix-domain family, an unknown family, and an empty link-layer address.
/// The tag is read and checked against the buffer's length before any other
/// byte is looked at.
///
/// The buffer is read as a little-endian host lays it out: the family tag
/// and every other host-order field (flow information, scope, netlink and
/// virtual-socket numbers, the link-layer header) low byte first, ports
/// high byte first. On a big-endian host the tag itself would be misread.
pub fn from_libc_sockaddr(addr: Option<&[u8]>) -> (endpoint: Option<Endpoint>)
    ensures
        endpoint is Some <==> (addr matches Some(buf) && classifiable(buf@)),
        endpoint matches Some(e) ==> decodes_to(addr.unwrap()@, e),
{
    let buf = match addr {
        Some(buf) => buf,
        None => { return None; },
    };
    if buf.len() < TAG_LEN {
        return None;
    }
    let tag: u16 = read_le16(buf, 0);
    match address_family(tag as i32) {
        Some(Family::Inet) => {
            if buf.len() < INET_LEN {
                return None;
            }
            Some(Endpoint::Inet4 { addr: read4(buf, 4), port: read_be16(buf, 2) })
        },
        Some(Family::Inet6) => {
            if buf.len() < INET6_LEN {
                return None;
            }
            Some(
                Endpoint::Inet6 {
                    addr: read16(buf, 8),
                    port: read_be16(buf, 2),
                    flowinfo: read_le32(buf, 4),
                    scope_id: read_le32(buf, 24),
                },
            )
        },
        Some(Family::Netlink) => {
            if buf.len() < NETLINK_LEN {
                return None;
            }
            Some(Endpoint::Netlink { pid: read_le32(buf, 4), groups: read_le32(buf, 8) })
        },
        Some(Family::Packet) => {
            if buf.len() < LINK_LEN {
                return None;
            }
            let halen: u8 = buf[11];
            if halen == 0 {
                return None;
            }
            Some(
                Endpoint::Link {
                    protocol: read_le16(buf, 2),
                    ifindex: read_le32(buf, 4),
                    hatype: read_le16(buf, 8),
                    pkttype: buf[10],
                    halen,
                    addr: read8(buf, 12),
                },
            )
        },
        Some(Family::Vsock) => {
            if buf.len() < VSOCK_LEN {
                return None;
            }
            Some(Endpoint::Vsock { cid: read_le32(buf, 8), port: read_le32(buf, 4) })
        },
        Some(Family::Unix) => None,
        None => None,
    }
}

/// The low byte of `x`.
pub open spec fn byte0(x: int) -> u8 {
    (x % 0x100) as u8
}

/// The second byte of `x`, counted from the low end.
pub open spec fn byte1(x: int) -> u8 {
    ((x / 0x100) % 0x100) as u8
}

/// The third byte of `x`, counted from the low end.
pub open spec fn byte2(x: int) -> u8 {
    ((x / 0x1_0000) % 0x100) as u8
}

/// The fourth byte of `x`, counted from the low end.
pub open spec fn byte3(x: int) -> u8 {
    ((x / 0x100_0000) % 0x100) as u8
}

/// The two bytes of `x`, low byte first.
pub open spec fn le16_bytes(x: int) -> Seq<u8> {
    seq![byte0(x), byte1(x)]
}

/// The two bytes of `x`, high byte first.
pub open spec fn be16_bytes(x: int) -> Seq<u8> {
    seq![byte1(x), byte0(x)]
}

/// The four bytes of `x`, low byte first.
pub open spec fn le32_bytes(x: int) -> Seq<u8> {
    seq![byte0(x), byte1(x), byte2(x), byte3(x)]
}

/// The raw address an endpoint is written as: the family tag, then the
/// family's layout with padding bytes zero.
pub open spec fn raw_image(e: Endpoint) -> Seq<u8> {
    match e {
        Endpoint::Inet4 { addr, port } => le16_bytes(AF_INET as int) + be16_bytes(port as int) + addr@
            + Seq::new(8, |i: int| 0u8),
        Endpoint::Inet6 { addr, port, flowinfo, scope_id } => le16_bytes(AF_INET6 as int) + be16_bytes(
            port as int,
        ) + le32_bytes(flowinfo as int) + addr@ + le32_bytes(scope_id as int),
        Endpoint::Netlink { pid, groups } => le16_bytes(AF_NETLINK as int) + seq![0u8, 0u8] + le32_bytes(
            pid as int,
        ) + le32_bytes(groups as int),
        Endpoint::Link { protocol, ifindex, hatype, pkttype, halen, addr } => le16_bytes(AF_PACKET as int)
            + le16_bytes(protocol as int) + le32_bytes(ifindex as int) + le16_bytes(hatype as int)
            + seq![pkttype, halen] + addr@,
        Endpoint::Vsock { cid, port } => le16_bytes(AF_VSOCK as int) + seq![0u8, 0u8] + le32_bytes(port as int)
            + le32_bytes(cid as int) + Seq::new(4, |i: int| 0u8),
    }
}

/// Whether an endpoint can be the result of classification: a link-layer
/// endpoint has a hardware address of some length.
pub open spec fn well_formed(e: Endpoint) -> bool {
    e matches Endpoint::Link { halen, .. } ==> halen != 0
}

/// A raw address decodes to at most one endpoint.
pub proof fn law_decoding_is_unique(buf: Seq<u8>, e1: Endpoint, e2: Endpoint)
    requires
        decodes_to(buf, e1),
        decodes_to(buf, e2),
    ensures
        e1 == e2,
{
    broadcast use vstd::array::group_array_axioms;

    match (e1, e2) {
        (Endpoint::Inet4 { addr: a1, .. }, Endpoint::Inet4 { addr: a2, .. }) => {
            assert(a1 =~= a2);
        },
        (Endpoint::Inet6 { addr: a1, .. }, Endpoint::Inet6 { addr: a2, .. }) => {
            assert(a1 =~= a2);
        },
        (Endpoint::Link { addr: a1, .. }, Endpoint::Link { addr: a2, .. }) => {
            assert(a1 =~= a2);
        },
        _ => {},
    }
}

/// A raw address names an endpoint exactly when some endpoint is its
/// decoding, and the decoding is of the variant its family calls for.
pub proof fn law_family_decides_variant(buf: Seq<u8>, e: Endpoint)
    requires
        decodes_to(buf, e),
    ensures
        classifiable(buf),
        declared_family(buf) == Some(Family::Inet) <==> e is Inet4,
        declared_family(buf) == Some(Family::Inet6) <==> e is Inet6,
        declared_family(buf) == Some(Family::Netlink) <==> e is Netlink,
        declared_family(buf) == Some(Family::Packet) <==> e is Link,
        declared_family(buf) == Some(Family::Vsock) <==> e is Vsock,
{
}

proof fn lemma_le16_bytes(x: int)
    requires
        0 <= x < 0x1_0000,
    ensures
        le16(byte0(x), byte1(x)) == x,
        be16(byte1(x), byte0(x)) == x,
{
}

proof fn lemma_le32_bytes(x: int)
    requires
        0 <= x < 0x1_0000_0000,
    ensures
        le32(byte0(x), byte1(x), byte2(x), byte3(x)) == x,
{
}

proof fn lemma_inet4_round_trips(addr: [u8; 4], port: u16)
    ensures
        decodes_to(raw_image(Endpoint::Inet4 { addr, port }), Endpoint::Inet4 { addr, port }),
{
    broadcast use vstd::array::group_array_axioms;

    lemma_le16_bytes(port as int);
    assert(addr@ =~= raw_image(Endpoint::Inet4 { addr, port }).subrange(4, 8));
}

proof fn lemma_inet6_round_trips(addr: [u8; 16], port: u16, flowinfo: u32, scope_id: u32)
    ensures
        decodes_to(
            raw_image(Endpoint::Inet6 { addr, port, flowinfo, scope_id }),
            Endpoint::Inet6 { addr, port, flowinfo, scope_id },
        ),
{
    broadcast use vstd::array::group_array_axioms;

    let buf = raw_image(Endpoint::Inet6 { addr, port, flowinfo, scope_id });
    lemma_le16_bytes(port as int);
    lemma_le32_bytes(flowinfo as int);
    lemma_le32_bytes(scope_id as int);
    assert(addr@ =~= buf.subrange(8, 24));
}

proof fn lemma_netlink_round_trips(pid: u32, groups: u32)
    ensures
        decodes_to(raw_image(Endpoint::Netlink { pid, groups }), Endpoint::Netlink { pid, groups }),
{
    lemma_le32_bytes(pid as int);
    lemma_le32_bytes(groups as int);
}

proof fn lemma_link_round_trips(
    protocol: u16,
    ifindex: u32,
    hatype: u16,
    pkttype: u8,
    halen: u8,
    addr: [u8; 8],
)
    requires
        halen != 0,
    ensures
        decodes_to(
            raw_image(Endpoint::Link { protocol, ifindex, hatype, pkttype, halen, addr }),
            Endpoint::Link { protocol, ifindex, hatype, pkttype, halen, addr },
        ),
{
    broadcast use vstd::array::group_array_axioms;

    let buf = raw_image(Endpoint::Link { protocol, ifindex, hatype, pkttype, halen, addr });
    lemma_le16_bytes(protocol as int);
    lemma_le16_bytes(hatype as int);
    lemma_le32_bytes(ifindex as int);
    assert(addr@ =~= buf.subrange(12, 20));
}

proof fn lemma_vsock_round_trips(cid: u32, port: u32)
    ensures
        decodes_to(raw_image(Endpoint::Vsock { cid, port }), Endpoint::Vsock { cid, port }),
{
    lemma_le32_bytes(port as int);
    lemma_le32_bytes(cid as int);
}

/// Every endpoint that classification can produce is the decoding of its own
/// raw image: writing an endpoint out and classifying the bytes gives the
/// endpoint back.
pub proof fn law_classification_round_trips(e: Endpoint)
    requires
        well_formed(e),
    ensures
        classifiable(raw_image(e)),
        decodes_to(raw_image(e), e),
{
    match e {
        Endpoint::Inet4 { addr, port } => lemma_inet4_round_trips(addr, port),
        Endpoint::Inet6 { addr, port, flowinfo, scope_id } => lemma_inet6_round_trips(
            addr,
            port,
            flowinfo,
            scope_id,
        ),
        Endpoint::Netlink { pid, groups } => lemma_netlink_round_trips(pid, groups),
        Endpoint::Link { protocol, ifindex, hatype, pkttype, halen, addr } => {
            lemma_link_round_trips(protocol, ifindex, hatype, pkttype, halen, addr)
        },
        Endpoint::Vsock { cid, port } => lemma_vsock_round_trips(cid, port),
    }
    law_family_decides_variant(raw_image(e), e);
}

/// An address of the Unix-domain family, of a family the classifier does not
/// know, or too short for its tag names no endpoint.
pub proof fn law_untraced_families_are_absent(buf: Seq<u8>)
    requires
        declared_family(buf) is None || declared_family(buf) == Some(Family::Unix),
    ensures
        !classifiable(buf),
        forall|e: Endpoint| !decodes_to(buf, e),
{
}

/// A link-layer address whose hardware address has length zero names no
/// endpoint.
pub proof fn law_empty_link_is_absent(buf: Seq<u8>)
    requires
        declared_family(buf) == Some(Family::Packet),
        buf.len() >= LINK_LEN ==> buf[11] == 0,
    ensures
        !classifiable(buf),
        forall|e: Endpoint| !decodes_to(buf, e),
{
}

} // verus!
