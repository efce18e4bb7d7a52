//! Socket addresses in the layout the kernel takes them: the port in
//! network byte order, the address bytes as they are, and the length of
//! the structure.
use vstd::prelude::*;

verus! {

/// A socket address as plain values: an IPv4 address and port, or an IPv6
/// address, port, flow label and scope id.
#[derive(Debug, Clone, Copy, PartialEq, Eq)]
pub enum SocketAddress {
    V4 { ip4: [u8; 4], port: u16 },
    V6 { ip6: [u8; 16], port: u16, flowinfo: u32, scope_id: u32 },
}

/// The fields of a `sockaddr_in` or `sockaddr_in6`, but for the address
/// family, which is the platform's: the port's bytes in network order (most
/// significant first), the address bytes, and for IPv6 the flow label and
/// scope id, kept in the machine's order.
#[derive(Debug, Clone, Copy, PartialEq, Eq)]
pub enum SockAddrRepr {
    V4 { port: [u8; 2], addr4: [u8; 4] },
    V6 { port: [u8; 2], addr6: [u8; 16], flowinfo: u32, scope_id: u32 },
}

/// The size of a `sockaddr_in`.
pub const SOCKADDR_IN_LEN: u32 = 16;

/// The size of a `sockaddr_in6`.
pub const SOCKADDR_IN6_LEN: u32 = 28;

/// A port's two bytes in network order: the high byte first.
pub open spec fn network_order(port: u16) -> Seq<u8> {
    seq![(port / 256) as u8, (port % 256) as u8]
}

/// The port's bytes in network order.
fn port_bytes(port: u16) -> (b: [u8; 2])
    ensures
        b@ == network_order(port),
{
    let hi = (port >> 8u16) as u8;
    let lo = (port & 0xffu16) as u8;
    proof {
        assert(port >> 8u16 == port / 256 && port & 0xffu16 == port % 256) by (bit_vector);
    }
    let b = [hi, lo];
    assert(b@ =~= network_order(port));
    b
}

/// Converts a socket address into the fields of the system's structure and
/// that structure's length: 16 bytes for IPv4, 28 for IPv6.
pub fn socket_addr(addr: &SocketAddress) -> (r: (SockAddrRepr, u32))
    ensures
        match *addr {
            SocketAddress::V4 { ip4, port } => {
                &&& r.1 == SOCKADDR_IN_LEN
                &&& r.0 is V4
                &&& r.0->V4_port@ == network_order(port)
                &&& r.0->addr4 == ip4
            },
            SocketAddress::V6 { ip6, port, flowinfo, scope_id } => {
                &&& r.1 == SOCKADDR_IN6_LEN
                &&& r.0 is V6
                &&& r.0->V6_port@ == network_order(port)
                &&& r.0->addr6 == ip6
                &&& r.0->flowinfo == flowinfo
                &&& r.0->scope_id == scope_id
            },
        },
{
    match *addr {
        SocketAddress::V4 { ip4, port } => {
            (SockAddrRepr::V4 { port: port_bytes(port), addr4: ip4 }, SOCKADDR_IN_LEN)
        },
        SocketAddress::V6 { ip6, port, flowinfo, scope_id } => {
            (
                SockAddrRepr::V6 { port: port_bytes(port), addr6: ip6, flowinfo, scope_id },
                SOCKADDR_IN6_LEN,
            )
        },
    }
}

/// The port that two bytes in network order hold.
fn port_of(b: [u8; 2]) -> (port: u16)
    ensures
        port == b@[0] * 256 + b@[1],
{
    (b[0] as u16) * 256 + (b[1] as u16)
}

/// Reads a socket address back from the fields of the system's structure,
/// as a received message's peer address is read: the port from its bytes
/// in network order, the rest as it is.
pub fn socket_address_of(repr: &SockAddrRepr) -> (a: SocketAddress)
    ensures
        match *repr {
            SockAddrRepr::V4 { port, addr4 } => a == (SocketAddress::V4 {
                ip4: addr4,
                port: (port@[0] * 256 + port@[1]) as u16,
            }),
            SockAddrRepr::V6 { port, addr6, flowinfo, scope_id } => a == (SocketAddress::V6 {
                ip6: addr6,
                port: (port@[0] * 256 + port@[1]) as u16,
                flowinfo,
                scope_id,
            }),
        },
{
    match *repr {
        SockAddrRepr::V4 { port, addr4 } => SocketAddress::V4 { ip4: addr4, port: port_of(port) },
        SockAddrRepr::V6 { port, addr6, flowinfo, scope_id } => SocketAddress::V6 {
            ip6: addr6,
            port: port_of(port),
            flowinfo,
            scope_id,
        },
    }
}

/// Reading back what `socket_addr` lays out gives the address back.
pub proof fn lemma_socket_addr_round_trip(addr: SocketAddress, repr: SockAddrRepr)
    requires
        match addr {
            SocketAddress::V4 { ip4, port } => {
                &&& repr is V4
                &&& repr->V4_port@ == network_order(port)
                &&& repr->addr4 == ip4
            },
            SocketAddress::V6 { ip6, port, flowinfo, scope_id } => {
                &&& repr is V6
                &&& repr->V6_port@ == network_order(port)
                &&& repr->addr6 == ip6
                &&& repr->flowinfo == flowinfo
                &&& repr->scope_id == scope_id
            },
        },
    ensures
        match repr {
            SockAddrRepr::V4 { port, addr4 } => addr == (SocketAddress::V4 {
                ip4: addr4,
                port: (port@[0] * 256 + port@[1]) as u16,
            }),
            SockAddrRepr::V6 { port, addr6, flowinfo, scope_id } => addr == (SocketAddress::V6 {
                ip6: addr6,
                port: (port@[0] * 256 + port@[1]) as u16,
                flowinfo,
                scope_id,
            }),
        },
{
}

/// The two bytes in network order give the port back.
pub proof fn lemma_network_order_round_trip(port: u16)
    ensures
        network_order(port)[0] * 256 + network_order(port)[1] == port,
{
}

} // verus!
