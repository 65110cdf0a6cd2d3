//! IPv4 socket addresses: the C layout on one side, the endpoint on the other.

use crate::errno::{enotsup, ENOTSUP};
use crate::fail::Fail;
use vstd::prelude::*;

verus! {

/// The length of a socket address, as the C interface carries it.
pub type Socklen = u32;

/// The address family of IPv4.
pub const AF_INET: i32 = 2;

/// The size in bytes of the C structure `sockaddr_in`.
pub const SOCKADDR_IN_SIZE: usize = 16;

/// Reads `libc::AF_INET`. Trusted: on Linux the C library numbers the IPv4
/// family 2.
#[verifier::external_body]
pub(crate) fn af_inet() -> (family: i32)
    ensures
        family == AF_INET,
{
    libc::AF_INET
}

/// Asks `core::mem::size_of` for the size of `libc::sockaddr_in`. Trusted: the
/// structure is a 2-byte family, a 2-byte port, a 4-byte address and 8 bytes
/// of padding, 16 bytes in all.
#[verifier::external_body]
pub(crate) fn sockaddr_in_size() -> (size: usize)
    ensures
        size == SOCKADDR_IN_SIZE,
{
    core::mem::size_of::<libc::sockaddr_in>()
}

/// A socket address in the C layout: the family, then 14 bytes whose meaning
/// depends on it. For IPv4 bytes 0 and 1 are the port and bytes 2 to 5 the
/// address, both most significant byte first; the rest is padding.
#[derive(Clone, Copy, Debug, PartialEq, Eq)]
pub struct SockAddr {
    /// The address family.
    pub sa_family: u16,
    /// The family's own data.
    pub sa_data: [u8; 14],
}

/// An IPv4 address, as a 32-bit number in host order.
#[derive(Clone, Copy, Debug, PartialEq, Eq, Hash)]
pub struct Ipv4Addr {
    /// The address; its most significant byte is the first octet.
    pub bits: u32,
}

/// An IPv4 address and a port, both in host order.
#[derive(Clone, Copy, Debug, PartialEq, Eq, Hash)]
pub struct SocketAddrV4 {
    /// The address.
    pub ip: Ipv4Addr,
    /// The port.
    pub port: u16,
}

impl Ipv4Addr {
    /// The address `a.b.c.d`.
    pub open spec fn from_octets(a: u8, b: u8, c: u8, d: u8) -> Ipv4Addr {
        Ipv4Addr { bits: (a * 0x100_0000 + b * 0x1_0000 + c * 0x100 + d) as u32 }
    }

    /// The `i`-th octet of the address, counted from the most significant.
    pub open spec fn octet(self, i: int) -> u8 {
        if i == 0 {
            (self.bits / 0x100_0000) as u8
        } else if i == 1 {
            (self.bits / 0x1_0000 % 0x100) as u8
        } else if i == 2 {
            (self.bits / 0x100 % 0x100) as u8
        } else {
            (self.bits % 0x100) as u8
        }
    }

    /// The address `a.b.c.d`.
    pub fn new(a: u8, b: u8, c: u8, d: u8) -> (ip: Ipv4Addr)
        ensures
            ip == Ipv4Addr::from_octets(a, b, c, d),
    {
        let bits: u32 = (a as u32) * 0x100_0000 + (b as u32) * 0x1_0000 + (c as u32) * 0x100 + (
        d as u32);
        Ipv4Addr { bits }
    }

    /// The four octets of the address, most significant first.
    pub fn octets(&self) -> (octets: [u8; 4])
        ensures
            forall|i: int| 0 <= i < 4 ==> octets[i] == self.octet(i),
    {
        [
            (self.bits / 0x100_0000) as u8,
            (self.bits / 0x1_0000 % 0x100) as u8,
            (self.bits / 0x100 % 0x100) as u8,
            (self.bits % 0x100) as u8,
        ]
    }
}

impl SocketAddrV4 {
    /// The endpoint of address `ip` and port `port`.
    pub fn new(ip: Ipv4Addr, port: u16) -> (addr: SocketAddrV4)
        ensures
            addr == (SocketAddrV4 { ip, port }),
    {
        SocketAddrV4 { ip, port }
    }

    /// The address of the endpoint.
    pub fn ip(&self) -> (ip: &Ipv4Addr)
        ensures
            *ip == self.ip,
    {
        &self.ip
    }

    /// The port of the endpoint.
    pub fn port(&self) -> (port: u16)
        ensures
            port == self.port,
    {
        self.port
    }
}

/// The endpoint that the bytes of an IPv4 socket address spell out.
pub open spec fn sockaddr_endpoint(saddr: SockAddr) -> SocketAddrV4 {
    SocketAddrV4 {
        ip: Ipv4Addr::from_octets(
            saddr.sa_data[2],
            saddr.sa_data[3],
            saddr.sa_data[4],
            saddr.sa_data[5],
        ),
        port: (saddr.sa_data[0] * 0x100 + saddr.sa_data[1]) as u16,
    }
}

/// The IPv4 socket address that spells out an endpoint, padding zeroed.
pub open spec fn endpoint_sockaddr(addr: SocketAddrV4) -> SockAddr {
    SockAddr {
        sa_family: AF_INET as u16,
        sa_data: [
            (addr.port / 0x100) as u8,
            (addr.port % 0x100) as u8,
            addr.ip.octet(0),
            addr.ip.octet(1),
            addr.ip.octet(2),
            addr.ip.octet(3),
            0u8,
            0u8,
            0u8,
            0u8,
            0u8,
            0u8,
            0u8,
            0u8,
        ],
    }
}

/// Converts a socket address into an IPv4 endpoint. Any family but `AF_INET` is
/// refused with `ENOTSUP`.
pub fn sockaddr_to_socketaddrv4(saddr: &SockAddr) -> (r: Result<SocketAddrV4, Fail>)
    ensures
        saddr.sa_family == AF_INET ==> r == Ok::<SocketAddrV4, Fail>(sockaddr_endpoint(*saddr)),
        saddr.sa_family != AF_INET ==> (r matches Err(e) && e.reports(
            ENOTSUP,
            "communication domain not supported",
        )),
{
    if saddr.sa_family != af_inet() as u16 {
        return Err(Fail::new(enotsup(), "communication domain not supported"));
    }
    let ip: Ipv4Addr = Ipv4Addr::new(
        saddr.sa_data[2],
        saddr.sa_data[3],
        saddr.sa_data[4],
        saddr.sa_data[5],
    );
    let port: u16 = (saddr.sa_data[0] as u16) * 0x100 + (saddr.sa_data[1] as u16);
    Ok(SocketAddrV4::new(ip, port))
}

/// Converts an IPv4 endpoint into a socket address.
pub fn socketaddrv4_to_sockaddr(addr: &SocketAddrV4) -> (saddr: SockAddr)
    ensures
        saddr == endpoint_sockaddr(*addr),
{
    let octets: [u8; 4] = addr.ip.octets();
    let saddr = SockAddr {
        sa_family: af_inet() as u16,
        sa_data: [
            (addr.port / 0x100) as u8,
            (addr.port % 0x100) as u8,
            octets[0],
            octets[1],
            octets[2],
            octets[3],
            0,
            0,
            0,
            0,
            0,
            0,
            0,
            0,
        ],
    };
    saddr
}

/// An IPv4 socket address that is turned into an endpoint and back keeps its
/// family and the six bytes that hold port and address.
pub proof fn lemma_sockaddr_round_trip(saddr: SockAddr)
    requires
        saddr.sa_family == AF_INET,
    ensures
        endpoint_sockaddr(sockaddr_endpoint(saddr)).sa_family == saddr.sa_family,
        forall|i: int|
            0 <= i < 6 ==> endpoint_sockaddr(sockaddr_endpoint(saddr)).sa_data[i]
                == saddr.sa_data[i],
{
}

/// An endpoint that is turned into a socket address and back is unchanged.
pub proof fn lemma_endpoint_round_trip(addr: SocketAddrV4)
    ensures
        sockaddr_endpoint(endpoint_sockaddr(addr)) == addr,
{
}

} // verus!
