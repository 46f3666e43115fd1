use vstd::prelude::*;

verus! {

/// Transport protocols a TURN allocation may be reached over.
#[derive(Debug, Clone, Copy, PartialEq, Eq, Structural, Hash)]
pub enum TransportProtocol {
    Udp,
    Tcp,
    Tls,
}

impl TransportProtocol {
    /// IANA protocol number carried in REQUESTED-TRANSPORT.
    pub open spec fn spec_as_u8(self) -> u8 {
        match self {
            TransportProtocol::Udp => 17,
            TransportProtocol::Tcp => 6,
            TransportProtocol::Tls => 0,
        }
    }

    /// TLS has no protocol number of its own: it is not accepted.
    pub fn as_u8(&self) -> (r: u8)
        requires
            *self != TransportProtocol::Tls,
        ensures
            r == self.spec_as_u8(),
    {
        match self {
            TransportProtocol::Udp => 17,
            TransportProtocol::Tcp => 6,
            TransportProtocol::Tls => 0,
        }
    }
}

/// An IP address: IPv4 as a 32-bit and IPv6 as a 128-bit big-endian number.
#[derive(Debug, Clone, Copy, PartialEq, Eq, Structural, Hash)]
pub enum IpAddress {
    V4(u32),
    V6(u128),
}

/// A transport address: an IP address and a port.
#[derive(Debug, Clone, Copy, PartialEq, Eq, Structural, Hash)]
pub struct SocketAddress {
    pub ip: IpAddress,
    pub port: u16,
}

impl SocketAddress {
    pub fn new(ip: IpAddress, port: u16) -> (r: SocketAddress)
        ensures
            r.ip == ip,
            r.port == port,
    {
        SocketAddress { ip, port }
    }

    /// Builds the IPv4 address `a.b.c.d:port`.
    pub fn v4(a: u8, b: u8, c: u8, d: u8, port: u16) -> (r: SocketAddress)
        ensures
            r.ip == IpAddress::V4(
                ((a as u32) * 0x100_0000 + (b as u32) * 0x1_0000 + (c as u32) * 0x100 + (d as u32)) as u32,
            ),
            r.port == port,
    {
        let n: u32 = (a as u32) * 0x100_0000 + (b as u32) * 0x1_0000 + (c as u32) * 0x100
            + (d as u32);
        SocketAddress { ip: IpAddress::V4(n), port }
    }

    pub fn ip(&self) -> (r: IpAddress)
        ensures
            r == self.ip,
    {
        self.ip
    }

    pub fn port(&self) -> (r: u16)
        ensures
            r == self.port,
    {
        self.port
    }
}

/// The 5-tuple that identifies an allocation on the server.
#[derive(Debug, Clone, Copy, PartialEq, Eq, Structural, Hash)]
pub struct FiveTuple {
    pub client: SocketAddress,
    pub server: SocketAddress,
    pub protocol: TransportProtocol,
}

} // verus!
