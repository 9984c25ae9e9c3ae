//! Per-packet connection identity: the addresses, ports and verified
//! handshake token that describe the apparent peer of one inbound packet.

use vstd::prelude::*;

verus! {

/// A link-layer address, six octets.
#[derive(Clone, Copy, PartialEq, Eq, Structural, Debug)]
pub struct MacAddr(pub u8, pub u8, pub u8, pub u8, pub u8, pub u8);

/// An IPv4 address held as its 32-bit numeric value.
#[derive(Clone, Copy, PartialEq, Eq, Structural, Debug)]
pub struct Ipv4Addr {
    /// The address in network order, most significant octet first.
    pub value: u32,
}

impl Ipv4Addr {
    /// Builds an address from its four dotted-quad octets.
    pub fn new(a: u8, b: u8, c: u8, d: u8) -> (r: Ipv4Addr)
        ensures
            r.value == ((a as u32) << 24u32) | ((b as u32) << 16u32) | ((c as u32) << 8u32)
                | (d as u32),
    {
        Ipv4Addr {
            value: ((a as u32) << 24u32) | ((b as u32) << 16u32) | ((c as u32) << 8u32)
                | (d as u32),
        }
    }
}

/// An IPv6 address held as two 64-bit words, most significant first.
#[derive(Clone, Copy, PartialEq, Eq, Structural, Debug)]
pub struct Ipv6Addr {
    /// The upper eight octets of the address.
    pub hi: u64,
    /// The lower eight octets of the address.
    pub lo: u64,
}

impl Ipv6Addr {
    /// Builds an address from its eight 16-bit segments.
    pub fn new(s0: u16, s1: u16, s2: u16, s3: u16, s4: u16, s5: u16, s6: u16, s7: u16) -> (r:
        Ipv6Addr)
        ensures
            r.hi == ((s0 as u64) << 48u64) | ((s1 as u64) << 32u64) | ((s2 as u64) << 16u64)
                | (s3 as u64),
            r.lo == ((s4 as u64) << 48u64) | ((s5 as u64) << 32u64) | ((s6 as u64) << 16u64)
                | (s7 as u64),
    {
        Ipv6Addr {
            hi: ((s0 as u64) << 48u64) | ((s1 as u64) << 32u64) | ((s2 as u64) << 16u64)
                | (s3 as u64),
            lo: ((s4 as u64) << 48u64) | ((s5 as u64) << 32u64) | ((s6 as u64) << 16u64)
                | (s7 as u64),
        }
    }
}

/// A network address of either family.
#[derive(Clone, Copy, PartialEq, Eq, Structural, Debug)]
pub enum IpAddr {
    /// An IPv4 address.
    V4(Ipv4Addr),
    /// An IPv6 address.
    V6(Ipv6Addr),
}

/// A source/destination pair of one kind of addressing information.
#[derive(Clone, Copy, PartialEq, Eq, Structural, Debug)]
pub struct ClientInfoSrcDst<T> {
    /// The value on the client's side, when known.
    pub src: Option<T>,
    /// The value on the responder's side, when known.
    pub dst: Option<T>,
}

/// Snapshot of the identity of one inbound packet's apparent connection.
///
/// It is built once per packet, filled in as the packet climbs the layers,
/// and discarded after the reply is produced; nothing persists across
/// packets. By the time the TCP reply engine runs, the network addresses
/// must be present; the engine itself records the ports and, once verified,
/// the handshake token.
#[derive(Clone, Copy, PartialEq, Eq, Structural, Debug)]
pub struct ClientInfo {
    /// Link-layer addresses, when known.
    pub mac: ClientInfoSrcDst<MacAddr>,
    /// Network addresses.
    pub ip: ClientInfoSrcDst<IpAddr>,
    /// Transport protocol number, when known.
    pub transport: Option<u8>,
    /// Transport ports.
    pub port: ClientInfoSrcDst<u16>,
    /// The verified handshake token, once a data segment has proven it.
    pub cookie: Option<u32>,
}

/// Both network addresses are present and belong to the same family, so a
/// handshake token can be derived from the record once ports are known.
pub open spec fn ip_pair_wf(ci: ClientInfo) -> bool {
    &&& ci.ip.src is Some
    &&& ci.ip.dst is Some
    &&& (ci.ip.src->0 is V4 <==> ci.ip.dst->0 is V4)
}

} // verus!
