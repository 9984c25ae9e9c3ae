//! The handshake token service: a keyed, deterministic function of the
//! connection identity that stands in for a stored connection table.
//!
//! The token minted for a SYN is placed in the SYN-ACK's sequence number;
//! a later acknowledgment is trusted only if the token re-derived from the
//! same identity and key matches the value the client echoes back. Any
//! worker can therefore validate any segment with no shared state beyond
//! the process-wide secret key.

use vstd::prelude::*;
use vstd::wrapping::u64_specs;

use crate::client::{ClientInfo, IpAddr, ip_pair_wf};

verus! {

/// Why a token could not be derived from a connection identity record.
#[derive(Clone, Copy, PartialEq, Eq, Structural, Debug)]
pub enum CookieError {
    /// A network address is missing from the record.
    MissingAddress,
    /// The two network addresses are not of the same family.
    AddressFamilyMismatch,
    /// A transport port is missing from the record.
    MissingPort,
}

/// The record holds everything the token derivation reads: both network
/// addresses, of one family, and both transport ports.
pub open spec fn cookie_wf(ci: ClientInfo) -> bool {
    &&& ip_pair_wf(ci)
    &&& ci.port.src is Some
    &&& ci.port.dst is Some
}

/// The upper 64-bit word an address contributes to the token derivation.
pub open spec fn ip_hi(ip: IpAddr) -> u64 {
    match ip {
        IpAddr::V4(_) => 0u64,
        IpAddr::V6(a) => a.hi,
    }
}

/// The lower 64-bit word an address contributes to the token derivation.
pub open spec fn ip_lo(ip: IpAddr) -> u64 {
    match ip {
        IpAddr::V4(a) => a.value as u64,
        IpAddr::V6(a) => a.lo,
    }
}

/// One avalanche round of the keyed mixer: xor-shifts interleaved with
/// wrapping multiplications by odd constants, so that every input bit
/// disturbs every output bit.
pub open spec fn spec_mix64(z: u64) -> u64 {
    let z1 = u64_specs::wrapping_mul(z ^ (z >> 30u64), 0xbf58476d1ce4e5b9u64);
    let z2 = u64_specs::wrapping_mul(z1 ^ (z1 >> 27u64), 0x94d049bb133111ebu64);
    z2 ^ (z2 >> 31u64)
}

fn mix64(z: u64) -> (r: u64)
    ensures
        r == spec_mix64(z),
{
    let z1 = (z ^ (z >> 30u64)).wrapping_mul(0xbf58476d1ce4e5b9u64);
    let z2 = (z1 ^ (z1 >> 27u64)).wrapping_mul(0x94d049bb133111ebu64);
    z2 ^ (z2 >> 31u64)
}

/// The handshake token derived from a connection identity record and the
/// responder's secret key: the addresses, ports and family are folded one
/// word at a time through the keyed mixer, and the result is the 64-bit
/// state folded onto itself, reduced to 32 bits.
pub open spec fn cookie_of(ci: ClientInfo, key: [u64; 2]) -> u32
    recommends
        cookie_wf(ci),
{
    let src = ci.ip.src->0;
    let dst = ci.ip.dst->0;
    let fam: u64 = if src is V4 {
        4u64
    } else {
        6u64
    };
    let ports: u64 = ((ci.port.src->0 as u64) << 16u64) | (ci.port.dst->0 as u64);
    let h1 = spec_mix64(key[0] ^ ip_hi(src));
    let h2 = spec_mix64(h1 ^ ip_lo(src));
    let h3 = spec_mix64(h2 ^ ip_hi(dst));
    let h4 = spec_mix64(h3 ^ ip_lo(dst));
    let h5 = spec_mix64(h4 ^ ports ^ (fam << 32u64));
    let h6 = spec_mix64(h5 ^ key[1]);
    (((h6 ^ (h6 >> 32u64)) % 0x1_0000_0000u64) as u32)
}

/// A token check accepts exactly the token that `generate` would mint for
/// the same record and key.
pub open spec fn check_accepts(ci: ClientInfo, cookie: u32, key: [u64; 2]) -> bool {
    cookie_wf(ci) && cookie == cookie_of(ci, key)
}

/// Mints the handshake token for a connection identity record.
///
/// Succeeds exactly when the record is well formed for derivation: both
/// network addresses present and of one family, and both ports present.
/// The result is a pure function of the record and the key, so the same
/// identity always yields the same token, in any process and any order
/// of arrival.
pub fn generate(client_info: &ClientInfo, key: &[u64; 2]) -> (r: Result<u32, CookieError>)
    ensures
        r is Ok <==> cookie_wf(*client_info),
        r matches Ok(c) ==> c == cookie_of(*client_info, *key),
        (client_info.ip.src is None || client_info.ip.dst is None) <==> (r matches Err(e) && e
            is MissingAddress),
        ip_pair_wf(*client_info) && (client_info.port.src is None || client_info.port.dst is None)
            <==> (r matches Err(e) && e is MissingPort),
        client_info.ip.src is Some && client_info.ip.dst is Some && !ip_pair_wf(*client_info) <==> (
        r matches Err(e) && e is AddressFamilyMismatch),
{
    let src = match client_info.ip.src {
        Some(ip) => ip,
        None => {
            return Err(CookieError::MissingAddress);
        },
    };
    let dst = match client_info.ip.dst {
        Some(ip) => ip,
        None => {
            return Err(CookieError::MissingAddress);
        },
    };
    let (s_hi, s_lo, s_v4): (u64, u64, bool) = match src {
        IpAddr::V4(a) => (0u64, a.value as u64, true),
        IpAddr::V6(a) => (a.hi, a.lo, false),
    };
    let (d_hi, d_lo, d_v4): (u64, u64, bool) = match dst {
        IpAddr::V4(a) => (0u64, a.value as u64, true),
        IpAddr::V6(a) => (a.hi, a.lo, false),
    };
    if s_v4 != d_v4 {
        return Err(CookieError::AddressFamilyMismatch);
    }
    let sport = match client_info.port.src {
        Some(p) => p,
        None => {
            return Err(CookieError::MissingPort);
        },
    };
    let dport = match client_info.port.dst {
        Some(p) => p,
        None => {
            return Err(CookieError::MissingPort);
        },
    };
    let fam: u64 = if s_v4 {
        4u64
    } else {
        6u64
    };
    let ports: u64 = ((sport as u64) << 16u64) | (dport as u64);
    let h1 = mix64(key[0] ^ s_hi);
    let h2 = mix64(h1 ^ s_lo);
    let h3 = mix64(h2 ^ d_hi);
    let h4 = mix64(h3 ^ d_lo);
    let h5 = mix64(h4 ^ ports ^ (fam << 32u64));
    let h6 = mix64(h5 ^ key[1]);
    Ok(((h6 ^ (h6 >> 32u64)) % 0x1_0000_0000u64) as u32)
}

/// Verifies a token against a connection identity record: true exactly when
/// the token is the one `generate` mints for that record and key.
pub fn _check(client_info: &ClientInfo, cookie: u32, key: &[u64; 2]) -> (r: bool)
    ensures
        r == check_accepts(*client_info, cookie, *key),
{
    match generate(client_info, key) {
        Ok(c) => c == cookie,
        Err(_) => false,
    }
}

/// Token round trip: for every well-formed identity record and every key,
/// the token minted for the record verifies against that same record and
/// key.
pub proof fn lemma_cookie_roundtrip(ci: ClientInfo, key: [u64; 2])
    requires
        cookie_wf(ci),
    ensures
        check_accepts(ci, cookie_of(ci, key), key),
{
}

} // verus!
