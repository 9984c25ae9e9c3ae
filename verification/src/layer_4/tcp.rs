//! The stateless TCP reply engine.
//!
//! Each inbound segment is classified by its flag combination; a SYN is
//! answered with a SYN-ACK whose sequence number is the handshake token
//! minted for the connection identity, and a data segment is answered only
//! if the token re-derived from that identity matches the value the client
//! acknowledges. No per-connection state is kept: everything a stateful
//! stack would remember is recovered from the segment itself and the
//! process-wide secret key.

use vstd::prelude::*;

use crate::Masscanned;
use crate::client::{ClientInfo, ClientInfoSrcDst, ip_pair_wf};
use crate::proto::UpperLayerProto;
use crate::synackcookie::{cookie_of, cookie_wf, generate};

verus! {

/// Flag bit of a segment that closes a connection.
pub const FIN: u8 = 0x01;

/// Flag bit of a segment that opens a connection.
pub const SYN: u8 = 0x02;

/// Flag bit of a segment that resets a connection.
pub const RST: u8 = 0x04;

/// Flag bit of a segment that pushes data to the application.
pub const PSH: u8 = 0x08;

/// Flag bit of a segment that acknowledges received data.
pub const ACK: u8 = 0x10;

/// Flag bit of a segment that carries urgent data.
pub const URG: u8 = 0x20;

/// A TCP segment, header fields and payload, as this engine consumes and
/// produces it. Framing, checksums and encapsulation belong to the layers
/// below and are no concern of this type.
#[derive(Clone, Debug)]
pub struct TcpSegment {
    /// Source port.
    pub source: u16,
    /// Destination port.
    pub destination: u16,
    /// Sequence number.
    pub sequence: u32,
    /// Acknowledgment number.
    pub acknowledgement: u32,
    /// Header length in 32-bit words; 5 means no options.
    pub data_offset: u8,
    /// Flag bits.
    pub flags: u8,
    /// Advertised window size.
    pub window: u16,
    /// Payload bytes.
    pub payload: Vec<u8>,
}

/// What an inbound segment's flag combination asks of the responder.
#[derive(Clone, Copy, PartialEq, Eq, Structural, Debug)]
pub enum TcpClass {
    /// PSH and ACK both set: data to verify and possibly answer.
    Data,
    /// ACK alone: nothing to say back.
    PureAck,
    /// RST, or FIN with ACK: teardown, acknowledged silently.
    Teardown,
    /// SYN set: a handshake to answer with a SYN-ACK cookie.
    Handshake,
    /// Any other combination: ignored.
    Unhandled,
}

/// Classification of a flag combination, first match winning: data
/// (PSH and ACK), then a pure acknowledgment (ACK with none of PSH, SYN,
/// FIN, RST), then teardown (RST set, or FIN and ACK both set), then a
/// handshake (SYN set, whatever else accompanies it), else unhandled.
pub open spec fn spec_classify(flags: u8) -> TcpClass {
    if flags & (PSH | ACK) == (PSH | ACK) {
        TcpClass::Data
    } else if flags & ACK == ACK && flags & PSH == 0 && flags & SYN == 0 && flags & FIN == 0
        && flags & RST == 0 {
        TcpClass::PureAck
    } else if flags & RST == RST || flags & (FIN | ACK) == (FIN | ACK) {
        TcpClass::Teardown
    } else if flags & SYN == SYN {
        TcpClass::Handshake
    } else {
        TcpClass::Unhandled
    }
}

/// Classifies an inbound segment's flags.
pub fn classify(flags: u8) -> (r: TcpClass)
    ensures
        r == spec_classify(flags),
{
    if flags & (PSH | ACK) == (PSH | ACK) {
        TcpClass::Data
    } else if flags & ACK == ACK && flags & PSH == 0 && flags & SYN == 0 && flags & FIN == 0
        && flags & RST == 0 {
        TcpClass::PureAck
    } else if flags & RST == RST || flags & (FIN | ACK) == (FIN | ACK) {
        TcpClass::Teardown
    } else if flags & SYN == SYN {
        TcpClass::Handshake
    } else {
        TcpClass::Unhandled
    }
}

/// Cumulative acknowledgment arithmetic in the 32-bit sequence space:
/// `seq` advanced by `len`, wrapping around.
pub open spec fn ack_after(seq: u32, len: nat) -> u32 {
    ((seq + len) % 0x1_0000_0000) as u32
}

/// The prior sequence value a data segment's acknowledgment number points
/// at: one less, except that 0 wraps around to the top of the 32-bit
/// sequence space.
pub open spec fn expected_ack_spec(ackno: u32) -> u32 {
    if ackno > 0 {
        (ackno - 1) as u32
    } else {
        0xFFFF_FFFFu32
    }
}

/// The sequence value the client is acknowledging: the token a data
/// segment must prove. An acknowledgment number of 0 means the sequence
/// space wrapped, so the expected value is the maximum 32-bit value, not
/// an arithmetic fault.
pub fn expected_tcp_ack(ackno: u32) -> (r: u32)
    ensures
        r == expected_ack_spec(ackno),
        ackno == 0 ==> r == 0xFFFF_FFFFu32,
        ackno > 0 ==> r == ackno - 1,
{
    if ackno > 0 {
        ackno - 1
    } else {
        0xFFFF_FFFF
    }
}

/// The record as the engine leaves it before consulting anything below:
/// the observed ports written in, everything else untouched.
pub open spec fn with_ports(ci: ClientInfo, sport: u16, dport: u16) -> ClientInfo {
    ClientInfo { port: ClientInfoSrcDst { src: Some(sport), dst: Some(dport) }, ..ci }
}

/// The SYN-ACK answering a handshake: ports swapped, the minted token as
/// the sequence number, the client's sequence number acknowledged plus
/// one, minimal header, fixed window, no payload.
pub open spec fn is_syn_ack_reply(s: TcpSegment, req: TcpSegment, cookie: u32) -> bool {
    &&& s.source == req.destination
    &&& s.destination == req.source
    &&& s.sequence == cookie
    &&& s.acknowledgement == ack_after(req.sequence, 1)
    &&& s.data_offset == 5
    &&& s.flags == (SYN | ACK)
    &&& s.window == 65535
    &&& s.payload@.len() == 0
}

/// The reply to an accepted data segment, apart from its payload: the
/// inbound payload acknowledged cumulatively, the sequence space continued
/// where the client believes it is, ports taken from the record, minimal
/// header, fixed window; flags are ACK with PSH exactly when response
/// bytes are carried.
pub open spec fn data_reply_shape(s: TcpSegment, req: TcpSegment, source: u16, destination: u16) -> bool {
    &&& s.source == source
    &&& s.destination == destination
    &&& s.sequence == req.acknowledgement
    &&& s.acknowledgement == ack_after(req.sequence, req.payload@.len())
    &&& s.data_offset == 5
    &&& s.window == 65535
    &&& (s.flags == (ACK | PSH) || (s.flags == ACK && s.payload@.len() == 0))
}

/// Builds the SYN-ACK for a handshake segment, carrying `cookie` as its
/// sequence number.
pub fn build_synack(tcp_req: &TcpSegment, cookie: u32) -> (r: TcpSegment)
    ensures
        is_syn_ack_reply(r, *tcp_req, cookie),
{
    let acknowledgement: u32 = ((tcp_req.sequence as u64 + 1) % 0x1_0000_0000u64) as u32;
    TcpSegment {
        source: tcp_req.destination,
        destination: tcp_req.source,
        sequence: cookie,
        acknowledgement,
        data_offset: 5,
        flags: SYN | ACK,
        window: 65535,
        payload: Vec::new(),
    }
}

/// Builds the reply to an accepted data segment from whatever the
/// upper-layer dispatcher answered: its bytes behind PSH-ACK, or a bare
/// acknowledgment when it stayed silent.
pub fn build_data_reply(
    tcp_req: &TcpSegment,
    upper_repl: Option<Vec<u8>>,
    source: u16,
    destination: u16,
) -> (r: TcpSegment)
    ensures
        data_reply_shape(r, *tcp_req, source, destination),
        upper_repl matches Some(data) ==> r.flags == (ACK | PSH) && r.payload@ == data@,
        upper_repl is None ==> r.flags == ACK && r.payload@.len() == 0,
{
    let acknowledgement: u32 = ((tcp_req.sequence as u128 + tcp_req.payload.len() as u128)
        % 0x1_0000_0000u128) as u32;
    let (flags, payload): (u8, Vec<u8>) = match upper_repl {
        Some(data) => (ACK | PSH, data),
        None => (ACK, Vec::new()),
    };
    TcpSegment {
        source,
        destination,
        sequence: tcp_req.acknowledgement,
        acknowledgement,
        data_offset: 5,
        flags,
        window: 65535,
        payload,
    }
}

/// What holds of an accepted data segment's outcome: the record already
/// carries the dispatcher's rewrites, so the reply's ports come from it;
/// the reply itself has the data shape whatever bytes the dispatcher
/// produced. Only a dispatcher that strips the ports from the record
/// leaves the engine with nothing to address the reply with, and silence.
pub open spec fn data_post(
    req: TcpSegment,
    m: Masscanned,
    cip: ClientInfo,
    ci1: ClientInfo,
    r: Option<TcpSegment>,
) -> bool {
    if !cookie_wf(cip) {
        r is None && ci1 == cip
    } else if cookie_of(cip, m.synack_key) != expected_ack_spec(req.acknowledgement) {
        r is None && ci1 == cip
    } else {
        &&& (r matches Some(s) ==> ci1.port.src is Some && ci1.port.dst is Some
            && data_reply_shape(s, req, ci1.port.dst->0, ci1.port.src->0))
        &&& (r is None ==> !(ci1.port.src is Some && ci1.port.dst is Some))
    }
}

/// The reply engine's whole contract, over the inbound segment, the
/// responder identity, the record as handed in (`ci0`) and as left behind
/// (`ci1`), and the optional reply.
pub open spec fn repl_post(
    req: TcpSegment,
    m: Masscanned,
    ci0: ClientInfo,
    ci1: ClientInfo,
    r: Option<TcpSegment>,
) -> bool {
    let cip = with_ports(ci0, req.source, req.destination);
    let cls = spec_classify(req.flags);
    &&& (cls is PureAck || cls is Teardown || cls is Unhandled) ==> r is None && ci1 == cip
    &&& (cls is Handshake && cookie_wf(cip)) ==> ci1 == cip && (r matches Some(s)
        && is_syn_ack_reply(s, req, cookie_of(cip, m.synack_key)))
    &&& (cls is Handshake && !cookie_wf(cip)) ==> r is None && ci1 == cip
    &&& cls is Data ==> data_post(req, m, cip, ci1, r)
}

/// An input the engine rejects outright, never consulting the dispatcher:
/// a flag combination owed no reply, a record the token service cannot
/// derive from, or a data segment whose acknowledged value is not the
/// token minted for its identity.
pub open spec fn rejects(req: TcpSegment, m: Masscanned, ci0: ClientInfo) -> bool {
    let cip = with_ports(ci0, req.source, req.destination);
    let cls = spec_classify(req.flags);
    ||| cls is PureAck
    ||| cls is Teardown
    ||| cls is Unhandled
    ||| ((cls is Data || cls is Handshake) && !cookie_wf(cip))
    ||| (cls is Data && cookie_wf(cip) && cookie_of(cip, m.synack_key) != expected_ack_spec(
        req.acknowledgement,
    ))
}

/// Decides whether and how to answer one inbound TCP segment.
///
/// The observed ports are written into the record first. A SYN is answered
/// with a SYN-ACK carrying the handshake token as its sequence number; a
/// data segment is verified against the token re-derived from the record
/// and answered — through the upper-layer dispatcher — only on a match;
/// pure acknowledgments, teardowns and anything unhandled are met with
/// silence. No rejection is ever distinguishable from silence to the peer.
///
/// The caller must have filled in both network addresses, as the layers
/// below always do. A record whose addresses disagree in family can never
/// have been issued a token: that internal invariant violation aborts the
/// one packet's processing, again with silence.
pub fn repl<U: UpperLayerProto>(
    tcp_req: &TcpSegment,
    masscanned: &Masscanned,
    client_info: &mut ClientInfo,
    upper_layer: &U,
) -> (r: Option<TcpSegment>)
    requires
        old(client_info).ip.src is Some,
        old(client_info).ip.dst is Some,
    ensures
        repl_post(*tcp_req, *masscanned, *old(client_info), *final(client_info), r),
{
    client_info.port.src = Some(tcp_req.source);
    client_info.port.dst = Some(tcp_req.destination);
    match classify(tcp_req.flags) {
        TcpClass::Data => {
            let ackno = expected_tcp_ack(tcp_req.acknowledgement);
            let cookie = match generate(client_info, &masscanned.synack_key) {
                Ok(c) => c,
                Err(_) => {
                    return None;
                },
            };
            if cookie != ackno {
                return None;
            }
            client_info.cookie = Some(cookie);
            let upper_repl = upper_layer.repl(tcp_req.payload.as_slice(), masscanned, client_info);
            let source = match client_info.port.dst {
                Some(p) => p,
                None => {
                    return None;
                },
            };
            let destination = match client_info.port.src {
                Some(p) => p,
                None => {
                    return None;
                },
            };
            Some(build_data_reply(tcp_req, upper_repl, source, destination))
        },
        TcpClass::PureAck => None,
        TcpClass::Teardown => None,
        TcpClass::Handshake => {
            let cookie = match generate(client_info, &masscanned.synack_key) {
                Ok(c) => c,
                Err(_) => {
                    return None;
                },
            };
            Some(build_synack(tcp_req, cookie))
        },
        TcpClass::Unhandled => None,
    }
}

/// Replaying a rejected segment: rejection is a pure function of the
/// segment, the responder identity and the incoming record, so any two
/// runs that meet the engine's contract on the same rejected input are
/// both silent — a replay can never coax a reply out of the engine.
pub proof fn lemma_reject_replay(
    req: TcpSegment,
    m: Masscanned,
    ci0: ClientInfo,
    cia: ClientInfo,
    ra: Option<TcpSegment>,
    cib: ClientInfo,
    rb: Option<TcpSegment>,
)
    requires
        repl_post(req, m, ci0, cia, ra),
        repl_post(req, m, ci0, cib, rb),
        rejects(req, m, ci0),
    ensures
        ra is None,
        rb is None,
        ra == rb,
        cia == cib,
{
}

/// Replaying an identical SYN: the contract pins the whole SYN-ACK down to
/// the minted token, so any two runs that meet it on the same handshake
/// input return the same reply — the token never drifts.
pub proof fn lemma_syn_replay(
    req: TcpSegment,
    m: Masscanned,
    ci0: ClientInfo,
    cia: ClientInfo,
    ra: Option<TcpSegment>,
    cib: ClientInfo,
    rb: Option<TcpSegment>,
)
    requires
        repl_post(req, m, ci0, cia, ra),
        repl_post(req, m, ci0, cib, rb),
        spec_classify(req.flags) is Handshake,
        ip_pair_wf(ci0),
    ensures
        ra matches Some(s) && s.sequence == cookie_of(
            with_ports(ci0, req.source, req.destination),
            m.synack_key,
        ),
        rb matches Some(s) && s.sequence == cookie_of(
            with_ports(ci0, req.source, req.destination),
            m.synack_key,
        ),
        ra->0.sequence == rb->0.sequence,
        cia == cib,
{
}

} // verus!
