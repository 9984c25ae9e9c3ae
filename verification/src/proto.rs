//! The upper-layer dispatcher boundary: once a data segment's handshake
//! token has been verified, its payload is offered to a pluggable
//! application-protocol emulator, which may answer with response bytes.

use vstd::prelude::*;

use crate::Masscanned;
use crate::client::ClientInfo;

verus! {

/// An application-layer protocol emulator.
///
/// Given the payload of an accepted data segment and the connection
/// identity record (which it may rewrite, for protocols that renegotiate
/// addressing), an implementation optionally produces the bytes the
/// emulated service would answer with. The reply engine promises nothing
/// about these bytes: whatever comes back is carried verbatim in the
/// outbound segment.
pub trait UpperLayerProto {
    /// Optionally produces application-layer response bytes for `payload`.
    fn repl(
        &self,
        payload: &[u8],
        masscanned: &Masscanned,
        client_info: &mut ClientInfo,
    ) -> Option<Vec<u8>>;
}

/// The empty dispatcher: no application protocol is emulated, so accepted
/// data segments are answered with a bare acknowledgment.
pub struct NoUpperLayer;

impl UpperLayerProto for NoUpperLayer {
    fn repl(
        &self,
        _payload: &[u8],
        _masscanned: &Masscanned,
        _client_info: &mut ClientInfo,
    ) -> Option<Vec<u8>> {
        None
    }
}

} // verus!
