//! Control messages and the HMAC-protected envelope that carries their
//! serialized form.

use crate::error::{packet_error, FleetNetError};
use crate::hmac::{generate_hmac, hmac_sha256, tag_valid, validate_hmac, HmacKey};
use crate::types::{
    AuthRequest, ErrorResponse, JoinChannelRequest, ServerInfo, ServerState, UserChannelChange, UserStateChange,
    VoiceChannelState,
};
use vstd::prelude::*;

verus! {

/// A control message; exactly one variant is active.
#[derive(Debug, Clone)]
pub enum ControlMessage {
    Authenticate(AuthRequest),
    ServerInfo(ServerInfo),
    ServerState(ServerState),
    VoiceChannelState(VoiceChannelState),
    UserStateChange(UserStateChange),
    UserChannelChange(UserChannelChange),
    JoinChannelRequest(JoinChannelRequest),
    ErrorResponse(ErrorResponse),
    Ping,
    Pong,
}

/// A serialized payload with its HMAC-SHA256 tag.
#[derive(Debug, Clone)]
pub struct FramedMessage {
    pub payload: Vec<u8>,
    pub hmac: Vec<u8>,
}

impl FramedMessage {
    /// Wraps a serialized message with its tag under `key`.
    pub fn new(payload: Vec<u8>, key: &HmacKey) -> (r: Self)
        ensures
            r.payload@ == payload@,
            r.hmac@ == hmac_sha256(key@, payload@),
    {
        let hmac = generate_hmac(key, payload.as_slice());
        FramedMessage { payload, hmac }
    }

    /// The payload, once its tag checks out under `key`; a packet error otherwise.
    pub fn validate_payload(&self, key: &HmacKey) -> (r: Result<&Vec<u8>, FleetNetError>)
        ensures
            tag_valid(key@, self.payload@, self.hmac@) ==> r == Ok::<&Vec<u8>, FleetNetError>(&self.payload),
            !tag_valid(key@, self.payload@, self.hmac@) ==> r is Err && r->Err_0 is PacketError,
    {
        if !validate_hmac(key, self.payload.as_slice(), self.hmac.as_slice()) {
            return Err(packet_error("Invalid HMAC, message integrity check failed"));
        }
        Ok(&self.payload)
    }
}

} // verus!
