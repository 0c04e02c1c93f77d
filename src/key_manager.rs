//! Derivation of the per-session key and of the TCP and UDP sub-keys.

use crate::codec::{append_bytes, be16, push_u16};
use crate::hmac::HmacKey;
use sha2::{Digest, Sha256};
use vstd::prelude::*;

verus! {

/// The SHA-256 digest of `data`.
pub uninterp spec fn sha256(data: Seq<u8>) -> Seq<u8>;

/// Relies on sha2's `Sha256::digest`: the 32-byte SHA-256 digest of `data`.
#[verifier::external_body]
fn sha256_digest(data: &[u8]) -> (r: [u8; 32])
    ensures
        r@ == sha256(data@),
{
    let digest = Sha256::digest(data);
    let mut out = [0u8; 32];
    out.copy_from_slice(&digest);
    out
}

/// The ASCII label hashed after the base key to derive the TCP key.
pub open spec fn tcp_label() -> Seq<u8> {
    seq![84u8, 67, 80, 95, 75, 69, 89, 95, 68, 69, 82, 73, 86, 65, 84, 73, 79, 78]
}

/// The ASCII label hashed after the base key to derive the UDP key.
pub open spec fn udp_label() -> Seq<u8> {
    seq![85u8, 68, 80, 95, 75, 69, 89, 95, 68, 69, 82, 73, 86, 65, 84, 73, 79, 78]
}

/// The bytes whose digest is the session key: the server secret, the user id
/// in big-endian order, then the session nonce.
pub open spec fn session_key_input(user_id: u16, server_secret: Seq<u8>, session_nonce: Seq<u8>) -> Seq<u8> {
    server_secret + be16(user_id) + session_nonce
}

/// The TCP and UDP keys of one session.
pub struct ProtocolKeys {
    pub tcp_key: HmacKey,
    pub udp_key: HmacKey,
}

/// Key derivation for sessions.
pub struct KeyManager;

/// `"TCP_KEY_DERIVATION"`, byte by byte.
fn tcp_label_bytes() -> (r: Vec<u8>)
    ensures
        r@ == tcp_label(),
{
    let r = vec![84u8, 67, 80, 95, 75, 69, 89, 95, 68, 69, 82, 73, 86, 65, 84, 73, 79, 78];
    assert(r@ =~= tcp_label());
    r
}

/// `"UDP_KEY_DERIVATION"`, byte by byte.
fn udp_label_bytes() -> (r: Vec<u8>)
    ensures
        r@ == udp_label(),
{
    let r = vec![85u8, 68, 80, 95, 75, 69, 89, 95, 68, 69, 82, 73, 86, 65, 84, 73, 79, 78];
    assert(r@ =~= udp_label());
    r
}

/// The key whose bytes are the SHA-256 digest of `base` followed by `label`.
fn derive_labelled(base: &HmacKey, label: &[u8]) -> (r: HmacKey)
    ensures
        r@ == sha256(base@ + label@),
{
    let mut input: Vec<u8> = Vec::new();
    let base_bytes: &[u8; 32] = base.as_bytes();
    append_bytes(&mut input, base_bytes);
    append_bytes(&mut input, label);
    let digest = sha256_digest(&input);
    HmacKey::from_bytes(&digest)
}

impl KeyManager {
    /// The session key of `user_id`: the SHA-256 digest of the server secret,
    /// the big-endian user id and the session nonce. Equal inputs give equal keys.
    pub fn generate_session_key(user_id: u16, server_secret: &[u8], session_nonce: &[u8]) -> (r: HmacKey)
        ensures
            r@ == sha256(session_key_input(user_id, server_secret@, session_nonce@)),
    {
        let mut input: Vec<u8> = Vec::new();
        append_bytes(&mut input, server_secret);
        push_u16(&mut input, user_id);
        append_bytes(&mut input, session_nonce);
        let digest = sha256_digest(&input);
        HmacKey::from_bytes(&digest)
    }

    /// The TCP and UDP keys derived from a session key by hashing it with a
    /// fixed label each.
    pub fn derive_protocol_keys(base_key: &HmacKey) -> (r: ProtocolKeys)
        ensures
            r.tcp_key@ == sha256(base_key@ + tcp_label()),
            r.udp_key@ == sha256(base_key@ + udp_label()),
    {
        let tcp = tcp_label_bytes();
        let udp = udp_label_bytes();
        ProtocolKeys { tcp_key: derive_labelled(base_key, &tcp), udp_key: derive_labelled(base_key, &udp) }
    }
}

/// Two derivations from the same session inputs give the same key.
pub proof fn lemma_session_key_deterministic(
    user_id: u16,
    server_secret: Seq<u8>,
    session_nonce: Seq<u8>,
    user_id2: u16,
    server_secret2: Seq<u8>,
    session_nonce2: Seq<u8>,
)
    requires
        user_id == user_id2,
        server_secret == server_secret2,
        session_nonce == session_nonce2,
    ensures
        sha256(session_key_input(user_id, server_secret, session_nonce))
            == sha256(session_key_input(user_id2, server_secret2, session_nonce2)),
{
}

/// The TCP and UDP keys are digests of different inputs: the labels differ.
pub proof fn lemma_protocol_key_inputs_differ(base: Seq<u8>)
    ensures
        base + tcp_label() != base + udp_label(),
{
    assert((base + tcp_label())[base.len() as int] != (base + udp_label())[base.len() as int]);
}

} // verus!
