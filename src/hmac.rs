//! HMAC-SHA256 message authentication and the 16-bit tag prefix of the audio
//! packet format.
//!
//! The audio format carries only the first 16 bits of the tag: a forger
//! succeeds with probability about 1/65536 per forged packet. That weaker
//! guarantee is deliberate, for small loss-tolerant audio frames.

use crate::codec::u16_of;
use hmac::{Hmac, Mac};
use sha2::Sha256;
use vstd::prelude::*;

verus! {

/// The HMAC-SHA256 tag of `data` under `key`.
pub uninterp spec fn hmac_sha256(key: Seq<u8>, data: Seq<u8>) -> Seq<u8>;

/// A 32-byte secret key.
pub struct HmacKey {
    key: [u8; 32],
}

impl View for HmacKey {
    type V = Seq<u8>;

    closed spec fn view(&self) -> Seq<u8> {
        self.key@
    }
}

impl HmacKey {
    fn new(key: &[u8; 32]) -> (r: HmacKey)
        ensures
            r@ == key@,
    {
        HmacKey { key: *key }
    }

    /// The key holding these 32 bytes.
    pub fn from_bytes(bytes: &[u8; 32]) -> (r: HmacKey)
        ensures
            r@ == bytes@,
    {
        HmacKey::new(bytes)
    }

    /// The key's bytes.
    pub fn as_bytes(&self) -> (r: &[u8; 32])
        ensures
            r@ == self@,
    {
        &self.key
    }
}

/// Relies on hmac's `Hmac<Sha256>`: `new_from_slice` takes a key of any
/// length and never fails; `update` then `finalize` give the 32-byte
/// HMAC-SHA256 tag of `data`.
#[verifier::external_body]
fn hmac_sha256_tag(key: &[u8; 32], data: &[u8]) -> (r: Vec<u8>)
    ensures
        r@ == hmac_sha256(key@, data@),
        r@.len() == 32,
{
    let mut mac = <Hmac<Sha256> as Mac>::new_from_slice(key).expect("HMAC takes keys of any length");
    mac.update(data);
    mac.finalize().into_bytes().to_vec()
}

/// Relies on hmac's `Mac::verify_slice`: it succeeds exactly when `tag` equals
/// the HMAC-SHA256 tag of `data` (same length, same bytes), comparing in
/// constant time.
#[verifier::external_body]
fn hmac_sha256_verify(key: &[u8; 32], data: &[u8], tag: &[u8]) -> (r: bool)
    ensures
        r == (tag@ == hmac_sha256(key@, data@)),
{
    let mut mac = <Hmac<Sha256> as Mac>::new_from_slice(key).expect("HMAC takes keys of any length");
    mac.update(data);
    mac.verify_slice(tag).is_ok()
}

/// Whether `tag` is the HMAC-SHA256 tag of `data` under `key`.
pub open spec fn tag_valid(key: Seq<u8>, data: Seq<u8>, tag: Seq<u8>) -> bool {
    tag == hmac_sha256(key, data)
}

/// The HMAC-SHA256 tag (32 bytes) of `data` under `key`.
pub fn generate_hmac(key: &HmacKey, data: &[u8]) -> (r: Vec<u8>)
    ensures
        r@ == hmac_sha256(key@, data@),
        r@.len() == 32,
{
    hmac_sha256_tag(key.as_bytes(), data)
}

/// Whether `expected` is the HMAC-SHA256 tag of `data` under `key`; the
/// comparison takes the same time wherever the first difference lies.
pub fn validate_hmac(key: &HmacKey, data: &[u8], expected: &[u8]) -> (r: bool)
    ensures
        r == tag_valid(key@, data@, expected@),
{
    hmac_sha256_verify(key.as_bytes(), data, expected)
}

/// The first two bytes of `tag` read as a big-endian 16-bit value, or 0 when
/// `tag` is shorter than two bytes.
pub open spec fn tag_prefix(tag: Seq<u8>) -> u16 {
    if tag.len() < 2 {
        0
    } else {
        u16_of(tag[0], tag[1])
    }
}

/// The 16-bit prefix of an HMAC tag, as carried in an audio packet header.
pub fn extract_hmac_prefix(hmac: &[u8]) -> (r: u16)
    ensures
        r == tag_prefix(hmac@),
{
    if hmac.len() < 2 {
        return 0;
    }
    crate::codec::read_u16(hmac, 0)
}

/// The same key and data always give the same tag.
pub proof fn lemma_tag_deterministic(key1: Seq<u8>, data1: Seq<u8>, key2: Seq<u8>, data2: Seq<u8>)
    requires
        key1 == key2,
        data1 == data2,
    ensures
        hmac_sha256(key1, data1) == hmac_sha256(key2, data2),
{
}

/// A tag made by `generate_hmac` validates against the same key and data.
pub proof fn lemma_generated_tag_validates(key: Seq<u8>, data: Seq<u8>)
    ensures
        tag_valid(key, data, hmac_sha256(key, data)),
{
}

/// A tag fails validation for any other key and data (a flipped bit of the
/// key, a changed byte of the payload) whose tag differs from it, which is
/// what HMAC-SHA256 is relied on to give for distinct inputs.
pub proof fn lemma_other_input_rejected(key: Seq<u8>, data: Seq<u8>, key2: Seq<u8>, data2: Seq<u8>)
    requires
        hmac_sha256(key2, data2) != hmac_sha256(key, data),
    ensures
        !tag_valid(key2, data2, hmac_sha256(key, data)),
{
}

/// Changing any one byte of a valid tag makes it fail validation.
pub proof fn lemma_altered_tag_rejected(key: Seq<u8>, data: Seq<u8>, i: int, b: u8)
    requires
        0 <= i < hmac_sha256(key, data).len(),
        b != hmac_sha256(key, data)[i],
    ensures
        !tag_valid(key, data, hmac_sha256(key, data).update(i, b)),
{
    assert(hmac_sha256(key, data).update(i, b)[i] != hmac_sha256(key, data)[i]);
}

} // verus!
