//! The compact audio packet: a fixed 16-byte big-endian header followed by
//! the opus payload.
//!
//! | offset | field           | width |
//! |--------|-----------------|-------|
//! | 0      | channel_id      | u16   |
//! | 2      | user_id         | u16   |
//! | 4      | sequence        | u16   |
//! | 6      | timestamp       | u32   |
//! | 10     | signal_strength | u8    |
//! | 11     | frame_duration  | u8    |
//! | 12     | audio_length    | u16   |
//! | 14     | hmac_prefix     | u16   |

use crate::codec::{
    append_bytes, be16, be32, copy_from, lemma_u16_round_trip, lemma_u32_round_trip, push_u16,
    push_u32, read_u16, read_u32, u16_of, u32_of,
};
use crate::hmac::{extract_hmac_prefix, generate_hmac, hmac_sha256, tag_prefix, HmacKey};
use vstd::prelude::*;

verus! {

/// Why an audio packet could not be decoded.
#[derive(Debug, Clone, Copy, PartialEq, Eq, Structural)]
pub enum PacketError {
    /// Fewer than 16 bytes.
    TooShort,
    /// The payload length differs from the header's `audio_length`.
    InvalidLength { expected: usize, actual: usize },
    /// A malformed header.
    InvalidFormat,
}

/// The fixed header of an audio packet.
#[derive(Debug, Clone, Copy, PartialEq, Eq, Structural, Hash)]
pub struct PacketHeader {
    /// Channel the audio is sent to.
    pub channel_id: u16,
    /// Sender.
    pub user_id: u16,
    /// Sequence number, for ordering.
    pub sequence: u16,
    /// Relative timestamp in milliseconds.
    pub timestamp: u32,
    /// Signal strength of the sender, 0 to 255.
    pub signal_strength: u8,
    /// Frame duration in milliseconds.
    pub frame_duration: u8,
    /// Length of the opus payload in bytes.
    pub audio_length: u16,
    /// First 16 bits of the HMAC-SHA256 tag of the packet.
    pub hmac_prefix: u16,
}

/// The header bytes that the HMAC covers: every field but `hmac_prefix`.
pub open spec fn signed_header_bytes(h: PacketHeader) -> Seq<u8> {
    be16(h.channel_id) + be16(h.user_id) + be16(h.sequence) + be32(h.timestamp) + seq![h.signal_strength]
        + seq![h.frame_duration] + be16(h.audio_length)
}

/// The 16 encoded header bytes.
pub open spec fn header_bytes(h: PacketHeader) -> Seq<u8> {
    signed_header_bytes(h) + be16(h.hmac_prefix)
}

/// The header read from the first 16 bytes of `b`.
pub open spec fn parse_header(b: Seq<u8>) -> PacketHeader {
    PacketHeader {
        channel_id: u16_of(b[0], b[1]),
        user_id: u16_of(b[2], b[3]),
        sequence: u16_of(b[4], b[5]),
        timestamp: u32_of(b[6], b[7], b[8], b[9]),
        signal_strength: b[10],
        frame_duration: b[11],
        audio_length: u16_of(b[12], b[13]),
        hmac_prefix: u16_of(b[14], b[15]),
    }
}

/// Decoding of a whole datagram: the header and the payload, or why not.
pub open spec fn parse_packet(b: Seq<u8>) -> Result<(PacketHeader, Seq<u8>), PacketError> {
    if b.len() < 16 {
        Err(PacketError::TooShort)
    } else {
        let h = parse_header(b);
        if b.len() - 16 != h.audio_length {
            Err(PacketError::InvalidLength { expected: h.audio_length as usize, actual: (b.len() - 16) as usize })
        } else {
            Ok((h, b.subrange(16, b.len() as int)))
        }
    }
}

/// The bytes that the HMAC of a packet with header `h` and payload `audio` covers.
pub open spec fn authenticated_bytes(h: PacketHeader, audio: Seq<u8>) -> Seq<u8> {
    signed_header_bytes(h) + audio
}

impl PacketHeader {
    /// Size of the encoded header in bytes.
    pub const SIZE: usize = 16;

    /// Appends the 16 header bytes to `buf`.
    pub fn write_to(&self, buf: &mut Vec<u8>)
        ensures
            final(buf)@ == old(buf)@ + header_bytes(*self),
    {
        self.write_signed_to(buf);
        push_u16(buf, self.hmac_prefix);
        assert(final(buf)@ =~= old(buf)@ + header_bytes(*self));
    }

    /// Appends the header bytes that the HMAC covers.
    fn write_signed_to(&self, buf: &mut Vec<u8>)
        ensures
            final(buf)@ == old(buf)@ + signed_header_bytes(*self),
    {
        let ghost start = buf@;
        push_u16(buf, self.channel_id);
        push_u16(buf, self.user_id);
        push_u16(buf, self.sequence);
        push_u32(buf, self.timestamp);
        buf.push(self.signal_strength);
        buf.push(self.frame_duration);
        push_u16(buf, self.audio_length);
        assert(buf@ =~= start + signed_header_bytes(*self));
    }

    /// Reads a header from the first 16 bytes of `buf`.
    pub fn read_from(buf: &[u8]) -> (r: Result<PacketHeader, PacketError>)
        ensures
            buf@.len() < 16 ==> r == Err::<PacketHeader, PacketError>(PacketError::TooShort),
            buf@.len() >= 16 ==> r == Ok::<PacketHeader, PacketError>(parse_header(buf@)),
    {
        if buf.len() < PacketHeader::SIZE {
            return Err(PacketError::TooShort);
        }
        Ok(PacketHeader {
            channel_id: read_u16(buf, 0),
            user_id: read_u16(buf, 2),
            sequence: read_u16(buf, 4),
            timestamp: read_u32(buf, 6),
            signal_strength: buf[10],
            frame_duration: buf[11],
            audio_length: read_u16(buf, 12),
            hmac_prefix: read_u16(buf, 14),
        })
    }

    /// The bytes that the packet's HMAC covers: the header without its
    /// `hmac_prefix`, then the audio payload.
    pub fn authenticated_bytes(&self, audio_data: &[u8]) -> (r: Vec<u8>)
        ensures
            r@ == authenticated_bytes(*self, audio_data@),
    {
        let mut data: Vec<u8> = Vec::new();
        self.write_signed_to(&mut data);
        append_bytes(&mut data, audio_data);
        assert(data@ =~= authenticated_bytes(*self, audio_data@));
        data
    }

    /// Whether `hmac_prefix` is the 16-bit prefix of the HMAC-SHA256 tag, under
    /// `key`, of the header (without its prefix) followed by `audio_data`.
    pub fn validate_hmac(&self, key: &HmacKey, audio_data: &[u8]) -> (r: bool)
        ensures
            r == (self.hmac_prefix == tag_prefix(hmac_sha256(key@, authenticated_bytes(*self, audio_data@)))),
    {
        let packet_data = self.authenticated_bytes(audio_data);
        let full_hmac = generate_hmac(key, &packet_data);
        let calculated_prefix = extract_hmac_prefix(&full_hmac);
        self.hmac_prefix == calculated_prefix
    }
}

/// An audio packet: header and opus payload.
#[derive(Debug, Clone, PartialEq, Eq, Hash)]
pub struct AudioPacket {
    pub header: PacketHeader,
    pub opus_payload: Vec<u8>,
}

impl AudioPacket {
    /// The datagram bytes: the 16 header bytes, then the payload, no padding.
    pub fn to_bytes(&self) -> (r: Vec<u8>)
        ensures
            r@ == header_bytes(self.header) + self.opus_payload@,
    {
        let mut buf: Vec<u8> = Vec::new();
        self.header.write_to(&mut buf);
        append_bytes(&mut buf, self.opus_payload.as_slice());
        assert(buf@ =~= header_bytes(self.header) + self.opus_payload@);
        buf
    }

    /// Decodes a datagram: `TooShort` under 16 bytes; `InvalidLength` when the
    /// bytes after the header are not exactly `audio_length` of them.
    pub fn from_bytes(data: &[u8]) -> (r: Result<AudioPacket, PacketError>)
        ensures
            match parse_packet(data@) {
                Ok(decoded) => r is Ok && r->Ok_0.header == decoded.0 && r->Ok_0.opus_payload@ == decoded.1,
                Err(e) => r == Err::<AudioPacket, PacketError>(e),
            },
    {
        let header = match PacketHeader::read_from(data) {
            Ok(h) => h,
            Err(e) => {
                return Err(e);
            },
        };
        let remaining = data.len() - PacketHeader::SIZE;
        if remaining != header.audio_length as usize {
            return Err(PacketError::InvalidLength { expected: header.audio_length as usize, actual: remaining });
        }
        let opus_payload = copy_from(data, PacketHeader::SIZE);
        Ok(AudioPacket { header, opus_payload })
    }
}

/// Encoding a packet whose `audio_length` matches its payload, then decoding
/// the bytes, gives back the same header and payload.
pub proof fn lemma_packet_round_trip(h: PacketHeader, payload: Seq<u8>)
    requires
        h.audio_length == payload.len(),
    ensures
        parse_packet(header_bytes(h) + payload) == Ok::<(PacketHeader, Seq<u8>), PacketError>((h, payload)),
{
    let b = header_bytes(h) + payload;
    lemma_u16_round_trip(h.channel_id);
    lemma_u16_round_trip(h.user_id);
    lemma_u16_round_trip(h.sequence);
    lemma_u32_round_trip(h.timestamp);
    lemma_u16_round_trip(h.audio_length);
    lemma_u16_round_trip(h.hmac_prefix);
    assert(header_bytes(h).len() == 16);
    assert(parse_header(b) == h);
    assert(b.subrange(16, b.len() as int) =~= payload);
}

} // verus!
