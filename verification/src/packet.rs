//! RTP packets as the gateway sees them, and the guard in front of the
//! RTP parser.

use crate::error::GatewayError;
use std::sync::Arc;
use vstd::prelude::*;
use webrtc::util::Unmarshal;

verus! {

/// The longest datagram a track accepts; anything longer means the encoder
/// is misconfigured.
pub const MAX_DATAGRAM_LEN: usize = 1200;

/// The header fields the gateway reads.
#[derive(Clone, Copy, Debug, PartialEq, Eq)]
pub struct Header {
    pub timestamp: u32,
    pub sequence_number: u16,
    pub marker: bool,
    pub payload_type: u8,
}

/// A decoded RTP packet.
#[derive(Clone, Debug, PartialEq, Eq)]
pub struct Packet {
    pub header: Header,
    pub payload: Vec<u8>,
}

/// What a packet is, mathematically.
pub struct PacketView {
    pub header: Header,
    pub payload: Seq<u8>,
}

impl View for Packet {
    type V = PacketView;

    open spec fn view(&self) -> PacketView {
        PacketView { header: self.header, payload: self.payload@ }
    }
}

/// The views of a run of shared packets.
pub open spec fn packet_views(v: Seq<Arc<Packet>>) -> Seq<PacketView> {
    v.map_values(|p: Arc<Packet>| p@)
}

/// Calls `Arc::clone`: another handle on the same packet, which is neither
/// copied nor changed.
#[verifier::external_body]
pub(crate) fn share(p: &Arc<Packet>) -> (r: Arc<Packet>)
    ensures
        r == *p,
{
    Arc::clone(p)
}

/// The error type of the RTP parser, `webrtc::util::Error`. Nothing is read
/// out of it.
#[verifier::external_type_specification]
#[verifier::external_body]
pub struct ExUnmarshalError(webrtc::util::Error);

/// The packet that the RTP parser reads out of a datagram, if it accepts it.
pub uninterp spec fn rtp_unmarshal(data: Seq<u8>) -> Option<PacketView>;

/// Whether every element of a one-byte-form header extension lies inside the
/// datagram. `pos` is the offset of the next element, `end` the end of the
/// extension block. A zero byte is padding; an element's first byte holds its
/// id in the high half and its length less one in the low half; id 15 ends
/// the block.
pub open spec fn one_byte_elements_fit(data: Seq<u8>, pos: int, end: int) -> bool
    decreases data.len() - pos,
{
    if pos < 0 || pos >= end || pos >= data.len() {
        true
    } else if data[pos] == 0 {
        one_byte_elements_fit(data, pos + 1, end)
    } else if data[pos] / 16 == 15 {
        true
    } else {
        let next = pos + 2 + data[pos] % 16;
        next <= data.len() && one_byte_elements_fit(data, next, end)
    }
}

/// Whether every element of a two-byte-form header extension lies inside the
/// datagram. A zero byte is padding; otherwise an element is an id byte, a
/// length byte and that many bytes.
pub open spec fn two_byte_elements_fit(data: Seq<u8>, pos: int, end: int) -> bool
    decreases data.len() - pos,
{
    if pos < 0 || pos >= end || pos >= data.len() {
        true
    } else if data[pos] == 0 {
        two_byte_elements_fit(data, pos + 1, end)
    } else if pos + 1 >= data.len() {
        false
    } else {
        let next = pos + 2 + data[pos + 1];
        next <= data.len() && two_byte_elements_fit(data, next, end)
    }
}

/// Length of the fixed header and the contributing-source list.
pub open spec fn fixed_header_len(data: Seq<u8>) -> int
    recommends
        data.len() > 0,
{
    12 + 4 * (data[0] % 16)
}

/// Whether the datagram announces a header extension.
pub open spec fn has_extension(data: Seq<u8>) -> bool
    recommends
        data.len() > 0,
{
    (data[0] / 16) % 2 == 1
}

/// Whether the RTP parser runs to an answer on the datagram. It reads each
/// element of a header extension in full without looking at what is left, so
/// an element that claims more bytes than the datagram holds is kept away
/// from it.
pub open spec fn parse_is_defined(data: Seq<u8>) -> bool {
    let at = fixed_header_len(data);
    let profile = data[at] * 256 + data[at + 1];
    let end = at + 4 + 4 * (data[at + 2] * 256 + data[at + 3]);
    data.len() < 4 || !has_extension(data) || data.len() < at + 4 || data.len() < end || {
        &&& profile == 0xBEDE ==> one_byte_elements_fit(data, at + 4, end)
        &&& profile == 0x1000 ==> two_byte_elements_fit(data, at + 4, end)
    }
}

fn check_one_byte_elements(data: &[u8], start: usize, end: usize) -> (r: bool)
    requires
        start <= end <= data@.len(),
    ensures
        r == one_byte_elements_fit(data@, start as int, end as int),
{
    let mut pos: usize = start;
    while pos < end
        invariant
            pos <= data@.len(),
            end <= data@.len(),
            one_byte_elements_fit(data@, start as int, end as int) == one_byte_elements_fit(
                data@,
                pos as int,
                end as int,
            ),
        decreases data@.len() - pos,
    {
        let b: u8 = data[pos];
        if b == 0 {
            pos = pos + 1;
        } else if b / 16 == 15 {
            return true;
        } else {
            let len: usize = (b % 16) as usize;
            if data.len() - pos < len + 2 {
                return false;
            }
            pos = pos + 2 + len;
        }
    }
    true
}

fn check_two_byte_elements(data: &[u8], start: usize, end: usize) -> (r: bool)
    requires
        start <= end <= data@.len(),
    ensures
        r == two_byte_elements_fit(data@, start as int, end as int),
{
    let mut pos: usize = start;
    while pos < end
        invariant
            pos <= data@.len(),
            end <= data@.len(),
            two_byte_elements_fit(data@, start as int, end as int) == two_byte_elements_fit(
                data@,
                pos as int,
                end as int,
            ),
        decreases data@.len() - pos,
    {
        let b: u8 = data[pos];
        if b == 0 {
            pos = pos + 1;
        } else if data.len() - pos < 2 {
            return false;
        } else {
            let len: usize = data[pos + 1] as usize;
            if data.len() - pos < len + 2 {
                return false;
            }
            pos = pos + 2 + len;
        }
    }
    true
}

/// Decides `parse_is_defined`.
pub fn check_parse_is_defined(data: &[u8]) -> (r: bool)
    ensures
        r == parse_is_defined(data@),
{
    if data.len() < 4 {
        return true;
    }
    let b0: u8 = data[0];
    if (b0 / 16) % 2 != 1 {
        return true;
    }
    let at: usize = 12 + 4 * ((b0 % 16) as usize);
    if data.len() < at + 4 {
        return true;
    }
    let profile: usize = (data[at] as usize) * 256 + (data[at + 1] as usize);
    let words: usize = (data[at + 2] as usize) * 256 + (data[at + 3] as usize);
    let end: usize = at + 4 + 4 * words;
    if data.len() < end {
        return true;
    }
    if profile == 0xBEDE {
        check_one_byte_elements(data, at + 4, end)
    } else if profile == 0x1000 {
        check_two_byte_elements(data, at + 4, end)
    } else {
        true
    }
}

/// Calls `webrtc::rtp::packet::Packet::unmarshal` on the datagram and keeps
/// the header fields and the payload of what it returns. The parser is a
/// function of the bytes alone; `rtp_unmarshal` names its answer. It stops
/// the thread on an extension element that overruns the datagram, which the
/// precondition rules out.
#[verifier::external_body]
fn unmarshal(data: &[u8]) -> (r: Result<Packet, webrtc::util::Error>)
    requires
        parse_is_defined(data@),
    ensures
        match r {
            Ok(p) => rtp_unmarshal(data@) == Some(p@),
            Err(_) => rtp_unmarshal(data@) is None,
        },
{
    let mut rest: &[u8] = data;
    let p = webrtc::rtp::packet::Packet::unmarshal(&mut rest)?;
    let header = Header {
        timestamp: p.header.timestamp,
        sequence_number: p.header.sequence_number,
        marker: p.header.marker,
        payload_type: p.header.payload_type,
    };
    Ok(Packet { header, payload: p.payload.to_vec() })
}

/// What a datagram decodes to: the packet the RTP parser reads from it, or
/// `ParseError` where the parser has no answer or refuses.
pub open spec fn spec_parse_packet(data: Seq<u8>) -> Result<PacketView, GatewayError> {
    if parse_is_defined(data) && rtp_unmarshal(data) is Some {
        Ok(rtp_unmarshal(data)->0)
    } else {
        Err(GatewayError::ParseError)
    }
}

/// The result of a decode, with the packet taken by its view.
pub open spec fn decoded_view(r: Result<Packet, GatewayError>) -> Result<PacketView, GatewayError> {
    match r {
        Ok(p) => Ok(p@),
        Err(e) => Err(e),
    }
}

/// Parses one datagram as one RTP packet.
pub fn parse_packet(data: &[u8]) -> (r: Result<Packet, GatewayError>)
    ensures
        decoded_view(r) == spec_parse_packet(data@),
{
    if !check_parse_is_defined(data) {
        return Err(GatewayError::ParseError);
    }
    match unmarshal(data) {
        Ok(p) => Ok(p),
        Err(_) => Err(GatewayError::ParseError),
    }
}

/// What the ingestor makes of a datagram: an oversize one is fatal for the
/// track, a malformed one is dropped, any other is a packet.
pub open spec fn spec_decode_datagram(data: Seq<u8>) -> Result<PacketView, GatewayError> {
    if data.len() > MAX_DATAGRAM_LEN {
        Err(GatewayError::OversizePacket)
    } else {
        spec_parse_packet(data)
    }
}

/// Decodes a received datagram, refusing oversize ones before parsing.
pub fn decode_datagram(data: &[u8]) -> (r: Result<Packet, GatewayError>)
    ensures
        decoded_view(r) == spec_decode_datagram(data@),
{
    if data.len() > MAX_DATAGRAM_LEN {
        Err(GatewayError::OversizePacket)
    } else {
        parse_packet(data)
    }
}

} // verus!
