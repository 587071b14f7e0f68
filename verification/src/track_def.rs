//! Stream and track descriptors.

use crate::keyframe::{is_keyframe_payload, keyframe_payload};
use crate::packet::{Packet, PacketView};
use vstd::prelude::*;

verus! {

/// Video codecs the gateway can forward.
#[derive(Clone, Copy, Debug, PartialEq, Eq, Hash, Structural)]
pub enum Codec {
    H264,
    VP8,
}

impl Codec {
    /// The MIME type under which the codec is offered to WebRTC peers.
    pub open spec fn spec_mime_type(self) -> Seq<char> {
        match self {
            Codec::H264 => "video/H264"@,
            Codec::VP8 => "video/VP8"@,
        }
    }

    /// The MIME type of the codec.
    pub fn mime_type(&self) -> (r: &'static str)
        ensures
            r@ == self.spec_mime_type(),
    {
        match self {
            Codec::H264 => "video/H264",
            Codec::VP8 => "video/VP8",
        }
    }
}

/// An IP address as a plain number: the 32 bits of an IPv4 address or the
/// 128 bits of an IPv6 address, first octet highest.
#[derive(Clone, Copy, Debug, PartialEq, Eq, Hash, Structural)]
pub enum IpAddress {
    V4(u32),
    V6(u128),
}

impl IpAddress {
    /// The IPv4 loopback address, 127.0.0.1.
    pub open spec fn spec_loopback() -> IpAddress {
        IpAddress::V4(0x7f00_0001)
    }

    pub fn loopback() -> (r: IpAddress)
        ensures
            r == Self::spec_loopback(),
    {
        IpAddress::V4(0x7f00_0001)
    }

    /// A multicast group: 224.0.0.0/4 for IPv4, ff00::/8 for IPv6.
    pub open spec fn spec_is_multicast(self) -> bool {
        match self {
            IpAddress::V4(bits) => 0xe000_0000 <= bits <= 0xefff_ffff,
            IpAddress::V6(bits) => bits >= 0xff00_0000_0000_0000_0000_0000_0000_0000,
        }
    }

    pub fn is_multicast(&self) -> (r: bool)
        ensures
            r == self.spec_is_multicast(),
    {
        match self {
            IpAddress::V4(bits) => 0xe000_0000 <= *bits && *bits <= 0xefff_ffff,
            IpAddress::V6(bits) => *bits >= 0xff00_0000_0000_0000_0000_0000_0000_0000,
        }
    }

    pub open spec fn spec_is_v4(self) -> bool {
        self is V4
    }

    pub fn is_v4(&self) -> (r: bool)
        ensures
            r == self.spec_is_v4(),
    {
        match self {
            IpAddress::V4(_) => true,
            IpAddress::V6(_) => false,
        }
    }
}

/// An address and a UDP port.
#[derive(Clone, Copy, Debug, PartialEq, Eq, Hash, Structural)]
pub struct SocketAddress {
    pub ip: IpAddress,
    pub port: u16,
}

/// One media track: where its RTP arrives and how it is encoded.
#[derive(Clone, Debug, PartialEq, Eq, Hash)]
pub struct TrackDef {
    /// UDP port to bind.
    pub port: u16,
    /// Unicast address to bind or multicast group to join; loopback if absent.
    pub ip: Option<IpAddress>,
    pub codec: Codec,
}

impl TrackDef {
    /// A copy, field for field.
    pub fn duplicate(&self) -> (r: TrackDef)
        ensures
            r == *self,
    {
        TrackDef { port: self.port, ip: self.ip, codec: self.codec }
    }

    /// Whether two tracks are described alike.
    pub fn same(&self, other: &TrackDef) -> (r: bool)
        ensures
            r == (*self == *other),
    {
        let ip_same = match (self.ip, other.ip) {
            (Some(a), Some(b)) => a == b,
            (None, None) => true,
            _ => false,
        };
        self.port == other.port && ip_same && self.codec == other.codec
    }

    /// The codec of the track.
    pub fn codec(&self) -> (r: Codec)
        ensures
            r == self.codec,
    {
        self.codec
    }

    /// The logical group of the track inside its stream.
    pub open spec fn spec_stream_id(self) -> Seq<char> {
        "video"@
    }

    pub fn stream_id(&self) -> (r: &'static str)
        ensures
            r@ == self.spec_stream_id(),
    {
        match self.codec {
            Codec::H264 => "video",
            Codec::VP8 => "video",
        }
    }

    /// The endpoint of the track: its address, or loopback, and its port.
    pub open spec fn spec_socket_addr(self) -> SocketAddress {
        SocketAddress {
            ip: match self.ip {
                Some(ip) => ip,
                None => IpAddress::spec_loopback(),
            },
            port: self.port,
        }
    }

    pub fn socket_addr(&self) -> (r: SocketAddress)
        ensures
            r == self.spec_socket_addr(),
    {
        let ip = match self.ip {
            Some(ip) => ip,
            None => IpAddress::loopback(),
        };
        SocketAddress { ip, port: self.port }
    }

    /// Whether the packet carries the start of a keyframe of this track's
    /// codec.
    pub open spec fn spec_is_keyframe(self, pkt: PacketView) -> bool {
        is_keyframe_payload(self.codec, pkt.payload)
    }

    pub fn is_keyframe(&self, pkt: &Packet) -> (r: bool)
        ensures
            r == self.spec_is_keyframe(pkt@),
    {
        keyframe_payload(self.codec, pkt.payload.as_slice())
    }
}

/// A logical stream as the operator describes it.
#[derive(Clone, Debug, PartialEq, Eq, Hash)]
pub struct StreamDef {
    /// Unique, non-empty.
    pub id: String,
    /// Carried along for front ends; the core does not read it.
    pub default: bool,
    pub video: Option<TrackDef>,
    pub audio: Option<TrackDef>,
}

/// A stream description as mathematics.
pub struct StreamDefView {
    pub id: Seq<char>,
    pub default: bool,
    pub video: Option<TrackDef>,
    pub audio: Option<TrackDef>,
}

impl View for StreamDef {
    type V = StreamDefView;

    open spec fn view(&self) -> StreamDefView {
        StreamDefView { id: self.id@, default: self.default, video: self.video, audio: self.audio }
    }
}

/// Whether two optional tracks are described alike.
pub fn same_track(a: &Option<TrackDef>, b: &Option<TrackDef>) -> (r: bool)
    ensures
        r == (*a == *b),
{
    match (a, b) {
        (Some(x), Some(y)) => x.same(y),
        (None, None) => true,
        _ => false,
    }
}

impl StreamDef {
    /// Whether two streams are described alike, field for field.
    pub fn same(&self, other: &StreamDef) -> (r: bool)
        ensures
            r == (self@ == other@),
    {
        self.id == other.id && self.default == other.default && same_track(
            &self.video,
            &other.video,
        ) && same_track(&self.audio, &other.audio)
    }

    /// A copy, field for field.
    pub fn duplicate(&self) -> (r: StreamDef)
        ensures
            r == *self,
    {
        let video = match &self.video {
            Some(t) => Some(t.duplicate()),
            None => None,
        };
        let audio = match &self.audio {
            Some(t) => Some(t.duplicate()),
            None => None,
        };
        StreamDef { id: self.id.clone(), default: self.default, video, audio }
    }

    /// Whether the stream has anything to send.
    pub open spec fn spec_has_track(self) -> bool {
        self.video is Some || self.audio is Some
    }

    pub fn has_track(&self) -> (r: bool)
        ensures
            r == self.spec_has_track(),
    {
        self.video.is_some() || self.audio.is_some()
    }
}

} // verus!
