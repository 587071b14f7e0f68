//! What the description of a media source says of its streams.

use crate::error::GatewayError;
use crate::track_def::IpAddress;
use vstd::prelude::*;

verus! {

/// The codecs a source description can name.
#[derive(Clone, Copy, Debug, Hash, PartialEq, Eq, Structural)]
pub enum Codec {
    H264,
    OPUS,
    VP8,
    VP9,
    AV1,
    G722,
    PCMU,
    PCMA,
}

/// The codec a description names. Only the two video codecs that the
/// gateway forwards are read.
pub open spec fn spec_codec_named(name: Seq<char>) -> Option<Codec> {
    if name == "VP8"@ {
        Some(Codec::VP8)
    } else if name == "H264"@ {
        Some(Codec::H264)
    } else {
        None
    }
}

impl Codec {
    /// Reads a codec name; `ConfigError` for any other word.
    pub fn parse(s: &str) -> (r: Result<Codec, GatewayError>)
        ensures
            match r {
                Ok(c) => spec_codec_named(s@) == Some(c),
                Err(e) => spec_codec_named(s@) is None && e == GatewayError::ConfigError,
            },
    {
        let given: String = s.to_owned();
        if given == "VP8".to_owned() {
            Ok(Codec::VP8)
        } else if given == "H264".to_owned() {
            Ok(Codec::H264)
        } else {
            Err(GatewayError::ConfigError)
        }
    }
}

impl std::str::FromStr for Codec {
    type Err = GatewayError;

    /// Reads a codec name as `Codec::parse` does.
    fn from_str(s: &str) -> (r: Result<Codec, GatewayError>)
        ensures
            match r {
                Ok(c) => spec_codec_named(s@) == Some(c),
                Err(e) => spec_codec_named(s@) is None && e == GatewayError::ConfigError,
            },
    {
        Codec::parse(s)
    }
}

/// Audio or video.
#[derive(Clone, Copy, Debug, Hash, PartialEq, Eq, Structural)]
pub enum StreamType {
    AUDIO,
    VIDEO,
}

/// The kind of stream that a media line names.
pub open spec fn spec_stream_type_named(name: Seq<char>) -> Option<StreamType> {
    if name == "video"@ {
        Some(StreamType::VIDEO)
    } else if name == "audio"@ {
        Some(StreamType::AUDIO)
    } else {
        None
    }
}

impl StreamType {
    /// Reads `video` or `audio`; `ConfigError` for any other word.
    pub fn parse(s: &str) -> (r: Result<StreamType, GatewayError>)
        ensures
            match r {
                Ok(t) => spec_stream_type_named(s@) == Some(t),
                Err(e) => spec_stream_type_named(s@) is None && e == GatewayError::ConfigError,
            },
    {
        let given: String = s.to_owned();
        if given == "video".to_owned() {
            Ok(StreamType::VIDEO)
        } else if given == "audio".to_owned() {
            Ok(StreamType::AUDIO)
        } else {
            Err(GatewayError::ConfigError)
        }
    }
}

impl std::str::FromStr for StreamType {
    type Err = GatewayError;

    /// Reads `video` or `audio` as `StreamType::parse` does.
    fn from_str(s: &str) -> (r: Result<StreamType, GatewayError>)
        ensures
            match r {
                Ok(t) => spec_stream_type_named(s@) == Some(t),
                Err(e) => spec_stream_type_named(s@) is None && e == GatewayError::ConfigError,
            },
    {
        StreamType::parse(s)
    }
}

/// One media line of a description.
#[derive(Clone, Copy, Debug, Hash, PartialEq, Eq, Structural)]
pub struct MediaStream {
    pub stream_type: StreamType,
    pub port: u16,
    pub codec: Codec,
}

/// A source description, reduced to what the gateway reads.
#[derive(Clone, Debug, Hash, PartialEq, Eq)]
pub struct Sdp {
    pub origin: IpAddress,
    pub connection: IpAddress,
    pub streams: Vec<MediaStream>,
}

} // verus!
