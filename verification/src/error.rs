//! The error kinds of the gateway.

use vstd::prelude::*;

verus! {

/// Everything that can go wrong in the gateway. An error ends only the
/// narrowest component it concerns: a packet, a track or a session.
#[derive(Clone, Debug, PartialEq, Eq)]
pub enum GatewayError {
    /// The configuration is malformed: an unknown codec, a missing or
    /// repeated stream id.
    ConfigError,
    /// A socket could not be bound or could not join its group.
    BindError,
    /// A datagram is not a well-formed RTP packet.
    ParseError,
    /// A datagram is longer than the transport allows.
    OversizePacket,
    /// A step of the offer/answer exchange failed.
    SignallingFailed { reason: String },
    /// The peer connection was lost.
    PeerFailed,
    /// No stream of that id is attached.
    NotFound,
    /// A subscriber fell behind the broadcast ring and lost packets.
    BackpressureLoss,
}

/// The component that an error ends.
#[derive(Clone, Copy, Debug, PartialEq, Eq, Structural)]
pub enum ErrorScope {
    /// The process does not start.
    Startup,
    /// The track ends; other tracks go on.
    Track,
    /// The session is discarded; other sessions go on.
    Session,
    /// The request fails; the session goes on.
    Request,
    /// The packet is dropped, or the loss is logged; everything goes on.
    Packet,
}

impl GatewayError {
    /// The narrowest component that the error ends. Nothing but a startup
    /// error ends the process.
    pub open spec fn spec_scope(self) -> ErrorScope {
        match self {
            GatewayError::ConfigError => ErrorScope::Startup,
            GatewayError::BindError => ErrorScope::Track,
            GatewayError::OversizePacket => ErrorScope::Track,
            GatewayError::ParseError => ErrorScope::Packet,
            GatewayError::BackpressureLoss => ErrorScope::Packet,
            GatewayError::SignallingFailed { .. } => ErrorScope::Session,
            GatewayError::PeerFailed => ErrorScope::Session,
            GatewayError::NotFound => ErrorScope::Request,
        }
    }

    pub fn scope(&self) -> (r: ErrorScope)
        ensures
            r == self.spec_scope(),
    {
        match self {
            GatewayError::ConfigError => ErrorScope::Startup,
            GatewayError::BindError => ErrorScope::Track,
            GatewayError::OversizePacket => ErrorScope::Track,
            GatewayError::ParseError => ErrorScope::Packet,
            GatewayError::BackpressureLoss => ErrorScope::Packet,
            GatewayError::SignallingFailed { .. } => ErrorScope::Session,
            GatewayError::PeerFailed => ErrorScope::Session,
            GatewayError::NotFound => ErrorScope::Request,
        }
    }

    /// Whether the error ends the track it occurred on.
    pub open spec fn spec_is_fatal_for_track(self) -> bool {
        self.spec_scope() == ErrorScope::Track
    }

    pub fn is_fatal_for_track(&self) -> (r: bool)
        ensures
            r == self.spec_is_fatal_for_track(),
    {
        self.scope() == ErrorScope::Track
    }
}

} // verus!
