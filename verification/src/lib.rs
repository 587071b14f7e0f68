//! Media-plane core of a low-latency WebRTC egress gateway: RTP ingest with a
//! keyframe-anchored fast-start buffer, the per-client pusher state machine,
//! client sessions and the controller that owns them.

pub mod app_controller;
pub mod buffered_track;
pub mod client;
pub mod config;
pub mod error;
pub mod fast_start;
pub mod gop;
pub mod id_map;
pub mod keyframe;
pub mod net_util;
pub mod track_def;
pub mod packet;
pub mod rtp_track;
pub mod sdp;
pub mod stream_manager;
