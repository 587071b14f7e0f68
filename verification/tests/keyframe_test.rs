use easystreamer::keyframe::{h264_keyframe, keyframe_payload, vp8_keyframe};
use easystreamer::packet::{Header, Packet};
use easystreamer::track_def::{Codec, TrackDef};

#[test]
fn vp8_keyframe_without_extension() {
    // S set, PID 0, no extension; payload header with P clear.
    assert!(vp8_keyframe(&[0x10, 0x00]));
    assert!(vp8_keyframe(&[0x10, 0xfe, 0x12]));
    // P set: an interframe.
    assert!(!vp8_keyframe(&[0x10, 0x01]));
    // Not the start of a partition.
    assert!(!vp8_keyframe(&[0x00, 0x00]));
    // Start of partition 1.
    assert!(!vp8_keyframe(&[0x11, 0x00]));
    // N and the reserved bits do not matter.
    assert!(vp8_keyframe(&[0x70, 0x00]));
}

#[test]
fn vp8_keyframe_with_extension_bytes() {
    // X set, no flags: one extension byte.
    assert!(vp8_keyframe(&[0x90, 0x00, 0x00]));
    assert!(!vp8_keyframe(&[0x90, 0x00, 0x01]));
    // I with a one-byte picture id.
    assert!(vp8_keyframe(&[0x90, 0x80, 0x05, 0x00]));
    assert!(!vp8_keyframe(&[0x90, 0x80, 0x05, 0x01]));
    // I with a two-byte picture id.
    assert!(vp8_keyframe(&[0x90, 0x80, 0x85, 0x01, 0x00]));
    assert!(!vp8_keyframe(&[0x90, 0x80, 0x85, 0x00, 0x01]));
    // L adds a byte.
    assert!(vp8_keyframe(&[0x90, 0x40, 0xff, 0x00]));
    assert!(!vp8_keyframe(&[0x90, 0x40, 0x00, 0x01]));
    // T adds a byte, K adds the same byte, both add one.
    assert!(vp8_keyframe(&[0x90, 0x20, 0xff, 0x00]));
    assert!(vp8_keyframe(&[0x90, 0x10, 0xff, 0x00]));
    assert!(vp8_keyframe(&[0x90, 0x30, 0xff, 0x00]));
    assert!(!vp8_keyframe(&[0x90, 0x30, 0x00, 0x01]));
    // Everything at once: I (two bytes), L, T and K.
    assert!(vp8_keyframe(&[0x90, 0xf0, 0x80, 0x01, 0x02, 0x03, 0x00]));
    assert!(!vp8_keyframe(&[0x90, 0xf0, 0x80, 0x01, 0x02, 0x03, 0x01]));
    assert!(!vp8_keyframe(&[0x90, 0xf0, 0x80, 0x01, 0x02, 0x00, 0x01]));
}

#[test]
fn vp8_truncated_payload_is_no_keyframe() {
    assert!(!vp8_keyframe(&[]));
    assert!(!vp8_keyframe(&[0x10]));
    assert!(!vp8_keyframe(&[0x90]));
    assert!(!vp8_keyframe(&[0x90, 0x00]));
    assert!(!vp8_keyframe(&[0x90, 0x80]));
    assert!(!vp8_keyframe(&[0x90, 0x80, 0x00]));
    assert!(!vp8_keyframe(&[0x90, 0x80, 0x80, 0x00]));
    assert!(!vp8_keyframe(&[0x90, 0xf0, 0x80, 0x01, 0x02, 0x03]));
}

#[test]
fn h264_single_idr_unit() {
    assert!(h264_keyframe(&[0x65, 0x88]));
    assert!(h264_keyframe(&[0x05]));
    assert!(h264_keyframe(&[0x25]));
    // A non-IDR slice, a parameter set, an aggregation packet.
    assert!(!h264_keyframe(&[0x41, 0x9a]));
    assert!(!h264_keyframe(&[0x67, 0x42]));
    assert!(!h264_keyframe(&[0x78, 0x00]));
    assert!(!h264_keyframe(&[]));
}

#[test]
fn h264_fragmented_idr_unit() {
    // FU-A, start bit set, inner type 5.
    assert!(h264_keyframe(&[0x7c, 0x85]));
    // FU-B.
    assert!(h264_keyframe(&[0x7d, 0x85]));
    // Not the first fragment.
    assert!(!h264_keyframe(&[0x7c, 0x05]));
    assert!(!h264_keyframe(&[0x7c, 0x45]));
    // First fragment of a non-IDR slice.
    assert!(!h264_keyframe(&[0x7c, 0x81]));
    // The fragment header is missing.
    assert!(!h264_keyframe(&[0x7c]));
    // Start and end bit together are still a start.
    assert!(h264_keyframe(&[0x7c, 0xc5]));
}

#[test]
fn keyframe_goes_by_the_codec() {
    // The first byte of an IDR unit has the VP8 start bit clear.
    assert!(keyframe_payload(Codec::H264, &[0x65, 0x88]));
    assert!(!keyframe_payload(Codec::VP8, &[0x65, 0x88]));
    assert!(keyframe_payload(Codec::VP8, &[0x10, 0x00]));
    assert!(!keyframe_payload(Codec::H264, &[0x10, 0x00]));
}

#[test]
fn track_def_is_keyframe_reads_the_payload() {
    let header = Header { timestamp: 1, sequence_number: 1, marker: false, payload_type: 96 };
    let vp8 = TrackDef { port: 5002, ip: None, codec: Codec::VP8 };
    let h264 = TrackDef { port: 5004, ip: None, codec: Codec::H264 };
    let key = Packet { header, payload: vec![0x10, 0x00, 0x01, 0x02] };
    let inter = Packet { header, payload: vec![0x10, 0x01] };
    let idr = Packet { header, payload: vec![0x7c, 0x85, 0x00] };
    assert!(vp8.is_keyframe(&key));
    assert!(!vp8.is_keyframe(&inter));
    assert!(!vp8.is_keyframe(&idr));
    assert!(h264.is_keyframe(&idr));
    assert!(!h264.is_keyframe(&key));
    let empty = Packet { header, payload: vec![] };
    assert!(!vp8.is_keyframe(&empty));
    assert!(!h264.is_keyframe(&empty));
}
