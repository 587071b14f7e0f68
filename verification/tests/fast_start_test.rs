use easystreamer::fast_start::{FastStartBuffer, StreamState};
use easystreamer::packet::{Header, Packet};
use easystreamer::rtp_track::{Ingest, RtpTrack, MAX_PACKETS};
use easystreamer::error::GatewayError;
use easystreamer::track_def::{Codec, StreamDef, TrackDef};
use std::sync::Arc;

fn vp8(timestamp: u32, seq: u16, key: bool, first: bool) -> Arc<Packet> {
    let descriptor: u8 = if first { 0x10 } else { 0x00 };
    let frame_header: u8 = if key { 0x00 } else { 0x01 };
    Arc::new(Packet {
        header: Header { timestamp, sequence_number: seq, marker: false, payload_type: 96 },
        payload: vec![descriptor, frame_header, (seq % 256) as u8],
    })
}

// One frame per group of pictures: thirty packets under one timestamp, the
// first of them opening a keyframe.
fn single_frame_gops(buffer: &mut FastStartBuffer, packets: std::ops::RangeInclusive<u16>) {
    for n in packets {
        let gop = (n - 1) / 30;
        let first = (n - 1) % 30 == 0;
        buffer.push(Codec::VP8, vp8(1000 + 3000 * gop as u32, n, first, first));
    }
}

#[test]
fn stream_state_starts_at_zero() {
    let s = StreamState::new();
    assert_eq!(
        s,
        StreamState { idx_last_gop: 0, idx_last_kframe_gop: 0, found_kf: false, num_packets_buffered: 0 }
    );
    assert_eq!(StreamState::default(), s);
    let b = FastStartBuffer::new();
    assert_eq!(b.len(), 0);
    assert_eq!(b.state(), s);
    assert!(b.snapshot().is_empty());
}

#[test]
fn first_packet_is_stored_as_it_comes() {
    let mut b = FastStartBuffer::new();
    b.push(Codec::VP8, vp8(7, 1, true, true));
    assert_eq!(b.len(), 1);
    assert_eq!(
        b.state(),
        StreamState { idx_last_gop: 0, idx_last_kframe_gop: 0, found_kf: false, num_packets_buffered: 1 }
    );
}

#[test]
fn cold_join_vp8_three_gops() {
    let track = TrackDef { port: 5002, ip: None, codec: Codec::VP8 };
    let mut b = FastStartBuffer::new();
    single_frame_gops(&mut b, 1..=30);
    assert_eq!(b.len(), 30);
    single_frame_gops(&mut b, 31..=60);
    assert_eq!(b.len(), 60);
    single_frame_gops(&mut b, 61..=90);
    let snap = b.snapshot();
    // The cut lags one group behind the keyframe that causes it: the first
    // group leaves when the fourth opens.
    assert_eq!(snap.len(), 90);
    assert!(track.is_keyframe(&snap[0]));
    assert_eq!(snap[0].header.sequence_number, 1);
    assert_eq!(
        b.state(),
        StreamState { idx_last_gop: 60, idx_last_kframe_gop: 30, found_kf: false, num_packets_buffered: 90 }
    );
    single_frame_gops(&mut b, 91..=91);
    let snap = b.snapshot();
    assert_eq!(snap.len(), 61);
    assert!(track.is_keyframe(&snap[0]));
    assert_eq!(snap[0].header.sequence_number, 31);
    assert_eq!(snap[30].header.sequence_number, 61);
    assert!(track.is_keyframe(&snap[30]));
    assert_eq!(snap[60].header.sequence_number, 91);
    assert_eq!(
        b.state(),
        StreamState { idx_last_gop: 60, idx_last_kframe_gop: 30, found_kf: false, num_packets_buffered: 61 }
    );
    single_frame_gops(&mut b, 92..=120);
    assert_eq!(b.len(), 90);
    single_frame_gops(&mut b, 121..=121);
    assert_eq!(b.len(), 61);
    assert_eq!(b.snapshot()[0].header.sequence_number, 61);
}

#[test]
fn snapshot_is_the_tail_of_what_came_in_order() {
    let mut b = FastStartBuffer::new();
    single_frame_gops(&mut b, 1..=100);
    let snap = b.snapshot();
    assert_eq!(snap.len(), 70);
    for (i, p) in snap.iter().enumerate() {
        assert_eq!(p.header.sequence_number as usize, 31 + i);
    }
    // A snapshot shares the packets and leaves the buffer alone.
    assert_eq!(b.len(), 70);
    let again = b.snapshot();
    assert!(Arc::ptr_eq(&snap[0], &again[0]));
    assert!(Arc::ptr_eq(&snap[69], &again[69]));
}

#[test]
fn h264_keyframe_inside_its_group_anchors_the_buffer() {
    // Each group of pictures: a keyframe of three packets (a parameter set,
    // the first fragment of an IDR unit, another fragment), then four
    // interframes of one packet each.
    let track = TrackDef { port: 5004, ip: None, codec: Codec::H264 };
    let mut b = FastStartBuffer::new();
    let mut seq: u16 = 0;
    let mut all: Vec<Arc<Packet>> = Vec::new();
    for gop in 0..4u32 {
        for frame in 0..5u32 {
            let ts = 90_000 * gop + 3_000 * frame;
            let payloads: Vec<Vec<u8>> = if frame == 0 {
                vec![vec![0x67, 0x42], vec![0x7c, 0x85, 0x01], vec![0x7c, 0x45, 0x02]]
            } else {
                vec![vec![0x41, 0x9a]]
            };
            for payload in payloads {
                seq += 1;
                let p = Arc::new(Packet {
                    header: Header { timestamp: ts, sequence_number: seq, marker: false, payload_type: 102 },
                    payload,
                });
                all.push(p.clone());
                b.push(Codec::H264, p);
            }
            if seq == 24 {
                // The fourth keyframe is in, the frame after it is not: two
                // complete groups of pictures and the keyframe in progress.
                let snap = b.snapshot();
                assert_eq!(snap.len(), 17);
                assert_eq!(snap[0].header.sequence_number, 8);
                assert_eq!(snap.iter().filter(|p| track.is_keyframe(p)).count(), 3);
            }
        }
    }
    assert_eq!(seq, 28);
    // The frame after the fourth keyframe cut the buffer down to where the
    // third group of pictures starts.
    let snap = b.snapshot();
    assert_eq!(snap.len(), 14);
    assert_eq!(snap[0].header.sequence_number, 15);
    assert_eq!(snap[0].payload, vec![0x67, 0x42]);
    assert!(track.is_keyframe(&snap[1]));
    assert_eq!(snap[0].header.timestamp, snap[1].header.timestamp);
    assert_eq!(snap.iter().filter(|p| track.is_keyframe(p)).count(), 2);
    for (i, p) in snap.iter().enumerate() {
        assert!(Arc::ptr_eq(p, &all[14 + i]));
    }
}

#[test]
fn vp8_keyframe_that_opens_its_group_is_second_in_the_buffer() {
    // Groups of pictures of three frames of ten packets; only the first
    // packet of the first frame opens a keyframe.
    let track = TrackDef { port: 5002, ip: None, codec: Codec::VP8 };
    let mut b = FastStartBuffer::new();
    for n in 1..=90u16 {
        let frame = (n - 1) / 10;
        let first = (n - 1) % 10 == 0;
        let key = first && frame % 3 == 0;
        b.push(Codec::VP8, vp8(3000 * frame as u32, n, key, first));
    }
    let snap = b.snapshot();
    assert_eq!(snap.len(), 70);
    assert_eq!(snap[0].header.sequence_number, 21);
    assert!(!track.is_keyframe(&snap[0]));
    assert!(track.is_keyframe(&snap[10]));
    assert_eq!(snap[10].header.sequence_number, 31);
}

#[test]
fn no_keyframe_means_nothing_is_dropped() {
    let mut b = FastStartBuffer::new();
    for n in 1..=50u16 {
        b.push(Codec::VP8, vp8(n as u32, n, false, true));
    }
    assert_eq!(b.len(), 50);
    assert_eq!(
        b.state(),
        StreamState { idx_last_gop: 49, idx_last_kframe_gop: 0, found_kf: false, num_packets_buffered: 50 }
    );
}

#[test]
fn keyframe_flag_rises_inside_a_group_and_falls_at_the_cut() {
    let mut b = FastStartBuffer::new();
    let p = |ts: u32, seq: u16, payload: Vec<u8>| {
        Arc::new(Packet {
            header: Header { timestamp: ts, sequence_number: seq, marker: false, payload_type: 102 },
            payload,
        })
    };
    b.push(Codec::H264, p(1, 1, vec![0x67]));
    b.push(Codec::H264, p(1, 2, vec![0x65]));
    assert!(b.state().found_kf);
    b.push(Codec::H264, p(2, 3, vec![0x41]));
    assert_eq!(
        b.state(),
        StreamState { idx_last_gop: 2, idx_last_kframe_gop: 0, found_kf: false, num_packets_buffered: 3 }
    );
    b.push(Codec::H264, p(3, 4, vec![0x67]));
    b.push(Codec::H264, p(3, 5, vec![0x65]));
    b.push(Codec::H264, p(4, 6, vec![0x41]));
    assert_eq!(
        b.state(),
        StreamState { idx_last_gop: 5, idx_last_kframe_gop: 3, found_kf: false, num_packets_buffered: 6 }
    );
    b.push(Codec::H264, p(5, 7, vec![0x67]));
    b.push(Codec::H264, p(5, 8, vec![0x65]));
    b.push(Codec::H264, p(6, 9, vec![0x41]));
    assert_eq!(
        b.state(),
        StreamState { idx_last_gop: 5, idx_last_kframe_gop: 3, found_kf: false, num_packets_buffered: 6 }
    );
    assert_eq!(b.snapshot()[0].header.sequence_number, 4);
}

fn cam() -> (TrackDef, StreamDef) {
    let track = TrackDef { port: 5002, ip: None, codec: Codec::VP8 };
    let stream = StreamDef { id: "cam".to_string(), default: true, video: Some(track.duplicate()), audio: None };
    (track, stream)
}

fn datagram(timestamp: u32, seq: u16, payload: &[u8]) -> Vec<u8> {
    let mut d = vec![0x80u8, 0x60];
    d.extend_from_slice(&seq.to_be_bytes());
    d.extend_from_slice(&timestamp.to_be_bytes());
    d.extend_from_slice(&[0, 0, 0, 1]);
    d.extend_from_slice(payload);
    d
}

#[test]
fn track_buffers_and_publishes_each_datagram() {
    let (track_def, stream_def) = cam();
    let mut t = RtpTrack::new(&track_def, &stream_def);
    assert_eq!(*t.track_def(), track_def);
    assert_eq!(*t.stream_def(), stream_def);
    assert!(t.ff_buf().is_empty());
    match t.handle_datagram(&datagram(10, 1, &[0x10, 0x00])) {
        Ingest::Publish(p) => {
            assert_eq!(p.header.timestamp, 10);
            assert_eq!(p.header.sequence_number, 1);
            assert_eq!(p.payload, vec![0x10, 0x00]);
            let snap = t.ff_buf();
            assert_eq!(snap.len(), 1);
            assert!(Arc::ptr_eq(&snap[0], &p));
        }
        _ => panic!("the datagram is a packet"),
    }
    assert_eq!(t.fast_start_packets().len(), 1);
    assert_eq!(MAX_PACKETS, 10000);
}

#[test]
fn oversize_datagram_ends_the_track_and_leaves_the_buffer() {
    let (track_def, stream_def) = cam();
    let mut t = RtpTrack::new(&track_def, &stream_def);
    assert!(matches!(t.handle_datagram(&datagram(10, 1, &[0x10, 0x00])), Ingest::Publish(_)));
    let big = datagram(20, 2, &[0u8; 1388]);
    assert_eq!(big.len(), 1400);
    match t.handle_datagram(&big) {
        Ingest::Stop(e) => assert_eq!(e, GatewayError::OversizePacket),
        _ => panic!("an oversize datagram ends the track"),
    }
    assert_eq!(t.ff_buf().len(), 1);
    // Another track is not affected.
    let mut other = RtpTrack::new(&track_def, &stream_def);
    assert!(matches!(other.handle_datagram(&datagram(10, 1, &[0x10, 0x00])), Ingest::Publish(_)));
}

#[test]
fn malformed_datagram_is_discarded_and_ingest_goes_on() {
    let (track_def, stream_def) = cam();
    let mut t = RtpTrack::new(&track_def, &stream_def);
    match t.handle_datagram(&[0x80, 0x60, 0x00]) {
        Ingest::Discard(e) => assert_eq!(e, GatewayError::ParseError),
        _ => panic!("a short datagram is dropped"),
    }
    assert!(t.ff_buf().is_empty());
    assert!(matches!(t.handle_datagram(&datagram(10, 1, &[0x10, 0x00])), Ingest::Publish(_)));
    assert_eq!(t.ff_buf().len(), 1);
}

#[test]
fn track_applies_the_buffer_policy_of_its_codec() {
    let (track_def, stream_def) = cam();
    let mut t = RtpTrack::new(&track_def, &stream_def);
    for n in 1..=91u16 {
        let gop = (n - 1) / 30;
        let first = (n - 1) % 30 == 0;
        let payload: [u8; 2] = if first { [0x10, 0x00] } else { [0x00, 0x01] };
        let r = t.handle_datagram(&datagram(1000 + 3000 * gop as u32, n, &payload));
        assert!(matches!(r, Ingest::Publish(_)));
    }
    let snap = t.ff_buf();
    assert_eq!(snap.len(), 61);
    assert_eq!(snap[0].header.sequence_number, 31);
    assert!(t.track_def().is_keyframe(&snap[0]));
    t.handle_fast_start_buffering(vp8(999_999, 92, true, true));
    assert_eq!(t.ff_buf().len(), 32);
}
