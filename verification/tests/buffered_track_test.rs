use easystreamer::buffered_track::{
    local_track_spec, BufferedTrack, PusherAction, PusherState, TaskControls,
};
use easystreamer::packet::{Header, Packet};
use easystreamer::rtp_track::RtpTrack;
use easystreamer::track_def::{Codec, StreamDef, TrackDef};
use std::sync::Arc;

fn pkt(seq: u16) -> Arc<Packet> {
    Arc::new(Packet {
        header: Header { timestamp: 1000, sequence_number: seq, marker: false, payload_type: 96 },
        payload: vec![seq as u8],
    })
}

fn written(action: PusherAction) -> u16 {
    match action {
        PusherAction::Write(p) => p.header.sequence_number,
        _ => panic!("the pusher has a packet to write"),
    }
}

fn live_pusher(snapshot: &Vec<Arc<Packet>>) -> BufferedTrack {
    let mut p = BufferedTrack::new();
    p.play();
    assert!(matches!(p.poll(), PusherAction::Prime));
    p.primed(snapshot);
    p
}

#[test]
fn new_pusher_is_idle_and_waits() {
    let mut p = BufferedTrack::new();
    assert_eq!(p.state(), PusherState::Idle);
    assert_eq!(p.controls(), TaskControls { play: false, stop: false, kill: false });
    assert_eq!(p.controls(), TaskControls::none());
    assert_eq!(p.pending(), 0);
    assert!(matches!(p.poll(), PusherAction::AwaitControl));
    assert_eq!(p.state(), PusherState::Idle);
}

#[test]
fn play_takes_an_idle_pusher_to_priming_then_live() {
    let mut p = BufferedTrack::new();
    p.play();
    assert_eq!(p.state(), PusherState::Idle);
    assert!(p.controls().play);
    assert!(matches!(p.poll(), PusherAction::Prime));
    assert_eq!(p.state(), PusherState::Priming);
    assert!(!p.controls().play);
    // Until the snapshot arrives the pusher keeps asking for it.
    assert!(matches!(p.poll(), PusherAction::Prime));
    p.primed(&vec![pkt(1), pkt(2)]);
    assert_eq!(p.state(), PusherState::Live);
    assert_eq!(p.pending(), 2);
}

#[test]
fn snapshot_goes_out_before_live_packets_in_order() {
    let mut p = live_pusher(&vec![pkt(1), pkt(2), pkt(3)]);
    let mut out: Vec<u16> = Vec::new();
    out.push(written(p.poll()));
    // Live packets that arrive while the snapshot drains wait behind it.
    p.live(pkt(4));
    p.live(pkt(5));
    out.push(written(p.poll()));
    out.push(written(p.poll()));
    out.push(written(p.poll()));
    p.live(pkt(6));
    out.push(written(p.poll()));
    out.push(written(p.poll()));
    assert!(matches!(p.poll(), PusherAction::AwaitLive));
    assert_eq!(out, vec![1, 2, 3, 4, 5, 6]);
    assert_eq!(p.pending(), 0);
    assert_eq!(p.state(), PusherState::Live);
}

#[test]
fn write_hands_out_the_very_packet() {
    let first = pkt(1);
    let mut p = live_pusher(&vec![first.clone()]);
    match p.poll() {
        PusherAction::Write(w) => assert!(Arc::ptr_eq(&w, &first)),
        _ => panic!("the snapshot is written first"),
    }
    let live = pkt(2);
    p.live(live.clone());
    match p.poll() {
        PusherAction::Write(w) => assert!(Arc::ptr_eq(&w, &live)),
        _ => panic!("the live packet is written next"),
    }
}

#[test]
fn empty_snapshot_goes_straight_to_the_live_bus() {
    let mut p = live_pusher(&Vec::new());
    assert!(matches!(p.poll(), PusherAction::AwaitLive));
    p.live(pkt(9));
    assert_eq!(written(p.poll()), 9);
    assert!(matches!(p.poll(), PusherAction::AwaitLive));
}

#[test]
fn stop_takes_a_live_pusher_to_idle_and_drops_what_waits() {
    let mut p = live_pusher(&vec![pkt(1), pkt(2), pkt(3)]);
    assert_eq!(written(p.poll()), 1);
    p.stop();
    assert!(p.controls().stop);
    assert_eq!(p.state(), PusherState::Live);
    assert!(matches!(p.poll(), PusherAction::AwaitControl));
    assert_eq!(p.state(), PusherState::Idle);
    assert_eq!(p.pending(), 0);
    assert!(!p.controls().stop);
    // The task is still there: play starts it again.
    p.play();
    assert!(matches!(p.poll(), PusherAction::Prime));
}

#[test]
fn stop_on_an_idle_pusher_withdraws_a_waiting_play() {
    let mut p = BufferedTrack::new();
    p.play();
    p.stop();
    assert_eq!(p.controls(), TaskControls { play: false, stop: false, kill: false });
    assert!(matches!(p.poll(), PusherAction::AwaitControl));
}

#[test]
fn resync_pushes_the_prelude_again() {
    let mut p = live_pusher(&vec![pkt(1), pkt(2)]);
    assert_eq!(written(p.poll()), 1);
    assert_eq!(written(p.poll()), 2);
    p.live(pkt(3));
    assert_eq!(written(p.poll()), 3);
    p.live(pkt(4));
    // One stop and one play.
    p.resync();
    assert_eq!(p.controls(), TaskControls { play: true, stop: true, kill: false });
    assert!(matches!(p.poll(), PusherAction::Prime));
    assert_eq!(p.state(), PusherState::Priming);
    assert_eq!(p.controls(), TaskControls::none());
    assert_eq!(p.pending(), 0);
    // A packet of the old subscription that trails in is dropped.
    p.live(pkt(5));
    assert_eq!(p.pending(), 0);
    // The fresh snapshot starts at a keyframe; it is what goes out next.
    p.primed(&vec![pkt(10), pkt(11)]);
    assert_eq!(written(p.poll()), 10);
    assert_eq!(written(p.poll()), 11);
    assert!(matches!(p.poll(), PusherAction::AwaitLive));
}

#[test]
fn resync_on_an_idle_pusher_starts_it() {
    let mut p = BufferedTrack::new();
    p.resync();
    assert_eq!(p.controls(), TaskControls { play: true, stop: false, kill: false });
    assert!(matches!(p.poll(), PusherAction::Prime));
}

#[test]
fn resync_twice_is_resync_once() {
    let mut a = live_pusher(&vec![pkt(1)]);
    let mut b = live_pusher(&vec![pkt(1)]);
    a.resync();
    b.resync();
    b.resync();
    assert_eq!(a.controls(), b.controls());
    assert!(matches!(a.poll(), PusherAction::Prime));
    assert!(matches!(b.poll(), PusherAction::Prime));
    assert_eq!(a.state(), b.state());
    assert_eq!(a.controls(), b.controls());
}

#[test]
fn kill_wins_over_stop_play_and_packets() {
    let mut p = live_pusher(&vec![pkt(1), pkt(2)]);
    p.live(pkt(3));
    p.resync();
    p.kill();
    assert!(matches!(p.poll(), PusherAction::Exit));
    assert_eq!(p.state(), PusherState::Dead);
    assert_eq!(p.pending(), 0);
    assert_eq!(p.controls(), TaskControls::none());
    // Nothing brings a dead pusher back.
    p.play();
    p.resync();
    p.primed(&vec![pkt(4)]);
    p.live(pkt(5));
    assert_eq!(p.controls(), TaskControls::none());
    assert_eq!(p.pending(), 0);
    assert!(matches!(p.poll(), PusherAction::Exit));
    assert_eq!(p.state(), PusherState::Dead);
}

#[test]
fn kill_ends_an_idle_pusher() {
    let mut p = BufferedTrack::new();
    p.kill();
    assert!(p.controls().kill);
    assert!(matches!(p.poll(), PusherAction::Exit));
    assert_eq!(p.state(), PusherState::Dead);
}

#[test]
fn a_lost_track_kills_the_pusher_at_once() {
    let mut p = live_pusher(&vec![pkt(1), pkt(2)]);
    p.fail();
    assert_eq!(p.state(), PusherState::Dead);
    assert_eq!(p.pending(), 0);
    assert!(matches!(p.poll(), PusherAction::Exit));
}

#[test]
fn snapshot_and_live_packets_outside_a_play_cycle_are_dropped() {
    let mut p = BufferedTrack::new();
    p.primed(&vec![pkt(1)]);
    p.live(pkt(2));
    assert_eq!(p.state(), PusherState::Idle);
    assert_eq!(p.pending(), 0);
    let mut q = live_pusher(&vec![pkt(1)]);
    // A second snapshot while live changes nothing.
    q.primed(&vec![pkt(7), pkt(8)]);
    assert_eq!(q.pending(), 1);
    assert_eq!(written(q.poll()), 1);
}

#[test]
fn sending_track_is_named_after_track_and_stream() {
    let track_def = TrackDef { port: 5002, ip: None, codec: Codec::VP8 };
    let stream_def = StreamDef {
        id: "cam".to_string(),
        default: false,
        video: Some(track_def.duplicate()),
        audio: None,
    };
    let t = RtpTrack::new(&track_def, &stream_def);
    let spec = local_track_spec(&t);
    assert_eq!(spec.mime_type, "video/VP8");
    assert_eq!(spec.id, "video");
    assert_eq!(spec.stream_id, "cam");
    let h = TrackDef { port: 5004, ip: None, codec: Codec::H264 };
    let t2 = RtpTrack::new(&h, &stream_def);
    assert_eq!(local_track_spec(&t2).mime_type, "video/H264");
}
