use easystreamer::buffered_track::local_track_spec;
use easystreamer::client::{Client, SignalAction, StepOutcome};
use easystreamer::rtp_track::RtpTrack;
use easystreamer::track_def::{Codec, StreamDef, TrackDef};
use std::sync::Arc;
use std::time::Duration;
use webrtc::api::interceptor_registry::register_default_interceptors;
use webrtc::api::media_engine::MediaEngine;
use webrtc::api::APIBuilder;
use webrtc::interceptor::registry::Registry;
use webrtc::peer_connection::configuration::RTCConfiguration;
use webrtc::peer_connection::sdp::session_description::RTCSessionDescription;
use webrtc::peer_connection::RTCPeerConnection;
use webrtc::rtp_transceiver::rtp_codec::{RTCRtpCodecCapability, RTPCodecType};
use webrtc::track::track_local::track_local_static_rtp::TrackLocalStaticRTP;
use webrtc::track::track_local::TrackLocal;

async fn peer() -> RTCPeerConnection {
    let mut m = MediaEngine::default();
    m.register_default_codecs().unwrap();
    let registry = register_default_interceptors(Registry::new(), &mut m).unwrap();
    let api = APIBuilder::new()
        .with_media_engine(m)
        .with_interceptor_registry(registry)
        .build();
    api.new_peer_connection(RTCConfiguration::default()).await.unwrap()
}

fn outcome<T, E: std::fmt::Display>(r: &Result<T, E>) -> StepOutcome {
    match r {
        Ok(_) => StepOutcome::Succeeded,
        Err(e) => StepOutcome::Failed(e.to_string()),
    }
}

// Runs one exchange on `pc` in the order the session gives.
async fn answer(
    session: &mut Client<()>,
    pc: &RTCPeerConnection,
    offer: RTCSessionDescription,
) -> Result<RTCSessionDescription, String> {
    let mut action = session.signal().expect("no exchange is in flight");
    let mut offer = Some(offer);
    let mut created = None;
    let mut gathered = None;
    let mut local = None;
    let mut steps: Vec<&'static str> = Vec::new();
    loop {
        let step = match action {
            SignalAction::SetRemoteDescription => {
                steps.push("remote");
                let r = pc.set_remote_description(offer.take().unwrap()).await;
                gathered = Some(pc.gathering_complete_promise().await);
                outcome(&r)
            }
            SignalAction::CreateAnswer => {
                steps.push("answer");
                let r = pc.create_answer(None).await;
                let step = outcome(&r);
                created = r.ok();
                step
            }
            SignalAction::SetLocalDescription => {
                steps.push("local");
                match created.take() {
                    Some(a) => outcome(&pc.set_local_description(a).await),
                    None => StepOutcome::Failed("no answer".to_string()),
                }
            }
            SignalAction::AwaitGathering => {
                steps.push("gather");
                if let Some(mut g) = gathered.take() {
                    let _ = g.recv().await;
                }
                StepOutcome::Succeeded
            }
            SignalAction::ReadLocalDescription => {
                steps.push("read");
                local = pc.local_description().await;
                match local {
                    Some(_) => StepOutcome::Succeeded,
                    None => StepOutcome::Failed("no local description".to_string()),
                }
            }
            SignalAction::Done => {
                assert_eq!(steps, vec!["remote", "answer", "local", "gather", "read"]);
                return Ok(local.unwrap());
            }
            SignalAction::Failed(e) => return Err(format!("{:?}", e)),
            SignalAction::NotSignalling => return Err("not signalling".to_string()),
        };
        action = session.signal_step(step);
    }
}

#[test]
fn signalling_round_trip_answers_with_a_vp8_video_section() {
    let rt = tokio::runtime::Builder::new_multi_thread()
        .worker_threads(2)
        .enable_all()
        .build()
        .unwrap();
    let done = rt.block_on(async {
        tokio::time::timeout(Duration::from_secs(15), async {
            let browser = peer().await;
            browser
                .add_transceiver_from_kind(RTPCodecType::Video, &[])
                .await
                .unwrap();
            let offer = browser.create_offer(None).await.unwrap();
            browser.set_local_description(offer.clone()).await.unwrap();

            let track_def = TrackDef { port: 5002, ip: None, codec: Codec::VP8 };
            let stream_def = StreamDef {
                id: "cam".to_string(),
                default: false,
                video: Some(track_def.duplicate()),
                audio: None,
            };
            let spec = local_track_spec(&RtpTrack::new(&track_def, &stream_def));
            let gateway = peer().await;
            let track = Arc::new(TrackLocalStaticRTP::new(
                RTCRtpCodecCapability { mime_type: spec.mime_type, ..Default::default() },
                spec.id,
                spec.stream_id,
            ));
            gateway
                .add_track(track as Arc<dyn TrackLocal + Send + Sync>)
                .await
                .unwrap();

            let mut session: Client<()> = Client::new();
            let answer = answer(&mut session, &gateway, offer).await.unwrap();
            assert!(!session.is_signalling());
            assert!(answer.sdp.contains("m=video"));
            assert!(answer.sdp.contains("VP8/90000"));
            assert!(answer.sdp.contains("a=setup:active") || answer.sdp.contains("a=setup:passive"));
            assert!(answer.sdp.contains("cam"));
            browser.set_remote_description(answer).await.unwrap();

            // A second offer that cannot be applied fails the exchange and
            // leaves the session free.
            let bad = RTCSessionDescription::offer("not a description".to_string());
            match bad {
                Ok(bad) => assert!(answer_fails(&mut session, &gateway, bad).await),
                Err(_) => {}
            }
            assert!(!session.is_signalling());
            browser.close().await.unwrap();
            gateway.close().await.unwrap();
        })
        .await
    });
    assert!(done.is_ok(), "the exchange did not finish in time");
}

async fn answer_fails(
    session: &mut Client<()>,
    pc: &RTCPeerConnection,
    offer: RTCSessionDescription,
) -> bool {
    answer(session, pc, offer).await.is_err()
}
