use std::future::Future;

use tas_rust::holler::{Holler, PeerCommand, PeerReply};
use tas_rust::notice::Notice;
use tas_rust::peer::{peer_api, video_track};
use tas_rust::session::{Payload, SdpType, SessionDescription, SignalingState};
use webrtc::peer_connection::configuration::RTCConfiguration;
use webrtc::peer_connection::sdp::sdp_type::RTCSdpType;
use webrtc::peer_connection::sdp::session_description::RTCSessionDescription;
use webrtc::peer_connection::signaling_state::RTCSignalingState;
use webrtc::peer_connection::RTCPeerConnection;
use webrtc::rtp_transceiver::rtp_codec::RTPCodecType;
use webrtc::track::track_local::TrackLocal;

fn block_on<F: Future>(future: F) -> F::Output {
    tokio::runtime::Builder::new_multi_thread()
        .worker_threads(2)
        .enable_all()
        .build()
        .unwrap()
        .block_on(future)
}

async fn connection() -> RTCPeerConnection {
    peer_api()
        .unwrap()
        .new_peer_connection(RTCConfiguration::default())
        .await
        .unwrap()
}

async fn offer_of(connection: &RTCPeerConnection) -> String {
    connection.add_transceiver_from_kind(RTPCodecType::Video, &[]).await.unwrap();
    connection.add_transceiver_from_kind(RTPCodecType::Audio, &[]).await.unwrap();
    connection.create_offer(None).await.unwrap().sdp
}

async fn perform(connection: &RTCPeerConnection, command: PeerCommand) -> PeerReply {
    match command {
        PeerCommand::AddIceCandidate(_) => panic!("no candidate was given"),
        PeerCommand::ReadSignalingState => {
            PeerReply::SignalingState(match connection.signaling_state() {
                RTCSignalingState::Stable => SignalingState::Stable,
                RTCSignalingState::HaveRemoteOffer => SignalingState::HaveRemoteOffer,
                other => panic!("{}", other),
            })
        }
        PeerCommand::SetRemoteDescription(description) => {
            let mut theirs = RTCSessionDescription::default();
            theirs.sdp_type = RTCSdpType::Offer;
            theirs.sdp = description.sdp;
            let set = connection.set_remote_description(theirs).await;
            PeerReply::RemoteDescriptionSet(set.map_err(|err| err.to_string()))
        }
        PeerCommand::CreateAnswer => {
            let created = connection.create_answer(None).await;
            PeerReply::AnswerCreated(
                created
                    .map(|answer| SessionDescription {
                        sdp_type: SdpType::Answer,
                        sdp: answer.sdp,
                    })
                    .map_err(|err| err.to_string()),
            )
        }
    }
}

async fn handle(connection: &RTCPeerConnection, sdp: &str) -> (Option<Payload>, Vec<Notice>) {
    let mut notices = vec![];
    let mut step = Holler::begin(Payload {
        candidate: None,
        sdp: Some(SessionDescription { sdp_type: SdpType::Offer, sdp: sdp.to_string() }),
    });
    loop {
        notices.append(&mut step.notices);
        match (step.command, step.state) {
            (Some(command), state) => step = state.resume(perform(connection, command).await),
            (None, Holler::Finished(response)) => return (response, notices),
            (None, state) => panic!("{:?}", state),
        }
    }
}

#[test]
fn api_offers_the_default_codecs() {
    block_on(async {
        let connection = connection().await;
        let sdp = offer_of(&connection).await;
        for codec in vec![
            "opus/48000", "G722/8000", "PCMU/8000", "PCMA/8000", "VP8/90000", "VP9/90000",
            "H264/90000", "rtx/90000", "ulpfec/90000",
        ] {
            assert!(sdp.contains(codec), "{} is missing", codec);
        }
        assert!(sdp.contains(
            "http://www.ietf.org/id/draft-holmer-rmcat-transport-wide-cc-extensions-01"
        ));
        connection.close().await.unwrap();
    });
}

/// The lines of the description that start as given, without that start.
fn lines_after(sdp: &str, start: &str) -> Vec<String> {
    sdp.lines().filter_map(|line| line.strip_prefix(start)).map(|rest| rest.to_string()).collect()
}

#[test]
fn api_offers_each_codec_as_registered() {
    block_on(async {
        let connection = connection().await;
        let sdp = offer_of(&connection).await;
        assert_eq!(
            lines_after(&sdp, "m=video 9 UDP/TLS/RTP/SAVPF "),
            vec!["96 97 98 99 100 101 102 121 127 120 125 107 108 109 123 118 116"]
        );
        assert_eq!(lines_after(&sdp, "m=audio 9 UDP/TLS/RTP/SAVPF "), vec!["111 9 0 8"]);
        for (payload_type, codec) in vec![
            ("111", "opus/48000/2"), ("9", "G722/8000"), ("0", "PCMU/8000"), ("8", "PCMA/8000"),
            ("96", "VP8/90000"), ("97", "rtx/90000"), ("98", "VP9/90000"), ("99", "rtx/90000"),
            ("100", "VP9/90000"), ("101", "rtx/90000"), ("102", "H264/90000"),
            ("121", "rtx/90000"), ("127", "H264/90000"), ("120", "rtx/90000"),
            ("125", "H264/90000"), ("107", "rtx/90000"), ("108", "H264/90000"),
            ("109", "rtx/90000"), ("123", "H264/90000"), ("118", "rtx/90000"),
            ("116", "ulpfec/90000"),
        ] {
            assert_eq!(lines_after(&sdp, &format!("a=rtpmap:{} ", payload_type)), vec![codec]);
        }
        let h264 = "level-asymmetry-allowed=1;packetization-mode=";
        for (payload_type, fmtp) in vec![
            ("111", "minptime=10;useinbandfec=1".to_string()),
            ("97", "apt=96".to_string()),
            ("98", "profile-id=0".to_string()),
            ("99", "apt=98".to_string()),
            ("100", "profile-id=1".to_string()),
            ("101", "apt=100".to_string()),
            ("102", format!("{}1;profile-level-id=42001f", h264)),
            ("121", "apt=102".to_string()),
            ("127", format!("{}0;profile-level-id=42001f", h264)),
            ("120", "apt=127".to_string()),
            ("125", format!("{}1;profile-level-id=42e01f", h264)),
            ("107", "apt=125".to_string()),
            ("108", format!("{}0;profile-level-id=42e01f", h264)),
            ("109", "apt=108".to_string()),
            ("123", format!("{}1;profile-level-id=640032", h264)),
            ("118", "apt=123".to_string()),
        ] {
            assert_eq!(lines_after(&sdp, &format!("a=fmtp:{} ", payload_type)), vec![fmtp]);
        }
        connection.close().await.unwrap();
    });
}

#[test]
fn api_codecs_ask_for_their_feedback() {
    block_on(async {
        let connection = connection().await;
        let sdp = offer_of(&connection).await;
        for payload_type in vec!["96", "98", "100", "102", "127", "125", "108", "123"] {
            assert_eq!(
                lines_after(&sdp, &format!("a=rtcp-fb:{} ", payload_type))
                    .iter()
                    .map(|feedback| feedback.trim())
                    .collect::<Vec<&str>>(),
                vec!["goog-remb", "ccm fir", "nack", "nack pli", "nack", "nack pli",
                    "transport-cc"]
            );
        }
        for payload_type in vec!["97", "99", "101", "121", "120", "107", "109", "118", "116"] {
            assert_eq!(
                lines_after(&sdp, &format!("a=rtcp-fb:{} ", payload_type))
                    .iter()
                    .map(|feedback| feedback.trim())
                    .collect::<Vec<&str>>(),
                vec!["nack", "nack pli", "transport-cc"]
            );
        }
        for payload_type in vec!["111", "9", "0", "8"] {
            assert_eq!(
                lines_after(&sdp, &format!("a=rtcp-fb:{} ", payload_type))
                    .iter()
                    .map(|feedback| feedback.trim())
                    .collect::<Vec<&str>>(),
                vec!["transport-cc"]
            );
        }
        connection.close().await.unwrap();
    });
}

#[test]
fn video_track_is_vp8() {
    let track = video_track();
    assert_eq!(track.codec().mime_type, "video/VP8");
    assert_eq!(track.codec().clock_rate, 0);
    assert_eq!(track.codec().channels, 0);
    assert_eq!(track.codec().sdp_fmtp_line, "");
    assert_eq!(track.codec().rtcp_feedback.len(), 0);
    assert_eq!(track.id(), "video");
    assert_eq!(track.stream_id(), "webrtc-rs");
    assert_eq!(track.kind(), RTPCodecType::Video);
}

#[test]
fn real_connection_answers_once() {
    block_on(async {
        let caller = connection().await;
        let callee = connection().await;
        let sdp = offer_of(&caller).await;

        let (response, notices) = handle(&callee, &sdp).await;
        let response = response.unwrap();
        assert_eq!(response.candidate, None);
        let answer = response.sdp.unwrap();
        assert_eq!(answer.sdp_type, SdpType::Answer);
        assert!(answer.sdp.contains("VP8/90000"));
        assert_eq!(
            notices,
            vec![Notice::OfferReceived, Notice::RemoteDescriptionSet, Notice::AnswerCreated]
        );

        let (response, notices) = handle(&callee, &sdp).await;
        assert_eq!(response, None);
        assert_eq!(
            notices,
            vec![
                Notice::OfferReceived,
                Notice::OfferInInvalidState(SignalingState::HaveRemoteOffer),
            ]
        );
        caller.close().await.unwrap();
        callee.close().await.unwrap();
    });
}

#[test]
fn real_connection_refuses_a_broken_offer() {
    block_on(async {
        let callee = connection().await;
        let (response, notices) = handle(&callee, "nonsense").await;
        assert_eq!(response, None);
        assert_eq!(notices.len(), 2);
        assert_eq!(notices[0], Notice::OfferReceived);
        assert!(notices[1].text().starts_with("Failed to add remote description: "));
        callee.close().await.unwrap();
    });
}
