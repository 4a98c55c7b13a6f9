use tas_rust::notice::Notice;
use tas_rust::session::SignalingState;
use webrtc::peer_connection::signaling_state::RTCSignalingState;

fn err() -> String {
    "boom".to_string()
}

#[test]
fn every_line_reads_as_printed() {
    let lines = vec![
        (Notice::SocketReconnecting, "Socket reconnecting in 2 seconds..."),
        (Notice::StartingVideo, "Starting video"),
        (Notice::BeginReceived, "Received begin event"),
        (Notice::SocketPayloadReceived, "Socket received payload"),
        (Notice::PayloadForwarded, "Forwarded payload to channel"),
        (Notice::PayloadForwardFailed(err()), "Failed to forward payload: boom"),
        (Notice::PayloadParseFailed(err()), "Failed to parse payload boom"),
        (Notice::InvalidPayload, "Invalid payload"),
        (Notice::PayloadSent, "Sent payload to remote"),
        (Notice::PayloadSendFailed(err()), "Failed to send payload to remote: boom"),
        (Notice::PayloadEncodeFailed, "Failed to parse payload to json"),
        (Notice::SocketStopped, "Socket stopped listening for events"),
        (Notice::ListeningToPipeline, "Listening to pipeline"),
        (Notice::SourceExhausted("Eos".to_string()), "source exhausted! Eos"),
        (
            Notice::ElementFailed { element: "Some(\"/a\")".to_string(), error: err() },
            "error from element Some(\"/a\") boom",
        ),
        (
            Notice::PipelineStateChanged { from: "Null".to_string(), to: "Ready".to_string() },
            "state changed from Null to Ready",
        ),
        (Notice::PipelineStopped, "Stopped listening to pipeline"),
        (Notice::ResponseSent, "send response to socket"),
        (Notice::ResponseSendFailed(err()), "Unable to send response to socket: boom"),
        (Notice::PeerStopped, "Peer stopped listening for events"),
        (Notice::CandidateAdded, "Added ice candidate"),
        (Notice::CandidateAddFailed(err()), "Failed to add ice candidate: boom"),
        (Notice::OfferReceived, "Received offer"),
        (
            Notice::OfferInInvalidState(SignalingState::HaveLocalOffer),
            "Offer received in invalid state: have-local-offer",
        ),
        (Notice::OfferApplyFailed(err()), "Failed to add remote description: boom"),
        (Notice::AnswerReceived, "Received answer"),
        (Notice::AnswerApplyFailed(err()), "Failed to set remote description: boom"),
        (Notice::UnknownSdpType, "Unknown sdp type received"),
        (Notice::RemoteDescriptionSet, "Remote description set"),
        (Notice::AnswerCreated, "Answer created"),
        (Notice::AnswerCreateFailed(err()), "Failed to create answer: boom"),
        (Notice::CandidateSent, "Sent candidate to socket"),
        (Notice::CandidateSendFailed(err()), "Failed to send candidate to socket: boom"),
        (Notice::OfferCreateFailed(err()), "Failed to create offer: boom"),
        (Notice::LocalDescriptionSet, "Set local description"),
        (Notice::LocalDescriptionFailed(err()), "Failed to set local description: boom"),
        (Notice::OfferSent, "Send offer to socket"),
        (Notice::OfferSendFailed(err()), "Failed to send offer to socket boom"),
        (Notice::PeerClosed, "The peerConnection has been closed."),
        (Notice::TrackWriteFailed(err()), "video_track write err: boom"),
    ];
    for (notice, line) in lines {
        assert_eq!(notice.text(), line);
    }
}

#[test]
fn signaling_states_are_spelled_as_webrtc_spells_them() {
    let states = vec![
        (SignalingState::Unspecified, RTCSignalingState::Unspecified),
        (SignalingState::Stable, RTCSignalingState::Stable),
        (SignalingState::HaveLocalOffer, RTCSignalingState::HaveLocalOffer),
        (SignalingState::HaveRemoteOffer, RTCSignalingState::HaveRemoteOffer),
        (SignalingState::HaveLocalPranswer, RTCSignalingState::HaveLocalPranswer),
        (SignalingState::HaveRemotePranswer, RTCSignalingState::HaveRemotePranswer),
        (SignalingState::Closed, RTCSignalingState::Closed),
    ];
    for (state, theirs) in states {
        assert_eq!(state.name(), theirs.to_string());
    }
}
