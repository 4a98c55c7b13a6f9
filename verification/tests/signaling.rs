use tas_rust::holler::{Holler, PeerCommand, PeerReply};
use tas_rust::listener::{Listener, ListenerCommand, ListenerEvent};
use tas_rust::negotiation::{
    Gathering, GatheringCommand, GatheringEvent, Negotiation, NegotiationCommand,
    NegotiationEvent,
};
use tas_rust::notice::Notice;
use tas_rust::session::{IceCandidate, Payload, SdpType, SessionDescription, SignalingState};

fn description(sdp_type: SdpType, sdp: &str) -> SessionDescription {
    SessionDescription { sdp_type, sdp: sdp.to_string() }
}

fn candidate() -> IceCandidate {
    IceCandidate {
        candidate: "candidate:abc123".to_string(),
        sdp_mid: Some("0".to_string()),
        sdp_mline_index: Some(0),
        username_fragment: None,
    }
}

fn offer() -> Payload {
    Payload { candidate: None, sdp: Some(description(SdpType::Offer, "o")) }
}

fn failed<T>() -> Result<T, String> {
    Err("boom".to_string())
}

#[test]
fn empty_payload_does_nothing() {
    let step = Holler::begin(Payload { candidate: None, sdp: None });
    assert_eq!(step.state, Holler::Finished(None));
    assert_eq!(step.notices, vec![]);
    assert_eq!(step.command, None);
}

#[test]
fn stable_offer_is_answered() {
    let step = Holler::begin(offer());
    assert_eq!(step.notices, vec![Notice::OfferReceived]);
    assert_eq!(step.command, Some(PeerCommand::ReadSignalingState));
    let step = step.state.resume(PeerReply::SignalingState(SignalingState::Stable));
    assert_eq!(step.notices, vec![]);
    assert_eq!(
        step.command,
        Some(PeerCommand::SetRemoteDescription(description(SdpType::Offer, "o")))
    );
    let step = step.state.resume(PeerReply::RemoteDescriptionSet(Ok(())));
    assert_eq!(step.notices, vec![Notice::RemoteDescriptionSet]);
    assert_eq!(step.command, Some(PeerCommand::CreateAnswer));
    let answer = description(SdpType::Answer, "a");
    let step = step.state.resume(PeerReply::AnswerCreated(Ok(answer.clone())));
    assert_eq!(step.notices, vec![Notice::AnswerCreated]);
    assert_eq!(step.command, None);
    assert_eq!(
        step.state,
        Holler::Finished(Some(Payload { candidate: None, sdp: Some(answer) }))
    );
}

#[test]
fn offer_in_another_state_is_refused() {
    let step = Holler::begin(offer());
    let step = step.state.resume(PeerReply::SignalingState(SignalingState::HaveLocalOffer));
    assert_eq!(step.notices, vec![]);
    assert_eq!(step.command, Some(PeerCommand::ReadSignalingState));
    let step = step.state.resume(PeerReply::SignalingState(SignalingState::Closed));
    assert_eq!(step.notices, vec![Notice::OfferInInvalidState(SignalingState::Closed)]);
    assert_eq!(step.state, Holler::Finished(None));
    assert_eq!(step.command, None);
}

#[test]
fn offer_that_cannot_be_applied_gets_no_response() {
    let step = Holler::begin(offer());
    let step = step.state.resume(PeerReply::SignalingState(SignalingState::Stable));
    let step = step.state.resume(PeerReply::RemoteDescriptionSet(failed()));
    assert_eq!(step.notices, vec![Notice::OfferApplyFailed("boom".to_string())]);
    assert_eq!(step.state, Holler::Finished(None));
}

#[test]
fn offer_without_an_answer_gets_no_response() {
    let step = Holler::begin(offer());
    let step = step.state.resume(PeerReply::SignalingState(SignalingState::Stable));
    let step = step.state.resume(PeerReply::RemoteDescriptionSet(Ok(())));
    let step = step.state.resume(PeerReply::AnswerCreated(failed()));
    assert_eq!(step.notices, vec![Notice::AnswerCreateFailed("boom".to_string())]);
    assert_eq!(step.state, Holler::Finished(None));
}

#[test]
fn answer_is_applied_in_any_state() {
    for (set, notice) in vec![
        (Ok(()), Notice::RemoteDescriptionSet),
        (failed(), Notice::AnswerApplyFailed("boom".to_string())),
    ] {
        let answer = description(SdpType::Answer, "a");
        let step = Holler::begin(Payload { candidate: None, sdp: Some(answer.clone()) });
        assert_eq!(step.notices, vec![Notice::AnswerReceived]);
        assert_eq!(step.command, Some(PeerCommand::SetRemoteDescription(answer)));
        let step = step.state.resume(PeerReply::RemoteDescriptionSet(set));
        assert_eq!(step.notices, vec![notice]);
        assert_eq!(step.state, Holler::Finished(None));
        assert_eq!(step.command, None);
    }
}

#[test]
fn other_descriptions_are_passed_over() {
    for sdp_type in vec![SdpType::Unspecified, SdpType::Pranswer, SdpType::Rollback] {
        let step = Holler::begin(Payload {
            candidate: None,
            sdp: Some(description(sdp_type, "x")),
        });
        assert_eq!(step.notices, vec![Notice::UnknownSdpType]);
        assert_eq!(step.state, Holler::Finished(None));
        assert_eq!(step.command, None);
    }
}

#[test]
fn candidate_comes_first_and_its_failure_does_not_matter() {
    for (added, notice) in vec![
        (Ok(()), Notice::CandidateAdded),
        (failed(), Notice::CandidateAddFailed("boom".to_string())),
    ] {
        let step = Holler::begin(Payload {
            candidate: Some(candidate()),
            sdp: Some(description(SdpType::Offer, "o")),
        });
        assert_eq!(step.notices, vec![]);
        assert_eq!(step.command, Some(PeerCommand::AddIceCandidate(candidate())));
        let step = step.state.resume(PeerReply::IceCandidateAdded(added));
        assert_eq!(step.notices, vec![notice, Notice::OfferReceived]);
        assert_eq!(step.command, Some(PeerCommand::ReadSignalingState));
    }
}

#[test]
fn candidate_alone_ends_after_it_was_added() {
    let step = Holler::begin(Payload { candidate: Some(candidate()), sdp: None });
    let step = step.state.resume(PeerReply::IceCandidateAdded(Ok(())));
    assert_eq!(step.notices, vec![Notice::CandidateAdded]);
    assert_eq!(step.state, Holler::Finished(None));
    assert_eq!(step.command, None);
}

#[test]
fn unexpected_reports_change_nothing() {
    let step = Holler::begin(offer());
    let step = step.state.resume(PeerReply::RemoteDescriptionSet(Ok(())));
    assert_eq!(step.state, Holler::CheckingState(description(SdpType::Offer, "o")));
    assert_eq!(step.notices, vec![]);
    assert_eq!(step.command, None);
}

#[test]
fn listener_responds_before_it_takes_the_next_payload() {
    let step = Listener::start();
    assert_eq!(step.command, Some(ListenerCommand::Receive));
    let step = step.state.hear(ListenerEvent::Received(Some(offer())));
    assert_eq!(step.command, Some(ListenerCommand::Peer(PeerCommand::ReadSignalingState)));
    let step = step
        .state
        .hear(ListenerEvent::Peer(PeerReply::SignalingState(SignalingState::Stable)));
    let step = step.state.hear(ListenerEvent::Peer(PeerReply::RemoteDescriptionSet(Ok(()))));
    let answer = description(SdpType::Answer, "a");
    let step = step
        .state
        .hear(ListenerEvent::Peer(PeerReply::AnswerCreated(Ok(answer.clone()))));
    assert_eq!(step.notices, vec![Notice::AnswerCreated]);
    assert_eq!(
        step.command,
        Some(ListenerCommand::Send(Payload { candidate: None, sdp: Some(answer) }))
    );
    let step = step.state.hear(ListenerEvent::Received(Some(offer())));
    assert_eq!(step.state, Listener::Responding);
    let step = step.state.hear(ListenerEvent::Sent(Ok(())));
    assert_eq!(step.notices, vec![Notice::ResponseSent]);
    assert_eq!(step.command, Some(ListenerCommand::Receive));
}

#[test]
fn listener_survives_a_response_that_cannot_be_sent() {
    let step = Listener::Responding.hear(ListenerEvent::Sent(failed()));
    assert_eq!(step.notices, vec![Notice::ResponseSendFailed("boom".to_string())]);
    assert_eq!(step.state, Listener::Waiting);
    assert_eq!(step.command, Some(ListenerCommand::Receive));
}

#[test]
fn listener_goes_on_without_a_response() {
    let step = Listener::start();
    let step = step.state.hear(ListenerEvent::Received(Some(Payload {
        candidate: None,
        sdp: Some(description(SdpType::Rollback, "x")),
    })));
    assert_eq!(step.notices, vec![Notice::UnknownSdpType]);
    assert_eq!(step.state, Listener::Waiting);
    assert_eq!(step.command, Some(ListenerCommand::Receive));
}

#[test]
fn listener_stops_when_the_channel_closes() {
    let step = Listener::start().state.hear(ListenerEvent::Received(None));
    assert_eq!(step.notices, vec![Notice::PeerStopped]);
    assert_eq!(step.state, Listener::Stopped);
    assert_eq!(step.command, None);
    let step = step.state.hear(ListenerEvent::Received(Some(offer())));
    assert_eq!(step.state, Listener::Stopped);
    assert_eq!(step.notices, vec![]);
}

#[test]
fn gathered_candidate_is_sent_alone() {
    let step = Gathering::begin(true);
    assert_eq!(step.command, Some(GatheringCommand::Encode));
    let step = step.state.resume(GatheringEvent::Encoded(Ok(candidate())));
    assert_eq!(
        step.command,
        Some(GatheringCommand::Send(Payload { candidate: Some(candidate()), sdp: None }))
    );
    let step = step.state.resume(GatheringEvent::Sent(Ok(())));
    assert_eq!(step.notices, vec![Notice::CandidateSent]);
    assert_eq!(step.state, Gathering::Finished);
    let step = Gathering::Sending.resume(GatheringEvent::Sent(failed()));
    assert_eq!(step.notices, vec![Notice::CandidateSendFailed("boom".to_string())]);
    assert_eq!(step.state, Gathering::Finished);
}

#[test]
fn end_of_gathering_and_broken_candidates_are_silent() {
    let step = Gathering::begin(false);
    assert_eq!(step.state, Gathering::Finished);
    assert_eq!(step.command, None);
    let step = Gathering::Encoding.resume(GatheringEvent::Encoded(failed()));
    assert_eq!(step.state, Gathering::Finished);
    assert_eq!(step.notices, vec![]);
    assert_eq!(step.command, None);
}

#[test]
fn created_offer_is_set_and_sent() {
    for (set, notice) in vec![
        (Ok(()), Notice::LocalDescriptionSet),
        (failed(), Notice::LocalDescriptionFailed("boom".to_string())),
    ] {
        let offer = description(SdpType::Offer, "o");
        let step = Negotiation::begin();
        assert_eq!(step.command, Some(NegotiationCommand::CreateOffer));
        let step = step.state.resume(NegotiationEvent::OfferCreated(Ok(offer.clone())));
        assert_eq!(
            step.command,
            Some(NegotiationCommand::SetLocalDescription(offer.clone()))
        );
        let step = step.state.resume(NegotiationEvent::LocalDescriptionSet(set));
        assert_eq!(step.notices, vec![notice]);
        assert_eq!(
            step.command,
            Some(NegotiationCommand::Send(Payload { candidate: None, sdp: Some(offer) }))
        );
        let step = step.state.resume(NegotiationEvent::Sent(Ok(())));
        assert_eq!(step.notices, vec![Notice::OfferSent]);
        assert_eq!(step.state, Negotiation::Finished);
        assert_eq!(step.command, None);
    }
    let step = Negotiation::SendingOffer.resume(NegotiationEvent::Sent(failed()));
    assert_eq!(step.notices, vec![Notice::OfferSendFailed("boom".to_string())]);
}

#[test]
fn without_an_offer_nothing_is_sent() {
    let step = Negotiation::begin();
    let step = step.state.resume(NegotiationEvent::OfferCreated(failed()));
    assert_eq!(step.notices, vec![Notice::OfferCreateFailed("boom".to_string())]);
    assert_eq!(step.state, Negotiation::Finished);
    assert_eq!(step.command, None);
}

#[test]
fn candidate_leaves_the_description_as_it_is() {
    let without = Holler::begin(offer());
    let with = Holler::begin(Payload {
        candidate: Some(candidate()),
        sdp: Some(description(SdpType::Offer, "o")),
    });
    let with = with.state.resume(PeerReply::IceCandidateAdded(failed()));
    assert_eq!(with.state, without.state);
    assert_eq!(with.command, without.command);
    let without = without.state.resume(PeerReply::SignalingState(SignalingState::Stable));
    let with = with.state.resume(PeerReply::SignalingState(SignalingState::Stable));
    assert_eq!(with.state, without.state);
    assert_eq!(with.command, without.command);
    assert_eq!(with.notices, without.notices);
}
