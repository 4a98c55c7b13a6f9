//! The lines that are printed while the program runs.

use vstd::prelude::*;
use vstd::string::StringExecFns;

use crate::session::SignalingState;

verus! {

/// One line of the program's log. Where a variant carries a text, it is the reason or the
/// rendering that the outside party gave.
#[derive(Debug, PartialEq, Eq)]
pub enum Notice {
    SocketReconnecting,
    StartingVideo,
    BeginReceived,
    SocketPayloadReceived,
    PayloadForwarded,
    PayloadForwardFailed(String),
    PayloadParseFailed(String),
    InvalidPayload,
    PayloadSent,
    PayloadSendFailed(String),
    PayloadEncodeFailed,
    SocketStopped,
    ListeningToPipeline,
    SourceExhausted(String),
    ElementFailed { element: String, error: String },
    PipelineStateChanged { from: String, to: String },
    PipelineStopped,
    ResponseSent,
    ResponseSendFailed(String),
    PeerStopped,
    CandidateAdded,
    CandidateAddFailed(String),
    OfferReceived,
    OfferInInvalidState(SignalingState),
    OfferApplyFailed(String),
    AnswerReceived,
    AnswerApplyFailed(String),
    UnknownSdpType,
    RemoteDescriptionSet,
    AnswerCreated,
    AnswerCreateFailed(String),
    CandidateSent,
    CandidateSendFailed(String),
    OfferCreateFailed(String),
    LocalDescriptionSet,
    LocalDescriptionFailed(String),
    OfferSent,
    OfferSendFailed(String),
    PeerClosed,
    TrackWriteFailed(String),
}

impl Notice {
    /// The line as it is printed, without the line break.
    pub open spec fn line(self) -> Seq<char> {
        match self {
            Notice::SocketReconnecting => "Socket reconnecting in 2 seconds..."@,
            Notice::StartingVideo => "Starting video"@,
            Notice::BeginReceived => "Received begin event"@,
            Notice::SocketPayloadReceived => "Socket received payload"@,
            Notice::PayloadForwarded => "Forwarded payload to channel"@,
            Notice::PayloadForwardFailed(err) => "Failed to forward payload: "@ + err@,
            Notice::PayloadParseFailed(err) => "Failed to parse payload "@ + err@,
            Notice::InvalidPayload => "Invalid payload"@,
            Notice::PayloadSent => "Sent payload to remote"@,
            Notice::PayloadSendFailed(err) => "Failed to send payload to remote: "@ + err@,
            Notice::PayloadEncodeFailed => "Failed to parse payload to json"@,
            Notice::SocketStopped => "Socket stopped listening for events"@,
            Notice::ListeningToPipeline => "Listening to pipeline"@,
            Notice::SourceExhausted(eos) => "source exhausted! "@ + eos@,
            Notice::ElementFailed { element, error } => "error from element "@ + element@ + " "@
                + error@,
            Notice::PipelineStateChanged { from, to } => "state changed from "@ + from@
                + " to "@ + to@,
            Notice::PipelineStopped => "Stopped listening to pipeline"@,
            Notice::ResponseSent => "send response to socket"@,
            Notice::ResponseSendFailed(err) => "Unable to send response to socket: "@ + err@,
            Notice::PeerStopped => "Peer stopped listening for events"@,
            Notice::CandidateAdded => "Added ice candidate"@,
            Notice::CandidateAddFailed(err) => "Failed to add ice candidate: "@ + err@,
            Notice::OfferReceived => "Received offer"@,
            Notice::OfferInInvalidState(state) => "Offer received in invalid state: "@
                + state.spelling(),
            Notice::OfferApplyFailed(err) => "Failed to add remote description: "@ + err@,
            Notice::AnswerReceived => "Received answer"@,
            Notice::AnswerApplyFailed(err) => "Failed to set remote description: "@ + err@,
            Notice::UnknownSdpType => "Unknown sdp type received"@,
            Notice::RemoteDescriptionSet => "Remote description set"@,
            Notice::AnswerCreated => "Answer created"@,
            Notice::AnswerCreateFailed(err) => "Failed to create answer: "@ + err@,
            Notice::CandidateSent => "Sent candidate to socket"@,
            Notice::CandidateSendFailed(err) => "Failed to send candidate to socket: "@ + err@,
            Notice::OfferCreateFailed(err) => "Failed to create offer: "@ + err@,
            Notice::LocalDescriptionSet => "Set local description"@,
            Notice::LocalDescriptionFailed(err) => "Failed to set local description: "@ + err@,
            Notice::OfferSent => "Send offer to socket"@,
            Notice::OfferSendFailed(err) => "Failed to send offer to socket "@ + err@,
            Notice::PeerClosed => "The peerConnection has been closed."@,
            Notice::TrackWriteFailed(err) => "video_track write err: "@ + err@,
        }
    }

    /// The line to print.
    pub fn text(&self) -> (text: String)
        ensures
            text@ == self.line(),
    {
        match self {
            Notice::SocketReconnecting => "Socket reconnecting in 2 seconds...".to_string(),
            Notice::StartingVideo => "Starting video".to_string(),
            Notice::BeginReceived => "Received begin event".to_string(),
            Notice::SocketPayloadReceived => "Socket received payload".to_string(),
            Notice::PayloadForwarded => "Forwarded payload to channel".to_string(),
            Notice::PayloadForwardFailed(err) => joined("Failed to forward payload: ", err),
            Notice::PayloadParseFailed(err) => joined("Failed to parse payload ", err),
            Notice::InvalidPayload => "Invalid payload".to_string(),
            Notice::PayloadSent => "Sent payload to remote".to_string(),
            Notice::PayloadSendFailed(err) => joined("Failed to send payload to remote: ", err),
            Notice::PayloadEncodeFailed => "Failed to parse payload to json".to_string(),
            Notice::SocketStopped => "Socket stopped listening for events".to_string(),
            Notice::ListeningToPipeline => "Listening to pipeline".to_string(),
            Notice::SourceExhausted(eos) => joined("source exhausted! ", eos),
            Notice::ElementFailed { element, error } => joined(
                joined(joined("error from element ", element).as_str(), " ").as_str(),
                error,
            ),
            Notice::PipelineStateChanged { from, to } => joined(
                joined(joined("state changed from ", from).as_str(), " to ").as_str(),
                to,
            ),
            Notice::PipelineStopped => "Stopped listening to pipeline".to_string(),
            Notice::ResponseSent => "send response to socket".to_string(),
            Notice::ResponseSendFailed(err) => joined("Unable to send response to socket: ", err),
            Notice::PeerStopped => "Peer stopped listening for events".to_string(),
            Notice::CandidateAdded => "Added ice candidate".to_string(),
            Notice::CandidateAddFailed(err) => joined("Failed to add ice candidate: ", err),
            Notice::OfferReceived => "Received offer".to_string(),
            Notice::OfferInInvalidState(state) => joined(
                "Offer received in invalid state: ",
                state.name().as_str(),
            ),
            Notice::OfferApplyFailed(err) => joined("Failed to add remote description: ", err),
            Notice::AnswerReceived => "Received answer".to_string(),
            Notice::AnswerApplyFailed(err) => joined("Failed to set remote description: ", err),
            Notice::UnknownSdpType => "Unknown sdp type received".to_string(),
            Notice::RemoteDescriptionSet => "Remote description set".to_string(),
            Notice::AnswerCreated => "Answer created".to_string(),
            Notice::AnswerCreateFailed(err) => joined("Failed to create answer: ", err),
            Notice::CandidateSent => "Sent candidate to socket".to_string(),
            Notice::CandidateSendFailed(err) => joined("Failed to send candidate to socket: ", err),
            Notice::OfferCreateFailed(err) => joined("Failed to create offer: ", err),
            Notice::LocalDescriptionSet => "Set local description".to_string(),
            Notice::LocalDescriptionFailed(err) => joined("Failed to set local description: ", err),
            Notice::OfferSent => "Send offer to socket".to_string(),
            Notice::OfferSendFailed(err) => joined("Failed to send offer to socket ", err),
            Notice::PeerClosed => "The peerConnection has been closed.".to_string(),
            Notice::TrackWriteFailed(err) => joined("video_track write err: ", err),
        }
    }
}

/// `head` followed by `tail`.
fn joined(head: &str, tail: &str) -> (text: String)
    ensures
        text@ == head@ + tail@,
{
    head.to_string().concat(tail)
}

/// What an outside party gave is printed in full and unchanged, at the end of the line: the
/// line with a text is the line without one, followed by the text.
pub proof fn law_reasons_are_printed_in_full(text: String, none: String)
    requires
        none@.len() == 0,
    ensures
        Notice::PayloadForwardFailed(text).line() == Notice::PayloadForwardFailed(none).line()
            + text@,
        Notice::PayloadParseFailed(text).line() == Notice::PayloadParseFailed(none).line() + text@,
        Notice::PayloadSendFailed(text).line() == Notice::PayloadSendFailed(none).line() + text@,
        Notice::SourceExhausted(text).line() == Notice::SourceExhausted(none).line() + text@,
        Notice::ResponseSendFailed(text).line() == Notice::ResponseSendFailed(none).line() + text@,
        Notice::CandidateAddFailed(text).line() == Notice::CandidateAddFailed(none).line() + text@,
        Notice::OfferApplyFailed(text).line() == Notice::OfferApplyFailed(none).line() + text@,
        Notice::AnswerApplyFailed(text).line() == Notice::AnswerApplyFailed(none).line() + text@,
        Notice::AnswerCreateFailed(text).line() == Notice::AnswerCreateFailed(none).line() + text@,
        Notice::CandidateSendFailed(text).line() == Notice::CandidateSendFailed(none).line()
            + text@,
        Notice::OfferCreateFailed(text).line() == Notice::OfferCreateFailed(none).line() + text@,
        Notice::LocalDescriptionFailed(text).line() == Notice::LocalDescriptionFailed(none).line()
            + text@,
        Notice::OfferSendFailed(text).line() == Notice::OfferSendFailed(none).line() + text@,
        Notice::TrackWriteFailed(text).line() == Notice::TrackWriteFailed(none).line() + text@,
{
    assert(none@ =~= Seq::empty());
    assert forall|head: Seq<char>| #[trigger] (head + none@) =~= head by {}
}

/// Lines with two texts hold both in full and unchanged, with the same words around them
/// whatever they are; and a refused offer is printed with the name of the state.
pub proof fn law_both_texts_are_printed_in_full(first: String, second: String)
    ensures
        (Notice::ElementFailed { element: first, error: second }).line() == "error from element "@
            + first@ + " "@ + second@,
        (Notice::PipelineStateChanged { from: first, to: second }).line() == "state changed from "@
            + first@ + " to "@ + second@,
        forall|state: SignalingState|
            (#[trigger] Notice::OfferInInvalidState(state).line())
                == "Offer received in invalid state: "@ + state.spelling(),
{
}

} // verus!
