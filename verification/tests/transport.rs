use tas_rust::notice::Notice;
use tas_rust::session::{Payload, SdpType, SessionDescription};
use tas_rust::socket::{
    Inbound, InboundCommand, InboundEvent, Message, Outbound, OutboundCommand, OutboundEvent,
    SocketEvent,
};
use tas_rust::stream::{
    Drain, DrainCommand, Stream, StreamCommand, StreamEvent, WriteFailure, RTCP_BUFFER_LEN,
};

fn payload() -> Payload {
    Payload {
        candidate: None,
        sdp: Some(SessionDescription { sdp_type: SdpType::Offer, sdp: "o".to_string() }),
    }
}

fn boom() -> String {
    "boom".to_string()
}

#[test]
fn begin_message_lets_the_video_start() {
    for message in vec![Message::Binary, Message::Text("anything".to_string())] {
        let step = Inbound::begin(SocketEvent::BEGIN, message);
        assert_eq!(step.notices, vec![Notice::BeginReceived]);
        assert_eq!(step.command, Some(InboundCommand::NotifyBegin));
        assert_eq!(step.state, Inbound::Finished);
    }
}

#[test]
fn holler_message_is_parsed_and_forwarded() {
    let step = Inbound::begin(SocketEvent::HOLLER, Message::Text("{}".to_string()));
    assert_eq!(step.notices, vec![]);
    assert_eq!(step.command, Some(InboundCommand::Parse("{}".to_string())));
    let step = step.state.resume(InboundEvent::Parsed(Ok(payload())));
    assert_eq!(step.notices, vec![Notice::SocketPayloadReceived]);
    assert_eq!(step.command, Some(InboundCommand::Forward(payload())));
    let step = step.state.resume(InboundEvent::Forwarded(Ok(())));
    assert_eq!(step.notices, vec![Notice::PayloadForwarded]);
    assert_eq!(step.state, Inbound::Finished);
    assert_eq!(step.command, None);
}

#[test]
fn holler_message_can_fail_at_every_stage() {
    let step = Inbound::begin(SocketEvent::HOLLER, Message::Binary);
    assert_eq!(step.notices, vec![Notice::InvalidPayload]);
    assert_eq!(step.state, Inbound::Finished);
    assert_eq!(step.command, None);
    let step = Inbound::Parsing.resume(InboundEvent::Parsed(Err(boom())));
    assert_eq!(step.notices, vec![Notice::PayloadParseFailed(boom())]);
    assert_eq!(step.state, Inbound::Finished);
    let step = Inbound::Forwarding.resume(InboundEvent::Forwarded(Err(boom())));
    assert_eq!(step.notices, vec![Notice::PayloadForwardFailed(boom())]);
    assert_eq!(step.state, Inbound::Finished);
    let step = Inbound::Finished.resume(InboundEvent::Parsed(Ok(payload())));
    assert_eq!(step.state, Inbound::Finished);
    assert_eq!(step.command, None);
}

#[test]
fn payloads_go_out_as_hollers() {
    let step = Outbound::start();
    assert_eq!(step.command, Some(OutboundCommand::Receive));
    let step = step.state.resume(OutboundEvent::Received(Some(payload())));
    assert_eq!(step.command, Some(OutboundCommand::Encode(payload())));
    let step = step.state.resume(OutboundEvent::Encoded(Some("{}".to_string())));
    assert_eq!(
        step.command,
        Some(OutboundCommand::Emit { event: SocketEvent::HOLLER, body: "{}".to_string() })
    );
    let step = step.state.resume(OutboundEvent::Emitted(Ok(())));
    assert_eq!(step.notices, vec![Notice::PayloadSent]);
    assert_eq!(step.command, Some(OutboundCommand::Receive));
}

#[test]
fn sending_loop_survives_failures_and_stops_when_closed() {
    let step = Outbound::Encoding.resume(OutboundEvent::Encoded(None));
    assert_eq!(step.notices, vec![Notice::PayloadEncodeFailed]);
    assert_eq!(step.command, Some(OutboundCommand::Receive));
    let step = Outbound::Emitting.resume(OutboundEvent::Emitted(Err(boom())));
    assert_eq!(step.notices, vec![Notice::PayloadSendFailed(boom())]);
    assert_eq!(step.state, Outbound::Waiting);
    let step = step.state.resume(OutboundEvent::Received(None));
    assert_eq!(step.notices, vec![Notice::SocketStopped]);
    assert_eq!(step.state, Outbound::Stopped);
    assert_eq!(step.command, None);
}

#[test]
fn frames_are_written_one_after_the_other() {
    let mut step = Stream::start();
    for frame in vec![vec![1u8, 2], vec![], vec![3]] {
        assert_eq!(step.command, Some(StreamCommand::Receive));
        step = step.state.flow(StreamEvent::Received(Some(frame.clone())));
        assert_eq!(step.command, Some(StreamCommand::Write(frame)));
        step = step.state.flow(StreamEvent::Written(Ok(())));
        assert_eq!(step.notices, vec![]);
    }
    let step = step.state.flow(StreamEvent::Received(None));
    assert_eq!(step.state, Stream::Stopped);
    assert_eq!(step.notices, vec![]);
    assert_eq!(step.command, None);
}

#[test]
fn write_failures_do_not_end_the_stream() {
    for (failure, notice) in vec![
        (WriteFailure::ClosedPipe, Notice::PeerClosed),
        (WriteFailure::Other(boom()), Notice::TrackWriteFailed(boom())),
    ] {
        let step = Stream::Writing.flow(StreamEvent::Written(Err(failure)));
        assert_eq!(step.notices, vec![notice]);
        assert_eq!(step.state, Stream::Waiting);
        assert_eq!(step.command, Some(StreamCommand::Receive));
    }
}

#[test]
fn rtcp_buffer_takes_a_packet() {
    assert_eq!(RTCP_BUFFER_LEN, 1500);
}

#[test]
fn rtcp_is_read_until_the_first_failure() {
    let mut step = Drain::start();
    for _ in 0..3 {
        assert_eq!(step.command, Some(DrainCommand::Read(1500)));
        step = step.state.resume(true);
    }
    let step = step.state.resume(false);
    assert_eq!(step.state, Drain::Stopped);
    assert_eq!(step.command, None);
    let step = step.state.resume(true);
    assert_eq!(step.state, Drain::Stopped);
    assert_eq!(step.command, None);
}
