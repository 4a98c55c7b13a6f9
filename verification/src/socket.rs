//! The socket to the signalling server: which events are exchanged there, and what happens
//! to the payloads that come in and go out.

use rust_socketio::Event;
use vstd::prelude::*;

use crate::notice::Notice;
use crate::session::Payload;
use crate::step::Step;
#[allow(unused_imports)]
use crate::step::{silent, telling, StepView};

verus! {

/// An event of socket.io; its variants are those of the crate.
#[verifier::external_type_specification]
pub struct ExEvent(rust_socketio::Event);

/// The events that are exchanged with the signalling server.
#[derive(Clone, Copy, Debug, PartialEq, Eq, Structural)]
pub enum SocketEvent {
    /// The video is to start.
    BEGIN,
    /// A payload for the other peer.
    HOLLER,
}

impl SocketEvent {
    /// The name of the event on the wire.
    pub open spec fn name(self) -> Seq<char> {
        match self {
            SocketEvent::BEGIN => "begin"@,
            SocketEvent::HOLLER => "holler"@,
        }
    }
}

impl From<SocketEvent> for Event {
    /// The custom event of socket.io that goes by the event's name.
    fn from(event: SocketEvent) -> (custom: Event)
        ensures
            custom matches Event::Custom(name) && name@ == event.name(),
    {
        match event {
            SocketEvent::BEGIN => Event::Custom("begin".to_string()),
            SocketEvent::HOLLER => Event::Custom("holler".to_string()),
        }
    }
}

impl vstd::std_specs::convert::FromSpecImpl<SocketEvent> for Event {
    open spec fn obeys_from_spec() -> bool {
        false
    }

    open spec fn from_spec(event: SocketEvent) -> Event {
        arbitrary()
    }
}

/// No two events go by the same name.
pub proof fn law_event_names_differ(one: SocketEvent, other: SocketEvent)
    ensures
        one.name() == other.name() <==> one == other,
{
    reveal_strlit("begin");
    reveal_strlit("holler");
    assert("begin"@.len() != "holler"@.len());
}

/// Where the signalling server is.
#[derive(Debug, PartialEq, Eq)]
pub struct SocketConfig {
    pub url: String,
}

impl Clone for SocketConfig {
    fn clone(&self) -> (copy: Self)
        ensures
            copy == *self,
    {
        SocketConfig { url: self.url.clone() }
    }
}

impl Default for SocketConfig {
    /// The signalling server on this machine.
    fn default() -> (config: Self)
        ensures
            config.url@ == "http://localhost:3000?uin=BOB&type=MavDrone"@,
    {
        SocketConfig { url: "http://localhost:3000?uin=BOB&type=MavDrone".to_string() }
    }
}

/// The body of a message from the socket.
#[derive(Debug, PartialEq, Eq)]
pub enum Message {
    Text(String),
    Binary,
}

/// What is asked for on behalf of a message.
#[derive(Debug, PartialEq, Eq)]
pub enum InboundCommand {
    /// Let the video start.
    NotifyBegin,
    /// Read the text as a payload.
    Parse(String),
    /// Hand the payload to the peer's listening loop.
    Forward(Payload),
}

/// What is reported on a message.
#[derive(Debug, PartialEq, Eq)]
pub enum InboundEvent {
    Parsed(Result<Payload, String>),
    Forwarded(Result<(), String>),
}

/// How far a message has come.
#[derive(Debug, PartialEq, Eq)]
pub enum Inbound {
    Parsing,
    Forwarding,
    Finished,
}

/// What a message under the given event starts. What a begin message holds is not looked at.
pub open spec fn arrive_spec(event: SocketEvent, message: Message) -> StepView<
    Inbound,
    InboundCommand,
> {
    match event {
        SocketEvent::BEGIN => telling(
            Inbound::Finished,
            Notice::BeginReceived,
            Some(InboundCommand::NotifyBegin),
        ),
        SocketEvent::HOLLER => match message {
            Message::Text(text) => silent(Inbound::Parsing, Some(InboundCommand::Parse(text))),
            Message::Binary => telling(Inbound::Finished, Notice::InvalidPayload, None),
        },
    }
}

/// What a report on the message leads to. One that is not awaited changes nothing.
pub open spec fn arrived_spec(state: Inbound, event: InboundEvent) -> StepView<
    Inbound,
    InboundCommand,
> {
    match (state, event) {
        (Inbound::Parsing, InboundEvent::Parsed(Ok(payload))) => telling(
            Inbound::Forwarding,
            Notice::SocketPayloadReceived,
            Some(InboundCommand::Forward(payload)),
        ),
        (Inbound::Parsing, InboundEvent::Parsed(Err(err))) => telling(
            Inbound::Finished,
            Notice::PayloadParseFailed(err),
            None,
        ),
        (Inbound::Forwarding, InboundEvent::Forwarded(Ok(_))) => telling(
            Inbound::Finished,
            Notice::PayloadForwarded,
            None,
        ),
        (Inbound::Forwarding, InboundEvent::Forwarded(Err(err))) => telling(
            Inbound::Finished,
            Notice::PayloadForwardFailed(err),
            None,
        ),
        _ => silent(state, None),
    }
}

impl Inbound {
    /// Starts with a message that came under the given event.
    pub fn begin(event: SocketEvent, message: Message) -> (step: Step<Inbound, InboundCommand>)
        ensures
            step@ == arrive_spec(event, message),
    {
        match event {
            SocketEvent::BEGIN => Step::telling(
                Inbound::Finished,
                Notice::BeginReceived,
                Some(InboundCommand::NotifyBegin),
            ),
            SocketEvent::HOLLER => match message {
                Message::Text(text) => Step::silent(
                    Inbound::Parsing,
                    Some(InboundCommand::Parse(text)),
                ),
                Message::Binary => Step::telling(Inbound::Finished, Notice::InvalidPayload, None),
            },
        }
    }

    /// Goes on with a report. One that is not awaited changes nothing.
    pub fn resume(self, event: InboundEvent) -> (step: Step<Inbound, InboundCommand>)
        ensures
            step@ == arrived_spec(self, event),
    {
        match (self, event) {
            (Inbound::Parsing, InboundEvent::Parsed(parsed)) => match parsed {
                Ok(payload) => Step::telling(
                    Inbound::Forwarding,
                    Notice::SocketPayloadReceived,
                    Some(InboundCommand::Forward(payload)),
                ),
                Err(err) => Step::telling(
                    Inbound::Finished,
                    Notice::PayloadParseFailed(err),
                    None,
                ),
            },
            (Inbound::Forwarding, InboundEvent::Forwarded(forwarded)) => {
                let notice = match forwarded {
                    Ok(_) => Notice::PayloadForwarded,
                    Err(err) => Notice::PayloadForwardFailed(err),
                };
                Step::telling(Inbound::Finished, notice, None)
            },
            (state, _) => Step::silent(state, None),
        }
    }
}

/// What the sending loop asks for.
#[derive(Debug, PartialEq, Eq)]
pub enum OutboundCommand {
    /// Wait for the next payload.
    Receive,
    /// Write the payload as JSON.
    Encode(Payload),
    /// Emit the text under the event.
    Emit { event: SocketEvent, body: String },
}

/// What the sending loop is told.
#[derive(Debug, PartialEq, Eq)]
pub enum OutboundEvent {
    /// The next payload, or that there will be none.
    Received(Option<Payload>),
    /// The JSON text of the payload, or that there is none.
    Encoded(Option<String>),
    Emitted(Result<(), String>),
}

/// What the sending loop is waiting for.
#[derive(Debug, PartialEq, Eq)]
pub enum Outbound {
    Waiting,
    Encoding,
    Emitting,
    Stopped,
}

/// How the sending loop starts.
pub open spec fn start_spec() -> StepView<Outbound, OutboundCommand> {
    silent(Outbound::Waiting, Some(OutboundCommand::Receive))
}

/// What an event leads to. An event that is not awaited changes nothing.
pub open spec fn leave_spec(state: Outbound, event: OutboundEvent) -> StepView<
    Outbound,
    OutboundCommand,
> {
    match (state, event) {
        (Outbound::Waiting, OutboundEvent::Received(Some(payload))) => silent(
            Outbound::Encoding,
            Some(OutboundCommand::Encode(payload)),
        ),
        (Outbound::Waiting, OutboundEvent::Received(None)) => telling(
            Outbound::Stopped,
            Notice::SocketStopped,
            None,
        ),
        (Outbound::Encoding, OutboundEvent::Encoded(Some(body))) => silent(
            Outbound::Emitting,
            Some(OutboundCommand::Emit { event: SocketEvent::HOLLER, body }),
        ),
        (Outbound::Encoding, OutboundEvent::Encoded(None)) => telling(
            Outbound::Waiting,
            Notice::PayloadEncodeFailed,
            Some(OutboundCommand::Receive),
        ),
        (Outbound::Emitting, OutboundEvent::Emitted(emitted)) => telling(
            Outbound::Waiting,
            match emitted {
                Ok(_) => Notice::PayloadSent,
                Err(err) => Notice::PayloadSendFailed(err),
            },
            Some(OutboundCommand::Receive),
        ),
        _ => silent(state, None),
    }
}

impl Outbound {
    /// Starts the sending loop.
    pub fn start() -> (step: Step<Outbound, OutboundCommand>)
        ensures
            step@ == start_spec(),
    {
        Step::silent(Outbound::Waiting, Some(OutboundCommand::Receive))
    }

    /// Goes on with an event. An event that is not awaited changes nothing.
    pub fn resume(self, event: OutboundEvent) -> (step: Step<Outbound, OutboundCommand>)
        ensures
            step@ == leave_spec(self, event),
    {
        match (self, event) {
            (Outbound::Waiting, OutboundEvent::Received(received)) => match received {
                Some(payload) => Step::silent(
                    Outbound::Encoding,
                    Some(OutboundCommand::Encode(payload)),
                ),
                None => Step::telling(Outbound::Stopped, Notice::SocketStopped, None),
            },
            (Outbound::Encoding, OutboundEvent::Encoded(encoded)) => match encoded {
                Some(body) => Step::silent(
                    Outbound::Emitting,
                    Some(OutboundCommand::Emit { event: SocketEvent::HOLLER, body }),
                ),
                None => Step::telling(
                    Outbound::Waiting,
                    Notice::PayloadEncodeFailed,
                    Some(OutboundCommand::Receive),
                ),
            },
            (Outbound::Emitting, OutboundEvent::Emitted(emitted)) => {
                let notice = match emitted {
                    Ok(_) => Notice::PayloadSent,
                    Err(err) => Notice::PayloadSendFailed(err),
                };
                Step::telling(Outbound::Waiting, notice, Some(OutboundCommand::Receive))
            },
            (state, _) => Step::silent(state, None),
        }
    }
}

/// Where a message stands after the given reports.
pub open spec fn inbound_after(
    event: SocketEvent,
    message: Message,
    reports: Seq<InboundEvent>,
) -> StepView<Inbound, InboundCommand>
    decreases reports.len(),
{
    if reports.len() == 0 {
        arrive_spec(event, message)
    } else {
        arrived_spec(inbound_after(event, message, reports.drop_last()).state, reports.last())
    }
}

/// A payload is forwarded only if it was read from the text of a holler message, and the
/// start of the video is announced only for a begin message.
pub proof fn law_only_parsed_hollers_are_forwarded(
    event: SocketEvent,
    message: Message,
    reports: Seq<InboundEvent>,
)
    ensures
        inbound_after(event, message, reports).command matches Some(
            InboundCommand::Forward(payload),
        ) ==> {
            &&& event == SocketEvent::HOLLER
            &&& message is Text
            &&& reports.len() > 0
            &&& reports.last() == InboundEvent::Parsed(Ok(payload))
        },
        inbound_after(event, message, reports).command == Some(InboundCommand::NotifyBegin)
            <==> event == SocketEvent::BEGIN && reports.len() == 0,
{
    lemma_only_hollers_go_on(event, message, reports);
    if reports.len() > 0 {
        lemma_only_hollers_go_on(event, message, reports.drop_last());
    }
}

proof fn lemma_only_hollers_go_on(
    event: SocketEvent,
    message: Message,
    reports: Seq<InboundEvent>,
)
    ensures
        inbound_after(event, message, reports).state !is Finished ==> event == SocketEvent::HOLLER
            && message is Text,
    decreases reports.len(),
{
    if reports.len() > 0 {
        lemma_only_hollers_go_on(event, message, reports.drop_last());
    }
}

/// Where the sending loop stands after the given events.
pub open spec fn outbound_after(events: Seq<OutboundEvent>) -> StepView<Outbound, OutboundCommand>
    decreases events.len(),
{
    if events.len() == 0 {
        start_spec()
    } else {
        leave_spec(outbound_after(events.drop_last()).state, events.last())
    }
}

/// What is emitted is always a holler, and its body is the text that has just come back from
/// encoding.
pub proof fn law_everything_sent_is_a_holler(events: Seq<OutboundEvent>)
    ensures
        outbound_after(events).command matches Some(OutboundCommand::Emit { event, body }) ==> {
            &&& event == SocketEvent::HOLLER
            &&& events.len() > 0
            &&& events.last() == OutboundEvent::Encoded(Some(body))
        },
{
}

/// The payloads that the sending loop has taken in the course of the given events.
pub open spec fn payloads_taken(events: Seq<OutboundEvent>) -> Seq<Payload>
    decreases events.len(),
{
    if events.len() == 0 {
        Seq::empty()
    } else {
        let before = payloads_taken(events.drop_last());
        match events.last() {
            OutboundEvent::Received(Some(payload)) if outbound_after(events.drop_last()).state
                is Waiting => before.push(payload),
            _ => before,
        }
    }
}

/// The payloads that the sending loop has had encoded in the course of the given events.
pub open spec fn payloads_encoded(events: Seq<OutboundEvent>) -> Seq<Payload>
    decreases events.len(),
{
    if events.len() == 0 {
        Seq::empty()
    } else {
        let before = payloads_encoded(events.drop_last());
        match outbound_after(events).command {
            Some(OutboundCommand::Encode(payload)) => before.push(payload),
            _ => before,
        }
    }
}

/// Every payload taken is handed on to be encoded, in the order of arrival, whatever became of
/// those before it; no other payload is.
pub proof fn law_payloads_are_encoded_in_order(events: Seq<OutboundEvent>)
    ensures
        payloads_encoded(events) == payloads_taken(events),
    decreases events.len(),
{
    if events.len() > 0 {
        law_payloads_are_encoded_in_order(events.drop_last());
    }
}

/// The sending loop stops when no payload can come any more, and for no other reason;
/// having stopped, it prints nothing and asks for nothing.
pub proof fn law_stops_only_when_closed(state: Outbound, event: OutboundEvent)
    ensures
        state !is Stopped ==> (leave_spec(state, event).state is Stopped <==> state is Waiting
            && event == OutboundEvent::Received(None)),
        state is Stopped ==> leave_spec(state, event) == silent::<Outbound, OutboundCommand>(
            state,
            None,
        ),
{
}

/// Whether `report` is a report on `command`.
pub open spec fn inbound_report(report: InboundEvent, command: InboundCommand) -> bool {
    match command {
        InboundCommand::NotifyBegin => false,
        InboundCommand::Parse(_) => report is Parsed,
        InboundCommand::Forward(_) => report is Forwarded,
    }
}

/// Whether every report was one on the command given just before it.
pub open spec fn inbound_well_run(
    event: SocketEvent,
    message: Message,
    reports: Seq<InboundEvent>,
) -> bool
    decreases reports.len(),
{
    reports.len() == 0 || {
        &&& inbound_well_run(event, message, reports.drop_last())
        &&& inbound_after(event, message, reports.drop_last()).command matches Some(command)
            && inbound_report(reports.last(), command)
    }
}

/// As long as the reports are on the commands given, a holler message goes on, with a next
/// command, exactly until it is done with, and that is after two reports at the latest.
pub proof fn law_holler_message_ends(message: Message, reports: Seq<InboundEvent>)
    requires
        inbound_well_run(SocketEvent::HOLLER, message, reports),
    ensures
        inbound_after(SocketEvent::HOLLER, message, reports).command is None <==> inbound_after(
            SocketEvent::HOLLER,
            message,
            reports,
        ).state is Finished,
        reports.len() <= 2,
{
    lemma_holler_message_ends(message, reports);
}

proof fn lemma_holler_message_ends(message: Message, reports: Seq<InboundEvent>)
    requires
        inbound_well_run(SocketEvent::HOLLER, message, reports),
    ensures
        ({
            let step = inbound_after(SocketEvent::HOLLER, message, reports);
            match step.state {
                Inbound::Parsing => step.command is Some && step.command->0 is Parse
                    && reports.len() == 0,
                Inbound::Forwarding => step.command is Some && step.command->0 is Forward
                    && reports.len() <= 1,
                Inbound::Finished => step.command is None && reports.len() <= 2,
            }
        }),
    decreases reports.len(),
{
    if reports.len() > 0 {
        lemma_holler_message_ends(message, reports.drop_last());
    }
}

/// Whether `event` is a report on `command`.
pub open spec fn outbound_report(event: OutboundEvent, command: OutboundCommand) -> bool {
    match command {
        OutboundCommand::Receive => event is Received,
        OutboundCommand::Encode(_) => event is Encoded,
        OutboundCommand::Emit { .. } => event is Emitted,
    }
}

/// Whether every event was a report on the command given just before it.
pub open spec fn outbound_well_run(events: Seq<OutboundEvent>) -> bool
    decreases events.len(),
{
    events.len() == 0 || {
        &&& outbound_well_run(events.drop_last())
        &&& outbound_after(events.drop_last()).command matches Some(command) && outbound_report(
            events.last(),
            command,
        )
    }
}

/// As long as the events are reports on the commands given, the sending loop always has a
/// next command until it stops.
pub proof fn law_sending_loop_goes_on(events: Seq<OutboundEvent>)
    requires
        outbound_well_run(events),
    ensures
        outbound_after(events).command is None <==> outbound_after(events).state is Stopped,
{
    lemma_sending_loop_goes_on(events);
}

proof fn lemma_sending_loop_goes_on(events: Seq<OutboundEvent>)
    requires
        outbound_well_run(events),
    ensures
        ({
            let step = outbound_after(events);
            match step.state {
                Outbound::Waiting => step.command is Some && step.command->0 is Receive,
                Outbound::Encoding => step.command is Some && step.command->0 is Encode,
                Outbound::Emitting => step.command is Some && step.command->0 is Emit,
                Outbound::Stopped => step.command is None,
            }
        }),
    decreases events.len(),
{
    if events.len() > 0 {
        lemma_sending_loop_goes_on(events.drop_last());
    }
}

/// What is done first with a message: under the begin event, whatever the message holds, the
/// start of the video is announced; under the holler event its text is read as it is, and a
/// message without a text is refused.
pub proof fn law_what_a_message_starts(event: SocketEvent, message: Message)
    ensures
        ({
            let step = inbound_after(event, message, Seq::empty());
            &&& event == SocketEvent::BEGIN ==> {
                &&& step.command == Some(InboundCommand::NotifyBegin)
                &&& step.notices == seq![Notice::BeginReceived]
                &&& step.state is Finished
            }
            &&& event == SocketEvent::HOLLER ==> {
                &&& message matches Message::Text(text) ==> {
                    &&& step.command == Some(InboundCommand::Parse(text))
                    &&& step.notices.len() == 0
                }
                &&& message is Binary ==> {
                    &&& step.command is None
                    &&& step.notices == seq![Notice::InvalidPayload]
                }
            }
        }),
{
}

/// Every payload that is read from the text of a holler message is forwarded as it is.
pub proof fn law_every_parsed_holler_is_forwarded(text: String, payload: Payload)
    ensures
        inbound_after(
            SocketEvent::HOLLER,
            Message::Text(text),
            seq![InboundEvent::Parsed(Ok(payload))],
        ).command == Some(InboundCommand::Forward(payload)),
{
    let reports = seq![InboundEvent::Parsed(Ok(payload))];
    assert(reports.drop_last() =~= Seq::empty());
    reveal_with_fuel(inbound_after, 2);
}

/// As long as the reports are on the commands given: a payload that could be read is forwarded
/// as it is, and anything else ends it. What became of the reading and the forwarding is
/// printed, failures with their reasons.
pub proof fn law_what_becomes_of_a_holler(message: Message, reports: Seq<InboundEvent>)
    requires
        inbound_well_run(SocketEvent::HOLLER, message, reports),
        reports.len() > 0,
    ensures
        ({
            let step = inbound_after(SocketEvent::HOLLER, message, reports);
            match reports.last() {
                InboundEvent::Parsed(parsed) => {
                    &&& parsed matches Ok(payload) ==> {
                        &&& step.command == Some(InboundCommand::Forward(payload))
                        &&& step.notices == seq![Notice::SocketPayloadReceived]
                    }
                    &&& parsed matches Err(err) ==> {
                        &&& step.command is None
                        &&& step.notices == seq![Notice::PayloadParseFailed(err)]
                    }
                },
                InboundEvent::Forwarded(forwarded) => {
                    &&& step.command is None
                    &&& forwarded is Ok ==> step.notices == seq![Notice::PayloadForwarded]
                    &&& forwarded matches Err(err) ==> step.notices == seq![
                        Notice::PayloadForwardFailed(err),
                    ]
                },
            }
        }),
{
    lemma_holler_message_ends(message, reports.drop_last());
}

/// The texts that have come back from encoding in the course of the given events.
pub open spec fn texts_encoded(events: Seq<OutboundEvent>) -> Seq<String>
    decreases events.len(),
{
    if events.len() == 0 {
        Seq::empty()
    } else {
        let before = texts_encoded(events.drop_last());
        match events.last() {
            OutboundEvent::Encoded(Some(text)) if outbound_after(events.drop_last()).state
                is Encoding => before.push(text),
            _ => before,
        }
    }
}

/// The bodies that the sending loop has emitted under the holler event in the course of the
/// given events.
pub open spec fn bodies_emitted(events: Seq<OutboundEvent>) -> Seq<String>
    decreases events.len(),
{
    if events.len() == 0 {
        Seq::empty()
    } else {
        let before = bodies_emitted(events.drop_last());
        match outbound_after(events).command {
            Some(OutboundCommand::Emit { event: SocketEvent::HOLLER, body }) => before.push(body),
            _ => before,
        }
    }
}

/// Every text that comes back from encoding is emitted as a holler, as it is and in order,
/// whatever became of those before it; nothing else is.
pub proof fn law_texts_are_emitted_in_order(events: Seq<OutboundEvent>)
    ensures
        bodies_emitted(events) == texts_encoded(events),
    decreases events.len(),
{
    if events.len() > 0 {
        law_texts_are_emitted_in_order(events.drop_last());
    }
}

/// As long as the events are reports on the commands given: a payload is encoded as it is, its
/// text is emitted as a holler as it is, and then, or if there is no text, the next payload is
/// waited for, until none can come any more. What became of encoding and emitting is printed,
/// failures to emit with their reasons.
pub proof fn law_what_becomes_of_a_payload(events: Seq<OutboundEvent>)
    requires
        outbound_well_run(events),
    ensures
        ({
            let step = outbound_after(events);
            &&& events.len() == 0 ==> {
                &&& step.command == Some(OutboundCommand::Receive)
                &&& step.notices.len() == 0
            }
            &&& events.len() > 0 ==> match events.last() {
                OutboundEvent::Received(received) => {
                    &&& received matches Some(payload) ==> {
                        &&& step.command == Some(OutboundCommand::Encode(payload))
                        &&& step.notices.len() == 0
                    }
                    &&& received is None ==> {
                        &&& step.command is None
                        &&& step.notices == seq![Notice::SocketStopped]
                    }
                },
                OutboundEvent::Encoded(encoded) => {
                    &&& encoded matches Some(text) ==> {
                        &&& step.command == Some(
                            OutboundCommand::Emit { event: SocketEvent::HOLLER, body: text },
                        )
                        &&& step.notices.len() == 0
                    }
                    &&& encoded is None ==> {
                        &&& step.command == Some(OutboundCommand::Receive)
                        &&& step.notices == seq![Notice::PayloadEncodeFailed]
                    }
                },
                OutboundEvent::Emitted(emitted) => {
                    &&& step.command == Some(OutboundCommand::Receive)
                    &&& emitted is Ok ==> step.notices == seq![Notice::PayloadSent]
                    &&& emitted matches Err(err) ==> step.notices == seq![
                        Notice::PayloadSendFailed(err),
                    ]
                },
            }
        }),
{
    if events.len() > 0 {
        lemma_sending_loop_goes_on(events.drop_last());
    }
}

/// A report on a message that is not awaited, and so any report after the end, changes nothing.
pub proof fn law_unawaited_reports_on_messages_change_nothing(state: Inbound, event: InboundEvent)
    requires
        !((state is Parsing && event is Parsed)
            || (state is Forwarding && event is Forwarded)),
    ensures
        arrived_spec(state, event).state == state,
        arrived_spec(state, event).command is None,
        arrived_spec(state, event).notices.len() == 0,
{
}

/// An event that the sending loop does not await changes nothing; neither does any after the
/// end.
pub proof fn law_unawaited_events_change_nothing(state: Outbound, event: OutboundEvent)
    requires
        !((state is Waiting && event is Received)
            || (state is Encoding && event is Encoded)
            || (state is Emitting && event is Emitted)),
    ensures
        leave_spec(state, event).state == state,
        leave_spec(state, event).command is None,
        leave_spec(state, event).notices.len() == 0,
{
}

} // verus!
