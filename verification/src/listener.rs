//! The peer's listening loop: it takes payloads one at a time, handles each, and sends the
//! response to one before it takes the next.

use vstd::prelude::*;

use crate::holler::{Holler, PeerCommand, PeerReply};
#[allow(unused_imports)]
use crate::holler::{
    answering_reports, begin_spec, holler_after, law_handling_ends, law_stable_offer_is_answered,
    replies_to, resume_spec, well_run,
};
use crate::notice::Notice;
use crate::session::Payload;
#[allow(unused_imports)]
use crate::session::{SdpType, SessionDescription};
use crate::step::Step;
#[allow(unused_imports)]
use crate::step::{silent, telling, StepView};

verus! {

/// What the loop asks for.
#[derive(Debug, PartialEq, Eq)]
pub enum ListenerCommand {
    /// Wait for the next payload.
    Receive,
    Peer(PeerCommand),
    /// Send the response towards the socket.
    Send(Payload),
}

/// What the loop is told.
#[derive(Debug, PartialEq, Eq)]
pub enum ListenerEvent {
    /// The next payload, or that there will be none.
    Received(Option<Payload>),
    Peer(PeerReply),
    Sent(Result<(), String>),
}

/// What the loop is waiting for.
#[derive(Debug, PartialEq, Eq)]
pub enum Listener {
    Waiting,
    Handling(Holler),
    Responding,
    Stopped,
}

/// The loop's step for a step in the handling of a payload.
pub open spec fn carry_on_spec(step: StepView<Holler, PeerCommand>) -> StepView<
    Listener,
    ListenerCommand,
> {
    match step.state {
        Holler::Finished(Some(response)) => StepView {
            state: Listener::Responding,
            notices: step.notices,
            command: Some(ListenerCommand::Send(response)),
        },
        Holler::Finished(None) => StepView {
            state: Listener::Waiting,
            notices: step.notices,
            command: Some(ListenerCommand::Receive),
        },
        _ => StepView {
            state: Listener::Handling(step.state),
            notices: step.notices,
            command: match step.command {
                Some(command) => Some(ListenerCommand::Peer(command)),
                None => None,
            },
        },
    }
}

/// How the loop starts.
pub open spec fn start_spec() -> StepView<Listener, ListenerCommand> {
    silent(Listener::Waiting, Some(ListenerCommand::Receive))
}

/// What an event leads to. An event that is not awaited changes nothing.
pub open spec fn hear_spec(state: Listener, event: ListenerEvent) -> StepView<
    Listener,
    ListenerCommand,
> {
    match (state, event) {
        (Listener::Waiting, ListenerEvent::Received(Some(payload))) => carry_on_spec(
            begin_spec(payload),
        ),
        (Listener::Waiting, ListenerEvent::Received(None)) => telling(
            Listener::Stopped,
            Notice::PeerStopped,
            None,
        ),
        (Listener::Handling(holler), ListenerEvent::Peer(reply)) => carry_on_spec(
            resume_spec(holler, reply),
        ),
        (Listener::Responding, ListenerEvent::Sent(sent)) => telling(
            Listener::Waiting,
            match sent {
                Ok(_) => Notice::ResponseSent,
                Err(err) => Notice::ResponseSendFailed(err),
            },
            Some(ListenerCommand::Receive),
        ),
        _ => silent(state, None),
    }
}

impl Listener {
    /// Starts the loop.
    pub fn start() -> (step: Step<Listener, ListenerCommand>)
        ensures
            step@ == start_spec(),
    {
        Step::silent(Listener::Waiting, Some(ListenerCommand::Receive))
    }

    /// Goes on with an event. An event that is not awaited changes nothing.
    pub fn hear(self, event: ListenerEvent) -> (step: Step<Listener, ListenerCommand>)
        ensures
            step@ == hear_spec(self, event),
    {
        match (self, event) {
            (Listener::Waiting, ListenerEvent::Received(received)) => match received {
                Some(payload) => Listener::carry_on(Holler::begin(payload)),
                None => Step::telling(Listener::Stopped, Notice::PeerStopped, None),
            },
            (Listener::Handling(holler), ListenerEvent::Peer(reply)) => Listener::carry_on(
                holler.resume(reply),
            ),
            (Listener::Responding, ListenerEvent::Sent(sent)) => {
                let notice = match sent {
                    Ok(_) => Notice::ResponseSent,
                    Err(err) => Notice::ResponseSendFailed(err),
                };
                Step::telling(Listener::Waiting, notice, Some(ListenerCommand::Receive))
            },
            (state, _) => Step::silent(state, None),
        }
    }

    fn carry_on(step: Step<Holler, PeerCommand>) -> (next: Step<Listener, ListenerCommand>)
        ensures
            next@ == carry_on_spec(step@),
    {
        let notices = step.notices;
        match step.state {
            Holler::Finished(Some(response)) => Step {
                state: Listener::Responding,
                notices,
                command: Some(ListenerCommand::Send(response)),
            },
            Holler::Finished(None) => Step {
                state: Listener::Waiting,
                notices,
                command: Some(ListenerCommand::Receive),
            },
            state => Step {
                state: Listener::Handling(state),
                notices,
                command: match step.command {
                    Some(command) => Some(ListenerCommand::Peer(command)),
                    None => None,
                },
            },
        }
    }
}

/// Where the loop stands after the given events.
pub open spec fn listener_after(events: Seq<ListenerEvent>) -> StepView<Listener, ListenerCommand>
    decreases events.len(),
{
    if events.len() == 0 {
        start_spec()
    } else {
        hear_spec(listener_after(events.drop_last()).state, events.last())
    }
}

/// The responses that the loop has sent off in the course of the given events.
pub open spec fn responses(events: Seq<ListenerEvent>) -> Seq<Payload>
    decreases events.len(),
{
    if events.len() == 0 {
        Seq::empty()
    } else {
        let before = responses(events.drop_last());
        match listener_after(events).command {
            Some(ListenerCommand::Send(response)) => before.push(response),
            _ => before,
        }
    }
}

/// The offers that the loop has taken in the course of the given events.
pub open spec fn offers_taken(events: Seq<ListenerEvent>) -> Seq<Payload>
    decreases events.len(),
{
    if events.len() == 0 {
        Seq::empty()
    } else {
        let before = offers_taken(events.drop_last());
        match events.last() {
            ListenerEvent::Received(Some(payload)) if listener_after(events.drop_last()).state
                is Waiting && payload.describes(SdpType::Offer) => before.push(payload),
            _ => before,
        }
    }
}

/// The events in which a payload arrives and the connection reports as given.
pub open spec fn exchange(payload: Payload, replies: Seq<PeerReply>) -> Seq<ListenerEvent> {
    seq![ListenerEvent::Received(Some(payload))] + replies.map_values(
        |reply: PeerReply| ListenerEvent::Peer(reply),
    )
}

/// Each payload is handled on its own: whatever was received before, the loop does with a
/// payload and the reports on it exactly what the handling of that payload says.
pub proof fn law_each_payload_is_handled_alone(
    earlier: Seq<ListenerEvent>,
    payload: Payload,
    replies: Seq<PeerReply>,
)
    requires
        listener_after(earlier).state is Waiting,
        well_run(payload, replies),
    ensures
        listener_after(earlier + exchange(payload, replies)) == carry_on_spec(
            holler_after(payload, replies),
        ),
    decreases replies.len(),
{
    let events = earlier + exchange(payload, replies);
    if replies.len() == 0 {
        assert(events.drop_last() =~= earlier);
    } else {
        let before = replies.drop_last();
        law_each_payload_is_handled_alone(earlier, payload, before);
        law_handling_ends(payload, before);
        assert(events.drop_last() =~= earlier + exchange(payload, before));
        assert(events.last() == ListenerEvent::Peer(replies.last()));
    }
}

/// Whatever was received before, an offer that reaches a stable connection, is applied and
/// gets an answer leads to that answer being sent.
pub proof fn law_stable_offer_gets_its_answer(
    earlier: Seq<ListenerEvent>,
    payload: Payload,
    added: Result<(), String>,
    answer: SessionDescription,
)
    requires
        listener_after(earlier).state is Waiting,
        payload.describes(SdpType::Offer),
    ensures
        listener_after(
            earlier + exchange(payload, answering_reports(payload, added, answer)),
        ).command == Some(
            ListenerCommand::Send(Payload { candidate: None, sdp: Some(answer) }),
        ),
{
    law_stable_offer_is_answered(payload, added, answer);
    law_each_payload_is_handled_alone(earlier, payload, answering_reports(payload, added, answer));
}

/// Whether the handling of a payload may still end in a response.
spec fn may_respond(state: Listener) -> bool {
    match state {
        Listener::Handling(Holler::AddingCandidate(Some(description))) => description.sdp_type
            == SdpType::Offer,
        Listener::Handling(Holler::CheckingState(_)) => true,
        Listener::Handling(Holler::ApplyingOffer) => true,
        Listener::Handling(Holler::Answering) => true,
        _ => false,
    }
}

/// Whether the payload in hand, if any, is in a state that a payload can lead to.
spec fn sound(state: Listener) -> bool {
    state matches Listener::Handling(holler) ==> holler !is Finished
}

proof fn lemma_responses_are_owed(events: Seq<ListenerEvent>)
    ensures
        sound(listener_after(events).state),
        responses(events).len() + (if may_respond(listener_after(events).state) {
            1int
        } else {
            0
        }) <= offers_taken(events).len(),
    decreases events.len(),
{
    if events.len() > 0 {
        lemma_responses_are_owed(events.drop_last());
    }
}

/// Every offer gets at most one response, and nothing but an offer gets one.
pub proof fn law_no_more_responses_than_offers(events: Seq<ListenerEvent>)
    ensures
        responses(events).len() <= offers_taken(events).len(),
{
    lemma_responses_are_owed(events);
}

/// Every response carries a description and no candidate.
pub proof fn law_responses_are_descriptions(events: Seq<ListenerEvent>)
    ensures
        forall|i: int|
            0 <= i < responses(events).len() ==> (#[trigger] responses(events)[i]).candidate is None
                && responses(events)[i].sdp is Some,
    decreases events.len(),
{
    if events.len() > 0 {
        law_responses_are_descriptions(events.drop_last());
        lemma_responses_are_owed(events.drop_last());
    }
}

/// The loop stops when no payload can come any more, and for no other reason; having
/// stopped, it prints nothing and asks for nothing.
pub proof fn law_stops_only_when_closed(state: Listener, event: ListenerEvent)
    ensures
        state !is Stopped ==> (hear_spec(state, event).state is Stopped <==> state is Waiting
            && event == ListenerEvent::Received(None)),
        state is Stopped ==> hear_spec(state, event) == silent::<Listener, ListenerCommand>(
            state,
            None,
        ),
{
}

/// Whether `event` is a report on `command`.
pub open spec fn listener_report(event: ListenerEvent, command: ListenerCommand) -> bool {
    match command {
        ListenerCommand::Receive => event is Received,
        ListenerCommand::Peer(command) => event matches ListenerEvent::Peer(reply) && replies_to(
            reply,
            command,
        ),
        ListenerCommand::Send(_) => event is Sent,
    }
}

/// Whether every event was a report on the command given just before it.
pub open spec fn listener_well_run(events: Seq<ListenerEvent>) -> bool
    decreases events.len(),
{
    events.len() == 0 || {
        &&& listener_well_run(events.drop_last())
        &&& listener_after(events.drop_last()).command matches Some(command) && listener_report(
            events.last(),
            command,
        )
    }
}

/// As long as the events are reports on the commands given, the loop always has a next
/// command until it stops.
pub proof fn law_listening_goes_on(events: Seq<ListenerEvent>)
    requires
        listener_well_run(events),
    ensures
        listener_after(events).command is None <==> listener_after(events).state is Stopped,
{
    lemma_listening_goes_on(events);
}

proof fn lemma_listening_goes_on(events: Seq<ListenerEvent>)
    requires
        listener_well_run(events),
    ensures
        ({
            let step = listener_after(events);
            match step.state {
                Listener::Waiting => step.command is Some && step.command->0 is Receive,
                Listener::Handling(holler) => step.command matches Some(
                    ListenerCommand::Peer(command),
                ) && holler.awaits(command),
                Listener::Responding => step.command is Some && step.command->0 is Send,
                Listener::Stopped => step.command is None,
            }
        }),
    decreases events.len(),
{
    if events.len() > 0 {
        lemma_listening_goes_on(events.drop_last());
    }
}

/// The payload that the loop has taken last in the course of the given events.
pub open spec fn last_taken(events: Seq<ListenerEvent>) -> Option<Payload>
    decreases events.len(),
{
    if events.len() == 0 {
        None
    } else {
        match events.last() {
            ListenerEvent::Received(Some(payload)) if listener_after(events.drop_last()).state
                is Waiting => Some(payload),
            _ => last_taken(events.drop_last()),
        }
    }
}

/// Whether the payload in hand, if any, holds what the one taken last holds.
spec fn true_to(taken: Option<Payload>, state: Listener) -> bool {
    match state {
        Listener::Handling(Holler::AddingCandidate(sdp)) => taken is Some && taken->0.sdp == sdp,
        Listener::Handling(Holler::CheckingState(offer)) => taken is Some && taken->0.sdp == Some(
            offer,
        ),
        _ => true,
    }
}

proof fn lemma_true_to_the_taken(events: Seq<ListenerEvent>)
    ensures
        true_to(last_taken(events), listener_after(events).state),
    decreases events.len(),
{
    if events.len() > 0 {
        lemma_true_to_the_taken(events.drop_last());
    }
}

/// At every point of every run, what the connection is asked to apply is the description in
/// the payload taken last, and what it is asked to add is the candidate in it, both as they
/// are.
pub proof fn law_the_peer_gets_what_was_received(events: Seq<ListenerEvent>)
    ensures
        listener_after(events).command matches Some(
            ListenerCommand::Peer(PeerCommand::SetRemoteDescription(description)),
        ) ==> (last_taken(events) matches Some(payload) && payload.sdp == Some(description)),
        listener_after(events).command matches Some(
            ListenerCommand::Peer(PeerCommand::AddIceCandidate(candidate)),
        ) ==> (last_taken(events) matches Some(payload) && payload.candidate == Some(candidate)),
{
    if events.len() > 0 {
        lemma_true_to_the_taken(events.drop_last());
        lemma_true_to_the_taken(events);
        lemma_responses_are_owed(events.drop_last());
    }
}

/// The payload received last, if nothing but reports of the connection came after it.
pub open spec fn in_hand(events: Seq<ListenerEvent>) -> Option<Payload>
    decreases events.len(),
{
    if events.len() == 0 {
        None
    } else {
        match events.last() {
            ListenerEvent::Received(received) => received,
            ListenerEvent::Peer(_) => in_hand(events.drop_last()),
            ListenerEvent::Sent(_) => None,
        }
    }
}

/// The reports of the connection at the end of the given events.
pub open spec fn reports_in_hand(events: Seq<ListenerEvent>) -> Seq<PeerReply>
    decreases events.len(),
{
    if events.len() == 0 {
        Seq::empty()
    } else {
        match events.last() {
            ListenerEvent::Peer(reply) => reports_in_hand(events.drop_last()).push(reply),
            _ => Seq::empty(),
        }
    }
}

/// As long as the events are reports on the commands given, the loop asks of the connection
/// exactly what the handling of the payload in hand asks, and prints exactly what it prints.
/// Once that is finished, the response is sent as it is, or, if there is none, the next payload
/// is waited for.
pub proof fn law_the_payload_in_hand_decides(events: Seq<ListenerEvent>)
    requires
        listener_well_run(events),
        events.len() > 0,
        events.last() is Peer || (events.last() matches ListenerEvent::Received(Some(_))),
    ensures
        in_hand(events) matches Some(payload) && {
            let loop_step = listener_after(events);
            let step = holler_after(payload, reports_in_hand(events));
            &&& well_run(payload, reports_in_hand(events))
            &&& loop_step.notices == step.notices
            &&& step.command matches Some(command) ==> loop_step.command == Some(
                ListenerCommand::Peer(command),
            )
            &&& step.state matches Holler::Finished(Some(response)) ==> loop_step.command == Some(
                ListenerCommand::Send(response),
            )
            &&& step.state matches Holler::Finished(None) ==> loop_step.command == Some(
                ListenerCommand::Receive,
            )
        },
{
    lemma_in_hand(events);
    law_handling_ends(in_hand(events)->0, reports_in_hand(events));
}

/// As long as the events are reports on the commands given: the loop starts by waiting for a
/// payload, goes back to that after a response, sent or not, and stops when none can come any
/// more. It prints which of these it was.
pub proof fn law_the_next_payload_is_waited_for(events: Seq<ListenerEvent>)
    requires
        listener_well_run(events),
    ensures
        ({
            let step = listener_after(events);
            &&& events.len() == 0 ==> {
                &&& step.command == Some(ListenerCommand::Receive)
                &&& step.notices.len() == 0
            }
            &&& events.len() > 0 ==> {
                &&& events.last() is Sent ==> step.command == Some(ListenerCommand::Receive)
                &&& events.last() matches ListenerEvent::Sent(Ok(_)) ==> step.notices == seq![
                    Notice::ResponseSent,
                ]
                &&& events.last() matches ListenerEvent::Sent(Err(err)) ==> step.notices == seq![
                    Notice::ResponseSendFailed(err),
                ]
                &&& events.last() == ListenerEvent::Received(None) ==> {
                    &&& step.command is None
                    &&& step.notices == seq![Notice::PeerStopped]
                }
            }
        }),
{
    if events.len() > 0 {
        lemma_listening_goes_on(events.drop_last());
    }
}

proof fn lemma_in_hand(events: Seq<ListenerEvent>)
    requires
        listener_well_run(events),
    ensures
        ({
            let step = listener_after(events);
            let replies = reports_in_hand(events);
            &&& step.state matches Listener::Handling(holler) ==> (in_hand(events) matches Some(
                payload,
            ) && well_run(payload, replies) && holler == holler_after(payload, replies).state)
            &&& events.len() > 0 && (events.last() is Peer || (events.last() matches
                ListenerEvent::Received(Some(_)))) ==> (in_hand(events) matches Some(payload)
                && well_run(payload, replies) && step == carry_on_spec(
                holler_after(payload, replies),
            ))
        }),
    decreases events.len(),
{
    if events.len() > 0 {
        let before = events.drop_last();
        lemma_in_hand(before);
        lemma_listening_goes_on(before);
        match events.last() {
            ListenerEvent::Received(Some(payload)) => {
                assert(holler_after(payload, Seq::empty()) == begin_spec(payload));
            },
            ListenerEvent::Peer(reply) => {
                let payload = in_hand(before)->0;
                let replies = reports_in_hand(before);
                assert(replies.push(reply).drop_last() =~= replies);
                assert(reports_in_hand(events) == replies.push(reply));
                assert(holler_after(payload, replies.push(reply)) == resume_spec(
                    holler_after(payload, replies).state,
                    reply,
                ));
            },
            _ => {},
        }
    }
}

/// An event that is not awaited changes nothing; neither does any event after the end.
pub proof fn law_unawaited_events_change_nothing(state: Listener, event: ListenerEvent)
    requires
        !((state is Waiting && event is Received)
            || (state is Handling && event is Peer)
            || (state is Responding && event is Sent)),
    ensures
        hear_spec(state, event).state == state,
        hear_spec(state, event).command is None,
        hear_spec(state, event).notices.len() == 0,
{
}

} // verus!
