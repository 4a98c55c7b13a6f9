//! What the peer sends on its own account: the candidates that it gathers, and an offer
//! when the connection needs to be negotiated.

use vstd::prelude::*;

use crate::notice::Notice;
use crate::session::{IceCandidate, Payload, SessionDescription};
use crate::step::Step;
#[allow(unused_imports)]
use crate::step::{silent, telling, StepView};

verus! {

/// What is asked for on behalf of a gathered candidate.
#[derive(Debug, PartialEq, Eq)]
pub enum GatheringCommand {
    /// Bring the candidate into the form in which it travels.
    Encode,
    /// Send the payload towards the socket.
    Send(Payload),
}

/// What is reported on a gathered candidate.
#[derive(Debug, PartialEq, Eq)]
pub enum GatheringEvent {
    Encoded(Result<IceCandidate, String>),
    Sent(Result<(), String>),
}

/// How far a gathered candidate has come.
#[derive(Debug, PartialEq, Eq)]
pub enum Gathering {
    Encoding,
    Sending,
    Finished,
}

/// What the connection's call starts; at the end of gathering it comes without a candidate.
pub open spec fn gather_spec(found: bool) -> StepView<Gathering, GatheringCommand> {
    if found {
        silent(Gathering::Encoding, Some(GatheringCommand::Encode))
    } else {
        silent(Gathering::Finished, None)
    }
}

/// What a report on the candidate leads to. One that is not awaited changes nothing, and a
/// candidate that cannot be encoded is dropped without a word.
pub open spec fn gathered_spec(state: Gathering, event: GatheringEvent) -> StepView<
    Gathering,
    GatheringCommand,
> {
    match (state, event) {
        (Gathering::Encoding, GatheringEvent::Encoded(Ok(candidate))) => silent(
            Gathering::Sending,
            Some(GatheringCommand::Send(Payload { candidate: Some(candidate), sdp: None })),
        ),
        (Gathering::Encoding, GatheringEvent::Encoded(Err(_))) => silent(
            Gathering::Finished,
            None,
        ),
        (Gathering::Sending, GatheringEvent::Sent(Ok(_))) => telling(
            Gathering::Finished,
            Notice::CandidateSent,
            None,
        ),
        (Gathering::Sending, GatheringEvent::Sent(Err(err))) => telling(
            Gathering::Finished,
            Notice::CandidateSendFailed(err),
            None,
        ),
        _ => silent(state, None),
    }
}

impl Gathering {
    /// Starts with the connection's call, which comes with a candidate or without one.
    pub fn begin(found: bool) -> (step: Step<Gathering, GatheringCommand>)
        ensures
            step@ == gather_spec(found),
    {
        if found {
            Step::silent(Gathering::Encoding, Some(GatheringCommand::Encode))
        } else {
            Step::silent(Gathering::Finished, None)
        }
    }

    /// Goes on with a report. One that is not awaited changes nothing.
    pub fn resume(self, event: GatheringEvent) -> (step: Step<Gathering, GatheringCommand>)
        ensures
            step@ == gathered_spec(self, event),
    {
        match (self, event) {
            (Gathering::Encoding, GatheringEvent::Encoded(encoded)) => match encoded {
                Ok(candidate) => Step::silent(
                    Gathering::Sending,
                    Some(GatheringCommand::Send(Payload::of_candidate(candidate))),
                ),
                Err(_) => Step::silent(Gathering::Finished, None),
            },
            (Gathering::Sending, GatheringEvent::Sent(sent)) => {
                let notice = match sent {
                    Ok(_) => Notice::CandidateSent,
                    Err(err) => Notice::CandidateSendFailed(err),
                };
                Step::telling(Gathering::Finished, notice, None)
            },
            (state, _) => Step::silent(state, None),
        }
    }
}

/// What is asked for in a negotiation.
#[derive(Debug, PartialEq, Eq)]
pub enum NegotiationCommand {
    CreateOffer,
    SetLocalDescription(SessionDescription),
    /// Send the payload towards the socket.
    Send(Payload),
}

/// What is reported in a negotiation.
#[derive(Debug, PartialEq, Eq)]
pub enum NegotiationEvent {
    OfferCreated(Result<SessionDescription, String>),
    LocalDescriptionSet(Result<(), String>),
    Sent(Result<(), String>),
}

/// How far a negotiation has come.
#[derive(Debug, PartialEq, Eq)]
pub enum Negotiation {
    CreatingOffer,
    /// This offer is being set as the local description, and is sent afterwards.
    SettingLocalDescription(SessionDescription),
    SendingOffer,
    Finished,
}

/// How a negotiation starts.
pub open spec fn negotiate_spec() -> StepView<Negotiation, NegotiationCommand> {
    silent(Negotiation::CreatingOffer, Some(NegotiationCommand::CreateOffer))
}

/// What a report leads to. One that is not awaited changes nothing.
pub open spec fn negotiated_spec(state: Negotiation, event: NegotiationEvent) -> StepView<
    Negotiation,
    NegotiationCommand,
> {
    match (state, event) {
        (Negotiation::CreatingOffer, NegotiationEvent::OfferCreated(Ok(offer))) => silent(
            Negotiation::SettingLocalDescription(offer),
            Some(NegotiationCommand::SetLocalDescription(offer)),
        ),
        (Negotiation::CreatingOffer, NegotiationEvent::OfferCreated(Err(err))) => telling(
            Negotiation::Finished,
            Notice::OfferCreateFailed(err),
            None,
        ),
        (
            Negotiation::SettingLocalDescription(offer),
            NegotiationEvent::LocalDescriptionSet(set),
        ) => telling(
            Negotiation::SendingOffer,
            match set {
                Ok(_) => Notice::LocalDescriptionSet,
                Err(err) => Notice::LocalDescriptionFailed(err),
            },
            Some(NegotiationCommand::Send(Payload { candidate: None, sdp: Some(offer) })),
        ),
        (Negotiation::SendingOffer, NegotiationEvent::Sent(sent)) => telling(
            Negotiation::Finished,
            match sent {
                Ok(_) => Notice::OfferSent,
                Err(err) => Notice::OfferSendFailed(err),
            },
            None,
        ),
        _ => silent(state, None),
    }
}

impl Negotiation {
    /// Starts a negotiation.
    pub fn begin() -> (step: Step<Negotiation, NegotiationCommand>)
        ensures
            step@ == negotiate_spec(),
    {
        Step::silent(Negotiation::CreatingOffer, Some(NegotiationCommand::CreateOffer))
    }

    /// Goes on with a report. One that is not awaited changes nothing.
    pub fn resume(self, event: NegotiationEvent) -> (step: Step<Negotiation, NegotiationCommand>)
        ensures
            step@ == negotiated_spec(self, event),
    {
        match (self, event) {
            (Negotiation::CreatingOffer, NegotiationEvent::OfferCreated(created)) => match created {
                Ok(offer) => {
                    let local = offer.clone();
                    Step::silent(
                        Negotiation::SettingLocalDescription(offer),
                        Some(NegotiationCommand::SetLocalDescription(local)),
                    )
                },
                Err(err) => Step::telling(
                    Negotiation::Finished,
                    Notice::OfferCreateFailed(err),
                    None,
                ),
            },
            (
                Negotiation::SettingLocalDescription(offer),
                NegotiationEvent::LocalDescriptionSet(set),
            ) => {
                let notice = match set {
                    Ok(_) => Notice::LocalDescriptionSet,
                    Err(err) => Notice::LocalDescriptionFailed(err),
                };
                Step::telling(
                    Negotiation::SendingOffer,
                    notice,
                    Some(NegotiationCommand::Send(Payload::of_description(offer))),
                )
            },
            (Negotiation::SendingOffer, NegotiationEvent::Sent(sent)) => {
                let notice = match sent {
                    Ok(_) => Notice::OfferSent,
                    Err(err) => Notice::OfferSendFailed(err),
                };
                Step::telling(Negotiation::Finished, notice, None)
            },
            (state, _) => Step::silent(state, None),
        }
    }
}

/// Where the sending of a gathered candidate stands after the given reports.
pub open spec fn gathering_after(found: bool, events: Seq<GatheringEvent>) -> StepView<
    Gathering,
    GatheringCommand,
>
    decreases events.len(),
{
    if events.len() == 0 {
        gather_spec(found)
    } else {
        gathered_spec(gathering_after(found, events.drop_last()).state, events.last())
    }
}

/// Where a negotiation stands after the given reports.
pub open spec fn negotiation_after(events: Seq<NegotiationEvent>) -> StepView<
    Negotiation,
    NegotiationCommand,
>
    decreases events.len(),
{
    if events.len() == 0 {
        negotiate_spec()
    } else {
        negotiated_spec(negotiation_after(events.drop_last()).state, events.last())
    }
}

/// Nothing is sent at the end of gathering, and otherwise only the candidate as it was
/// encoded, in a payload of its own.
pub proof fn law_only_encoded_candidates_are_sent(found: bool, events: Seq<GatheringEvent>)
    ensures
        gathering_after(found, events).command matches Some(GatheringCommand::Send(payload)) ==> {
            &&& found
            &&& events.len() > 0
            &&& events.last() matches GatheringEvent::Encoded(Ok(candidate)) && payload == (Payload {
                candidate: Some(candidate),
                sdp: None,
            })
        },
        !found ==> gathering_after(found, events).state is Finished,
    decreases events.len(),
{
    if events.len() > 0 {
        law_only_encoded_candidates_are_sent(found, events.drop_last());
    }
}

proof fn lemma_offer_in_hand(events: Seq<NegotiationEvent>)
    ensures
        negotiation_after(events).state matches Negotiation::SettingLocalDescription(offer)
            ==> events.contains(NegotiationEvent::OfferCreated(Ok(offer))),
    decreases events.len(),
{
    if events.len() > 0 {
        let before = events.drop_last();
        lemma_offer_in_hand(before);
        if let Negotiation::SettingLocalDescription(offer) = negotiation_after(events).state {
            if negotiation_after(before).state is CreatingOffer {
                assert(events[events.len() - 1] == NegotiationEvent::OfferCreated(Ok(offer)));
            } else {
                let i = choose|i: int|
                    0 <= i < before.len() && before[i] == NegotiationEvent::OfferCreated(Ok(offer));
                assert(events[i] == before[i]);
            }
        }
    }
}

/// What is sent in a negotiation is the offer that was created, after the attempt to make
/// it the local description, and nothing with it.
pub proof fn law_only_the_created_offer_is_sent(events: Seq<NegotiationEvent>)
    ensures
        negotiation_after(events).command matches Some(NegotiationCommand::Send(payload)) ==> {
            &&& payload.candidate is None
            &&& payload.sdp matches Some(offer) && events.contains(
                NegotiationEvent::OfferCreated(Ok(offer)),
            )
            &&& events.last() is LocalDescriptionSet
        },
{
    if events.len() > 0 {
        let before = events.drop_last();
        lemma_offer_in_hand(before);
        if let Negotiation::SettingLocalDescription(offer) = negotiation_after(before).state {
            let i = choose|i: int|
                0 <= i < before.len() && before[i] == NegotiationEvent::OfferCreated(Ok(offer));
            assert(events[i] == before[i]);
        }
    }
}

/// An offer that was created is set as the local description and then sent, even if setting
/// it failed.
pub proof fn law_created_offer_is_sent(offer: SessionDescription, set: Result<(), String>)
    ensures
        negotiation_after(seq![NegotiationEvent::OfferCreated(Ok(offer))]).command == Some(
            NegotiationCommand::SetLocalDescription(offer),
        ),
        negotiation_after(
            seq![
                NegotiationEvent::OfferCreated(Ok(offer)),
                NegotiationEvent::LocalDescriptionSet(set),
            ],
        ).command == Some(
            NegotiationCommand::Send(Payload { candidate: None, sdp: Some(offer) }),
        ),
{
    let first = seq![NegotiationEvent::OfferCreated(Ok(offer))];
    let second = seq![
        NegotiationEvent::OfferCreated(Ok(offer)),
        NegotiationEvent::LocalDescriptionSet(set),
    ];
    assert(first.drop_last() =~= Seq::empty());
    assert(second.drop_last() =~= first);
    reveal_with_fuel(negotiation_after, 3);
}

/// Whether `event` is a report on `command`.
pub open spec fn gathering_report(event: GatheringEvent, command: GatheringCommand) -> bool {
    match command {
        GatheringCommand::Encode => event is Encoded,
        GatheringCommand::Send(_) => event is Sent,
    }
}

/// Whether every report was one on the command given just before it.
pub open spec fn gathering_well_run(found: bool, events: Seq<GatheringEvent>) -> bool
    decreases events.len(),
{
    events.len() == 0 || {
        &&& gathering_well_run(found, events.drop_last())
        &&& gathering_after(found, events.drop_last()).command matches Some(command)
            && gathering_report(events.last(), command)
    }
}

/// As long as the reports are on the commands given, there is a next command exactly until
/// the candidate is done with, and that is after two reports at the latest.
pub proof fn law_gathering_ends(found: bool, events: Seq<GatheringEvent>)
    requires
        gathering_well_run(found, events),
    ensures
        gathering_after(found, events).command is None <==> gathering_after(
            found,
            events,
        ).state is Finished,
        events.len() <= 2,
{
    lemma_gathering_ends(found, events);
}

proof fn lemma_gathering_ends(found: bool, events: Seq<GatheringEvent>)
    requires
        gathering_well_run(found, events),
    ensures
        ({
            let step = gathering_after(found, events);
            match step.state {
                Gathering::Encoding => step.command is Some && step.command->0 is Encode
                    && events.len() == 0,
                Gathering::Sending => step.command is Some && step.command->0 is Send
                    && events.len() <= 1,
                Gathering::Finished => step.command is None && events.len() <= 2,
            }
        }),
    decreases events.len(),
{
    if events.len() > 0 {
        lemma_gathering_ends(found, events.drop_last());
    }
}

/// Whether `event` is a report on `command`.
pub open spec fn negotiation_report(event: NegotiationEvent, command: NegotiationCommand) -> bool {
    match command {
        NegotiationCommand::CreateOffer => event is OfferCreated,
        NegotiationCommand::SetLocalDescription(_) => event is LocalDescriptionSet,
        NegotiationCommand::Send(_) => event is Sent,
    }
}

/// Whether every report was one on the command given just before it.
pub open spec fn negotiation_well_run(events: Seq<NegotiationEvent>) -> bool
    decreases events.len(),
{
    events.len() == 0 || {
        &&& negotiation_well_run(events.drop_last())
        &&& negotiation_after(events.drop_last()).command matches Some(command)
            && negotiation_report(events.last(), command)
    }
}

/// As long as the reports are on the commands given, there is a next command exactly until
/// the negotiation is finished, and that is after three reports at the latest.
pub proof fn law_negotiation_ends(events: Seq<NegotiationEvent>)
    requires
        negotiation_well_run(events),
    ensures
        negotiation_after(events).command is None <==> negotiation_after(events).state is Finished,
        events.len() <= 3,
{
    lemma_negotiation_ends(events);
}

proof fn lemma_negotiation_ends(events: Seq<NegotiationEvent>)
    requires
        negotiation_well_run(events),
    ensures
        ({
            let step = negotiation_after(events);
            match step.state {
                Negotiation::CreatingOffer => step.command is Some && step.command->0 is CreateOffer
                    && events.len() == 0,
                Negotiation::SettingLocalDescription(_) => step.command is Some
                    && step.command->0 is SetLocalDescription && events.len() <= 1,
                Negotiation::SendingOffer => step.command is Some && step.command->0 is Send
                    && events.len() <= 2,
                Negotiation::Finished => step.command is None && events.len() <= 3,
            }
        }),
    decreases events.len(),
{
    if events.len() > 0 {
        lemma_negotiation_ends(events.drop_last());
    }
}

/// Every candidate that is found and can be encoded is sent as it is, in a payload of its own.
pub proof fn law_every_encoded_candidate_is_sent(candidate: IceCandidate)
    ensures
        gathering_after(true, Seq::empty()).command == Some(GatheringCommand::Encode),
        gathering_after(true, seq![GatheringEvent::Encoded(Ok(candidate))]).command == Some(
            GatheringCommand::Send(Payload { candidate: Some(candidate), sdp: None }),
        ),
{
    let events = seq![GatheringEvent::Encoded(Ok(candidate))];
    assert(events.drop_last() =~= Seq::empty());
    reveal_with_fuel(gathering_after, 2);
}

/// As long as the reports are on the commands given: a candidate that was found is encoded,
/// one that was encoded is sent, and anything else ends it. Only what became of the sending is
/// printed.
pub proof fn law_what_becomes_of_a_candidate(found: bool, events: Seq<GatheringEvent>)
    requires
        gathering_well_run(found, events),
    ensures
        ({
            let step = gathering_after(found, events);
            &&& events.len() == 0 ==> {
                &&& step.command == (if found {
                    Some(GatheringCommand::Encode)
                } else {
                    None
                })
                &&& step.notices.len() == 0
            }
            &&& events.len() > 0 ==> match events.last() {
                GatheringEvent::Encoded(encoded) => {
                    &&& encoded matches Ok(candidate) ==> step.command == Some(
                        GatheringCommand::Send(Payload { candidate: Some(candidate), sdp: None }),
                    )
                    &&& encoded is Err ==> step.command is None
                    &&& step.notices.len() == 0
                },
                GatheringEvent::Sent(sent) => {
                    &&& step.command is None
                    &&& sent is Ok ==> step.notices == seq![Notice::CandidateSent]
                    &&& sent matches Err(err) ==> step.notices == seq![
                        Notice::CandidateSendFailed(err),
                    ]
                },
            }
        }),
{
    if events.len() > 0 {
        lemma_gathering_ends(found, events.drop_last());
    }
}

/// As long as the reports are on the commands given: an offer is created, the one that was
/// created is made the local description, and whatever became of that it is then sent as it
/// is, in a payload of its own. Without an offer nothing more is done. What became of each step
/// but the creation of an offer is printed, failures with their reasons.
pub proof fn law_what_becomes_of_an_offer(events: Seq<NegotiationEvent>)
    requires
        negotiation_well_run(events),
    ensures
        ({
            let step = negotiation_after(events);
            &&& events.len() == 0 ==> {
                &&& step.command == Some(NegotiationCommand::CreateOffer)
                &&& step.notices.len() == 0
            }
            &&& events.len() > 0 ==> match events.last() {
                NegotiationEvent::OfferCreated(created) => {
                    &&& created matches Ok(offer) ==> {
                        &&& step.command == Some(NegotiationCommand::SetLocalDescription(offer))
                        &&& step.notices.len() == 0
                    }
                    &&& created matches Err(err) ==> {
                        &&& step.command is None
                        &&& step.notices == seq![Notice::OfferCreateFailed(err)]
                    }
                },
                NegotiationEvent::LocalDescriptionSet(set) => {
                    &&& events.len() == 2
                    &&& events[0] matches NegotiationEvent::OfferCreated(Ok(offer))
                        && step.command == Some(
                        NegotiationCommand::Send(Payload { candidate: None, sdp: Some(offer) }),
                    )
                    &&& set is Ok ==> step.notices == seq![Notice::LocalDescriptionSet]
                    &&& set matches Err(err) ==> step.notices == seq![
                        Notice::LocalDescriptionFailed(err),
                    ]
                },
                NegotiationEvent::Sent(sent) => {
                    &&& step.command is None
                    &&& sent is Ok ==> step.notices == seq![Notice::OfferSent]
                    &&& sent matches Err(err) ==> step.notices == seq![
                        Notice::OfferSendFailed(err),
                    ]
                },
            }
        }),
{
    reveal_with_fuel(negotiation_well_run, 2);
    if events.len() > 0 {
        let before = events.drop_last();
        lemma_negotiation_ends(before);
        if before.len() > 0 {
            lemma_negotiation_ends(before.drop_last());
        }
    }
}

/// A report on a candidate that is not awaited, and so any report after the end, changes
/// nothing.
pub proof fn law_unawaited_reports_on_candidates_change_nothing(state: Gathering, event: GatheringEvent)
    requires
        !((state is Encoding && event is Encoded)
            || (state is Sending && event is Sent)),
    ensures
        gathered_spec(state, event).state == state,
        gathered_spec(state, event).command is None,
        gathered_spec(state, event).notices.len() == 0,
{
}

/// A report on an offer that is not awaited, and so any report after the end, changes nothing.
pub proof fn law_unawaited_reports_on_offers_change_nothing(state: Negotiation, event: NegotiationEvent)
    requires
        !((state is CreatingOffer && event is OfferCreated)
            || (state is SettingLocalDescription && event is LocalDescriptionSet)
            || (state is SendingOffer && event is Sent)),
    ensures
        negotiated_spec(state, event).state == state,
        negotiated_spec(state, event).command is None,
        negotiated_spec(state, event).notices.len() == 0,
{
}

} // verus!
