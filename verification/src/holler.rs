//! What the peer does with a payload from the other side (a "holler").
//!
//! A candidate in the payload is added first. Then a description is looked at: an offer is
//! applied and answered if the connection is stable, an answer is applied, and any other
//! description is passed over.

use vstd::prelude::*;

use crate::notice::Notice;
use crate::session::{IceCandidate, Payload, SdpType, SessionDescription, SignalingState};
use crate::step::Step;
#[allow(unused_imports)]
use crate::step::{silent, telling, StepView};

verus! {

/// What to ask of the peer connection.
#[derive(Debug, PartialEq, Eq)]
pub enum PeerCommand {
    AddIceCandidate(IceCandidate),
    ReadSignalingState,
    SetRemoteDescription(SessionDescription),
    CreateAnswer,
}

/// What the peer connection reported back.
#[derive(Debug, PartialEq, Eq)]
pub enum PeerReply {
    IceCandidateAdded(Result<(), String>),
    SignalingState(SignalingState),
    RemoteDescriptionSet(Result<(), String>),
    AnswerCreated(Result<SessionDescription, String>),
}

/// How far the handling of one payload has come: which report is awaited, and what is
/// needed when it is in.
#[derive(Debug, PartialEq, Eq)]
pub enum Holler {
    /// The candidate is being added; the description is looked at afterwards.
    AddingCandidate(Option<SessionDescription>),
    /// The signaling state decides whether this offer is applied.
    CheckingState(SessionDescription),
    /// The offer is refused; the signaling state is read again for the log.
    RefusingOffer,
    /// The offer is being applied.
    ApplyingOffer,
    /// The answer is being created.
    Answering,
    /// The answer of the other side is being applied.
    ApplyingAnswer,
    /// Nothing is awaited any more; the response goes back to the other side.
    Finished(Option<Payload>),
}

/// The end of the handling, without a response.
pub open spec fn no_response(notice: Notice) -> StepView<Holler, PeerCommand> {
    telling(Holler::Finished(None), notice, None)
}

/// What is done with the description once the candidate is out of the way.
pub open spec fn look_at_spec(sdp: Option<SessionDescription>) -> StepView<Holler, PeerCommand> {
    match sdp {
        None => silent(Holler::Finished(None), None),
        Some(description) => match description.sdp_type {
            SdpType::Offer => telling(
                Holler::CheckingState(description),
                Notice::OfferReceived,
                Some(PeerCommand::ReadSignalingState),
            ),
            SdpType::Answer => telling(
                Holler::ApplyingAnswer,
                Notice::AnswerReceived,
                Some(PeerCommand::SetRemoteDescription(description)),
            ),
            _ => no_response(Notice::UnknownSdpType),
        },
    }
}

/// What a payload starts.
pub open spec fn begin_spec(payload: Payload) -> StepView<Holler, PeerCommand> {
    match payload.candidate {
        Some(candidate) => silent(
            Holler::AddingCandidate(payload.sdp),
            Some(PeerCommand::AddIceCandidate(candidate)),
        ),
        None => look_at_spec(payload.sdp),
    }
}

/// What a report leads to. A report that is not awaited changes nothing.
pub open spec fn resume_spec(state: Holler, reply: PeerReply) -> StepView<Holler, PeerCommand> {
    match (state, reply) {
        (Holler::AddingCandidate(sdp), PeerReply::IceCandidateAdded(added)) => look_at_spec(
            sdp,
        ).after_telling(
            match added {
                Ok(_) => Notice::CandidateAdded,
                Err(err) => Notice::CandidateAddFailed(err),
            },
        ),
        (Holler::CheckingState(offer), PeerReply::SignalingState(current)) => if current
            == SignalingState::Stable {
            silent(Holler::ApplyingOffer, Some(PeerCommand::SetRemoteDescription(offer)))
        } else {
            silent(Holler::RefusingOffer, Some(PeerCommand::ReadSignalingState))
        },
        (Holler::RefusingOffer, PeerReply::SignalingState(current)) => no_response(
            Notice::OfferInInvalidState(current),
        ),
        (Holler::ApplyingOffer, PeerReply::RemoteDescriptionSet(Ok(_))) => telling(
            Holler::Answering,
            Notice::RemoteDescriptionSet,
            Some(PeerCommand::CreateAnswer),
        ),
        (Holler::ApplyingOffer, PeerReply::RemoteDescriptionSet(Err(err))) => no_response(
            Notice::OfferApplyFailed(err),
        ),
        (Holler::Answering, PeerReply::AnswerCreated(Ok(answer))) => telling(
            Holler::Finished(Some(Payload { candidate: None, sdp: Some(answer) })),
            Notice::AnswerCreated,
            None,
        ),
        (Holler::Answering, PeerReply::AnswerCreated(Err(err))) => no_response(
            Notice::AnswerCreateFailed(err),
        ),
        (Holler::ApplyingAnswer, PeerReply::RemoteDescriptionSet(Ok(_))) => no_response(
            Notice::RemoteDescriptionSet,
        ),
        (Holler::ApplyingAnswer, PeerReply::RemoteDescriptionSet(Err(err))) => no_response(
            Notice::AnswerApplyFailed(err),
        ),
        _ => silent(state, None),
    }
}

impl Holler {
    /// Starts to handle a payload.
    pub fn begin(payload: Payload) -> (step: Step<Holler, PeerCommand>)
        ensures
            step@ == begin_spec(payload),
    {
        match payload.candidate {
            Some(candidate) => Step::silent(
                Holler::AddingCandidate(payload.sdp),
                Some(PeerCommand::AddIceCandidate(candidate)),
            ),
            None => Holler::look_at(payload.sdp),
        }
    }

    fn look_at(sdp: Option<SessionDescription>) -> (step: Step<Holler, PeerCommand>)
        ensures
            step@ == look_at_spec(sdp),
    {
        match sdp {
            None => Step::silent(Holler::Finished(None), None),
            Some(description) => match description.sdp_type {
                SdpType::Offer => Step::telling(
                    Holler::CheckingState(description),
                    Notice::OfferReceived,
                    Some(PeerCommand::ReadSignalingState),
                ),
                SdpType::Answer => Step::telling(
                    Holler::ApplyingAnswer,
                    Notice::AnswerReceived,
                    Some(PeerCommand::SetRemoteDescription(description)),
                ),
                _ => Step::telling(Holler::Finished(None), Notice::UnknownSdpType, None),
            },
        }
    }

    /// Goes on with a report of the peer connection. A report that is not awaited changes
    /// nothing.
    pub fn resume(self, reply: PeerReply) -> (step: Step<Holler, PeerCommand>)
        ensures
            step@ == resume_spec(self, reply),
    {
        match (self, reply) {
            (Holler::AddingCandidate(sdp), PeerReply::IceCandidateAdded(added)) => {
                let notice = match added {
                    Ok(_) => Notice::CandidateAdded,
                    Err(err) => Notice::CandidateAddFailed(err),
                };
                Holler::look_at(sdp).after_telling(notice)
            },
            (Holler::CheckingState(offer), PeerReply::SignalingState(current)) => {
                if current == SignalingState::Stable {
                    Step::silent(
                        Holler::ApplyingOffer,
                        Some(PeerCommand::SetRemoteDescription(offer)),
                    )
                } else {
                    Step::silent(Holler::RefusingOffer, Some(PeerCommand::ReadSignalingState))
                }
            },
            (Holler::RefusingOffer, PeerReply::SignalingState(current)) => Step::telling(
                Holler::Finished(None),
                Notice::OfferInInvalidState(current),
                None,
            ),
            (Holler::ApplyingOffer, PeerReply::RemoteDescriptionSet(set)) => match set {
                Ok(_) => Step::telling(
                    Holler::Answering,
                    Notice::RemoteDescriptionSet,
                    Some(PeerCommand::CreateAnswer),
                ),
                Err(err) => Step::telling(
                    Holler::Finished(None),
                    Notice::OfferApplyFailed(err),
                    None,
                ),
            },
            (Holler::Answering, PeerReply::AnswerCreated(created)) => match created {
                Ok(answer) => Step::telling(
                    Holler::Finished(Some(Payload::of_description(answer))),
                    Notice::AnswerCreated,
                    None,
                ),
                Err(err) => Step::telling(
                    Holler::Finished(None),
                    Notice::AnswerCreateFailed(err),
                    None,
                ),
            },
            (Holler::ApplyingAnswer, PeerReply::RemoteDescriptionSet(set)) => {
                let notice = match set {
                    Ok(_) => Notice::RemoteDescriptionSet,
                    Err(err) => Notice::AnswerApplyFailed(err),
                };
                Step::telling(Holler::Finished(None), notice, None)
            },
            (state, _) => Step::silent(state, None),
        }
    }
}

impl Holler {
    /// Whether the report on `command` is what the handling is waiting for.
    pub open spec fn awaits(self, command: PeerCommand) -> bool {
        match self {
            Holler::AddingCandidate(_) => command is AddIceCandidate,
            Holler::CheckingState(_) | Holler::RefusingOffer => command is ReadSignalingState,
            Holler::ApplyingOffer | Holler::ApplyingAnswer => command is SetRemoteDescription,
            Holler::Answering => command is CreateAnswer,
            Holler::Finished(_) => false,
        }
    }
}

/// Where the handling of `payload` stands after the reports `replies`.
pub open spec fn holler_after(payload: Payload, replies: Seq<PeerReply>) -> StepView<
    Holler,
    PeerCommand,
>
    decreases replies.len(),
{
    if replies.len() == 0 {
        begin_spec(payload)
    } else {
        resume_spec(holler_after(payload, replies.drop_last()).state, replies.last())
    }
}

/// Whether `reply` is a report on `command`.
pub open spec fn replies_to(reply: PeerReply, command: PeerCommand) -> bool {
    match command {
        PeerCommand::AddIceCandidate(_) => reply is IceCandidateAdded,
        PeerCommand::ReadSignalingState => reply is SignalingState,
        PeerCommand::SetRemoteDescription(_) => reply is RemoteDescriptionSet,
        PeerCommand::CreateAnswer => reply is AnswerCreated,
    }
}

/// Whether every report in `replies` was one on the command given just before it.
pub open spec fn well_run(payload: Payload, replies: Seq<PeerReply>) -> bool
    decreases replies.len(),
{
    replies.len() == 0 || {
        &&& well_run(payload, replies.drop_last())
        &&& holler_after(payload, replies.drop_last()).command matches Some(command)
            && replies_to(replies.last(), command)
    }
}

/// The reports of a connection that was stable at `i` and took the offer at `j`.
pub open spec fn stable_then_applied(replies: Seq<PeerReply>, i: int, j: int) -> bool {
    &&& 0 <= i < j < replies.len()
    &&& replies[i] == PeerReply::SignalingState(SignalingState::Stable)
    &&& replies[j] matches PeerReply::RemoteDescriptionSet(Ok(_))
}

/// Whether `answer` was created after a stable connection had taken the offer.
pub open spec fn answered_with(replies: Seq<PeerReply>, answer: SessionDescription) -> bool {
    exists|i: int, j: int, k: int|
        #![trigger stable_then_applied(replies, i, j), replies[k]]
        stable_then_applied(replies, i, j) && j < k < replies.len() && replies[k]
            == PeerReply::AnswerCreated(Ok(answer))
}

/// What the reports so far must have been for the handling to stand where it does.
spec fn accounted(payload: Payload, replies: Seq<PeerReply>, state: Holler) -> bool {
    match state {
        Holler::AddingCandidate(sdp) => payload.sdp == sdp && payload.candidate is Some,
        Holler::CheckingState(offer) => payload.sdp == Some(offer) && offer.sdp_type
            == SdpType::Offer,
        Holler::RefusingOffer => payload.describes(SdpType::Offer),
        Holler::ApplyingOffer => payload.describes(SdpType::Offer) && replies.contains(
            PeerReply::SignalingState(SignalingState::Stable),
        ),
        Holler::Answering => payload.describes(SdpType::Offer) && exists|i: int, j: int|
            stable_then_applied(replies, i, j),
        Holler::ApplyingAnswer => payload.describes(SdpType::Answer),
        Holler::Finished(None) => true,
        Holler::Finished(Some(response)) => {
            &&& payload.describes(SdpType::Offer)
            &&& response.candidate is None
            &&& response.sdp matches Some(answer) && answered_with(replies, answer)
        },
    }
}

proof fn lemma_accounted(payload: Payload, replies: Seq<PeerReply>)
    ensures
        accounted(payload, replies, holler_after(payload, replies).state),
    decreases replies.len(),
{
    if replies.len() > 0 {
        let before = replies.drop_last();
        let state = holler_after(payload, before).state;
        let next = holler_after(payload, replies).state;
        let n = replies.len() - 1;
        lemma_accounted(payload, before);
        assert forall|i: int, j: int| stable_then_applied(before, i, j) implies stable_then_applied(
            replies,
            i,
            j,
        ) by {}
        if next is ApplyingOffer {
            if state is ApplyingOffer {
                let i = choose|i: int|
                    0 <= i < before.len() && before[i] == PeerReply::SignalingState(
                        SignalingState::Stable,
                    );
                assert(replies[i] == before[i]);
            } else {
                assert(replies[n] == PeerReply::SignalingState(SignalingState::Stable));
            }
        }
        if next is Answering {
            if state is Answering {
                let (i, j) = choose|i: int, j: int| stable_then_applied(before, i, j);
                assert(stable_then_applied(replies, i, j));
            } else {
                let i = choose|i: int|
                    0 <= i < before.len() && before[i] == PeerReply::SignalingState(
                        SignalingState::Stable,
                    );
                assert(replies[i] == before[i]);
                assert(stable_then_applied(replies, i, n));
            }
        }
        if let Holler::Finished(Some(response)) = next {
            let answer = response.sdp->0;
            if state is Finished {
                let (i, j, k) = choose|i: int, j: int, k: int|
                    #![trigger stable_then_applied(before, i, j), before[k]]
                    stable_then_applied(before, i, j) && j < k < before.len() && before[k]
                        == PeerReply::AnswerCreated(Ok(answer));
                assert(stable_then_applied(replies, i, j) && replies[k] == before[k]);
            } else {
                let (i, j) = choose|i: int, j: int| stable_then_applied(before, i, j);
                assert(stable_then_applied(replies, i, j) && replies[n]
                    == PeerReply::AnswerCreated(Ok(answer)));
            }
        }
    }
}

/// Only an offer is ever responded to, and only with an answer that was created after the
/// connection had been stable and had taken the offer; the response carries no candidate.
pub proof fn law_only_applied_offers_are_answered(payload: Payload, replies: Seq<PeerReply>)
    ensures
        holler_after(payload, replies).state matches Holler::Finished(Some(response)) ==> {
            &&& payload.describes(SdpType::Offer)
            &&& response.candidate is None
            &&& response.sdp matches Some(answer) && answered_with(replies, answer)
        },
{
    lemma_accounted(payload, replies);
}

/// The reports on the candidate of a payload, if it has one.
pub open spec fn candidate_reports(payload: Payload, added: Result<(), String>) -> Seq<PeerReply> {
    if payload.candidate is Some {
        seq![PeerReply::IceCandidateAdded(added)]
    } else {
        Seq::empty()
    }
}

proof fn lemma_looked_at(payload: Payload, added: Result<(), String>)
    ensures
        ({
            let step = holler_after(payload, candidate_reports(payload, added));
            &&& step.state == look_at_spec(payload.sdp).state
            &&& step.command == look_at_spec(payload.sdp).command
        }),
        well_run(payload, candidate_reports(payload, added)),
{
    reveal_with_fuel(holler_after, 2);
    reveal_with_fuel(well_run, 2);
    let replies = candidate_reports(payload, added);
    if payload.candidate is Some {
        assert(replies.drop_last() =~= Seq::empty());
    }
}

/// The reports on a payload whose offer reaches a stable connection, is applied and gets
/// `answer`.
pub open spec fn answering_reports(
    payload: Payload,
    added: Result<(), String>,
    answer: SessionDescription,
) -> Seq<PeerReply> {
    candidate_reports(payload, added) + seq![
        PeerReply::SignalingState(SignalingState::Stable),
        PeerReply::RemoteDescriptionSet(Ok(())),
        PeerReply::AnswerCreated(Ok(answer)),
    ]
}

/// An offer that reaches a stable connection, is applied and gets an answer is responded to
/// with that answer, whatever became of a candidate in the same payload. These reports are
/// all on the commands given.
pub proof fn law_stable_offer_is_answered(
    payload: Payload,
    added: Result<(), String>,
    answer: SessionDescription,
)
    requires
        payload.describes(SdpType::Offer),
    ensures
        holler_after(payload, answering_reports(payload, added, answer)).state == Holler::Finished(
            Some(Payload { candidate: None, sdp: Some(answer) }),
        ),
        well_run(payload, answering_reports(payload, added, answer)),
{
    let first = candidate_reports(payload, added);
    let second = first.push(PeerReply::SignalingState(SignalingState::Stable));
    let third = second.push(PeerReply::RemoteDescriptionSet(Ok(())));
    let fourth = third.push(PeerReply::AnswerCreated(Ok(answer)));
    lemma_looked_at(payload, added);
    assert(second.drop_last() =~= first);
    assert(third.drop_last() =~= second);
    assert(fourth.drop_last() =~= third);
    assert(holler_after(payload, second).state is ApplyingOffer);
    assert(holler_after(payload, third).state is Answering);
    assert(well_run(payload, second));
    assert(well_run(payload, third));
    assert(answering_reports(payload, added, answer) =~= fourth);
}

/// An offer that finds the connection in any other state is neither applied nor responded
/// to; the state read for the log is printed.
pub proof fn law_unstable_offer_is_refused(
    payload: Payload,
    added: Result<(), String>,
    found: SignalingState,
    logged: SignalingState,
)
    requires
        payload.describes(SdpType::Offer),
        found != SignalingState::Stable,
    ensures
        holler_after(
            payload,
            candidate_reports(payload, added) + seq![PeerReply::SignalingState(found)],
        ) == silent(Holler::RefusingOffer, Some(PeerCommand::ReadSignalingState)),
        holler_after(
            payload,
            candidate_reports(payload, added) + seq![
                PeerReply::SignalingState(found),
                PeerReply::SignalingState(logged),
            ],
        ) == no_response(Notice::OfferInInvalidState(logged)),
{
    let first = candidate_reports(payload, added);
    let second = first.push(PeerReply::SignalingState(found));
    let third = second.push(PeerReply::SignalingState(logged));
    lemma_looked_at(payload, added);
    assert(second.drop_last() =~= first);
    assert(third.drop_last() =~= second);
    assert(first + seq![PeerReply::SignalingState(found)] =~= second);
    assert(first + seq![PeerReply::SignalingState(found), PeerReply::SignalingState(logged)]
        =~= third);
}

/// The only description that is ever applied is the one in the payload: an answer, or an
/// offer for which the connection has just been found stable.
pub proof fn law_applied_description_is_the_received_one(payload: Payload, replies: Seq<PeerReply>)
    ensures
        holler_after(payload, replies).command matches Some(
            PeerCommand::SetRemoteDescription(description),
        ) ==> {
            &&& payload.sdp == Some(description)
            &&& description.sdp_type == SdpType::Answer || (description.sdp_type == SdpType::Offer
                && replies.len() > 0 && replies.last() == PeerReply::SignalingState(
                SignalingState::Stable,
            ))
        },
{
    if replies.len() > 0 {
        lemma_accounted(payload, replies.drop_last());
    }
}

/// A candidate has no influence on what is done with the description: neither that there is
/// one nor what became of it.
pub proof fn law_candidate_does_not_matter(
    payload: Payload,
    added: Result<(), String>,
    replies: Seq<PeerReply>,
)
    ensures
        ({
            let with = holler_after(payload, candidate_reports(payload, added) + replies);
            let without = holler_after(Payload { candidate: None, sdp: payload.sdp }, replies);
            &&& with.state == without.state
            &&& with.command == without.command
            &&& replies.len() > 0 ==> with.notices == without.notices
        }),
    decreases replies.len(),
{
    let first = candidate_reports(payload, added);
    if replies.len() == 0 {
        lemma_looked_at(payload, added);
        assert(first + replies =~= first);
    } else {
        law_candidate_does_not_matter(payload, added, replies.drop_last());
        assert((first + replies).drop_last() =~= first + replies.drop_last());
    }
}

/// How many reports can still be awaited.
spec fn reports_left(state: Holler) -> nat {
    match state {
        Holler::AddingCandidate(_) => 4,
        Holler::CheckingState(_) => 3,
        Holler::ApplyingOffer => 2,
        Holler::RefusingOffer | Holler::Answering | Holler::ApplyingAnswer => 1,
        Holler::Finished(_) => 0,
    }
}

/// The handling never hangs and never runs on: as long as the reports are on the commands
/// given, there is a next command exactly until it is finished, and that is after four
/// reports at the latest.
pub proof fn law_handling_ends(payload: Payload, replies: Seq<PeerReply>)
    requires
        well_run(payload, replies),
    ensures
        holler_after(payload, replies).command is None <==> holler_after(
            payload,
            replies,
        ).state is Finished,
        replies.len() <= 4,
{
    lemma_handling_ends(payload, replies);
}

proof fn lemma_handling_ends(payload: Payload, replies: Seq<PeerReply>)
    requires
        well_run(payload, replies),
    ensures
        ({
            let step = holler_after(payload, replies);
            match step.command {
                Some(command) => step.state.awaits(command),
                None => step.state is Finished,
            }
        }),
        replies.len() + reports_left(holler_after(payload, replies).state) <= 4,
    decreases replies.len(),
{
    if replies.len() > 0 {
        lemma_handling_ends(payload, replies.drop_last());
    }
}

/// What the reports on the commands so far must have been for the handling to stand where it
/// does.
spec fn in_step(payload: Payload, replies: Seq<PeerReply>, state: Holler) -> bool {
    match state {
        Holler::AddingCandidate(sdp) => replies.len() == 0 && payload.sdp == sdp,
        Holler::CheckingState(offer) => payload.sdp == Some(offer) && offer.sdp_type
            == SdpType::Offer && !(replies.len() > 0 && replies.last() is SignalingState),
        Holler::RefusingOffer => payload.sdp is Some && payload.sdp->0.sdp_type == SdpType::Offer
            && replies.len() > 0 && replies.last() is SignalingState,
        Holler::ApplyingOffer | Holler::Answering => payload.sdp is Some
            && payload.sdp->0.sdp_type == SdpType::Offer,
        Holler::ApplyingAnswer => payload.sdp is Some && payload.sdp->0.sdp_type
            == SdpType::Answer,
        Holler::Finished(_) => true,
    }
}

proof fn lemma_in_step(payload: Payload, replies: Seq<PeerReply>)
    requires
        well_run(payload, replies),
    ensures
        in_step(payload, replies, holler_after(payload, replies).state),
    decreases replies.len(),
{
    if replies.len() > 0 {
        lemma_in_step(payload, replies.drop_last());
        lemma_handling_ends(payload, replies.drop_last());
    }
}

/// A payload with a candidate starts with that candidate being added as it is, and with
/// nothing else. Without one, the description is what counts from the start: an offer has the
/// signaling state read, an answer is applied as it is, and of anything else nothing comes.
pub proof fn law_handling_starts_with_what_the_payload_holds(payload: Payload)
    ensures
        ({
            let step = holler_after(payload, Seq::empty());
            &&& payload.candidate matches Some(candidate) ==> {
                &&& step.command == Some(PeerCommand::AddIceCandidate(candidate))
                &&& step.notices.len() == 0
            }
            &&& payload.candidate is None && payload.sdp is None ==> {
                &&& step.state == Holler::Finished(None)
                &&& step.command is None
                &&& step.notices.len() == 0
            }
            &&& payload.candidate is None ==> (payload.sdp matches Some(description) ==> {
                &&& description.sdp_type == SdpType::Offer ==> {
                    &&& step.command == Some(PeerCommand::ReadSignalingState)
                    &&& step.notices == seq![Notice::OfferReceived]
                }
                &&& description.sdp_type == SdpType::Answer ==> {
                    &&& step.command == Some(PeerCommand::SetRemoteDescription(description))
                    &&& step.notices == seq![Notice::AnswerReceived]
                }
                &&& description.sdp_type != SdpType::Offer && description.sdp_type
                    != SdpType::Answer ==> {
                    &&& step.state == Holler::Finished(None)
                    &&& step.command is None
                    &&& step.notices == seq![Notice::UnknownSdpType]
                }
            })
        }),
{
}

/// In no run is any candidate added but the one in the payload, and that one only at the
/// start.
pub proof fn law_added_candidate_is_the_received_one(payload: Payload, replies: Seq<PeerReply>)
    ensures
        holler_after(payload, replies).command matches Some(PeerCommand::AddIceCandidate(candidate))
            ==> payload.candidate == Some(candidate) && replies.len() == 0,
        replies.len() == 0 ==> (payload.candidate matches Some(candidate) ==> holler_after(
            payload,
            replies,
        ).command == Some(PeerCommand::AddIceCandidate(candidate))),
{
}

/// After the candidate was added, or could not be, that is printed, and then things go on as
/// with the same payload without a candidate.
pub proof fn law_after_the_candidate_the_description_counts(
    payload: Payload,
    added: Result<(), String>,
)
    requires
        payload.candidate is Some,
    ensures
        ({
            let step = holler_after(payload, seq![PeerReply::IceCandidateAdded(added)]);
            let other = holler_after(Payload { candidate: None, sdp: payload.sdp }, Seq::empty());
            &&& step.state == other.state
            &&& step.command == other.command
            &&& added is Ok ==> step.notices == seq![Notice::CandidateAdded] + other.notices
            &&& added matches Err(err) ==> step.notices == seq![Notice::CandidateAddFailed(err)]
                + other.notices
        }),
{
    let replies = seq![PeerReply::IceCandidateAdded(added)];
    reveal_with_fuel(holler_after, 2);
    assert(replies.drop_last() =~= Seq::empty());
}

/// What the reading of the signaling state leads to. The first one decides: if the connection
/// is stable, the offer in the payload is applied as it is, and otherwise the state is read
/// once more. What the second one finds is printed, and there is no response.
pub proof fn law_only_a_stable_connection_takes_the_offer(
    payload: Payload,
    replies: Seq<PeerReply>,
    current: SignalingState,
)
    requires
        well_run(payload, replies.push(PeerReply::SignalingState(current))),
    ensures
        ({
            let step = holler_after(payload, replies.push(PeerReply::SignalingState(current)));
            let first = replies.len() == 0 || replies.last() !is SignalingState;
            &&& first && current == SignalingState::Stable ==> {
                &&& payload.sdp matches Some(offer) && step.command == Some(
                    PeerCommand::SetRemoteDescription(offer),
                )
                &&& step.notices.len() == 0
            }
            &&& first && current != SignalingState::Stable ==> {
                &&& step.command == Some(PeerCommand::ReadSignalingState)
                &&& step.notices.len() == 0
            }
            &&& !first ==> {
                &&& step.state == Holler::Finished(None)
                &&& step.command is None
                &&& step.notices == seq![Notice::OfferInInvalidState(current)]
            }
        }),
{
    assert(replies.push(PeerReply::SignalingState(current)).drop_last() =~= replies);
    lemma_in_step(payload, replies);
    lemma_handling_ends(payload, replies);
}

/// What applying the description leads to: an offer that was applied gets an answer created;
/// otherwise there is no response. A failure is printed with its reason.
pub proof fn law_only_an_applied_offer_gets_an_answer(
    payload: Payload,
    replies: Seq<PeerReply>,
    set: Result<(), String>,
)
    requires
        well_run(payload, replies.push(PeerReply::RemoteDescriptionSet(set))),
    ensures
        ({
            let step = holler_after(payload, replies.push(PeerReply::RemoteDescriptionSet(set)));
            &&& payload.sdp matches Some(description) && {
                let offer = description.sdp_type == SdpType::Offer;
                &&& offer || description.sdp_type == SdpType::Answer
                &&& offer && set is Ok <==> step.command == Some(PeerCommand::CreateAnswer)
                &&& !(offer && set is Ok) ==> step.state == Holler::Finished(None)
                    && step.command is None
                &&& set is Ok ==> step.notices == seq![Notice::RemoteDescriptionSet]
                &&& set matches Err(err) ==> step.notices == seq![
                    if offer {
                        Notice::OfferApplyFailed(err)
                    } else {
                        Notice::AnswerApplyFailed(err)
                    },
                ]
            }
        }),
{
    assert(replies.push(PeerReply::RemoteDescriptionSet(set)).drop_last() =~= replies);
    lemma_in_step(payload, replies);
    lemma_handling_ends(payload, replies);
}

/// What creating the answer leads to: the answer, as it is and alone, is the response; if
/// there is none, its reason is printed and there is no response.
pub proof fn law_created_answer_is_the_response(
    payload: Payload,
    replies: Seq<PeerReply>,
    created: Result<SessionDescription, String>,
)
    requires
        well_run(payload, replies.push(PeerReply::AnswerCreated(created))),
    ensures
        ({
            let step = holler_after(payload, replies.push(PeerReply::AnswerCreated(created)));
            &&& step.command is None
            &&& created matches Ok(answer) ==> {
                &&& step.state == Holler::Finished(
                    Some(Payload { candidate: None, sdp: Some(answer) }),
                )
                &&& step.notices == seq![Notice::AnswerCreated]
            }
            &&& created matches Err(err) ==> {
                &&& step.state == Holler::Finished(None)
                &&& step.notices == seq![Notice::AnswerCreateFailed(err)]
            }
        }),
{
    assert(replies.push(PeerReply::AnswerCreated(created)).drop_last() =~= replies);
    lemma_handling_ends(payload, replies);
}

/// A report that is not awaited, and so any report after the end, changes nothing.
pub proof fn law_unawaited_reports_change_nothing(state: Holler, reply: PeerReply)
    requires
        !((state is AddingCandidate && reply is IceCandidateAdded)
            || (state is CheckingState && reply is SignalingState)
            || (state is RefusingOffer && reply is SignalingState)
            || (state is ApplyingOffer && reply is RemoteDescriptionSet)
            || (state is ApplyingAnswer && reply is RemoteDescriptionSet)
            || (state is Answering && reply is AnswerCreated)),
    ensures
        resume_spec(state, reply).state == state,
        resume_spec(state, reply).command is None,
        resume_spec(state, reply).notices.len() == 0,
{
}

} // verus!
