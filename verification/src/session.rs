//! What the two peers exchange: session descriptions, ICE candidates and the payload
//! that carries them over the socket.

use vstd::prelude::*;

verus! {

/// The role of a session description in the offer/answer exchange.
#[derive(Clone, Copy, Debug, PartialEq, Eq, Structural)]
pub enum SdpType {
    Unspecified,
    Offer,
    Pranswer,
    Answer,
    Rollback,
}

/// How far the peer connection has come in the offer/answer exchange.
#[derive(Clone, Copy, Debug, PartialEq, Eq, Structural)]
pub enum SignalingState {
    Unspecified,
    Stable,
    HaveLocalOffer,
    HaveRemoteOffer,
    HaveLocalPranswer,
    HaveRemotePranswer,
    Closed,
}

impl SignalingState {
    /// The name under which the state is printed.
    pub open spec fn spelling(self) -> Seq<char> {
        match self {
            SignalingState::Unspecified => "Unspecified"@,
            SignalingState::Stable => "stable"@,
            SignalingState::HaveLocalOffer => "have-local-offer"@,
            SignalingState::HaveRemoteOffer => "have-remote-offer"@,
            SignalingState::HaveLocalPranswer => "have-local-pranswer"@,
            SignalingState::HaveRemotePranswer => "have-remote-pranswer"@,
            SignalingState::Closed => "closed"@,
        }
    }

    /// The printed name of the state, the one WebRTC gives it.
    pub fn name(self) -> (name: String)
        ensures
            name@ == self.spelling(),
    {
        let name = match self {
            SignalingState::Unspecified => "Unspecified",
            SignalingState::Stable => "stable",
            SignalingState::HaveLocalOffer => "have-local-offer",
            SignalingState::HaveRemoteOffer => "have-remote-offer",
            SignalingState::HaveLocalPranswer => "have-local-pranswer",
            SignalingState::HaveRemotePranswer => "have-remote-pranswer",
            SignalingState::Closed => "closed",
        };
        name.to_string()
    }
}

/// An ICE candidate in the form in which it travels between the peers.
#[derive(Debug, PartialEq, Eq)]
pub struct IceCandidate {
    pub candidate: String,
    pub sdp_mid: Option<String>,
    pub sdp_mline_index: Option<u16>,
    pub username_fragment: Option<String>,
}

/// A session description: its role and its text.
#[derive(Debug, PartialEq, Eq)]
pub struct SessionDescription {
    pub sdp_type: SdpType,
    pub sdp: String,
}

impl Clone for SessionDescription {
    fn clone(&self) -> (copy: Self)
        ensures
            copy == *self,
    {
        SessionDescription { sdp_type: self.sdp_type, sdp: self.sdp.clone() }
    }
}

/// One message between the peers: a candidate, a description, both or neither.
#[derive(Debug, PartialEq, Eq)]
pub struct Payload {
    pub candidate: Option<IceCandidate>,
    pub sdp: Option<SessionDescription>,
}

impl Payload {
    /// Whether the payload carries a description of the given role.
    pub open spec fn describes(self, role: SdpType) -> bool {
        self.sdp matches Some(description) && description.sdp_type == role
    }

    /// A payload with a candidate and nothing else.
    pub fn of_candidate(candidate: IceCandidate) -> (payload: Payload)
        ensures
            payload == (Payload { candidate: Some(candidate), sdp: None }),
    {
        Payload { candidate: Some(candidate), sdp: None }
    }

    /// A payload with a description and nothing else.
    pub fn of_description(description: SessionDescription) -> (payload: Payload)
        ensures
            payload == (Payload { candidate: None, sdp: Some(description) }),
    {
        Payload { candidate: None, sdp: Some(description) }
    }
}

} // verus!
