//! Signals relayed between a peer and the broker.

use vstd::prelude::*;

verus! {

/// Seconds since the Unix epoch.
pub type Timestamp = u64;

/// An ICE candidate: the candidate line, the media stream id and the media
/// line index. An empty candidate line marks the end of the candidates.
pub type IceCandidate = (String, Option<String>, Option<u16>);

/// A unit of rendezvous information.
///
/// `SetSDP` and `AddCandidate` come from a peer and are relayed to the other
/// peer of the room. `JoinRoom` is sent by a peer to name the room it wants,
/// and by the broker to tell a peer the room it was given. `ConnectAt` and
/// `NextPoll` are only ever made by the broker.
#[derive(Debug, PartialEq, Eq)]
pub enum Signal {
    SetSDP(String),
    AddCandidate(IceCandidate),
    JoinRoom(String),
    ConnectAt(Timestamp),
    NextPoll(Timestamp),
}

/// The mathematical value of a [`Signal`].
pub enum SignalView {
    SetSDP(Seq<char>),
    AddCandidate(Seq<char>, Option<Seq<char>>, Option<u16>),
    JoinRoom(Seq<char>),
    ConnectAt(Timestamp),
    NextPoll(Timestamp),
}

impl SignalView {
    /// Whether the broker relays this signal to the other peer.
    pub open spec fn can_send(self) -> bool {
        self is SetSDP || self is AddCandidate
    }

    /// Whether a peer may put this signal in a request.
    pub open spec fn is_peer_input(self) -> bool {
        self.can_send() || self is JoinRoom
    }

    /// Whether this signal is the marker that ends a list of candidates.
    pub open spec fn ends_candidates(self) -> bool {
        self matches SignalView::AddCandidate(line, _, _) && line.len() == 0
    }
}

impl View for Signal {
    type V = SignalView;

    open spec fn view(&self) -> SignalView {
        match *self {
            Signal::SetSDP(sdp) => SignalView::SetSDP(sdp@),
            Signal::AddCandidate(ice) => SignalView::AddCandidate(
                ice.0@,
                match ice.1 {
                    Some(mid) => Some(mid@),
                    None => None,
                },
                ice.2,
            ),
            Signal::JoinRoom(code) => SignalView::JoinRoom(code@),
            Signal::ConnectAt(at) => SignalView::ConnectAt(at),
            Signal::NextPoll(at) => SignalView::NextPoll(at),
        }
    }
}

impl DeepView for Signal {
    type V = SignalView;

    open spec fn deep_view(&self) -> SignalView {
        self@
    }
}

impl Clone for Signal {
    fn clone(&self) -> (res: Self)
        ensures
            res == *self,
    {
        match self {
            Signal::SetSDP(sdp) => Signal::SetSDP(sdp.clone()),
            Signal::AddCandidate(ice) => {
                let mid = match &ice.1 {
                    Some(mid) => Some(mid.clone()),
                    None => None,
                };
                Signal::AddCandidate((ice.0.clone(), mid, ice.2))
            },
            Signal::JoinRoom(code) => Signal::JoinRoom(code.clone()),
            Signal::ConnectAt(at) => Signal::ConnectAt(*at),
            Signal::NextPoll(at) => Signal::NextPoll(*at),
        }
    }
}

impl Signal {
    /// Whether the broker relays this signal to the other peer of the room.
    pub fn can_send(&self) -> (res: bool)
        ensures
            res == self@.can_send(),
    {
        match self {
            Signal::SetSDP(_) => true,
            Signal::AddCandidate(_) => true,
            Signal::JoinRoom(_) => false,
            Signal::ConnectAt(_) => false,
            Signal::NextPoll(_) => false,
        }
    }

    /// Whether a peer may put this signal in a request: anything it can have
    /// relayed, and the naming of a room.
    pub fn is_peer_input(&self) -> (res: bool)
        ensures
            res == self@.is_peer_input(),
    {
        match self {
            Signal::JoinRoom(_) => true,
            _ => self.can_send(),
        }
    }

    /// Whether this signal ends the sender's list of candidates.
    pub fn ends_candidates(&self) -> (res: bool)
        ensures
            res == self@.ends_candidates(),
    {
        match self {
            Signal::AddCandidate(ice) => ice.0.as_str().is_empty(),
            _ => false,
        }
    }
}

} // verus!
