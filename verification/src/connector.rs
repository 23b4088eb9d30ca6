//! The steps by which a peer gets connected: what it is to do next, given
//! what it has learnt from the broker.

use crate::signal_client::SignalClient;
use vstd::prelude::*;

verus! {

/// The part that a peer plays in a room.
#[derive(Debug, Clone, Copy, PartialEq, Eq, Structural)]
pub enum Role {
    /// The peer makes the room, and offers a session.
    Host,
    /// The peer joins the room by its code, and answers the offer.
    Guest,
}

/// How far a peer has got.
#[derive(Debug, Clone, Copy, PartialEq, Eq, Structural)]
pub enum Stage {
    /// Nothing has been done.
    Start,
    /// The host has its offer, which is to be sent with the first poll.
    Offered,
    /// The first poll has been made.
    Polled,
    /// The guest has its answer, which is to be sent with the next poll.
    Answered,
    /// The guest has sent its answer.
    Sent,
    /// The room has been announced; the time to connect is waited for.
    Waiting,
    /// The time to connect has been told and waited for.
    Due,
    /// The session is set; candidates that come late are still exchanged.
    Settled,
    /// The attempt has failed.
    Failed,
}

/// Why an attempt to connect fails.
#[derive(Debug, Clone, Copy, PartialEq, Eq, Structural)]
pub enum ConnectFault {
    /// The broker has not told the code of the room that the host made.
    NoRoomCreated,
    /// The broker has not told the room, or has not relayed the offer.
    NoRoomJoined,
    /// The time to connect has come, but the description of the other peer
    /// is not known.
    NoPeerDescription,
}

impl ConnectFault {
    /// The words in which the fault is told.
    pub fn as_str(self) -> (words: &'static str)
        ensures
            words@ == match self {
                ConnectFault::NoRoomCreated => "couldn't create room"@,
                ConnectFault::NoRoomJoined => "couldn't join room"@,
                ConnectFault::NoPeerDescription => "couldn't connect: no peer description"@,
            },
    {
        match self {
            ConnectFault::NoRoomCreated => "couldn't create room",
            ConnectFault::NoRoomJoined => "couldn't join room",
            ConnectFault::NoPeerDescription => "couldn't connect: no peer description",
        }
    }
}

/// What a peer is to do next. After each step but the last the peer asks
/// again.
#[derive(Debug, PartialEq, Eq)]
pub enum Step {
    /// Make an offer, set it as the local description, and hand it to
    /// `Negotiation::described`.
    PrepareOffer,
    /// Answer the offer given, and hand the answer to
    /// `Negotiation::described`.
    CreateAnswer(String),
    /// Wait for the time to poll, send the candidates gathered with the
    /// signals that wait, poll, and take what the broker answers. Where
    /// `drain` is set, use the candidates of the other peer at once.
    Poll { drain: bool },
    /// Tell that the room with the code is joined.
    AnnounceRoom(String),
    /// Tell that the connection is about to be made, and wait for the
    /// instant given.
    Establish(u64),
    /// Set the answer given as the remote description.
    SetRemote(String),
    /// Set the answer given as the local description, and use the
    /// candidates of the other peer.
    SetLocal(String),
    /// Give up.
    Fail(ConnectFault),
}

/// The mathematical value of a [`Step`].
pub enum StepView {
    PrepareOffer,
    CreateAnswer(Seq<char>),
    Poll { drain: bool },
    AnnounceRoom(Seq<char>),
    Establish(u64),
    SetRemote(Seq<char>),
    SetLocal(Seq<char>),
    Fail(ConnectFault),
}

impl View for Step {
    type V = StepView;

    open spec fn view(&self) -> StepView {
        match *self {
            Step::PrepareOffer => StepView::PrepareOffer,
            Step::CreateAnswer(offer) => StepView::CreateAnswer(offer@),
            Step::Poll { drain } => StepView::Poll { drain },
            Step::AnnounceRoom(code) => StepView::AnnounceRoom(code@),
            Step::Establish(at) => StepView::Establish(at),
            Step::SetRemote(answer) => StepView::SetRemote(answer@),
            Step::SetLocal(answer) => StepView::SetLocal(answer@),
            Step::Fail(fault) => StepView::Fail(fault),
        }
    }
}

/// The course of an attempt to connect.
pub struct Negotiation {
    pub role: Role,
    pub stage: Stage,
    /// The description that the peer has made of its own session.
    pub local_sdp: Option<String>,
}

/// What the peer knows from the broker, as far as the steps depend on it.
pub struct Known {
    pub room: Seq<char>,
    pub peer_sdp: Option<Seq<char>>,
    pub connect_at: Option<u64>,
}

/// What a peer knows from the broker.
pub open spec fn known(signal: &SignalClient) -> Known {
    Known {
        room: signal.room@,
        peer_sdp: match signal.peer_sdp {
            Some(sdp) => Some(sdp@),
            None => None,
        },
        connect_at: signal.connect_at,
    }
}

/// The step that a peer is to make, and the stage that it is in with it.
///
/// The host makes its offer and sends it with its first poll, which must
/// bring the code of its room. The guest names the room with its first
/// poll, which must bring the room and the offer; it answers the offer and
/// sends the answer with its next poll. Both announce the room and poll
/// until the broker tells the time to connect, the host using the
/// candidates of the guest as they come. At that time the host sets the
/// answer of the guest and the guest its own. Then both poll on.
pub open spec fn next_step(role: Role, stage: Stage, local: Option<Seq<char>>, known: Known) -> (
    Stage,
    StepView,
) {
    match stage {
        Stage::Start => match role {
            Role::Host => (Stage::Start, StepView::PrepareOffer),
            Role::Guest => (Stage::Polled, StepView::Poll { drain: false }),
        },
        Stage::Offered => (Stage::Polled, StepView::Poll { drain: false }),
        Stage::Polled => match role {
            Role::Host => if known.room.len() == 0 {
                (Stage::Failed, StepView::Fail(ConnectFault::NoRoomCreated))
            } else {
                (Stage::Waiting, StepView::AnnounceRoom(known.room))
            },
            Role::Guest => match known.peer_sdp {
                Some(offer) if known.room.len() > 0 => (
                    Stage::Polled,
                    StepView::CreateAnswer(offer),
                ),
                _ => (Stage::Failed, StepView::Fail(ConnectFault::NoRoomJoined)),
            },
        },
        Stage::Answered => (Stage::Sent, StepView::Poll { drain: false }),
        Stage::Sent => (Stage::Waiting, StepView::AnnounceRoom(known.room)),
        Stage::Waiting => match known.connect_at {
            None => (Stage::Waiting, StepView::Poll { drain: role == Role::Host }),
            Some(at) => (Stage::Due, StepView::Establish(at)),
        },
        Stage::Due => match role {
            Role::Host => match known.peer_sdp {
                Some(answer) => (Stage::Settled, StepView::SetRemote(answer)),
                None => (Stage::Failed, StepView::Fail(ConnectFault::NoPeerDescription)),
            },
            Role::Guest => match local {
                Some(answer) => (Stage::Settled, StepView::SetLocal(answer)),
                None => (Stage::Failed, StepView::Fail(ConnectFault::NoPeerDescription)),
            },
        },
        Stage::Settled => (Stage::Settled, StepView::Poll { drain: true }),
        Stage::Failed => (Stage::Failed, StepView::Fail(ConnectFault::NoPeerDescription)),
    }
}

impl Negotiation {
    /// The description that the peer has made of its own session.
    pub open spec fn local(&self) -> Option<Seq<char>> {
        match self.local_sdp {
            Some(sdp) => Some(sdp@),
            None => None,
        }
    }

    /// An attempt to connect as the host of a new room.
    pub fn host() -> (attempt: Self)
        ensures
            attempt.role == Role::Host,
            attempt.stage == Stage::Start,
            attempt.local_sdp is None,
    {
        Negotiation { role: Role::Host, stage: Stage::Start, local_sdp: None }
    }

    /// An attempt to connect as the guest of the room with the code, which
    /// is sent with the first poll.
    pub fn guest(code: String, signal: &mut SignalClient) -> (attempt: Self)
        ensures
            attempt.role == Role::Guest,
            attempt.stage == Stage::Start,
            attempt.local_sdp is None,
            final(signal).signal_queue@ == old(signal).signal_queue@.push(
                crate::signal::Signal::JoinRoom(code),
            ),
            known(final(signal)) == known(old(signal)),
    {
        signal.send_join_room(code);
        Negotiation { role: Role::Guest, stage: Stage::Start, local_sdp: None }
    }

    /// Takes the description that the peer has made of its own session,
    /// and has it sent with the next poll.
    pub fn described(&mut self, sdp: String, signal: &mut SignalClient)
        ensures
            final(self).role == old(self).role,
            final(self).local() == Some(sdp@),
            final(self).stage == match old(self).role {
                Role::Host => Stage::Offered,
                Role::Guest => Stage::Answered,
            },
            final(signal).signal_queue@ == old(signal).signal_queue@.push(
                crate::signal::Signal::SetSDP(sdp),
            ),
            known(final(signal)) == known(old(signal)),
    {
        self.local_sdp = Some(sdp.clone());
        self.stage = match self.role {
            Role::Host => Stage::Offered,
            Role::Guest => Stage::Answered,
        };
        signal.send_sdp(sdp);
    }

    /// The step that the peer is to make next.
    pub fn next(&mut self, signal: &SignalClient) -> (step: Step)
        ensures
            final(self).role == old(self).role,
            final(self).local_sdp == old(self).local_sdp,
            (final(self).stage, step@) == next_step(
                old(self).role,
                old(self).stage,
                old(self).local(),
                known(signal),
            ),
    {
        match self.stage {
            Stage::Start => match self.role {
                Role::Host => Step::PrepareOffer,
                Role::Guest => {
                    self.stage = Stage::Polled;
                    Step::Poll { drain: false }
                },
            },
            Stage::Offered => {
                self.stage = Stage::Polled;
                Step::Poll { drain: false }
            },
            Stage::Polled => match self.role {
                Role::Host => {
                    if signal.room.as_str().is_empty() {
                        self.stage = Stage::Failed;
                        Step::Fail(ConnectFault::NoRoomCreated)
                    } else {
                        self.stage = Stage::Waiting;
                        Step::AnnounceRoom(signal.room.clone())
                    }
                },
                Role::Guest => {
                    if signal.room.as_str().is_empty() {
                        self.stage = Stage::Failed;
                        return Step::Fail(ConnectFault::NoRoomJoined);
                    }
                    match &signal.peer_sdp {
                        Some(offer) => Step::CreateAnswer(offer.clone()),
                        None => {
                            self.stage = Stage::Failed;
                            Step::Fail(ConnectFault::NoRoomJoined)
                        },
                    }
                },
            },
            Stage::Answered => {
                self.stage = Stage::Sent;
                Step::Poll { drain: false }
            },
            Stage::Sent => {
                self.stage = Stage::Waiting;
                Step::AnnounceRoom(signal.room.clone())
            },
            Stage::Waiting => match signal.connect_at {
                None => Step::Poll { drain: self.role == Role::Host },
                Some(at) => {
                    self.stage = Stage::Due;
                    Step::Establish(at)
                },
            },
            Stage::Due => {
                let answer = match self.role {
                    Role::Host => &signal.peer_sdp,
                    Role::Guest => &self.local_sdp,
                };
                match answer {
                    Some(answer) => {
                        let answer = answer.clone();
                        let step = match self.role {
                            Role::Host => Step::SetRemote(answer),
                            Role::Guest => Step::SetLocal(answer),
                        };
                        self.stage = Stage::Settled;
                        step
                    },
                    None => {
                        self.stage = Stage::Failed;
                        Step::Fail(ConnectFault::NoPeerDescription)
                    },
                }
            },
            Stage::Settled => Step::Poll { drain: true },
            Stage::Failed => Step::Fail(ConnectFault::NoPeerDescription),
        }
    }
}

} // verus!
