//! The polling exchange: what the broker decides between the reads and the
//! writes of one request.

use crate::auth::{Auth, AuthView, GRACE_PERIOD};
use crate::room::{Room, RoomView, POLL};
use crate::signal::{Signal, SignalView, Timestamp};
use vstd::prelude::*;
use vstd::string::*;

verus! {

/// A record that names the storage keys to delete once it is abandoned.
pub trait Killable {
    /// The storage keys that are to be deleted at `now` on account of this
    /// record: none while the record is alive.
    spec fn keys_to_kill(&self, now: Timestamp) -> Seq<Seq<char>>;

    /// The storage keys that are to be deleted at `now` on account of this
    /// record. Only the attributes of the record are read.
    fn get_keys_to_kill(&self, now: Timestamp) -> (keys: Vec<String>)
        ensures
            keys.deep_view() == self.keys_to_kill(now),
    ;
}

/// Why a poll is refused.
#[derive(Debug, Clone, Copy, PartialEq, Eq, Structural)]
pub enum PollError {
    /// The request names no token.
    MissingToken,
    /// The request holds a signal that only the broker makes.
    InvalidSignal,
    /// The store holds no identity under the token.
    InvalidToken,
    /// The peer names a room though it is bound to one.
    AlreadyInRoom,
    /// The room that the peer is bound to is gone.
    RoomExpired,
    /// The store holds no room under the code that the peer names.
    RoomNotFound,
    /// Both slots of the room that the peer names are bound.
    RoomFull,
    /// A stored record is not one that the broker made, or the clock is out
    /// of range.
    Internal,
}

impl PollError {
    /// The HTTP status that the refusal is answered with.
    pub open spec fn spec_status(self) -> u16 {
        match self {
            PollError::MissingToken => 403,
            PollError::InvalidToken => 403,
            PollError::RoomNotFound => 404,
            PollError::Internal => 500,
            _ => 400,
        }
    }

    /// The HTTP status that the refusal is answered with.
    #[verifier::when_used_as_spec(spec_status)]
    pub fn status(self) -> (code: u16)
        ensures
            code == self.spec_status(),
    {
        match self {
            PollError::MissingToken => 403,
            PollError::InvalidToken => 403,
            PollError::RoomNotFound => 404,
            PollError::Internal => 500,
            PollError::InvalidSignal => 400,
            PollError::AlreadyInRoom => 400,
            PollError::RoomExpired => 400,
            PollError::RoomFull => 400,
        }
    }

    /// The reason that the refusal is answered with.
    pub open spec fn spec_reason(self) -> Seq<char> {
        match self {
            PollError::MissingToken => "Missing token."@,
            PollError::InvalidSignal => "Invalid signals: can't send."@,
            PollError::InvalidToken => "Invalid token."@,
            PollError::AlreadyInRoom => "Already in a room."@,
            PollError::RoomExpired => "Room expired."@,
            PollError::RoomNotFound => "Room not found."@,
            PollError::RoomFull => "Room is full."@,
            PollError::Internal => "Internal error."@,
        }
    }

    /// The reason that the refusal is answered with.
    pub fn reason(self) -> (text: String)
        ensures
            text@ == self.spec_reason(),
    {
        match self {
            PollError::MissingToken => String::from_str("Missing token."),
            PollError::InvalidSignal => String::from_str("Invalid signals: can't send."),
            PollError::InvalidToken => String::from_str("Invalid token."),
            PollError::AlreadyInRoom => String::from_str("Already in a room."),
            PollError::RoomExpired => String::from_str("Room expired."),
            PollError::RoomNotFound => String::from_str("Room not found."),
            PollError::RoomFull => String::from_str("Room is full."),
            PollError::Internal => String::from_str("Internal error."),
        }
    }
}

/// Whether every signal of a batch is one that a peer may send.
pub open spec fn all_peer_input(signals: Seq<SignalView>) -> bool {
    forall|i: int| 0 <= i < signals.len() ==> (#[trigger] signals[i]).is_peer_input()
}

/// Whether every signal of a batch is one that a peer may send.
pub fn check_signals(signals: &Vec<Signal>) -> (res: bool)
    ensures
        res == all_peer_input(signals.deep_view()),
{
    let mut i: usize = 0;
    while i < signals.len()
        invariant
            0 <= i <= signals.len(),
            forall|j: int| 0 <= j < i ==> (#[trigger] signals.deep_view()[j]).is_peer_input(),
        decreases signals.len() - i,
    {
        if !signals[i].is_peer_input() {
            assert(!signals.deep_view()[i as int].is_peer_input());
            return false;
        }
        i = i + 1;
    }
    true
}

/// The code of the room that a batch names: that of its first `JoinRoom`.
pub open spec fn requested_room(signals: Seq<SignalView>) -> Option<Seq<char>>
    decreases signals.len(),
{
    if signals.len() == 0 {
        None
    } else {
        match signals.first() {
            SignalView::JoinRoom(code) => Some(code),
            _ => requested_room(signals.drop_first()),
        }
    }
}

/// A batch names the room that it names after any signals that name none.
proof fn lemma_requested_room_skip(signals: Seq<SignalView>, n: int)
    requires
        0 <= n <= signals.len(),
        forall|j: int| 0 <= j < n ==> !(#[trigger] signals[j] is JoinRoom),
    ensures
        requested_room(signals) == requested_room(signals.skip(n)),
    decreases n,
{
    if n > 0 {
        assert(!(signals[0] is JoinRoom));
        let rest = signals.drop_first();
        assert forall|j: int| 0 <= j < n - 1 implies !(#[trigger] rest[j] is JoinRoom) by {
            assert(rest[j] == signals[j + 1]);
        }
        lemma_requested_room_skip(rest, n - 1);
        assert(rest.skip(n - 1) == signals.skip(n));
    } else {
        assert(signals.skip(0) == signals);
    }
}

/// The code of the room that a batch names, if it names one.
pub fn find_requested_room(signals: &Vec<Signal>) -> (res: Option<&String>)
    ensures
        match res {
            Some(code) => requested_room(signals.deep_view()) == Some(code@),
            None => requested_room(signals.deep_view()) is None,
        },
{
    let ghost batch = signals.deep_view();
    let mut i: usize = 0;
    while i < signals.len()
        invariant
            0 <= i <= signals.len(),
            batch == signals.deep_view(),
            forall|j: int| 0 <= j < i ==> !(#[trigger] batch[j] is JoinRoom),
        decreases signals.len() - i,
    {
        match &signals[i] {
            Signal::JoinRoom(code) => {
                proof {
                    lemma_requested_room_skip(batch, i as int);
                    assert(batch.skip(i as int).first() == batch[i as int]);
                }
                return Some(code);
            },
            _ => {},
        }
        i = i + 1;
    }
    proof {
        lemma_requested_room_skip(batch, signals.len() as int);
        assert(batch.skip(signals.len() as int).len() == 0);
    }
    None
}

/// Which room a poll is about.
#[derive(Debug, PartialEq, Eq)]
pub enum Plan {
    /// The room that the peer is bound to.
    Resume(String),
    /// The room that the peer names by its code.
    Join(String),
    /// A room that is yet to be made.
    Create,
}

/// The mathematical value of a [`Plan`].
pub enum PlanView {
    Resume(Seq<char>),
    Join(Seq<char>),
    Create,
}

impl View for Plan {
    type V = PlanView;

    open spec fn view(&self) -> PlanView {
        match *self {
            Plan::Resume(code) => PlanView::Resume(code@),
            Plan::Join(code) => PlanView::Join(code@),
            Plan::Create => PlanView::Create,
        }
    }
}

impl PlanView {
    /// Whether the peer was bound to the room before the poll.
    pub open spec fn resumes(self) -> bool {
        self is Resume
    }
}

/// Which room the poll of a peer is about: the room that the peer is bound
/// to, which it then must not name; else the room that it names; else a new
/// one.
pub open spec fn plan_of(user: AuthView, signals: Seq<SignalView>) -> Result<PlanView, PollError> {
    match user.room {
        Some(code) => if requested_room(signals) is Some {
            Err(PollError::AlreadyInRoom)
        } else {
            Ok(PlanView::Resume(code))
        },
        None => match requested_room(signals) {
            Some(code) => Ok(PlanView::Join(code)),
            None => Ok(PlanView::Create),
        },
    }
}

/// Which room the poll of a peer is about.
pub fn plan(user: &Auth, signals: &Vec<Signal>) -> (res: Result<Plan, PollError>)
    requires
        user.data is Some,
    ensures
        match res {
            Ok(plan) => plan_of(user@, signals.deep_view()) == Ok::<PlanView, PollError>(plan@),
            Err(e) => plan_of(user@, signals.deep_view()) == Err::<PlanView, PollError>(e),
        },
{
    let requested = find_requested_room(signals);
    match user.get_room() {
        Some(code) => match requested {
            Some(_) => Err(PollError::AlreadyInRoom),
            None => Ok(Plan::Resume(code.clone())),
        },
        None => match requested {
            Some(code) => Ok(Plan::Join(code.clone())),
            None => Ok(Plan::Create),
        },
    }
}

/// What one exchange makes of a room and what it delivers to the peer with
/// `token`.
///
/// A peer that was bound to the room before hands in its signals, has its
/// poll noted and gets what waits for it. A peer that was not is bound
/// first, and gets what waits for it, the room code to begin with; its poll
/// is not noted, so that it polls again after the first delay.
pub open spec fn exchanged(
    room: RoomView,
    token: Seq<char>,
    signals: Seq<SignalView>,
    resumed: bool,
    now: Timestamp,
) -> Result<(RoomView, Seq<SignalView>), PollError> {
    if resumed {
        match room.side_of(token) {
            None => Err(PollError::RoomExpired),
            Some(side) => {
                let after = room.send_signal(side, signals).poll(side, now);
                Ok((after.drained(side), after.delivery(side)))
            },
        }
    } else if !room.can_join() {
        Err(PollError::RoomFull)
    } else {
        let bound = room.join(token, now);
        let side = bound.side_of(token)->0;
        let after = bound.send_signal(side, signals);
        Ok((after.drained(side), after.delivery(side)))
    }
}

/// Whether a time lies so far from the end of time that the delays and the
/// grace period can be added to it.
pub open spec fn time_in_range(now: Timestamp) -> bool {
    now + POLL + GRACE_PERIOD <= u64::MAX
}

/// Carries out one exchange of a peer with a room at `now`.
///
/// On success the room and the peer's identity hold what is to be stored,
/// and the result is what is to be sent to the peer. On failure neither
/// has changed.
pub fn exchange(
    user: &mut Auth,
    room: &mut Room,
    signals: Vec<Signal>,
    resumed: bool,
    now: Timestamp,
) -> (res: Result<Vec<Signal>, PollError>)
    requires
        old(room)@.wf(),
        old(room).data is Some,
        old(user).data is Some,
        old(user).key@.len() > 0,
        time_in_range(now),
    ensures
        match res {
            Ok(delivery) => {
                &&& exchanged(old(room)@, old(user).key@, signals.deep_view(), resumed, now) == Ok::<
                    (RoomView, Seq<SignalView>),
                    PollError,
                >((final(room)@, delivery.deep_view()))
                &&& final(user)@ == if resumed {
                    old(user)@
                } else {
                    old(user)@.join_room(old(room).key@)
                }
            },
            Err(e) => {
                &&& exchanged(old(room)@, old(user).key@, signals.deep_view(), resumed, now) == Err::<
                    (RoomView, Seq<SignalView>),
                    PollError,
                >(e)
                &&& *final(room) == *old(room)
                &&& *final(user) == *old(user)
            },
        },
        final(room)@.wf(),
        final(room).data is Some,
        final(user).data is Some,
{
    if resumed {
        if room.side_of(user).is_none() {
            return Err(PollError::RoomExpired);
        }
        room.send_signal(user, signals);
        room.poll(user, now);
    } else {
        if !room.join_room(user, now) {
            return Err(PollError::RoomFull);
        }
        room.send_signal(user, signals);
    }
    Ok(room.pull_signals(user))
}

/// A poll that waits for the identity record of its token.
pub struct AwaitUser {
    /// The token that the request names.
    pub token: String,
    /// The signals that the request holds.
    pub signals: Vec<Signal>,
}

/// A poll that waits for its room.
pub struct AwaitRoom {
    /// The identity record of the peer.
    pub user: Auth,
    /// The signals that the request holds.
    pub signals: Vec<Signal>,
    /// The room that the store is to be asked for, or that is to be made.
    pub plan: Plan,
}

/// A poll that has been carried out and is yet to be stored and answered.
pub struct Settled {
    /// The room, to be stored first.
    pub room: Room,
    /// The identity record of the peer, to be stored second.
    pub user: Auth,
    /// What the peer is answered.
    pub response: Vec<Signal>,
}

/// Takes a request: refuses one that names no token, and one that holds a
/// signal that a peer may not send. For any other the store is to be asked
/// for the identity record under the token.
pub fn begin(token: Option<String>, signals: Vec<Signal>) -> (res: Result<AwaitUser, PollError>)
    ensures
        match res {
            Ok(next) => {
                &&& token == Some(next.token)
                &&& next.signals == signals
                &&& all_peer_input(signals.deep_view())
            },
            Err(e) => if token is None {
                e == PollError::MissingToken
            } else {
                e == PollError::InvalidSignal && !all_peer_input(signals.deep_view())
            },
        },
{
    let token = match token {
        Some(token) => token,
        None => {
            return Err(PollError::MissingToken);
        },
    };
    if !check_signals(&signals) {
        return Err(PollError::InvalidSignal);
    }
    Ok(AwaitUser { token, signals })
}

impl AwaitUser {
    /// Takes what the store holds under the token: refuses a token that the
    /// store does not know, and a peer that names a room though it is bound
    /// to one. Else the store is to be asked for the room of the plan, or a
    /// room is to be made.
    pub fn on_user(self, user: Option<Auth>) -> (res: Result<AwaitRoom, PollError>)
        ensures
            match user {
                None => res == Err::<AwaitRoom, PollError>(PollError::InvalidToken),
                Some(user) => if user.data is None || user.key@.len() == 0 {
                    res == Err::<AwaitRoom, PollError>(PollError::Internal)
                } else {
                    match plan_of(user@, self.signals.deep_view()) {
                        Err(e) => res == Err::<AwaitRoom, PollError>(e),
                        Ok(plan) => {
                            &&& res matches Ok(next)
                            &&& next.user == user
                            &&& next.signals == self.signals
                            &&& next.plan@ == plan
                        },
                    }
                },
            },
    {
        let user = match user {
            Some(user) => user,
            None => {
                return Err(PollError::InvalidToken);
            },
        };
        if user.data.is_none() || user.key.as_str().is_empty() {
            return Err(PollError::Internal);
        }
        match plan(&user, &self.signals) {
            Ok(plan) => Ok(AwaitRoom { user, signals: self.signals, plan }),
            Err(e) => Err(e),
        }
    }
}

/// What a poll comes to whose room is there.
pub open spec fn settled(
    user: AuthView,
    plan: PlanView,
    signals: Seq<SignalView>,
    room: RoomView,
    now: Timestamp,
) -> Result<(RoomView, AuthView, Seq<SignalView>), PollError> {
    if !room.wf() || !time_in_range(now) {
        Err(PollError::Internal)
    } else {
        match exchanged(room, user.key, signals, plan.resumes(), now) {
            Err(e) => Err(e),
            Ok((after, delivery)) => Ok(
                (
                    after,
                    if plan.resumes() {
                        user
                    } else {
                        user.join_room(room.key)
                    },
                    delivery,
                ),
            ),
        }
    }
}

impl AwaitRoom {
    /// Whether the identity record has its payload and a token.
    pub open spec fn has_user(&self) -> bool {
        self.user.data is Some && self.user.key@.len() > 0
    }

    /// Whether `res` is what the poll comes to with the room at `now`. A
    /// room that is not there is told as expired to a peer that was
    /// bound to it, and as not found to a peer that named it. A room or an
    /// identity of which only the attributes were read is refused for an
    /// internal reason.
    pub open spec fn settles(
        self,
        room: Option<Room>,
        now: Timestamp,
        res: Result<Settled, PollError>,
    ) -> bool {
        match room {
            None => res == Err::<Settled, PollError>(
                if self.plan@.resumes() {
                    PollError::RoomExpired
                } else {
                    PollError::RoomNotFound
                },
            ),
            Some(room) => if room.data is None || !self.has_user() {
                res == Err::<Settled, PollError>(PollError::Internal)
            } else {
                match settled(self.user@, self.plan@, self.signals.deep_view(), room@, now) {
                    Err(e) => res == Err::<Settled, PollError>(e),
                    Ok((after, user, delivery)) => {
                        &&& res matches Ok(done)
                        &&& done.room@ == after
                        &&& done.user@ == user
                        &&& done.response.deep_view() == delivery
                        &&& done.room.data is Some
                        &&& done.user.data is Some
                    },
                }
            },
        }
    }

    /// Takes the room, as the store holds it or as it was made, and carries
    /// out the exchange at `now`. Refuses where the room is not there, and
    /// where the peer names a room of which both slots are bound.
    pub fn on_room(self, room: Option<Room>, now: Timestamp) -> (res: Result<Settled, PollError>)
        ensures
            self.settles(room, now, res),
    {
        let resumed = match &self.plan {
            Plan::Resume(_) => true,
            _ => false,
        };
        let mut room = match room {
            Some(room) => room,
            None => {
                return Err(
                    if resumed {
                        PollError::RoomExpired
                    } else {
                        PollError::RoomNotFound
                    },
                );
            },
        };
        if room.data.is_none() || self.user.data.is_none() || self.user.key.as_str().is_empty() {
            return Err(PollError::Internal);
        }
        if !room.is_wf() || now > u64::MAX - POLL - GRACE_PERIOD {
            return Err(PollError::Internal);
        }
        let mut user = self.user;
        match exchange(&mut user, &mut room, self.signals, resumed, now) {
            Ok(response) => Ok(Settled { room, user, response }),
            Err(e) => Err(e),
        }
    }
}

} // verus!
