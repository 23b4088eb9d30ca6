//! The room broker: two peer slots, their signal queues and their cadence.

use crate::auth::{parse_time, text_time, Auth, AuthInfo, GRACE_PERIOD};
use crate::db::{is_key, is_key_char, BucketInfo, Data, MetaError, Metadata};
use crate::decimal::{decimal, format_u64, lemma_decimal_reads_back};
use crate::meta::MetaMap;
use crate::poll::Killable;
use crate::signal::{Signal, SignalView, Timestamp};
use crate::text::{join, joined};
use vstd::prelude::*;
use vstd::string::*;

verus! {

/// After how many seconds a peer that has just been bound is to poll again.
pub const FIRST_POLL: u64 = 1;

/// After how many seconds a peer that is alone in its room is to poll again.
pub const POLL: u64 = 10;

/// How many seconds after the later of the two next polls the peers connect.
pub const CONNECT: u64 = 5;

/// After how many seconds a peer of a full room is to poll again.
pub const FAST_POLL: u64 = 1;

/// A room record: the room code is its key.
pub type Room = Data<RoomData, RoomMetadata, RoomInfo>;

/// The kind of the room records.
pub struct RoomInfo {}

impl BucketInfo for RoomInfo {
    const PREFIX: &'static str = "room";

    const KEY_LENGTH: u8 = 6;
}

/// The code of a room has six characters, each a capital letter or a
/// digit, and is kept under the prefix `room`.
pub proof fn law_code_shape(code: Seq<char>)
    requires
        is_key(code, RoomInfo::KEY_LENGTH as nat),
    ensures
        code.len() == 6,
        forall|i: int| 0 <= i < 6 ==> is_key_char(#[trigger] code[i]),
        RoomInfo::PREFIX@ == "room"@,
{
}

/// One of the two roles that a room binds a peer to.
#[derive(Debug, Clone, Copy, PartialEq, Eq, Structural)]
pub enum Side {
    /// The peer that made the room.
    Offer,
    /// The peer that joined it by its code.
    Answer,
}

impl Side {
    /// The other role.
    pub open spec fn spec_other(self) -> Side {
        match self {
            Side::Offer => Side::Answer,
            Side::Answer => Side::Offer,
        }
    }

    /// The other role.
    #[verifier::when_used_as_spec(spec_other)]
    pub fn other(self) -> (res: Side)
        ensures
            res == self.spec_other(),
    {
        match self {
            Side::Offer => Side::Answer,
            Side::Answer => Side::Offer,
        }
    }
}

/// What a room holds for one of its two slots.
pub struct Peer {
    /// Whether the peer has sent its session description.
    pub sent_sdp: bool,
    /// Whether the peer has sent the end of its candidates.
    pub ice_done: bool,
    /// The signals that wait to be delivered to the peer.
    pub queue: Vec<Signal>,
}

/// The mathematical value of a [`Peer`].
pub struct PeerView {
    pub sent_sdp: bool,
    pub ice_done: bool,
    pub queue: Seq<SignalView>,
}

impl PeerView {
    /// A slot of which nothing has been heard and for which nothing waits.
    pub open spec fn empty() -> PeerView {
        PeerView { sent_sdp: false, ice_done: false, queue: Seq::empty() }
    }
}

impl View for Peer {
    type V = PeerView;

    open spec fn view(&self) -> PeerView {
        PeerView {
            sent_sdp: self.sent_sdp,
            ice_done: self.ice_done,
            queue: self.queue.deep_view(),
        }
    }
}

impl Default for Peer {
    fn default() -> (peer: Self)
        ensures
            peer@ == PeerView::empty(),
    {
        let peer = Peer { sent_sdp: false, ice_done: false, queue: Vec::new() };
        assert(peer.queue.deep_view() =~= Seq::empty());
        peer
    }
}

/// The payload of a room record.
pub struct RoomData {
    /// Whether the instruction to connect has been given.
    pub sent_connect: bool,
    pub offer: Peer,
    pub answer: Peer,
}

/// The mathematical value of a [`RoomData`].
pub struct RoomDataView {
    pub sent_connect: bool,
    pub offer: PeerView,
    pub answer: PeerView,
}

impl RoomDataView {
    /// The payload of a room in which nothing has happened.
    pub open spec fn empty() -> RoomDataView {
        RoomDataView { sent_connect: false, offer: PeerView::empty(), answer: PeerView::empty() }
    }
}

impl View for RoomData {
    type V = RoomDataView;

    open spec fn view(&self) -> RoomDataView {
        RoomDataView { sent_connect: self.sent_connect, offer: self.offer@, answer: self.answer@ }
    }
}

impl Default for RoomData {
    fn default() -> (data: Self)
        ensures
            data@ == RoomDataView::empty(),
    {
        RoomData { sent_connect: false, offer: Peer::default(), answer: Peer::default() }
    }
}

/// The attributes of one slot of a room.
pub struct PeerMetadata {
    /// The token of the peer that the slot is bound to; empty while the
    /// slot of the offerer is not bound.
    pub token: String,
    /// When the peer is to poll next.
    pub next_poll: Timestamp,
}

/// The mathematical value of a [`PeerMetadata`].
pub struct SlotView {
    pub token: Seq<char>,
    pub next_poll: Timestamp,
}

impl View for PeerMetadata {
    type V = SlotView;

    open spec fn view(&self) -> SlotView {
        SlotView { token: self.token@, next_poll: self.next_poll }
    }
}

/// The attributes of a room record.
pub struct RoomMetadata {
    pub offer: PeerMetadata,
    /// Absent until a second peer has joined.
    pub answer: Option<PeerMetadata>,
}

/// The mathematical value of a [`RoomMetadata`].
pub struct RoomMetadataView {
    pub offer: SlotView,
    pub answer: Option<SlotView>,
}

impl View for RoomMetadata {
    type V = RoomMetadataView;

    open spec fn view(&self) -> RoomMetadataView {
        RoomMetadataView {
            offer: self.offer@,
            answer: match self.answer {
                Some(slot) => Some(slot@),
                None => None,
            },
        }
    }
}

/// The name of the attribute that holds the token of a slot.
pub open spec fn token_key(side: Side) -> Seq<char> {
    match side {
        Side::Offer => "offer_token"@,
        Side::Answer => "answer_token"@,
    }
}

/// The name of the attribute that holds the next poll of a slot.
pub open spec fn next_poll_key(side: Side) -> Seq<char> {
    match side {
        Side::Offer => "offer_next_poll"@,
        Side::Answer => "answer_next_poll"@,
    }
}

/// The attribute list with the two attributes of a slot set: its token and
/// the decimal text of its next poll, or two empty texts for no slot.
pub open spec fn with_slot(
    attributes: Map<Seq<char>, Seq<char>>,
    side: Side,
    slot: Option<SlotView>,
) -> Map<Seq<char>, Seq<char>> {
    match slot {
        Some(slot) => attributes.insert(token_key(side), slot.token).insert(
            next_poll_key(side),
            decimal(slot.next_poll as nat),
        ),
        None => attributes.insert(token_key(side), Seq::empty()).insert(
            next_poll_key(side),
            Seq::empty(),
        ),
    }
}

/// What the two attributes of a slot read as: no slot where one of them is
/// not there or is empty, else a slot, if the next poll is a number.
pub open spec fn slot_of(attributes: Map<Seq<char>, Seq<char>>, side: Side) -> Result<
    Option<SlotView>,
    MetaError,
> {
    if !attributes.contains_key(token_key(side)) || !attributes.contains_key(next_poll_key(side)) {
        Ok(None)
    } else if attributes[token_key(side)].len() == 0 || attributes[next_poll_key(side)].len()
        == 0 {
        Ok(None)
    } else {
        match text_time(attributes[next_poll_key(side)]) {
            Ok(Some(next_poll)) => Ok(Some(SlotView { token: attributes[token_key(side)], next_poll })),
            Ok(None) => Ok(None),
            Err(e) => Err(e),
        }
    }
}

fn token_name(side: Side) -> (name: String)
    ensures
        name@ == token_key(side),
{
    match side {
        Side::Offer => String::from_str("offer_token"),
        Side::Answer => String::from_str("answer_token"),
    }
}

fn next_poll_name(side: Side) -> (name: String)
    ensures
        name@ == next_poll_key(side),
{
    match side {
        Side::Offer => String::from_str("offer_next_poll"),
        Side::Answer => String::from_str("answer_next_poll"),
    }
}

fn write_slot(attributes: &mut MetaMap, side: Side, slot: Option<&PeerMetadata>)
    ensures
        final(attributes)@ == with_slot(
            old(attributes)@,
            side,
            match slot {
                Some(slot) => Some(slot@),
                None => None,
            },
        ),
{
    match slot {
        Some(slot) => {
            attributes.insert(token_name(side), slot.token.clone());
            attributes.insert(next_poll_name(side), format_u64(slot.next_poll));
        },
        None => {
            attributes.insert(token_name(side), String::new());
            attributes.insert(next_poll_name(side), String::new());
        },
    }
}

fn read_slot(attributes: &MetaMap, side: Side) -> (res: Result<Option<PeerMetadata>, MetaError>)
    ensures
        match res {
            Ok(Some(slot)) => slot_of(attributes@, side) == Ok::<Option<SlotView>, MetaError>(
                Some(slot@),
            ),
            Ok(None) => slot_of(attributes@, side) == Ok::<Option<SlotView>, MetaError>(None),
            Err(e) => slot_of(attributes@, side) == Err::<Option<SlotView>, MetaError>(e),
        },
{
    let token = match attributes.get(token_name(side).as_str()) {
        Some(token) => token,
        None => {
            return Ok(None);
        },
    };
    let next_poll = match attributes.get(next_poll_name(side).as_str()) {
        Some(next_poll) => next_poll,
        None => {
            return Ok(None);
        },
    };
    if token.as_str().is_empty() || next_poll.as_str().is_empty() {
        return Ok(None);
    }
    match parse_time(next_poll.as_str()) {
        Ok(Some(next_poll)) => Ok(Some(PeerMetadata { token: token.clone(), next_poll })),
        Ok(None) => Ok(None),
        Err(e) => Err(e),
    }
}

impl Metadata for RoomMetadata {
    open spec fn encoding(value: RoomMetadataView) -> Map<Seq<char>, Seq<char>> {
        with_slot(
            with_slot(Map::<Seq<char>, Seq<char>>::empty(), Side::Offer, Some(value.offer)),
            Side::Answer,
            value.answer,
        )
    }

    open spec fn decoding(attributes: Map<Seq<char>, Seq<char>>) -> Result<
        RoomMetadataView,
        MetaError,
    > {
        match slot_of(attributes, Side::Offer) {
            Err(e) => Err(e),
            Ok(offer) => match slot_of(attributes, Side::Answer) {
                Err(e) => Err(e),
                Ok(answer) => match offer {
                    Some(offer) => Ok(RoomMetadataView { offer, answer }),
                    None => Err(MetaError::Missing),
                },
            },
        }
    }

    fn to_map(&self) -> (attributes: MetaMap) {
        let mut attributes = MetaMap::new();
        write_slot(&mut attributes, Side::Offer, Some(&self.offer));
        write_slot(&mut attributes, Side::Answer, self.answer.as_ref());
        attributes
    }

    fn from_map(attributes: &MetaMap) -> (res: Result<Self, MetaError>) {
        let offer = match read_slot(attributes, Side::Offer) {
            Ok(offer) => offer,
            Err(e) => {
                return Err(e);
            },
        };
        let answer = match read_slot(attributes, Side::Answer) {
            Ok(answer) => answer,
            Err(e) => {
                return Err(e);
            },
        };
        match offer {
            Some(offer) => Ok(RoomMetadata { offer, answer }),
            None => Err(MetaError::Missing),
        }
    }
}

/// The four attribute names of a room record differ from each other.
pub proof fn lemma_attribute_names_differ()
    ensures
        token_key(Side::Offer) != next_poll_key(Side::Offer),
        token_key(Side::Offer) != token_key(Side::Answer),
        token_key(Side::Offer) != next_poll_key(Side::Answer),
        next_poll_key(Side::Offer) != token_key(Side::Answer),
        next_poll_key(Side::Offer) != next_poll_key(Side::Answer),
        token_key(Side::Answer) != next_poll_key(Side::Answer),
{
    reveal_strlit("offer_token");
    reveal_strlit("offer_next_poll");
    reveal_strlit("answer_token");
    reveal_strlit("answer_next_poll");
    assert("offer_token"@.len() == 11);
    assert("offer_next_poll"@.len() == 15);
    assert("answer_token"@.len() == 12);
    assert("answer_next_poll"@.len() == 16);
}

/// The attributes of a room record read back as they were written, where
/// each slot that is bound has a token.
pub proof fn law_room_metadata_round_trip(meta: RoomMetadataView)
    requires
        meta.offer.token.len() > 0,
        meta.answer matches Some(slot) ==> slot.token.len() > 0,
    ensures
        RoomMetadata::decoding(RoomMetadata::encoding(meta)) == Ok::<RoomMetadataView, MetaError>(
            meta,
        ),
{
    lemma_attribute_names_differ();
    lemma_decimal_reads_back(meta.offer.next_poll as nat);
    if let Some(slot) = meta.answer {
        lemma_decimal_reads_back(slot.next_poll as nat);
    }
}

/// The signals of a batch that the broker relays, in their order.
pub open spec fn relayed(signals: Seq<SignalView>) -> Seq<SignalView>
    decreases signals.len(),
{
    if signals.len() == 0 {
        Seq::empty()
    } else if signals.last().can_send() {
        relayed(signals.drop_last()).push(signals.last())
    } else {
        relayed(signals.drop_last())
    }
}

/// Whether a batch holds a session description.
pub open spec fn sends_sdp(signals: Seq<SignalView>) -> bool {
    exists|i: int| 0 <= i < signals.len() && #[trigger] signals[i] is SetSDP
}

/// Whether a batch holds the marker that ends the sender's candidates.
pub open spec fn ends_ice(signals: Seq<SignalView>) -> bool {
    exists|i: int| 0 <= i < signals.len() && (#[trigger] signals[i]).ends_candidates()
}

/// What one more signal at the end of a batch adds to what the batch does.
pub proof fn lemma_batch_push(signals: Seq<SignalView>, signal: SignalView)
    ensures
        relayed(signals.push(signal)) == if signal.can_send() {
            relayed(signals).push(signal)
        } else {
            relayed(signals)
        },
        sends_sdp(signals.push(signal)) == (sends_sdp(signals) || signal is SetSDP),
        ends_ice(signals.push(signal)) == (ends_ice(signals) || signal.ends_candidates()),
{
    let longer = signals.push(signal);
    assert(longer.drop_last() == signals);
    assert(longer.last() == signal);
    if sends_sdp(signals) {
        let i = choose|i: int| 0 <= i < signals.len() && #[trigger] signals[i] is SetSDP;
        assert(longer[i] is SetSDP);
    }
    if signal is SetSDP {
        assert(longer[signals.len() as int] is SetSDP);
    }
    if sends_sdp(longer) {
        let i = choose|i: int| 0 <= i < longer.len() && #[trigger] longer[i] is SetSDP;
        if i < signals.len() {
            assert(signals[i] is SetSDP);
        }
    }
    if ends_ice(signals) {
        let i = choose|i: int| 0 <= i < signals.len() && (#[trigger] signals[i]).ends_candidates();
        assert(longer[i].ends_candidates());
    }
    if signal.ends_candidates() {
        assert(longer[signals.len() as int].ends_candidates());
    }
    if ends_ice(longer) {
        let i = choose|i: int| 0 <= i < longer.len() && (#[trigger] longer[i]).ends_candidates();
        if i < signals.len() {
            assert(signals[i].ends_candidates());
        }
    }
}

/// The mathematical value of a room record.
pub struct RoomView {
    /// The room code.
    pub key: Seq<char>,
    /// Whether the record differs from what the store holds.
    pub modified: bool,
    /// The payload; that of an untouched room where only the attributes
    /// were read.
    pub data: RoomDataView,
    /// The attributes.
    pub meta: RoomMetadataView,
}

impl RoomView {
    /// The room that has just been made under `key` at `now`: no slot is
    /// bound, and the slot of the offerer is to poll after the first delay.
    pub open spec fn opened(key: Seq<char>, now: Timestamp) -> RoomView {
        RoomView {
            key,
            modified: true,
            data: RoomDataView::empty(),
            meta: RoomMetadataView {
                offer: SlotView { token: Seq::empty(), next_poll: (now + FIRST_POLL) as u64 },
                answer: None,
            },
        }
    }

    /// Whether no peer is bound to the room.
    pub open spec fn is_vacant(self) -> bool {
        self.meta.offer.token.len() == 0
    }

    /// The slot that a token is bound to: that of the offerer where the
    /// token is the offerer's, else that of the answerer where it is the
    /// answerer's.
    pub open spec fn side_of(self, token: Seq<char>) -> Option<Side> {
        if self.meta.offer.token == token {
            Some(Side::Offer)
        } else if self.meta.answer matches Some(slot) && slot.token == token {
            Some(Side::Answer)
        } else {
            None
        }
    }

    /// What the room holds for a slot.
    pub open spec fn peer(self, side: Side) -> PeerView {
        match side {
            Side::Offer => self.data.offer,
            Side::Answer => self.data.answer,
        }
    }

    /// When the peer of a slot is to poll next.
    pub open spec fn next_poll(self, side: Side) -> Timestamp {
        match side {
            Side::Offer => self.meta.offer.next_poll,
            Side::Answer => self.meta.answer->0.next_poll,
        }
    }

    /// The room with other contents for one slot.
    pub open spec fn with_peer(self, side: Side, peer: PeerView) -> RoomView {
        match side {
            Side::Offer => RoomView { data: RoomDataView { offer: peer, ..self.data }, ..self },
            Side::Answer => RoomView { data: RoomDataView { answer: peer, ..self.data }, ..self },
        }
    }

    /// What every room holds that the broker has made or changed.
    ///
    /// - The times lie so far from the end of time that the grace period
    ///   can be added to them.
    /// - The slot of the offerer is bound before that of the answerer, and a
    ///   bound slot has a token.
    /// - Nothing has been heard from the answerer before it was bound.
    /// - The instruction to connect has been given as soon as it was due.
    pub open spec fn wf(self) -> bool {
        &&& self.meta.offer.next_poll + GRACE_PERIOD <= u64::MAX
        &&& self.meta.answer matches Some(slot) ==> {
            &&& slot.next_poll + GRACE_PERIOD <= u64::MAX
            &&& slot.token.len() > 0
            &&& self.meta.offer.token.len() > 0
        }
        &&& self.meta.answer is None ==> !self.data.answer.sent_sdp && !self.data.answer.ice_done
        &&& !self.connect_due()
    }

    /// Whether a peer can still be bound to the room.
    pub open spec fn can_join(self) -> bool {
        self.is_vacant() || self.meta.answer is None
    }

    /// The slot that the next peer is bound to.
    pub open spec fn joining_side(self) -> Side {
        if self.is_vacant() {
            Side::Offer
        } else {
            Side::Answer
        }
    }

    /// The room after the peer with `token` was bound at `now`: to the slot
    /// of the offerer where that is not bound, else to that of the answerer,
    /// which is then to poll after the first delay. The room code waits in
    /// the queue of the peer that was bound.
    pub open spec fn join(self, token: Seq<char>, now: Timestamp) -> RoomView {
        let side = self.joining_side();
        let peer = self.peer(side);
        let bound = match side {
            Side::Offer => RoomView {
                meta: RoomMetadataView {
                    offer: SlotView { token, next_poll: self.meta.offer.next_poll },
                    ..self.meta
                },
                ..self
            },
            Side::Answer => RoomView {
                meta: RoomMetadataView {
                    answer: Some(SlotView { token, next_poll: (now + FIRST_POLL) as u64 }),
                    ..self.meta
                },
                ..self
            },
        };
        RoomView { modified: true, ..bound }.with_peer(
            side,
            PeerView { queue: peer.queue.push(SignalView::JoinRoom(self.key)), ..peer },
        )
    }

    /// The room after the signals of the peer of `side` were routed: those
    /// that are relayed wait for the other peer, in their order, and the
    /// sender's progress is noted.
    pub open spec fn relay(self, side: Side, signals: Seq<SignalView>) -> RoomView {
        let sender = self.peer(side);
        let receiver = self.peer(side.spec_other());
        RoomView { modified: self.modified || relayed(signals).len() > 0, ..self }.with_peer(
            side,
            PeerView {
                sent_sdp: sender.sent_sdp || sends_sdp(signals),
                ice_done: sender.ice_done || ends_ice(signals),
                ..sender
            },
        ).with_peer(
            side.spec_other(),
            PeerView { queue: receiver.queue + relayed(signals), ..receiver },
        )
    }

    /// Whether the instruction to connect is due: both peers have sent
    /// their session description, one of them at least has sent all its
    /// candidates, and the instruction has not been given yet.
    pub open spec fn connect_due(self) -> bool {
        &&& !self.data.sent_connect
        &&& self.data.offer.sent_sdp
        &&& self.data.answer.sent_sdp
        &&& (self.data.offer.ice_done || self.data.answer.ice_done)
    }

    /// When the peers are to connect: the connect delay after the later of
    /// their next polls.
    pub open spec fn connect_at(self) -> int {
        if self.meta.offer.next_poll >= self.meta.answer->0.next_poll {
            self.meta.offer.next_poll + CONNECT
        } else {
            self.meta.answer->0.next_poll + CONNECT
        }
    }

    /// The room after the instruction to connect was given, where it was
    /// due: it waits in both queues, with one time.
    pub open spec fn schedule_connect(self) -> RoomView {
        if self.connect_due() {
            let signal = SignalView::ConnectAt(self.connect_at() as u64);
            RoomView {
                modified: true,
                data: RoomDataView {
                    sent_connect: true,
                    offer: PeerView { queue: self.data.offer.queue.push(signal), ..self.data.offer },
                    answer: PeerView {
                        queue: self.data.answer.queue.push(signal),
                        ..self.data.answer
                    },
                },
                ..self
            }
        } else {
            self
        }
    }

    /// The room after a batch of signals of the peer of `side` was taken.
    pub open spec fn send_signal(self, side: Side, signals: Seq<SignalView>) -> RoomView {
        self.relay(side, signals).schedule_connect()
    }

    /// How long a peer that polls now is to wait: the fast delay in a room
    /// that a second peer has joined, else the slow one.
    pub open spec fn cadence(self) -> u64 {
        if self.meta.answer is Some {
            FAST_POLL
        } else {
            POLL
        }
    }

    /// The room after the peer of `side` polled at `now`: only its next poll
    /// has changed.
    pub open spec fn poll(self, side: Side, now: Timestamp) -> RoomView {
        let next_poll = (now + self.cadence()) as u64;
        match side {
            Side::Offer => RoomView {
                modified: true,
                meta: RoomMetadataView {
                    offer: SlotView { next_poll, ..self.meta.offer },
                    ..self.meta
                },
                ..self
            },
            Side::Answer => RoomView {
                modified: true,
                meta: RoomMetadataView {
                    answer: Some(SlotView { next_poll, ..self.meta.answer->0 }),
                    ..self.meta
                },
                ..self
            },
        }
    }

    /// What is delivered to the peer of `side`: all that waits for it, and
    /// at the end the time of its next poll.
    pub open spec fn delivery(self, side: Side) -> Seq<SignalView> {
        self.peer(side).queue.push(SignalView::NextPoll(self.next_poll(side)))
    }

    /// The room after all that waited for the peer of `side` was delivered.
    pub open spec fn drained(self, side: Side) -> RoomView {
        let peer = self.peer(side);
        RoomView { modified: self.modified || peer.queue.len() > 0, ..self }.with_peer(
            side,
            PeerView { queue: Seq::empty(), ..peer },
        )
    }

    /// The earlier of the next polls of the peers that are bound.
    pub open spec fn last_sign_of_life(self) -> Timestamp {
        match self.meta.answer {
            Some(slot) if slot.next_poll < self.meta.offer.next_poll => slot.next_poll,
            _ => self.meta.offer.next_poll,
        }
    }

    /// Whether the room may be deleted at `now`: the grace period has
    /// passed since a peer failed to poll when it was to.
    pub open spec fn expired(self, now: Timestamp) -> bool {
        now >= self.last_sign_of_life() + GRACE_PERIOD
    }

    /// The key under which the store holds the room.
    pub open spec fn storage_key(self) -> Seq<char> {
        joined(RoomInfo::PREFIX@, self.key)
    }

    /// The storage keys that go with the room: its own, that of the
    /// offerer's identity and, where a second peer has joined, that of the
    /// answerer's.
    pub open spec fn bound_keys(self) -> Seq<Seq<char>> {
        let keys = seq![self.storage_key(), joined(AuthInfo::PREFIX@, self.meta.offer.token)];
        match self.meta.answer {
            Some(slot) => keys.push(joined(AuthInfo::PREFIX@, slot.token)),
            None => keys,
        }
    }
}

impl View for Data<RoomData, RoomMetadata, RoomInfo> {
    type V = RoomView;

    open spec fn view(&self) -> RoomView {
        RoomView {
            key: self.key@,
            modified: self.modified,
            data: match self.data {
                Some(data) => data@,
                None => RoomDataView::empty(),
            },
            meta: self.meta@,
        }
    }
}

/// A queue with one more signal holds the values of the old queue and, at
/// the end, the value of that signal.
proof fn lemma_queue_push(before: Vec<Signal>, after: Vec<Signal>, signal: Signal)
    requires
        after@ == before@.push(signal),
    ensures
        after.deep_view() == before.deep_view().push(signal@),
{
    assert(after.deep_view() =~= before.deep_view().push(signal@));
}

impl Data<RoomData, RoomMetadata, RoomInfo> {
    /// The room that is made under `key` at `now`.
    pub fn open(key: String, now: Timestamp) -> (room: Room)
        requires
            now + FIRST_POLL + GRACE_PERIOD <= u64::MAX,
        ensures
            room@ == RoomView::opened(key@, now),
            room@.wf(),
            room.data is Some,
    {
        Data::create(
            key,
            RoomData::default(),
            RoomMetadata {
                offer: PeerMetadata { token: String::new(), next_poll: now + FIRST_POLL },
                answer: None,
            },
        )
    }

    /// Whether the record is one that the broker can have made: see
    /// [`RoomView::wf`].
    pub fn is_wf(&self) -> (res: bool)
        ensures
            res == self@.wf(),
    {
        if self.meta.offer.next_poll > u64::MAX - GRACE_PERIOD {
            return false;
        }
        match &self.meta.answer {
            Some(slot) => {
                if slot.next_poll > u64::MAX - GRACE_PERIOD || slot.token.as_str().is_empty()
                    || self.meta.offer.token.as_str().is_empty() {
                    return false;
                }
            },
            None => {},
        }
        match &self.data {
            Some(data) => {
                if self.meta.answer.is_none() && (data.answer.sent_sdp || data.answer.ice_done) {
                    return false;
                }
                !(!data.sent_connect && data.offer.sent_sdp && data.answer.sent_sdp && (
                data.offer.ice_done || data.answer.ice_done))
            },
            None => true,
        }
    }

    /// The slot that a peer is bound to, if it is bound to one.
    pub fn side_of(&self, peer: &Auth) -> (side: Option<Side>)
        ensures
            side == self@.side_of(peer.key@),
    {
        if self.meta.offer.token == peer.key {
            return Some(Side::Offer);
        }
        match &self.meta.answer {
            Some(slot) => if slot.token == peer.key {
                Some(Side::Answer)
            } else {
                None
            },
            None => None,
        }
    }

    /// Binds a peer to the room at `now`: to the slot of the offerer where
    /// that is not bound, else to that of the answerer. The peer's identity
    /// record then names the room, and the room code waits in the peer's
    /// own queue. Returns `false`, and changes nothing, where both slots are
    /// bound.
    pub fn join_room(&mut self, peer: &mut Auth, now: Timestamp) -> (joined: bool)
        requires
            old(self)@.wf(),
            old(self).data is Some,
            old(peer).data is Some,
            old(peer).key@.len() > 0,
            now + FIRST_POLL + GRACE_PERIOD <= u64::MAX,
        ensures
            joined == old(self)@.can_join(),
            joined ==> final(self)@ == old(self)@.join(old(peer).key@, now),
            joined ==> final(peer)@ == old(peer)@.join_room(old(self).key@),
            !joined ==> *final(self) == *old(self) && *final(peer) == *old(peer),
            final(self)@.wf(),
            final(self).data is Some,
            final(peer).data is Some,
    {
        let is_offer = self.meta.offer.token.as_str().is_empty();
        let is_guest = self.meta.answer.is_none();
        if !is_offer && !is_guest {
            return false;
        }
        let mut data = self.data.take().unwrap();
        let signal = Signal::JoinRoom(self.key.clone());
        let ghost before = data;
        if is_offer {
            self.meta.offer.token = peer.key.clone();
            data.offer.queue.push(signal);
            proof {
                lemma_queue_push(before.offer.queue, data.offer.queue, signal);
            }
        } else {
            self.meta.answer = Some(
                PeerMetadata { token: peer.key.clone(), next_poll: now + FIRST_POLL },
            );
            data.answer.queue.push(signal);
            proof {
                lemma_queue_push(before.answer.queue, data.answer.queue, signal);
            }
        }
        self.data = Some(data);
        peer.join_room(self.key.as_str());
        self.modified = true;
        true
    }

    /// Notes that a peer polled at `now`: it is to poll again after the
    /// fast delay where a second peer has joined the room, else after the
    /// slow one. Nothing else changes.
    pub fn poll(&mut self, peer: &Auth, now: Timestamp)
        requires
            old(self)@.wf(),
            old(self)@.side_of(peer.key@) is Some,
            now + POLL + GRACE_PERIOD <= u64::MAX,
        ensures
            final(self)@ == old(self)@.poll(old(self)@.side_of(peer.key@)->0, now),
            final(self)@.wf(),
            final(self).data is Some == old(self).data is Some,
    {
        let delay = if self.meta.answer.is_some() {
            FAST_POLL
        } else {
            POLL
        };
        let next_poll = now + delay;
        if self.meta.offer.token == peer.key {
            self.meta.offer.next_poll = next_poll;
        } else {
            let slot = self.meta.answer.take().unwrap();
            self.meta.answer = Some(PeerMetadata { token: slot.token, next_poll });
        }
        self.modified = true;
    }

    /// Gives the instruction to connect where it is due.
    fn try_set_connect(&mut self)
        requires
            old(self).data is Some,
            old(self)@.meta.offer.next_poll + GRACE_PERIOD <= u64::MAX,
            old(self)@.data.answer.sent_sdp ==> old(self)@.meta.answer is Some,
            old(self)@.meta.answer matches Some(slot) ==> slot.next_poll + GRACE_PERIOD
                <= u64::MAX,
        ensures
            final(self)@ == old(self)@.schedule_connect(),
            final(self).data is Some,
    {
        let mut data = self.data.take().unwrap();
        if data.sent_connect || !data.offer.sent_sdp || !data.answer.sent_sdp || (
        !data.offer.ice_done && !data.answer.ice_done) {
            self.data = Some(data);
            return ;
        }
        let offer = self.meta.offer.next_poll;
        let answer = match &self.meta.answer {
            Some(slot) => slot.next_poll,
            None => offer,
        };
        let later = if offer >= answer {
            offer
        } else {
            answer
        };
        let connect_at = later + CONNECT;
        let ghost before = data;
        data.sent_connect = true;
        data.offer.queue.push(Signal::ConnectAt(connect_at));
        data.answer.queue.push(Signal::ConnectAt(connect_at));
        proof {
            lemma_queue_push(before.offer.queue, data.offer.queue, Signal::ConnectAt(connect_at));
            lemma_queue_push(before.answer.queue, data.answer.queue, Signal::ConnectAt(connect_at));
        }
        self.data = Some(data);
        self.modified = true;
    }

    /// Takes a batch of signals from a peer of the room. Each signal that
    /// is relayed waits for the other peer from then on, unchanged and in
    /// its order; a session description and the end of the candidates are
    /// noted for the sender. Then the instruction to connect is given, where
    /// it has become due.
    pub fn send_signal(&mut self, sender: &Auth, signals: Vec<Signal>)
        requires
            old(self)@.wf(),
            old(self).data is Some,
            old(self)@.side_of(sender.key@) is Some,
        ensures
            final(self)@ == old(self)@.send_signal(
                old(self)@.side_of(sender.key@)->0,
                signals.deep_view(),
            ),
            final(self)@.wf(),
            final(self).data is Some,
    {
        let side = self.side_of(sender).unwrap();
        let ghost batch = signals.deep_view();
        let mut data = self.data.take().unwrap();
        let mut modified = self.modified;
        let mut i: usize = 0;
        proof {
            assert(batch.take(0) =~= Seq::<SignalView>::empty());
            assert(old(self)@.relay(side, batch.take(0)).data.offer.queue =~= data@.offer.queue);
            assert(old(self)@.relay(side, batch.take(0)).data.answer.queue =~= data@.answer.queue);
        }
        while i < signals.len()
            invariant
                0 <= i <= signals.len(),
                batch == signals.deep_view(),
                old(self)@.side_of(sender.key@) == Some(side),
                old(self)@.wf(),
                old(self)@.relay(side, batch.take(i as int)) == (RoomView {
                    modified,
                    data: data@,
                    ..old(self)@
                }),
            decreases signals.len() - i,
        {
            let signal = &signals[i];
            let ghost before = data;
            let ghost seen = batch.take(i as int);
            proof {
                assert(batch.take(i + 1) =~= seen.push(signal@));
                lemma_batch_push(seen, signal@);
            }
            if signal.can_send() {
                modified = true;
                match side {
                    Side::Offer => {
                        data.answer.queue.push(signal.clone());
                        proof {
                            lemma_queue_push(before.answer.queue, data.answer.queue, *signal);
                        }
                    },
                    Side::Answer => {
                        data.offer.queue.push(signal.clone());
                        proof {
                            lemma_queue_push(before.offer.queue, data.offer.queue, *signal);
                        }
                    },
                }
            }
            match signal {
                Signal::SetSDP(_) => {
                    match side {
                        Side::Offer => {
                            data.offer.sent_sdp = true;
                        },
                        Side::Answer => {
                            data.answer.sent_sdp = true;
                        },
                    }
                },
                Signal::AddCandidate(_) => {
                    if signal.ends_candidates() {
                        match side {
                            Side::Offer => {
                                data.offer.ice_done = true;
                            },
                            Side::Answer => {
                                data.answer.ice_done = true;
                            },
                        }
                    }
                },
                _ => {},
            }
            i = i + 1;
            proof {
                let target = old(self)@.relay(side, batch.take(i as int));
                assert(target.data.offer.queue =~= data@.offer.queue);
                assert(target.data.answer.queue =~= data@.answer.queue);
            }
        }
        proof {
            assert(batch.take(signals.len() as int) =~= batch);
        }
        self.data = Some(data);
        self.modified = modified;
        self.try_set_connect();
    }

    /// Hands out all that waits for a peer of the room, in its order, and
    /// at the end the time at which the peer is to poll next. Nothing waits
    /// for the peer afterwards.
    pub fn pull_signals(&mut self, reader: &Auth) -> (delivery: Vec<Signal>)
        requires
            old(self)@.wf(),
            old(self).data is Some,
            old(self)@.side_of(reader.key@) is Some,
        ensures
            delivery.deep_view() == old(self)@.delivery(old(self)@.side_of(reader.key@)->0),
            final(self)@ == old(self)@.drained(old(self)@.side_of(reader.key@)->0),
            final(self)@.wf(),
            final(self).data is Some,
    {
        let side = self.side_of(reader).unwrap();
        let mut data = self.data.take().unwrap();
        let mut delivery: Vec<Signal> = Vec::new();
        let next_poll = match side {
            Side::Offer => {
                std::mem::swap(&mut data.offer.queue, &mut delivery);
                self.meta.offer.next_poll
            },
            Side::Answer => {
                std::mem::swap(&mut data.answer.queue, &mut delivery);
                match &self.meta.answer {
                    Some(slot) => slot.next_poll,
                    None => 0,
                }
            },
        };
        if delivery.len() > 0 {
            self.modified = true;
        }
        let ghost waiting = delivery;
        delivery.push(Signal::NextPoll(next_poll));
        proof {
            lemma_queue_push(waiting, delivery, Signal::NextPoll(next_poll));
            assert(data@.offer.queue =~= old(self)@.drained(side).data.offer.queue);
            assert(data@.answer.queue =~= old(self)@.drained(side).data.answer.queue);
        }
        self.data = Some(data);
        delivery
    }
}

impl Killable for Data<RoomData, RoomMetadata, RoomInfo> {
    open spec fn keys_to_kill(&self, now: Timestamp) -> Seq<Seq<char>> {
        if self@.expired(now) {
            self@.bound_keys()
        } else {
            Seq::empty()
        }
    }

    fn get_keys_to_kill(&self, now: Timestamp) -> (keys: Vec<String>) {
        let mut last = self.meta.offer.next_poll;
        match &self.meta.answer {
            Some(slot) => {
                if slot.next_poll < last {
                    last = slot.next_poll;
                }
            },
            None => {},
        }
        let mut keys: Vec<String> = Vec::new();
        if now >= GRACE_PERIOD && now - GRACE_PERIOD >= last {
            keys.push(join(RoomInfo::PREFIX, self.key.as_str()));
            keys.push(join(AuthInfo::PREFIX, self.meta.offer.token.as_str()));
            match &self.meta.answer {
                Some(slot) => {
                    keys.push(join(AuthInfo::PREFIX, slot.token.as_str()));
                },
                None => {},
            }
        }
        assert(keys.deep_view() =~= self.keys_to_kill(now));
        keys
    }
}

} // verus!
