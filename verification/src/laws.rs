//! What holds of a room over any course of joins and exchanges.

use crate::auth::AuthView;
use crate::poll::{plan_of, settled, PollError};
use crate::room::{relayed, PeerView, RoomView, Side};
use crate::signal::{SignalView, Timestamp};
use vstd::prelude::*;

verus! {

/// The first peer that joins a room is bound as the offerer and the second
/// as the answerer; after that nobody can join.
pub proof fn law_slots_are_assigned_in_order(
    key: Seq<char>,
    opened_at: Timestamp,
    first: Seq<char>,
    first_at: Timestamp,
    second: Seq<char>,
    second_at: Timestamp,
)
    requires
        first.len() > 0,
        second.len() > 0,
    ensures
        ({
            let vacant = RoomView::opened(key, opened_at);
            let hosted = vacant.join(first, first_at);
            let full = hosted.join(second, second_at);
            &&& vacant.can_join()
            &&& hosted.meta.offer.token == first
            &&& hosted.meta.answer is None
            &&& hosted.side_of(first) == Some(Side::Offer)
            &&& hosted.can_join()
            &&& full.meta.offer.token == first
            &&& full.meta.answer matches Some(slot) && slot.token == second
            &&& full.side_of(first) == Some(Side::Offer)
            &&& first != second ==> full.side_of(second) == Some(Side::Answer)
            &&& !full.can_join()
        }),
{
}

/// An exchange without signals changes nothing in the room.
pub proof fn law_empty_batch_changes_nothing(room: RoomView, side: Side)
    requires
        room.wf(),
    ensures
        room.send_signal(side, Seq::empty()) == room,
{
    let after = room.relay(side, Seq::empty());
    assert(after.data.offer.queue =~= room.data.offer.queue);
    assert(after.data.answer.queue =~= room.data.answer.queue);
    assert(after == room);
}

/// A poll without signals delivers what waited for the peer, and leaves of
/// the room all but the peer's own next poll and its own queue as it was.
pub proof fn law_empty_poll_is_idempotent(room: RoomView, side: Side, now: Timestamp)
    requires
        room.wf(),
        side == Side::Answer ==> room.meta.answer is Some,
    ensures
        ({
            let polled = room.send_signal(side, Seq::empty()).poll(side, now);
            let after = polled.drained(side);
            &&& polled.delivery(side) == room.peer(side).queue.push(
                SignalView::NextPoll((now + room.cadence()) as u64),
            )
            &&& after.peer(side.spec_other()) == room.peer(side.spec_other())
            &&& after.peer(side) == PeerView { queue: Seq::empty(), ..room.peer(side) }
            &&& after.data.sent_connect == room.data.sent_connect
            &&& after.key == room.key
            &&& match side {
                Side::Offer => after.meta.answer == room.meta.answer && after.meta.offer.token
                    == room.meta.offer.token,
                Side::Answer => after.meta.offer == room.meta.offer && after.meta.answer->0.token
                    == room.meta.answer->0.token,
            }
            &&& after.drained(side).poll(side, now) == after
        }),
{
    law_empty_batch_changes_nothing(room, side);
    let polled = room.poll(side, now);
    let after = polled.drained(side);
    assert(after.drained(side).data.offer.queue =~= after.data.offer.queue);
    assert(after.drained(side).data.answer.queue =~= after.data.answer.queue);
}

/// Each relayed signal of a batch is in the next delivery to the other
/// peer, unchanged, after all that waited before and in the order of the
/// batch.
pub proof fn law_relayed_signals_are_delivered(room: RoomView, side: Side, signals: Seq<SignalView>)
    requires
        room.wf(),
    ensures
        ({
            let after = room.send_signal(side, signals);
            let delivery = after.delivery(side.spec_other());
            let waiting = room.peer(side.spec_other()).queue;
            &&& (waiting + relayed(signals)).is_prefix_of(delivery)
            &&& forall|i: int|
                0 <= i < signals.len() && (#[trigger] signals[i]).can_send() ==> delivery.contains(
                    signals[i],
                )
        }),
{
    let after = room.send_signal(side, signals);
    let delivery = after.delivery(side.spec_other());
    let waiting = room.peer(side.spec_other()).queue;
    let sent = waiting + relayed(signals);
    assert(sent.is_prefix_of(delivery)) by {
        assert(delivery.subrange(0, sent.len() as int) =~= sent);
    }
    assert forall|i: int| 0 <= i < signals.len() && (#[trigger] signals[i]).can_send() implies delivery.contains(
        signals[i],
    ) by {
        lemma_relayed_contains(signals, i);
        let j = choose|j: int| 0 <= j < relayed(signals).len() && relayed(signals)[j] == signals[i];
        assert(sent[waiting.len() + j] == signals[i]);
        assert(delivery[waiting.len() + j] == signals[i]);
    }
}

/// A signal of a batch that is relayed is among the relayed signals.
pub proof fn lemma_relayed_contains(signals: Seq<SignalView>, i: int)
    requires
        0 <= i < signals.len(),
        signals[i].can_send(),
    ensures
        relayed(signals).contains(signals[i]),
    decreases signals.len(),
{
    let shorter = signals.drop_last();
    if i == signals.len() - 1 {
        let r = relayed(shorter);
        assert(relayed(signals)[r.len() as int] == signals[i]);
    } else {
        lemma_relayed_contains(shorter, i);
        let j = choose|j: int| 0 <= j < relayed(shorter).len() && relayed(shorter)[j] == shorter[i];
        assert(relayed(signals)[j] == signals[i]);
    }
}

/// How many of the signals are instructions to connect.
pub open spec fn connects(signals: Seq<SignalView>) -> nat
    decreases signals.len(),
{
    if signals.len() == 0 {
        0
    } else {
        connects(signals.drop_last()) + if signals.last() is ConnectAt {
            1nat
        } else {
            0nat
        }
    }
}

/// The instructions to connect of two lists are those of the two together.
pub proof fn lemma_connects_add(a: Seq<SignalView>, b: Seq<SignalView>)
    ensures
        connects(a + b) == connects(a) + connects(b),
    decreases b.len(),
{
    if b.len() == 0 {
        assert(a + b == a);
    } else {
        assert((a + b).drop_last() == a + b.drop_last());
        lemma_connects_add(a, b.drop_last());
    }
}

/// One more signal adds one instruction to connect where it is one.
pub proof fn lemma_connects_push(a: Seq<SignalView>, signal: SignalView)
    ensures
        connects(a.push(signal)) == connects(a) + if signal is ConnectAt {
            1nat
        } else {
            0nat
        },
{
    assert(a.push(signal).drop_last() == a);
}

/// No instruction to connect is relayed.
pub proof fn lemma_relayed_holds_no_connect(signals: Seq<SignalView>)
    ensures
        connects(relayed(signals)) == 0,
    decreases signals.len(),
{
    if signals.len() > 0 {
        lemma_relayed_holds_no_connect(signals.drop_last());
        if signals.last().can_send() {
            lemma_connects_push(relayed(signals.drop_last()), signals.last());
        }
    }
}

/// What happens to a room.
pub enum RoomEvent {
    /// A peer is bound to the room, where a slot is left.
    Join { token: Seq<char>, now: Timestamp },
    /// The peer of a slot hands in a batch of signals, polls, and gets what
    /// waits for it.
    Exchange { side: Side, signals: Seq<SignalView>, now: Timestamp },
}

impl RoomEvent {
    /// The room after the event.
    pub open spec fn apply(self, room: RoomView) -> RoomView {
        match self {
            RoomEvent::Join { token, now } => if room.can_join() {
                room.join(token, now)
            } else {
                room
            },
            RoomEvent::Exchange { side, signals, now } => room.send_signal(side, signals).poll(
                side,
                now,
            ).drained(side),
        }
    }

    /// What the event delivers to the peer of `side`.
    pub open spec fn delivers(self, room: RoomView, side: Side) -> Seq<SignalView> {
        match self {
            RoomEvent::Exchange { side: to, signals, now } if to == side => room.send_signal(
                side,
                signals,
            ).poll(side, now).delivery(side),
            _ => Seq::empty(),
        }
    }
}

/// The room after a course of events.
pub open spec fn room_after(room: RoomView, events: Seq<RoomEvent>) -> RoomView
    decreases events.len(),
{
    if events.len() == 0 {
        room
    } else {
        events.last().apply(room_after(room, events.drop_last()))
    }
}

/// All that a course of events delivers to the peer of `side`.
pub open spec fn delivered(room: RoomView, events: Seq<RoomEvent>, side: Side) -> Seq<SignalView>
    decreases events.len(),
{
    if events.len() == 0 {
        Seq::empty()
    } else {
        delivered(room, events.drop_last(), side) + events.last().delivers(
            room_after(room, events.drop_last()),
            side,
        )
    }
}

/// How many instructions to connect wait in the queue of a slot, at most
/// one, and none before the instruction was given.
pub open spec fn connect_budget(room: RoomView) -> nat {
    if room.data.sent_connect {
        1
    } else {
        0
    }
}

/// One event keeps the count: what was delivered to a peer and what waits
/// for it hold no more instructions to connect than were given.
proof fn lemma_event_keeps_budget(room: RoomView, event: RoomEvent, side: Side, given: nat)
    requires
        given + connects(room.peer(side).queue) <= connect_budget(room),
    ensures
        given + connects(event.delivers(room, side)) + connects(event.apply(room).peer(side).queue)
            <= connect_budget(event.apply(room)),
{
    match event {
        RoomEvent::Join { token, now } => {
            assert(connects(Seq::<SignalView>::empty()) == 0);
            if room.can_join() {
                let joining = room.joining_side();
                lemma_connects_push(room.peer(joining).queue, SignalView::JoinRoom(room.key));
            }
        },
        RoomEvent::Exchange { side: from, signals, now } => {
            let routed = room.relay(from, signals);
            lemma_relayed_holds_no_connect(signals);
            lemma_connects_add(room.peer(from.spec_other()).queue, relayed(signals));
            assert(connects(routed.peer(side).queue) == connects(room.peer(side).queue));
            let sent = routed.schedule_connect();
            if routed.connect_due() {
                lemma_connects_push(
                    routed.peer(side).queue,
                    SignalView::ConnectAt(routed.connect_at() as u64),
                );
            }
            assert(given + connects(sent.peer(side).queue) <= connect_budget(sent));
            let polled = sent.poll(from, now);
            assert(polled.peer(side) == sent.peer(side));
            if from == side {
                lemma_connects_push(
                    polled.peer(side).queue,
                    SignalView::NextPoll(polled.next_poll(side)),
                );
                assert(connects(Seq::<SignalView>::empty()) == 0);
            } else {
                assert(connects(Seq::<SignalView>::empty()) == 0);
            }
        },
    }
}

/// Over any course of events, what was delivered to a peer and what still
/// waits for it hold no more instructions to connect than were given.
proof fn lemma_course_keeps_budget(room: RoomView, events: Seq<RoomEvent>, side: Side)
    requires
        connects(room.peer(side).queue) <= connect_budget(room),
    ensures
        connects(delivered(room, events, side)) + connects(
            room_after(room, events).peer(side).queue,
        ) <= connect_budget(room_after(room, events)),
    decreases events.len(),
{
    if events.len() == 0 {
        assert(connects(Seq::<SignalView>::empty()) == 0);
    } else {
        let before = events.drop_last();
        lemma_course_keeps_budget(room, before, side);
        lemma_event_keeps_budget(
            room_after(room, before),
            events.last(),
            side,
            connects(delivered(room, before, side)),
        );
        lemma_connects_add(
            delivered(room, before, side),
            events.last().delivers(room_after(room, before), side),
        );
    }
}

/// Whatever happens to a room after it was made, each of its peers is told
/// to connect once at most.
pub proof fn law_connect_is_given_at_most_once(
    key: Seq<char>,
    opened_at: Timestamp,
    events: Seq<RoomEvent>,
    side: Side,
)
    ensures
        connects(delivered(RoomView::opened(key, opened_at), events, side)) <= 1,
{
    let room = RoomView::opened(key, opened_at);
    assert(connects(room.peer(side).queue) == 0);
    lemma_course_keeps_budget(room, events, side);
}

/// Where the instruction to connect is given, both peers get the same one.
pub proof fn law_connect_is_the_same_for_both(room: RoomView, side: Side, signals: Seq<SignalView>)
    requires
        room.relay(side, signals).connect_due(),
    ensures
        ({
            let after = room.send_signal(side, signals);
            &&& after.data.sent_connect
            &&& after.data.offer.queue.len() > 0
            &&& after.data.answer.queue.len() > 0
            &&& after.data.offer.queue.last() == after.data.answer.queue.last()
            &&& after.data.offer.queue.last() is ConnectAt
        }),
{
}

/// A poll that names the token of an identity that the store holds is not
/// refused for want of authority: whatever it holds and whatever room it is
/// about, it is not answered with the status 403.
pub proof fn law_known_token_is_admitted(
    user: AuthView,
    signals: Seq<SignalView>,
    room: RoomView,
    now: Timestamp,
)
    ensures
        plan_of(user, signals) matches Err(e) ==> e.spec_status() != 403,
        plan_of(user, signals) matches Ok(plan) ==> (settled(user, plan, signals, room, now) matches Err(
            e,
        ) ==> e.spec_status() != 403),
        forall|e: PollError|
            #[trigger] e.spec_status() == 403 <==> e == PollError::MissingToken || e
                == PollError::InvalidToken,
{
}

/// A peer that has joined a room is bound to one of its slots, and stays
/// bound to the same slot whatever signals are handed in, whoever polls
/// and whatever is delivered.
pub proof fn law_members_stay_bound(
    room: RoomView,
    token: Seq<char>,
    joined_at: Timestamp,
    side: Side,
    signals: Seq<SignalView>,
    now: Timestamp,
)
    requires
        room.can_join(),
        side == Side::Answer ==> room.join(token, joined_at).meta.answer is Some,
    ensures
        ({
            let bound = room.join(token, joined_at);
            &&& bound.side_of(token) is Some
            &&& bound.send_signal(side, signals).side_of(token) == bound.side_of(token)
            &&& bound.poll(side, now).side_of(token) == bound.side_of(token)
            &&& bound.drained(side).side_of(token) == bound.side_of(token)
        }),
{
}

/// The instruction to connect is given once: a batch of signals sets the
/// mark only where it was not set and both peers have sent their session
/// description and one of them has ended its candidates, and nothing takes
/// the mark back.
pub proof fn law_connect_mark_is_set_once(
    room: RoomView,
    side: Side,
    signals: Seq<SignalView>,
    now: Timestamp,
)
    ensures
        ({
            let after = room.send_signal(side, signals);
            &&& room.data.sent_connect ==> after.data.sent_connect
            &&& !room.data.sent_connect && after.data.sent_connect ==> {
                &&& after.data.offer.sent_sdp
                &&& after.data.answer.sent_sdp
                &&& after.data.offer.ice_done || after.data.answer.ice_done
            }
            &&& !after.connect_due()
            &&& room.poll(side, now).data.sent_connect == room.data.sent_connect
            &&& room.drained(side).data.sent_connect == room.data.sent_connect
        }),
{
}

} // verus!
