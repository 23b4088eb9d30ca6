use chessagon::auth::Auth;
use chessagon::poll::Killable;
use chessagon::room::{Room, Side, CONNECT, FAST_POLL, FIRST_POLL, POLL};
use chessagon::signal::Signal;

fn sdp(text: &str) -> Signal {
    Signal::SetSDP(text.to_string())
}

fn ice(line: &str) -> Signal {
    Signal::AddCandidate((line.to_string(), Some("0".to_string()), Some(0)))
}

fn end_of_ice() -> Signal {
    Signal::AddCandidate((String::new(), None, None))
}

fn join(code: &str) -> Signal {
    Signal::JoinRoom(code.to_string())
}

fn peer(token: &str) -> Auth {
    Auth::issue(token.to_string(), 1000)
}

fn full_room() -> (Room, Auth, Auth) {
    let mut room = Room::open("ROOM01".to_string(), 1000);
    let mut a = peer("A");
    let mut b = peer("B");
    assert!(room.join_room(&mut a, 1000));
    assert!(room.join_room(&mut b, 1002));
    (room, a, b)
}

#[test]
fn constants() {
    assert_eq!(FIRST_POLL, 1);
    assert_eq!(POLL, 10);
    assert_eq!(FAST_POLL, 1);
    assert_eq!(CONNECT, 5);
}

#[test]
fn signals_that_are_relayed() {
    assert!(sdp("x").can_send());
    assert!(ice("x").can_send());
    assert!(!join("x").can_send());
    assert!(!Signal::ConnectAt(1).can_send());
    assert!(!Signal::NextPoll(1).can_send());
    assert!(join("x").is_peer_input());
    assert!(sdp("x").is_peer_input());
    assert!(!Signal::ConnectAt(1).is_peer_input());
    assert!(!Signal::NextPoll(1).is_peer_input());
    assert!(end_of_ice().ends_candidates());
    assert!(!ice("candidate").ends_candidates());
    assert!(!sdp("").ends_candidates());
}

#[test]
fn signal_clone_is_equal() {
    for signal in [sdp("a"), ice("b"), end_of_ice(), join("c"), Signal::ConnectAt(3), Signal::NextPoll(4)] {
        assert_eq!(signal.clone(), signal);
    }
}

#[test]
fn opened_room_is_vacant() {
    let room = Room::open("ROOM01".to_string(), 1000);
    assert!(room.modified);
    assert!(room.is_wf());
    assert_eq!(room.key, "ROOM01");
    assert_eq!(room.meta.offer.token, "");
    assert_eq!(room.meta.offer.next_poll, 1001);
    assert!(room.meta.answer.is_none());
    let data = room.data.as_ref().unwrap();
    assert!(!data.sent_connect);
    assert!(data.offer.queue.is_empty() && data.answer.queue.is_empty());
    assert!(!data.offer.sent_sdp && !data.offer.ice_done);
}

#[test]
fn slots_are_assigned_in_order() {
    let mut room = Room::open("ROOM01".to_string(), 1000);
    let mut a = peer("A");
    let mut b = peer("B");
    let mut c = peer("C");

    assert!(room.join_room(&mut a, 1005));
    assert_eq!(room.side_of(&a), Some(Side::Offer));
    assert_eq!(room.meta.offer.token, "A");
    // The offerer keeps the next poll of the room as it was made.
    assert_eq!(room.meta.offer.next_poll, 1001);
    assert!(room.meta.answer.is_none());
    assert_eq!(a.get_room(), Some(&"ROOM01".to_string()));
    assert_eq!(a.meta.kill_at, None);
    assert_eq!(room.data.as_ref().unwrap().offer.queue, vec![join("ROOM01")]);

    assert!(room.join_room(&mut b, 1007));
    assert_eq!(room.side_of(&b), Some(Side::Answer));
    assert_eq!(room.side_of(&a), Some(Side::Offer));
    let slot = room.meta.answer.as_ref().unwrap();
    assert_eq!(slot.token, "B");
    assert_eq!(slot.next_poll, 1008);
    assert_eq!(b.get_room(), Some(&"ROOM01".to_string()));
    assert_eq!(room.data.as_ref().unwrap().answer.queue, vec![join("ROOM01")]);

    room.modified = false;
    assert!(!room.join_room(&mut c, 1009));
    assert!(!room.modified);
    assert_eq!(room.side_of(&c), None);
    assert_eq!(c.get_room(), None);
    assert_eq!(c.meta.kill_at, Some(1020));
    assert_eq!(room.meta.offer.token, "A");
    assert_eq!(room.meta.answer.as_ref().unwrap().token, "B");
    assert!(room.is_wf());
}

#[test]
fn set_sdp_round_trip() {
    let (mut room, a, b) = full_room();
    room.pull_signals(&a);
    room.pull_signals(&b);
    room.send_signal(&a, vec![sdp("abc")]);
    assert_eq!(room.pull_signals(&b), vec![sdp("abc"), Signal::NextPoll(1003)]);
    assert_eq!(room.pull_signals(&a), vec![Signal::NextPoll(1001)]);
    let data = room.data.as_ref().unwrap();
    assert!(data.offer.sent_sdp);
    assert!(!data.answer.sent_sdp);
}

#[test]
fn relayed_signals_keep_their_order_and_join_is_not_relayed() {
    let (mut room, a, b) = full_room();
    room.pull_signals(&a);
    room.pull_signals(&b);
    room.modified = false;
    room.send_signal(
        &b,
        vec![ice("one"), join("OTHER"), sdp("answer"), Signal::ConnectAt(1), ice("two"), Signal::NextPoll(9)],
    );
    assert!(room.modified);
    assert_eq!(
        room.pull_signals(&a),
        vec![ice("one"), sdp("answer"), ice("two"), Signal::NextPoll(1001)]
    );
    assert_eq!(room.pull_signals(&b), vec![Signal::NextPoll(1003)]);
    let data = room.data.as_ref().unwrap();
    assert!(data.answer.sent_sdp);
    assert!(!data.answer.ice_done);
    assert!(!data.offer.sent_sdp);
}

#[test]
fn empty_batch_changes_nothing() {
    let (mut room, a, _b) = full_room();
    room.modified = false;
    room.send_signal(&a, vec![]);
    assert!(!room.modified);
    let data = room.data.as_ref().unwrap();
    assert_eq!(data.offer.queue, vec![join("ROOM01")]);
    assert_eq!(data.answer.queue, vec![join("ROOM01")]);
    assert!(!data.sent_connect);
}

#[test]
fn batch_of_signals_that_are_not_relayed_does_not_mark_the_room() {
    let (mut room, a, _b) = full_room();
    room.modified = false;
    room.send_signal(&a, vec![join("X"), Signal::NextPoll(3)]);
    assert!(!room.modified);
}

#[test]
fn poll_sets_only_the_callers_next_poll() {
    let mut room = Room::open("ROOM01".to_string(), 1000);
    let mut a = peer("A");
    room.join_room(&mut a, 1000);
    room.modified = false;
    room.poll(&a, 2000);
    assert!(room.modified);
    assert_eq!(room.meta.offer.next_poll, 2000 + POLL);

    let mut b = peer("B");
    room.join_room(&mut b, 2001);
    room.poll(&a, 2002);
    assert_eq!(room.meta.offer.next_poll, 2002 + FAST_POLL);
    assert_eq!(room.meta.answer.as_ref().unwrap().next_poll, 2001 + FIRST_POLL);
    room.poll(&b, 2010);
    assert_eq!(room.meta.offer.next_poll, 2003);
    assert_eq!(room.meta.answer.as_ref().unwrap().next_poll, 2011);
    assert_eq!(room.meta.answer.as_ref().unwrap().token, "B");
}

#[test]
fn pull_drains_the_queue_and_ends_with_the_next_poll() {
    let (mut room, a, _b) = full_room();
    room.modified = false;
    assert_eq!(room.pull_signals(&a), vec![join("ROOM01"), Signal::NextPoll(1001)]);
    assert!(room.modified);
    room.modified = false;
    assert_eq!(room.pull_signals(&a), vec![Signal::NextPoll(1001)]);
    assert!(!room.modified);
    assert_eq!(room.data.as_ref().unwrap().answer.queue, vec![join("ROOM01")]);
}

#[test]
fn empty_poll_is_idempotent() {
    let (mut room, a, _b) = full_room();
    room.send_signal(&a, vec![]);
    room.poll(&a, 3000);
    assert_eq!(room.pull_signals(&a), vec![join("ROOM01"), Signal::NextPoll(3001)]);
    let answer_queue = room.data.as_ref().unwrap().answer.queue.clone();
    let answer_poll = room.meta.answer.as_ref().unwrap().next_poll;

    room.send_signal(&a, vec![]);
    room.poll(&a, 3000);
    assert_eq!(room.pull_signals(&a), vec![Signal::NextPoll(3001)]);
    assert_eq!(room.data.as_ref().unwrap().answer.queue, answer_queue);
    assert_eq!(room.meta.answer.as_ref().unwrap().next_poll, answer_poll);
    assert_eq!(room.meta.offer.next_poll, 3001);
    assert!(!room.data.as_ref().unwrap().sent_connect);
}

#[test]
fn connect_is_scheduled_once_both_descriptions_and_one_end_marker_are_in() {
    let (mut room, a, b) = full_room();
    room.pull_signals(&a);
    room.pull_signals(&b);

    room.send_signal(&a, vec![sdp("offer"), end_of_ice()]);
    assert!(!room.data.as_ref().unwrap().sent_connect);
    room.poll(&a, 1010);
    room.send_signal(&b, vec![sdp("answer")]);
    assert!(room.data.as_ref().unwrap().sent_connect);

    // The later of the next polls is that of the offerer, 1011.
    let connect = Signal::ConnectAt(1011 + CONNECT);
    assert_eq!(
        room.pull_signals(&a),
        vec![sdp("answer"), connect.clone(), Signal::NextPoll(1011)]
    );
    assert_eq!(
        room.pull_signals(&b),
        vec![sdp("offer"), end_of_ice(), connect, Signal::NextPoll(1003)]
    );
}

#[test]
fn connect_takes_the_later_next_poll_of_the_answerer() {
    let (mut room, a, b) = full_room();
    room.poll(&b, 5000);
    room.send_signal(&b, vec![sdp("answer"), end_of_ice()]);
    room.send_signal(&a, vec![sdp("offer")]);
    let queue = &room.data.as_ref().unwrap().offer.queue;
    assert_eq!(queue.last(), Some(&Signal::ConnectAt(5001 + CONNECT)));
}

#[test]
fn connect_waits_for_an_end_marker() {
    let (mut room, a, b) = full_room();
    room.send_signal(&a, vec![sdp("offer"), ice("candidate")]);
    room.send_signal(&b, vec![sdp("answer"), ice("candidate")]);
    assert!(!room.data.as_ref().unwrap().sent_connect);
    room.send_signal(&b, vec![end_of_ice()]);
    assert!(room.data.as_ref().unwrap().sent_connect);
    assert!(room.data.as_ref().unwrap().answer.ice_done);
    assert!(!room.data.as_ref().unwrap().offer.ice_done);
}

#[test]
fn connect_is_given_at_most_once() {
    let (mut room, a, b) = full_room();
    let mut to_a = Vec::new();
    let mut to_b = Vec::new();
    let batches = [
        vec![sdp("one"), end_of_ice()],
        vec![sdp("two"), end_of_ice()],
        vec![],
        vec![sdp("three"), end_of_ice(), Signal::ConnectAt(7)],
        vec![ice("x")],
    ];
    let mut now = 1010;
    for batch in batches.iter() {
        for (who, out) in [(&a, &mut to_a), (&b, &mut to_b)] {
            room.send_signal(who, batch.clone());
            room.poll(who, now);
            out.extend(room.pull_signals(who));
            now += 1;
        }
    }
    let count = |signals: &Vec<Signal>| {
        signals.iter().filter(|s| matches!(s, Signal::ConnectAt(_))).count()
    };
    assert_eq!(count(&to_a), 1);
    assert_eq!(count(&to_b), 1);
    let at = |signals: &Vec<Signal>| signals.iter().find(|s| matches!(s, Signal::ConnectAt(_))).cloned();
    assert_eq!(at(&to_a), at(&to_b));
}

#[test]
fn well_formedness_is_checked() {
    let (mut room, _a, _b) = full_room();
    assert!(room.is_wf());
    room.meta.offer.next_poll = u64::MAX - 19;
    assert!(!room.is_wf());
    room.meta.offer.next_poll = u64::MAX - 20;
    assert!(room.is_wf());

    room.meta.answer.as_mut().unwrap().token = String::new();
    assert!(!room.is_wf());
    room.meta.answer.as_mut().unwrap().token = "B".to_string();

    let data = room.data.as_mut().unwrap();
    data.offer.sent_sdp = true;
    data.answer.sent_sdp = true;
    data.offer.ice_done = true;
    assert!(!room.is_wf());
    room.data.as_mut().unwrap().sent_connect = true;
    assert!(room.is_wf());

    room.meta.answer = None;
    assert!(!room.is_wf());
    room.data = None;
    assert!(room.is_wf());
}

#[test]
fn room_keys_to_kill() {
    let mut room = Room::open("ROOM01".to_string(), 1000);
    let mut a = peer("A");
    room.join_room(&mut a, 1000);
    // The offerer was to poll at 1001.
    assert!(room.get_keys_to_kill(1020).is_empty());
    assert_eq!(
        room.get_keys_to_kill(1021),
        vec!["room:ROOM01".to_string(), "auth:A".to_string()]
    );

    let mut b = peer("B");
    room.join_room(&mut b, 1010);
    room.poll(&a, 1050);
    // The answerer was to poll at 1011, the offerer is to poll at 1051.
    assert!(room.get_keys_to_kill(1030).is_empty());
    assert_eq!(
        room.get_keys_to_kill(1031),
        vec!["room:ROOM01".to_string(), "auth:A".to_string(), "auth:B".to_string()]
    );
    assert!(room.get_keys_to_kill(5).is_empty());
}
