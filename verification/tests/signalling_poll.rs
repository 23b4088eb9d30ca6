use chessagon::auth::Auth;
use chessagon::clock;
use chessagon::gc::{sweep, Listed, SweepError};
use chessagon::db::{MetaError, Metadata};
use chessagon::meta::MetaMap;
use chessagon::poll::{begin, check_signals, exchange, find_requested_room, plan, Plan, PollError, Settled};
use chessagon::room::{Room, CONNECT};
use chessagon::signal::Signal;

fn sdp(text: &str) -> Signal {
    Signal::SetSDP(text.to_string())
}

fn end_of_ice() -> Signal {
    Signal::AddCandidate((String::new(), None, None))
}

fn join(code: &str) -> Signal {
    Signal::JoinRoom(code.to_string())
}

/// One poll against a store that holds the given identity and room.
fn poll(
    user: Option<Auth>,
    room: Option<Room>,
    signals: Vec<Signal>,
    now: u64,
) -> Result<Settled, PollError> {
    let token = user.as_ref().map(|u| u.key.clone());
    let session = begin(token, signals)?;
    let session = session.on_user(user)?;
    let room = match &session.plan {
        Plan::Create => Some(Room::open("ROOM01".to_string(), now)),
        _ => room,
    };
    session.on_room(room, now)
}

#[test]
fn end_to_end() {
    // A is given a token and hosts a room.
    let a = Auth::issue("A".repeat(32), 1000);
    let done = poll(Some(a), None, vec![sdp("offerSDP")], 1000).unwrap();
    assert_eq!(done.response, vec![join("ROOM01"), Signal::NextPoll(1001)]);
    assert_eq!(done.room.meta.offer.token, "A".repeat(32));
    assert!(done.room.meta.answer.is_none());
    assert_eq!(done.user.get_room(), Some(&"ROOM01".to_string()));
    assert!(done.room.modified && done.user.modified);
    let (room, a) = (done.room, done.user);

    // B is given a token and joins by the code. The description of the
    // offerer has waited for it.
    let b = Auth::issue("B".repeat(32), 1002);
    let done = poll(Some(b), Some(room), vec![join("ROOM01"), sdp("answerSDP")], 1002).unwrap();
    assert_eq!(
        done.response,
        vec![sdp("offerSDP"), join("ROOM01"), Signal::NextPoll(1003)]
    );
    assert_eq!(done.room.meta.answer.as_ref().unwrap().token, "B".repeat(32));
    assert_eq!(done.user.get_room(), Some(&"ROOM01".to_string()));
    let (room, b) = (done.room, done.user);

    // The next poll of A brings the description of the answerer.
    let done = poll(Some(a), Some(room), vec![], 1003).unwrap();
    assert_eq!(done.response, vec![sdp("answerSDP"), Signal::NextPoll(1004)]);
    let (room, a) = (done.room, done.user);

    // Both end their candidates: both are told to connect at one time.
    let done = poll(Some(a), Some(room), vec![end_of_ice()], 1004).unwrap();
    let connect = Signal::ConnectAt(1004 + CONNECT);
    assert_eq!(done.response, vec![connect.clone(), Signal::NextPoll(1005)]);
    let (room, a) = (done.room, done.user);

    let done = poll(Some(b), Some(room), vec![end_of_ice()], 1005).unwrap();
    assert_eq!(done.response, vec![end_of_ice(), connect, Signal::NextPoll(1006)]);
    let (room, _b) = (done.room, done.user);

    // Nothing more is told about connecting.
    let done = poll(Some(a), Some(room), vec![], 1006).unwrap();
    assert_eq!(done.response, vec![end_of_ice(), Signal::NextPoll(1007)]);
}

#[test]
fn poll_with_a_fresh_token_is_not_refused() {
    let a = Auth::issue("A".repeat(32), 1000);
    assert_eq!(a.key.len(), 32);
    assert!(poll(Some(a), None, vec![], 1019).is_ok());
}

#[test]
fn missing_token() {
    assert!(matches!(begin(None, vec![]), Err(PollError::MissingToken)));
    assert!(matches!(begin(None, vec![Signal::ConnectAt(1)]), Err(PollError::MissingToken)));
}

#[test]
fn invalid_signal() {
    for signal in [Signal::ConnectAt(1), Signal::NextPoll(1)] {
        let res = begin(Some("A".to_string()), vec![sdp("x"), signal]);
        assert!(matches!(res, Err(PollError::InvalidSignal)));
    }
    let ok = begin(Some("A".to_string()), vec![sdp("x"), join("R"), end_of_ice()]).unwrap();
    assert_eq!(ok.token, "A");
    assert_eq!(ok.signals.len(), 3);
}

#[test]
fn invalid_token() {
    let res = poll(None, None, vec![], 1000);
    assert!(matches!(res, Err(PollError::MissingToken)));
    let session = begin(Some("A".to_string()), vec![]).unwrap();
    assert!(matches!(session.on_user(None), Err(PollError::InvalidToken)));
}

#[test]
fn already_in_room() {
    let mut a = Auth::issue("A".to_string(), 1000);
    a.join_room("ROOM01");
    let session = begin(Some("A".to_string()), vec![join("ROOM02")]).unwrap();
    assert!(matches!(session.on_user(Some(a)), Err(PollError::AlreadyInRoom)));
}

#[test]
fn room_expired_and_room_not_found() {
    let mut a = Auth::issue("A".to_string(), 1000);
    a.join_room("ROOM01");
    assert!(matches!(poll(Some(a), None, vec![], 1000), Err(PollError::RoomExpired)));

    let b = Auth::issue("B".to_string(), 1000);
    assert!(matches!(
        poll(Some(b), None, vec![join("NOROOM")], 1000),
        Err(PollError::RoomNotFound)
    ));
}

#[test]
fn room_expired_for_a_peer_that_the_room_does_not_know() {
    let mut room = Room::open("ROOM01".to_string(), 1000);
    let mut a = Auth::issue("A".to_string(), 1000);
    room.join_room(&mut a, 1000);
    let mut stranger = Auth::issue("S".to_string(), 1000);
    stranger.join_room("ROOM01");
    assert!(matches!(
        poll(Some(stranger), Some(room), vec![], 1001),
        Err(PollError::RoomExpired)
    ));
}

#[test]
fn room_full() {
    let mut room = Room::open("ROOM01".to_string(), 1000);
    let mut a = Auth::issue("A".to_string(), 1000);
    let mut b = Auth::issue("B".to_string(), 1000);
    room.join_room(&mut a, 1000);
    room.join_room(&mut b, 1000);
    let c = Auth::issue("C".to_string(), 1000);
    assert!(matches!(
        poll(Some(c), Some(room), vec![join("ROOM01"), sdp("x")], 1001),
        Err(PollError::RoomFull)
    ));
}

#[test]
fn exchange_leaves_both_untouched_on_failure() {
    let mut room = Room::open("ROOM01".to_string(), 1000);
    let mut a = Auth::issue("A".to_string(), 1000);
    let mut b = Auth::issue("B".to_string(), 1000);
    room.join_room(&mut a, 1000);
    room.join_room(&mut b, 1000);
    room.modified = false;
    let mut c = Auth::issue("C".to_string(), 1000);
    c.modified = false;
    assert_eq!(exchange(&mut c, &mut room, vec![sdp("x")], false, 1001), Err(PollError::RoomFull));
    assert!(!room.modified && !c.modified);
    assert_eq!(c.get_room(), None);
    assert_eq!(room.data.as_ref().unwrap().offer.queue.len(), 1);
    assert!(!room.data.as_ref().unwrap().answer.sent_sdp);
}

#[test]
fn internal_errors() {
    let a = Auth::issue("A".to_string(), 1000);
    // The clock is too close to the end of time.
    assert!(matches!(poll(Some(a), None, vec![], u64::MAX - 29), Err(PollError::Internal)));
    let a = Auth::issue("A".to_string(), 1000);
    assert!(poll(Some(a), None, vec![], u64::MAX - 31).is_ok());

    // A room of which only the attributes were read.
    let mut room = Room::open("ROOM01".to_string(), 1000);
    room.data = None;
    let b = Auth::issue("B".to_string(), 1000);
    assert!(matches!(
        poll(Some(b), Some(room), vec![join("ROOM01")], 1000),
        Err(PollError::Internal)
    ));

    // An identity of which only the attributes were read.
    let mut c = Auth::issue("C".to_string(), 1000);
    c.data = None;
    let session = begin(Some("C".to_string()), vec![]).unwrap();
    assert!(matches!(session.on_user(Some(c)), Err(PollError::Internal)));
}

#[test]
fn statuses_and_reasons() {
    let all = [
        (PollError::MissingToken, 403, "Missing token."),
        (PollError::InvalidSignal, 400, "Invalid signals: can't send."),
        (PollError::InvalidToken, 403, "Invalid token."),
        (PollError::AlreadyInRoom, 400, "Already in a room."),
        (PollError::RoomExpired, 400, "Room expired."),
        (PollError::RoomNotFound, 404, "Room not found."),
        (PollError::RoomFull, 400, "Room is full."),
        (PollError::Internal, 500, "Internal error."),
    ];
    for (error, status, reason) in all {
        assert_eq!(error.status(), status);
        assert_eq!(error.reason(), reason);
    }
}

#[test]
fn plans() {
    let a = Auth::issue("A".to_string(), 1000);
    assert_eq!(plan(&a, &vec![sdp("x")]), Ok(Plan::Create));
    assert_eq!(
        plan(&a, &vec![sdp("x"), join("FIRST"), join("SECOND")]),
        Ok(Plan::Join("FIRST".to_string()))
    );
    let mut b = Auth::issue("B".to_string(), 1000);
    b.join_room("ROOM01");
    assert_eq!(plan(&b, &vec![sdp("x")]), Ok(Plan::Resume("ROOM01".to_string())));
    assert_eq!(plan(&b, &vec![join("ROOM01")]), Err(PollError::AlreadyInRoom));
    assert_eq!(find_requested_room(&vec![]), None);
    assert_eq!(find_requested_room(&vec![sdp("a"), join("R")]), Some(&"R".to_string()));
    assert!(check_signals(&vec![]));
    assert!(!check_signals(&vec![Signal::NextPoll(0)]));
}

fn listed(key: &str, entries: &[(&str, &str)]) -> Listed {
    Listed {
        key: key.to_string(),
        attributes: MetaMap::from_pairs(
            entries.iter().map(|(k, v)| (k.to_string(), v.to_string())).collect(),
        ),
    }
}

#[test]
fn sweep_deletes_expired_identities_and_keeps_the_others() {
    let listing = vec![
        listed("auth:PAST", &[("kill_at", "999")]),
        listed("auth:NOW", &[("kill_at", "1000")]),
        listed("auth:FUTURE", &[("kill_at", "1001")]),
        listed("auth:JOINED", &[("kill_at", "")]),
    ];
    assert_eq!(
        sweep(&listing, 1000),
        Ok(vec!["auth:PAST".to_string(), "auth:NOW".to_string()])
    );
    assert_eq!(sweep(&listing, 998), Ok(vec![]));
}

#[test]
fn sweep_deletes_expired_rooms_with_their_identities() {
    let room = |offer_poll: &str, answer: Option<&str>| {
        let mut entries = vec![("offer_token", "A"), ("offer_next_poll", offer_poll)];
        match answer {
            Some(poll) => {
                entries.push(("answer_token", "B"));
                entries.push(("answer_next_poll", poll));
            }
            None => {
                entries.push(("answer_token", ""));
                entries.push(("answer_next_poll", ""));
            }
        }
        listed("room:ROOM01", &entries)
    };
    let auth_a = listed("auth:A", &[("kill_at", "")]);

    // Alive: the offerer was to poll at 990, the grace period ends at 1010.
    assert_eq!(sweep(&vec![room("990", None), auth_a], 1009), Ok(vec![]));
    let auth_a = listed("auth:A", &[("kill_at", "")]);
    assert_eq!(
        sweep(&vec![auth_a, room("990", None)], 1010),
        Ok(vec!["room:ROOM01".to_string(), "auth:A".to_string()])
    );
    // The earlier of the two next polls counts.
    assert_eq!(
        sweep(&vec![room("2000", Some("900"))], 920),
        Ok(vec!["room:ROOM01".to_string(), "auth:A".to_string(), "auth:B".to_string()])
    );
    assert_eq!(sweep(&vec![room("2000", Some("900"))], 919), Ok(vec![]));
}

#[test]
fn sweep_stops_at_the_first_object_that_cannot_be_read() {
    let good = || listed("auth:PAST", &[("kill_at", "1")]);
    assert_eq!(
        sweep(&vec![good(), listed("auth:BAD", &[])], 1000),
        Err(SweepError::Attributes(MetaError::Missing))
    );
    assert_eq!(
        sweep(&vec![good(), listed("auth:BAD", &[("kill_at", "never")])], 1000),
        Err(SweepError::Attributes(MetaError::Malformed))
    );
    assert_eq!(
        sweep(&vec![listed("authBAD", &[("kill_at", "1")]), listed("auth:BAD", &[])], 1000),
        Err(SweepError::InvalidKey)
    );
    assert_eq!(
        sweep(&vec![listed("other:KEY", &[("kill_at", "1")])], 1000),
        Err(SweepError::InvalidKey)
    );
    assert_eq!(
        sweep(&vec![listed("room:R", &[("kill_at", "1")])], 1000),
        Err(SweepError::Attributes(MetaError::Missing))
    );
    assert_eq!(listed("auth:PAST", &[("kill_at", "1")]).get_keys_to_kill(1), Ok(vec!["auth:PAST".to_string()]));
}

#[test]
fn stored_records_are_swept_as_they_were_written() {
    let mut room = Room::open("ROOM01".to_string(), 1000);
    let mut a = Auth::issue("A".to_string(), 1000);
    let idle = Auth::issue("IDLE".to_string(), 1000);
    room.join_room(&mut a, 1000);
    let listing = vec![
        Listed { key: room.storage_key(), attributes: room.meta.to_map() },
        Listed { key: a.storage_key(), attributes: a.meta.to_map() },
        Listed { key: idle.storage_key(), attributes: idle.meta.to_map() },
    ];
    assert_eq!(sweep(&listing, 1019), Ok(vec![]));
    assert_eq!(sweep(&listing, 1020), Ok(vec!["auth:IDLE".to_string()]));
    assert_eq!(
        sweep(&listing, 1021),
        Ok(vec!["room:ROOM01".to_string(), "auth:A".to_string(), "auth:IDLE".to_string()])
    );
}

#[test]
fn clock_entry_points() {
    let now = clock::now().expect("the clock shows a time after 1970");
    assert!(now > 1_600_000_000);

    let auth = clock::issue("TOKEN".to_string()).unwrap();
    let kill_at = auth.meta.kill_at.unwrap();
    assert!(kill_at >= now + 20 && kill_at <= now + 25);
    assert_eq!(auth.key, "TOKEN");

    let room = clock::open_room("ROOM01".to_string()).unwrap();
    assert!(room.meta.offer.next_poll >= now + 1 && room.meta.offer.next_poll <= now + 6);

    let mut search = clock::search_token().unwrap();
    assert_eq!(search.resolve(false).unwrap().len(), 32);
    let mut search = clock::search_code().unwrap();
    assert_eq!(search.resolve(false).unwrap().len(), 6);

    let session = begin(Some("TOKEN".to_string()), vec![]).unwrap().on_user(Some(auth)).unwrap();
    let done = clock::settle(session, Some(room)).unwrap();
    assert_eq!(done.response.len(), 2);
    assert_eq!(done.response[0], join("ROOM01"));

    let listing = vec![listed("auth:OLD", &[("kill_at", "5")]), listed("auth:NEW", &[("kill_at", "99999999999")])];
    assert_eq!(clock::sweep_now(&listing), Some(Ok(vec!["auth:OLD".to_string()])));
}

#[test]
fn readings_of_the_clock() {
    assert_eq!(clock::usable_time(None), None);
    assert_eq!(clock::usable_time(Some(0)), Some(0));
    assert_eq!(clock::usable_time(Some(1_700_000_000)), Some(1_700_000_000));
    // The slow delay and the grace period, 30 s together, must fit.
    assert_eq!(clock::usable_time(Some(u64::MAX - 30)), Some(u64::MAX - 30));
    assert_eq!(clock::usable_time(Some(u64::MAX - 29)), None);
    assert_eq!(clock::usable_time(Some(u64::MAX)), None);
}

#[test]
fn records_are_made_for_the_time_of_a_reading() {
    let auth = clock::issue_at("TOKEN".to_string(), Some(1000)).unwrap();
    assert_eq!(auth.key, "TOKEN");
    assert_eq!(auth.meta.kill_at, Some(1020));
    assert_eq!(auth.get_room(), None);
    assert!(auth.modified);
    assert!(clock::issue_at("TOKEN".to_string(), None).is_none());
    assert!(clock::issue_at("TOKEN".to_string(), Some(u64::MAX - 5)).is_none());

    let room = clock::open_room_at("ROOM01".to_string(), Some(1000)).unwrap();
    assert_eq!(room.key, "ROOM01");
    assert_eq!(room.meta.offer.next_poll, 1001);
    assert!(room.meta.answer.is_none());
    assert!(room.is_wf());
    assert!(clock::open_room_at("ROOM01".to_string(), None).is_none());
    assert!(clock::open_room_at("ROOM01".to_string(), Some(u64::MAX)).is_none());
}

#[test]
fn searches_begin_at_the_time_of_a_reading() {
    let mut search = clock::search_at::<chessagon::auth::AuthInfo>(Some(1000)).unwrap();
    assert_eq!(search.probe().len(), 5 + 32);
    assert_eq!(search.resolve(false).unwrap().len(), 32);
    let mut search = clock::search_at::<chessagon::room::RoomInfo>(Some(0)).unwrap();
    assert_eq!(search.resolve(false).unwrap().len(), 6);
    assert!(clock::search_at::<chessagon::auth::AuthInfo>(None).is_none());
    assert!(clock::search_at::<chessagon::room::RoomInfo>(Some(u64::MAX)).is_none());
}

#[test]
fn sweeps_are_made_for_the_time_of_a_reading() {
    let listing = vec![
        listed("auth:OLD", &[("kill_at", "1000")]),
        listed("auth:NEW", &[("kill_at", "2000")]),
    ];
    assert_eq!(clock::sweep_at(&listing, Some(999)), Some(Ok(vec![])));
    assert_eq!(clock::sweep_at(&listing, Some(1000)), Some(Ok(vec!["auth:OLD".to_string()])));
    assert_eq!(
        clock::sweep_at(&listing, Some(2000)),
        Some(Ok(vec!["auth:OLD".to_string(), "auth:NEW".to_string()]))
    );
    assert_eq!(clock::sweep_at(&listing, None), None);
    assert_eq!(clock::sweep_at(&listing, Some(u64::MAX)), None);
    let bad = vec![listed("auth:BAD", &[])];
    assert_eq!(
        clock::sweep_at(&bad, Some(5)),
        Some(Err(SweepError::Attributes(MetaError::Missing)))
    );
}
