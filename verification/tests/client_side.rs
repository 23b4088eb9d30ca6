use chessagon::buffer::Buffer;
use chessagon::client::{to_signed, Client, PingRequest, PING_INTERVAL};
use chessagon::connector::{ConnectFault, Negotiation, Role, Stage, Step};
use chessagon::controller::{Controller, Side};
use chessagon::glue::{
    Button, ChatNote, Command, Event, Fault, JoinOutcome, JsEvent, PeerError,
};
use chessagon::interface::{new_name, InterfacesManager, Scene};
use chessagon::packet::{
    ChatMessage, ChessPacket, Handshake, Movement, ParseError, Ping, Promote, Resign, SetBoard,
    SetSettings, Start,
};
use chessagon::piece::{Color, Piece, PieceKind};
use chessagon::signal::Signal;
use chessagon::signal_client::{to_instant, SignalClient, DEFAULT_DELAY};
use chessagon::utils::Gamemode;

fn emit(event: Event) -> Command {
    Command::Emit(event)
}

fn piece(idx: u8, kind: PieceKind, color: Color, q: u8, r: u8) -> Piece {
    Piece { idx, kind, color, q, r }
}

#[test]
fn buttons_and_scenes() {
    for (value, button) in [(0, Button::Resign), (1, Button::PlayAgain), (2, Button::LeaveRoom)] {
        assert_eq!(Button::from_u8(value), Some(button));
        assert_eq!(button.to_u8(), value);
    }
    assert_eq!(Button::from_u8(3), None);
    let scenes = [
        (-2, Scene::Loading),
        (-1, Scene::Canvas),
        (0, Scene::Gamemode),
        (1, Scene::Register),
        (2, Scene::Online),
        (3, Scene::Settings),
    ];
    for (value, scene) in scenes {
        assert_eq!(Scene::from_i8(value), Some(scene));
        assert_eq!(scene.to_i8(), value);
    }
    assert_eq!(Scene::from_i8(4), None);
    assert_eq!(Scene::from_i8(-3), None);
    assert_eq!(JoinOutcome::Success.as_str(), "success");
    assert_eq!(JoinOutcome::NotFound.as_str(), "not-found");
    assert_eq!(PeerError::GuestStartsMatch.as_str(), "guest can't start match.");
    assert_eq!(PeerError::GuestLoadsBoard.as_str(), "guest can't load board");
    assert_eq!(PeerError::GuestSetsSettings.as_str(), "guest can't set settings");
    assert_eq!(PeerError::UnhandledPing.as_str(), "unhandled ping: is peer disconnected?");
}

#[test]
fn events_from_the_page() {
    assert_eq!(Event::from_js(JsEvent::Start, &[]), Some(Event::Start));
    assert_eq!(Event::from_js(JsEvent::Start, &[1, 2]), Some(Event::Start));
    assert_eq!(Event::from_js(JsEvent::CreateRoom, &[]), Some(Event::CreateRoom));
    assert_eq!(Event::from_js(JsEvent::TimerExpired, &[]), Some(Event::TimerExpired));
    assert_eq!(Event::from_js(JsEvent::SetGamemode, &[1]), Some(Event::SetGamemode(1)));
    assert_eq!(Event::from_js(JsEvent::SetGamemode, &[]), None);
    assert_eq!(
        Event::from_js(JsEvent::Register, b"ann"),
        Some(Event::Register("ann".to_string()))
    );
    assert_eq!(Event::from_js(JsEvent::Register, b""), Some(Event::Register(String::new())));
    assert_eq!(
        Event::from_js(JsEvent::JoinRoom, b"ROOM01"),
        Some(Event::JoinRoom("ROOM01".to_string()))
    );
    assert_eq!(
        Event::from_js(JsEvent::SetSettings, &[1, 44, 1]),
        Some(Event::SetSettings { timer: 300, host_as_light: true })
    );
    assert_eq!(
        Event::from_js(JsEvent::SetSettings, &[0, 0, 0]),
        Some(Event::SetSettings { timer: 0, host_as_light: false })
    );
    assert_eq!(Event::from_js(JsEvent::SetSettings, &[1, 44]), None);
    assert_eq!(Event::from_js(JsEvent::SetSettings, &[1]), None);
    assert_eq!(
        Event::from_js(JsEvent::SendMessage, "hé".as_bytes()),
        Some(Event::ChatMessage { is_local: true, content: "hé".to_string() })
    );
    assert_eq!(Event::from_js(JsEvent::MenuHidden, &[3]), Some(Event::MenuHidden(3)));
    assert_eq!(Event::from_js(JsEvent::MenuHidden, &[]), None);
    assert_eq!(
        Event::from_js(JsEvent::HexClicked, &[5, 6]),
        Some(Event::HexClicked { q: 5, r: 6 })
    );
    assert_eq!(Event::from_js(JsEvent::HexClicked, &[5]), None);
    assert_eq!(
        Event::from_js(JsEvent::GameButtonClick, &[2]),
        Some(Event::GameButtonClick(Button::LeaveRoom))
    );
    assert_eq!(Event::from_js(JsEvent::GameButtonClick, &[3]), None);
    assert_eq!(Event::from_js(JsEvent::GameButtonClick, &[]), None);
    assert_eq!(
        Event::from_js(JsEvent::PromotionResponse, &[1]),
        Some(Event::PromotionResponse(1))
    );
    assert_eq!(Event::from_js(JsEvent::PromotionResponse, &[]), None);
}

#[test]
fn names_are_a_word_of_each_list() {
    let mut rng = <rand::rngs::SmallRng as rand::SeedableRng>::seed_from_u64(1);
    let left = ["red", "blue"];
    let right = ["fox", "owl", "elk"];
    for _ in 0..20 {
        let name = new_name(&mut rng, &left, &right).unwrap();
        let (first, second) = name.split_once('-').unwrap();
        assert!(left.contains(&first));
        assert!(right.contains(&second));
    }
    assert_eq!(new_name(&mut rng, &[], &right), None);
    assert_eq!(new_name(&mut rng, &left, &[]), None);
    assert_eq!(new_name(&mut rng, &["a"], &["b"]), Some("a-b".to_string()));
}

#[test]
fn scenes_follow_the_events() {
    let mut page = InterfacesManager::new("ann".to_string());
    assert_eq!((page.gamemode, page.scene), (Gamemode::Solo, Scene::Gamemode));
    assert_eq!(
        page.on_event(&Event::Start),
        Ok(vec![
            Command::SetPlayerName { is_self: true, name: "ann".to_string() },
            Command::SetScene(0),
        ])
    );
    assert_eq!(page.on_event(&Event::SetGamemode(1)), Ok(vec![Command::SetScene(1)]));
    assert_eq!((page.gamemode, page.scene), (Gamemode::Online, Scene::Register));
    assert_eq!(
        page.on_event(&Event::Register("bob".to_string())),
        Ok(vec![
            Command::SetPlayerName { is_self: true, name: "bob".to_string() },
            Command::SetScene(2),
        ])
    );
    assert_eq!(page.name, "bob");
    assert_eq!(
        page.on_event(&Event::JoinedRoom { code: "ROOM01".to_string(), is_host: true }),
        Ok(vec![
            Command::AddChatMessage(ChatNote::JoinRoom("ROOM01".to_string())),
            Command::SetScene(3),
        ])
    );
    assert_eq!(
        page.on_event(&Event::SetSettings { timer: 0, host_as_light: true }),
        Ok(vec![Command::SetScene(-1)])
    );
    assert_eq!(page.scene, Scene::Canvas);
    assert_eq!(page.on_event(&Event::MenuHidden(0)), Err(Fault::CannotCloseMenu));
    assert_eq!(
        page.on_event(&Event::GameButtonClick(Button::PlayAgain)),
        Ok(vec![Command::SetScene(3)])
    );
    assert_eq!(page.on_event(&Event::GameButtonClick(Button::Resign)), Ok(vec![]));
    assert_eq!(
        page.on_event(&Event::JoinedRoom { code: "ROOM02".to_string(), is_host: false }),
        Ok(vec![
            Command::AddChatMessage(ChatNote::JoinRoom("ROOM02".to_string())),
            Command::JoinResponse(JoinOutcome::Success),
            Command::SetScene(-1),
        ])
    );
    assert_eq!(
        page.on_event(&Event::NetError),
        Ok(vec![Command::JoinResponse(JoinOutcome::NotFound)])
    );
    assert_eq!(page.on_event(&Event::SetGamemode(3)), Err(Fault::InvalidGamemode));
    assert_eq!(page.on_event(&Event::TimerExpired), Ok(vec![]));
}

#[test]
fn closing_a_menu_goes_back() {
    let mut page = InterfacesManager::new("ann".to_string());
    page.scene = Scene::Settings;
    assert_eq!(page.on_event(&Event::MenuHidden(3)), Ok(vec![Command::SetScene(0)]));
    page.gamemode = Gamemode::Online;
    page.scene = Scene::Settings;
    assert_eq!(page.on_event(&Event::MenuHidden(3)), Ok(vec![Command::SetScene(2)]));
    assert_eq!(page.on_event(&Event::MenuHidden(2)), Ok(vec![Command::SetScene(1)]));
    assert_eq!(
        page.on_event(&Event::MenuHidden(1)),
        Ok(vec![emit(Event::Disconnected), Command::SetScene(0)])
    );
    assert_eq!(page.on_event(&Event::MenuHidden(0)), Err(Fault::CannotCloseMenu));
    page.scene = Scene::Loading;
    assert_eq!(page.on_event(&Event::MenuHidden(0)), Err(Fault::CannotCloseMenu));
}

#[test]
fn instants_of_wall_clock_times() {
    // The wall clock shows 1000.5 s at the instant 700.
    assert_eq!(to_instant(1005, 1_000_500, 700), 700 + 4_500);
    assert_eq!(to_instant(1000, 1_000_500, 700), 700);
    assert_eq!(to_instant(0, 1_000_500, 700), 700);
    assert_eq!(to_instant(1001, 1_000_500, 700), 1_200);
    assert_eq!(to_instant(u64::MAX, 0, 0), u64::MAX);
    assert_eq!(to_instant(u64::MAX / 1000 + 1, u64::MAX, 5), 5 + 385);
    assert_eq!(to_instant(2, 1_000, u64::MAX), u64::MAX);
    assert_eq!(DEFAULT_DELAY, 10_000);
}

#[test]
fn signal_client_takes_what_the_broker_tells() {
    let mut client = SignalClient::new("https://broker", 50);
    assert_eq!(client.url, "https://broker");
    assert_eq!(client.next_poll, 50);
    assert_eq!(client.room, "");
    client.handle_signals(
        vec![
            Signal::JoinRoom("ROOM01".to_string()),
            Signal::SetSDP("first".to_string()),
            Signal::AddCandidate(("a".to_string(), Some("0".to_string()), Some(0))),
            Signal::SetSDP("second".to_string()),
            Signal::AddCandidate((String::new(), None, None)),
            Signal::ConnectAt(1010),
            Signal::NextPoll(1001),
        ],
        1_000_000,
        700,
    );
    assert_eq!(client.room, "ROOM01");
    assert_eq!(client.peer_sdp, Some("second".to_string()));
    assert_eq!(
        client.peer_ice,
        vec![("a".to_string(), Some("0".to_string()), Some(0)), (String::new(), None, None)]
    );
    assert_eq!(client.connect_at, Some(10_700));
    assert_eq!(client.next_poll, 1_700);

    client.handle_signals(vec![Signal::NextPoll(999)], 1_000_000, 800);
    assert_eq!(client.next_poll, 800);
    assert_eq!(client.connect_at, Some(10_700));
    assert_eq!(client.room, "ROOM01");
    assert_eq!(client.peer_ice.len(), 2);
    client.handle_signals(vec![], 0, 0);
    assert_eq!(client.next_poll, 800);
}

#[test]
fn signal_client_queues_what_is_to_be_sent() {
    let mut client = SignalClient::new("u", 0);
    client.send_join_room("ROOM01".to_string());
    client.send_sdp("sdp".to_string());
    client.send_ice(vec![
        ("a".to_string(), None, Some(1)),
        ("b".to_string(), Some("m".to_string()), None),
        (String::new(), None, None),
    ]);
    client.send_ice(vec![]);
    let sent = client.poll();
    assert_eq!(
        sent,
        vec![
            Signal::JoinRoom("ROOM01".to_string()),
            Signal::SetSDP("sdp".to_string()),
            Signal::AddCandidate(("a".to_string(), None, Some(1))),
            Signal::AddCandidate(("b".to_string(), Some("m".to_string()), None)),
            Signal::AddCandidate((String::new(), None, None)),
        ]
    );
    assert_eq!(client.poll(), vec![]);
    client.wait_for_poll(5_000);
    assert_eq!(client.next_poll, 15_000);
    client.wait_for_poll(u64::MAX - 1);
    assert_eq!(client.next_poll, u64::MAX);
}

#[test]
fn signed_bytes() {
    assert_eq!(to_signed(0), 0);
    assert_eq!(to_signed(127), 127);
    assert_eq!(to_signed(128), -128);
    assert_eq!(to_signed(255), -1);
    assert_eq!(to_signed(254), -2);
}

#[test]
fn client_connects_and_sends() {
    let mut client = Client::new(7);
    assert_eq!(client.name, "unknown");
    assert_eq!(client.on_event(&Event::Start, 0), Ok(vec![Command::StartPinging(PING_INTERVAL)]));
    assert_eq!(PING_INTERVAL, 5_000);
    assert_eq!(client.on_event(&Event::Register("ann".to_string()), 0), Ok(vec![]));
    assert_eq!(client.name, "ann");

    assert_eq!(client.on_event(&Event::CreateRoom, 0), Ok(vec![Command::StartAsHost]));
    assert!(client.is_host && client.connecting);
    assert_eq!(
        client.on_event(&Event::JoinRoom("ROOM01".to_string()), 0),
        Ok(vec![Command::Kill, Command::StartAsGuest("ROOM01".to_string())])
    );
    assert!(!client.is_host && client.connecting);
    assert_eq!(client.on_event(&Event::CreateRoom, 0), Ok(vec![Command::Kill, Command::StartAsHost]));

    // Before the connection is open, the host's packets wait.
    assert_eq!(
        client.on_event(&Event::SetSettings { timer: 60, host_as_light: false }, 0),
        Ok(vec![])
    );
    assert_eq!(client.on_event(&Event::LoadedBoard(vec![1, 2]), 0), Ok(vec![]));
    assert_eq!(client.queue.len(), 2);
    assert_eq!(
        client.on_event(
            &Event::ChatMessage { is_local: true, content: "lost".to_string() },
            0
        ),
        Ok(vec![])
    );
    assert_eq!(client.on_event(&Event::GameStart, 0), Err(Fault::NoConnection));

    assert_eq!(
        client.on_open(),
        vec![
            emit(Event::Connected),
            Command::Send(ChessPacket::Handshake(Handshake { name: "ann".to_string() })),
        ]
    );
    assert_eq!(
        client.on_event(&Event::Connected, 0),
        Ok(vec![
            Command::Send(ChessPacket::SetSettings(SetSettings { timer: 60, host_as_light: false })),
            Command::Send(ChessPacket::SetBoard(SetBoard { board: vec![1, 2] })),
        ])
    );
    assert!(client.connected && client.queue.is_empty());

    assert_eq!(
        client.on_event(&Event::GameStart, 0),
        Ok(vec![Command::Send(ChessPacket::Start(Start {}))])
    );
    assert_eq!(
        client.on_event(&Event::SetSettings { timer: 5, host_as_light: true }, 0),
        Ok(vec![Command::Send(ChessPacket::SetSettings(SetSettings { timer: 5, host_as_light: true }))])
    );
    assert_eq!(
        client.on_event(&Event::ChatMessage { is_local: true, content: "hi".to_string() }, 0),
        Ok(vec![Command::Send(ChessPacket::ChatMessage(ChatMessage { content: "hi".to_string() }))])
    );
    assert_eq!(
        client.on_event(&Event::ChatMessage { is_local: false, content: "hi".to_string() }, 0),
        Ok(vec![])
    );
    assert_eq!(
        client.on_event(&Event::Movement { piece: 3, to: (4, 5), is_local: true }, 0),
        Ok(vec![Command::Send(ChessPacket::Movement(Movement {
            idx: 3,
            q: 4,
            r: 5,
            time_left: None
        }))])
    );
    assert_eq!(
        client.on_event(&Event::Movement { piece: 3, to: (4, 5), is_local: false }, 0),
        Ok(vec![])
    );
    assert_eq!(
        client.on_event(&Event::Resign(true), 0),
        Ok(vec![Command::Send(ChessPacket::Resign(Resign {}))])
    );
    assert_eq!(client.on_event(&Event::Resign(false), 0), Ok(vec![]));
    assert_eq!(
        client.on_event(&Event::Promotion { piece: 1, kind: 2, is_local: true }, 0),
        Ok(vec![Command::Send(ChessPacket::Promote(Promote { idx: 1, kind: 2 }))])
    );

    assert_eq!(
        client.on_event(&Event::Disconnected, 0),
        Ok(vec![Command::Kill, Command::Close])
    );
    assert!(!client.connected && !client.connecting);
    assert_eq!(client.on_event(&Event::Disconnected, 0), Ok(vec![]));
}

#[test]
fn client_guest_does_not_send_the_hosts_packets() {
    let mut client = Client::new(7);
    client.connected = true;
    assert_eq!(client.on_event(&Event::GameStart, 0), Ok(vec![]));
    assert_eq!(client.on_event(&Event::LoadedBoard(vec![1]), 0), Ok(vec![]));
    assert_eq!(
        client.on_event(&Event::SetSettings { timer: 5, host_as_light: true }, 0),
        Ok(vec![])
    );
    assert!(client.queue.is_empty());
}

#[test]
fn client_kills_the_attempt_when_menus_close() {
    let mut client = Client::new(7);
    client.connecting = true;
    assert_eq!(client.on_event(&Event::MenuHidden(2), 0), Ok(vec![]));
    assert_eq!(client.on_event(&Event::MenuHidden(255), 0), Ok(vec![]));
    assert_eq!(client.on_event(&Event::MenuHidden(4), 0), Err(Fault::InvalidScene));
    assert_eq!(client.on_event(&Event::MenuHidden(3), 0), Ok(vec![Command::Kill]));
    assert!(!client.connecting);
    assert_eq!(client.on_event(&Event::MenuHidden(3), 0), Ok(vec![]));
    client.connecting = true;
    assert_eq!(
        client.on_event(&Event::GameButtonClick(Button::LeaveRoom), 0),
        Ok(vec![Command::Kill])
    );
    assert_eq!(client.on_event(&Event::GameButtonClick(Button::Resign), 0), Ok(vec![]));
}

#[test]
fn client_pings() {
    let mut client = Client::new(7);
    assert_eq!(client.on_event(&Event::PingRequest, 100), Ok(vec![]));
    client.connected = true;
    let sent = client.on_event(&Event::PingRequest, 100).unwrap();
    let request = client.ping.expect("a probe is under way");
    assert_eq!(request.sent_at, 100);
    assert_eq!(
        sent,
        vec![Command::Send(ChessPacket::Ping(Ping { request: Some(request.id), reply_to: None }))]
    );
    // A second request while the first is not answered gives the peer up.
    assert_eq!(
        client.on_event(&Event::PingRequest, 5_100),
        Ok(vec![Command::LogError(PeerError::UnhandledPing), emit(Event::Disconnected)])
    );
    // The answer to another probe is ignored.
    let other = ChessPacket::Ping(Ping { request: None, reply_to: Some(request.id.wrapping_add(1)) });
    assert_eq!(client.handle_packet(&other, 130), Ok(vec![]));
    assert!(client.ping.is_some());
    let answer = ChessPacket::Ping(Ping { request: Some(9), reply_to: Some(request.id) });
    assert_eq!(
        client.on_event(&Event::PacketReceived(answer), 142),
        Ok(vec![
            Command::Send(ChessPacket::Ping(Ping { request: None, reply_to: Some(9) })),
            Command::AddRtt(42),
        ])
    );
    assert_eq!(client.ping, None);

    client.ping = Some(PingRequest { id: 1, sent_at: 500 });
    let answer = ChessPacket::Ping(Ping { request: None, reply_to: Some(1) });
    assert_eq!(client.handle_packet(&answer, 400), Ok(vec![Command::AddRtt(0)]));
    client.ping = Some(PingRequest { id: 1, sent_at: 0 });
    assert_eq!(client.handle_packet(&answer, 1 << 31), Err(Fault::RttOverflow));
    assert_eq!(
        client.handle_packet(&answer, (1 << 31) - 1),
        Ok(vec![Command::AddRtt(i32::MAX)])
    );
}

#[test]
fn client_hands_on_the_packets_of_the_peer() {
    let mut client = Client::new(7);
    let start = ChessPacket::Start(Start {});
    assert_eq!(client.handle_packet(&start, 0), Err(Fault::NoConnection));
    client.connected = true;
    assert_eq!(client.handle_packet(&start, 0), Ok(vec![emit(Event::GameStart)]));
    assert_eq!(
        client.handle_packet(&ChessPacket::Handshake(Handshake { name: "bob".to_string() }), 0),
        Ok(vec![
            Command::SetPlayerName { is_self: false, name: "bob".to_string() },
            emit(Event::Handshake("bob".to_string())),
        ])
    );
    assert_eq!(
        client.handle_packet(&ChessPacket::ChatMessage(ChatMessage { content: "yo".to_string() }), 0),
        Ok(vec![emit(Event::ChatMessage { is_local: false, content: "yo".to_string() })])
    );
    assert_eq!(
        client.handle_packet(
            &ChessPacket::Movement(Movement { idx: 1, q: 2, r: 3, time_left: Some(9) }),
            0
        ),
        Ok(vec![emit(Event::Movement { piece: 1, to: (2, 3), is_local: false })])
    );
    assert_eq!(
        client.handle_packet(&ChessPacket::Resign(Resign {}), 0),
        Ok(vec![emit(Event::Resign(false))])
    );
    assert_eq!(
        client.handle_packet(&ChessPacket::SetBoard(SetBoard { board: vec![7] }), 0),
        Ok(vec![emit(Event::LoadedBoard(vec![7]))])
    );
    assert_eq!(
        client.handle_packet(
            &ChessPacket::SetSettings(SetSettings { timer: 9, host_as_light: true }),
            0
        ),
        Ok(vec![emit(Event::SetSettings { timer: 9, host_as_light: true })])
    );
    assert_eq!(
        client.handle_packet(&ChessPacket::Promote(Promote { idx: 4, kind: 1 }), 0),
        Ok(vec![emit(Event::Promotion { piece: 4, kind: 1, is_local: false })])
    );

    // A host does not take orders from its guest.
    client.is_host = true;
    for (packet, error) in [
        (ChessPacket::Start(Start {}), PeerError::GuestStartsMatch),
        (ChessPacket::SetBoard(SetBoard { board: vec![] }), PeerError::GuestLoadsBoard),
        (
            ChessPacket::SetSettings(SetSettings { timer: 0, host_as_light: true }),
            PeerError::GuestSetsSettings,
        ),
    ] {
        assert_eq!(
            client.handle_packet(&packet, 0),
            Ok(vec![Command::LogError(error), emit(Event::Disconnected)])
        );
    }
}

#[test]
fn client_reads_the_bytes_of_the_peer() {
    assert_eq!(
        Client::on_message(Buffer::from_slice(&[0, 4])),
        vec![emit(Event::PacketReceived(ChessPacket::Resign(Resign {})))]
    );
    assert_eq!(
        Client::on_message(Buffer::from_slice(&[3, 4])),
        vec![
            Command::LogParseError(ParseError::VersionMismatch(3, 0)),
            emit(Event::Disconnected),
        ]
    );
}

fn solo_game() -> Controller {
    let mut game = Controller::new();
    assert_eq!(game.on_event(&Event::SetGamemode(0), 0), Ok(vec![Command::HideChat]));
    let commands = game.on_event(&Event::SetSettings { timer: 0, host_as_light: true }, 0).unwrap();
    assert_eq!(commands.len(), 2);
    assert_eq!(commands[0], Command::SetBoardPerspective(true));
    let board = match &commands[1] {
        Command::Emit(Event::LoadedBoard(board)) => board.clone(),
        other => panic!("unexpected command {:?}", other),
    };
    assert_eq!(board.len(), 36);
    assert_eq!(
        game.on_event(&Event::LoadedBoard(board.clone()), 0),
        Ok(vec![Command::SetPieces(board), Command::Highlight(vec![]), emit(Event::GameStart)])
    );
    assert_eq!(
        game.on_event(&Event::GameStart, 0),
        Ok(vec![
            Command::RemoveTimers,
            Command::RemoveTimers,
            Command::AddChatMessage(ChatNote::GameStart),
            Command::ShowButtons(vec![2]),
        ])
    );
    assert_eq!(game.turn, Some(Color::Light));
    game
}

#[test]
fn controller_starts_a_solo_game() {
    let game = solo_game();
    assert!(game.is_solo && game.loaded_board);
    assert_eq!(game.board.pieces.len(), 36);
    assert_eq!(game.color, Color::Light);
    assert_eq!(game.timer, None);
}

#[test]
fn controller_selects_and_moves() {
    let mut game = solo_game();
    // A click on the light pawn on (9, 6) selects it.
    assert_eq!(
        game.on_event(&Event::HexClicked { q: 9, r: 6 }, 0),
        Ok(vec![Command::Highlight(vec![0x0194, 0x0195, 0x0196])])
    );
    assert_eq!(game.selected_hex, Some((9, 6)));
    // A click on the same hex takes the selection back.
    assert_eq!(game.on_event(&Event::HexClicked { q: 9, r: 6 }, 0), Ok(vec![Command::Highlight(vec![])]));
    assert_eq!(game.selected_hex, None);
    // A click on a dark piece selects nothing.
    assert_eq!(game.on_event(&Event::HexClicked { q: 9, r: 0 }, 0), Ok(vec![Command::Highlight(vec![])]));
    assert_eq!(game.selected_hex, None);

    game.on_event(&Event::HexClicked { q: 9, r: 6 }, 0).unwrap();
    assert_eq!(
        game.on_event(&Event::HexClicked { q: 9, r: 4 }, 0),
        Ok(vec![
            emit(Event::Movement { piece: 17, to: (9, 4), is_local: true }),
            Command::Highlight(vec![]),
        ])
    );
    assert_eq!(game.selected_hex, None);
    assert_eq!(
        game.on_event(&Event::Movement { piece: 17, to: (9, 4), is_local: true }, 0),
        Ok(vec![Command::MovePieces(vec![0x1194]), Command::Highlight(vec![])])
    );
    assert_eq!((game.board.pieces[17].q, game.board.pieces[17].r), (9, 4));
    // In a solo game the player plays the side whose turn it is.
    assert_eq!(game.turn, Some(Color::Dark));
    assert_eq!(game.color, Color::Dark);
}

#[test]
fn controller_refuses_moves_that_do_not_count() {
    let mut game = solo_game();
    let before = game.board.describe();
    // The piece is of the other side, moves against the rules, or is none.
    for (idx, to) in [(35, (9, 1)), (17, (9, 3)), (17, (8, 6)), (200, (5, 5))] {
        assert_eq!(
            game.on_event(&Event::Movement { piece: idx, to, is_local: true }, 0),
            Ok(vec![emit(Event::Disconnected)])
        );
    }
    // What the peer does on the player's turn does not count.
    game.is_solo = false;
    assert_eq!(
        game.on_event(&Event::Movement { piece: 17, to: (9, 5), is_local: false }, 0),
        Ok(vec![emit(Event::Disconnected)])
    );
    assert_eq!(game.board.describe(), before);
    assert_eq!(game.turn, Some(Color::Light));
    // While no game is on, only the peer is given up.
    game.turn = None;
    assert_eq!(
        game.on_event(&Event::Movement { piece: 17, to: (9, 5), is_local: true }, 0),
        Ok(vec![])
    );
    assert_eq!(
        game.on_event(&Event::Movement { piece: 17, to: (9, 5), is_local: false }, 0),
        Ok(vec![emit(Event::Disconnected)])
    );
    assert_eq!(
        game.on_event(&Event::Promotion { piece: 17, kind: 1, is_local: false }, 0),
        Ok(vec![emit(Event::Disconnected)])
    );
}

#[test]
fn controller_runs_the_timers() {
    let mut game = Controller::new();
    game.on_event(&Event::SetGamemode(0), 0).unwrap();
    game.on_event(&Event::SetSettings { timer: 300, host_as_light: true }, 0).unwrap();
    assert_eq!(game.timer, Some(300_000));
    let board = game.board.describe();
    game.on_event(&Event::LoadedBoard(board), 0).unwrap();
    assert_eq!(
        game.on_event(&Event::GameStart, 1_000),
        Ok(vec![
            Command::RemoveTimers,
            Command::SetTimers { light: 300, dark: 300, active: -1 },
            Command::AddChatMessage(ChatNote::GameStart),
            Command::ShowButtons(vec![2]),
        ])
    );
    // The first move starts the time of the dark side.
    assert_eq!(
        game.on_event(&Event::Movement { piece: 17, to: (9, 5), is_local: true }, 5_000),
        Ok(vec![
            Command::MovePieces(vec![0x1195]),
            Command::Highlight(vec![]),
            Command::SetTimers { light: 300, dark: 300, active: 1 },
        ])
    );
    assert_eq!(game.dark.time_active_at, Some(5_000));
    // The dark side takes 12.5 s.
    assert_eq!(
        game.on_event(&Event::Movement { piece: 35, to: (9, 1), is_local: true }, 17_500),
        Ok(vec![
            Command::MovePieces(vec![0x2391]),
            Command::Highlight(vec![]),
            Command::SetTimers { light: 300, dark: 287, active: 0 },
        ])
    );
    assert_eq!(game.dark, Side { color: Color::Dark, time_left: Some(287_500), time_active_at: None });
    assert_eq!(game.light.time_active_at, Some(17_500));

    assert_eq!(
        game.on_event(&Event::TimerExpired, 400_000),
        Ok(vec![
            Command::AddChatMessage(ChatNote::TimerExpired { is_light: true }),
            emit(Event::GameEnded { won_light: false }),
        ])
    );
    // The light side has used more time than it had.
    assert_eq!(
        game.on_event(&Event::GameEnded { won_light: false }, 400_000),
        Err(Fault::TimeOverrun)
    );
}

#[test]
fn controller_ends_the_game() {
    let mut game = Controller::new();
    game.on_event(&Event::SetGamemode(0), 0).unwrap();
    game.on_event(&Event::SetSettings { timer: 10, host_as_light: true }, 0).unwrap();
    game.on_event(&Event::GameStart, 0).unwrap();
    game.light.time_active_at = Some(2_000);
    assert_eq!(
        game.on_event(&Event::GameEnded { won_light: true }, 5_500),
        Ok(vec![
            Command::SetTimers { light: 6, dark: 10, active: -1 },
            Command::AddChatMessage(ChatNote::GameEnd { won_light: true }),
            Command::ShowButtons(vec![2, 1]),
        ])
    );
    assert_eq!(game.turn, None);
    assert_eq!(game.light.time_left, Some(6_500));

    let mut guest = Controller::new();
    guest.on_event(&Event::SetGamemode(1), 0).unwrap();
    assert_eq!(
        guest.on_event(&Event::GameEnded { won_light: false }, 0),
        Ok(vec![
            Command::RemoveTimers,
            Command::AddChatMessage(ChatNote::GameEnd { won_light: false }),
            Command::ShowButtons(vec![2]),
        ])
    );
    guest.light.time_active_at = Some(10);
    assert_eq!(guest.on_event(&Event::GameEnded { won_light: false }, 5), Err(Fault::TimeTravel));
    assert_eq!(guest.on_event(&Event::GameEnded { won_light: false }, 20), Err(Fault::NoTimeLeft));
}

#[test]
fn controller_captures_the_king_and_ends_the_game() {
    let mut game = solo_game();
    game.board.pieces = vec![
        piece(0, PieceKind::Rook, Color::Light, 5, 5),
        piece(1, PieceKind::King, Color::Light, 6, 9),
        piece(2, PieceKind::King, Color::Dark, 5, 1),
    ];
    assert_eq!(
        game.on_event(&Event::Movement { piece: 0, to: (5, 1), is_local: true }, 0),
        Ok(vec![
            Command::MovePieces(vec![0x0200, 0x0051]),
            Command::Highlight(vec![]),
            emit(Event::GameEnded { won_light: true }),
        ])
    );
    assert!(game.board.pieces[2].is_captured());
    assert_eq!(game.turn, Some(Color::Light));
}

#[test]
fn controller_shows_check() {
    let mut game = solo_game();
    game.board.pieces = vec![
        piece(0, PieceKind::Rook, Color::Light, 4, 5),
        piece(1, PieceKind::King, Color::Light, 6, 9),
        piece(2, PieceKind::King, Color::Dark, 5, 1),
    ];
    assert_eq!(
        game.on_event(&Event::Movement { piece: 0, to: (5, 5), is_local: true }, 0),
        Ok(vec![Command::MovePieces(vec![0x0055]), Command::Highlight(vec![0x0251])])
    );
    assert_eq!(game.turn, Some(Color::Dark));
}

#[test]
fn controller_promotes_pawns() {
    let mut game = solo_game();
    game.board.pieces = vec![
        piece(0, PieceKind::Pawn, Color::Light, 7, 1),
        piece(1, PieceKind::King, Color::Light, 6, 9),
        piece(2, PieceKind::King, Color::Dark, 2, 8),
    ];
    assert_eq!(
        game.on_event(&Event::Movement { piece: 0, to: (7, 0), is_local: true }, 0),
        Ok(vec![
            Command::MovePieces(vec![0x0070]),
            Command::Highlight(vec![]),
            emit(Event::PromotionPrompt(0)),
        ])
    );
    // The turn waits for the promotion.
    assert_eq!(game.turn, Some(Color::Light));
    assert_eq!(
        game.on_event(&Event::PromotionPrompt(0), 0),
        Ok(vec![Command::ShowPromotionPrompt { color: 0, q: 7, r: 0 }])
    );
    assert_eq!(game.promoting, Some(0));
    assert_eq!(game.on_event(&Event::PromotionPrompt(9), 0), Ok(vec![]));
    // While the player is asked, clicks on the board do nothing.
    assert_eq!(game.on_event(&Event::HexClicked { q: 6, r: 9 }, 0), Ok(vec![]));
    assert_eq!(
        game.on_event(&Event::PromotionResponse(1), 0),
        Ok(vec![emit(Event::Promotion { piece: 0, kind: 1, is_local: true })])
    );
    assert_eq!(game.promoting, None);
    assert_eq!(game.on_event(&Event::PromotionResponse(1), 0), Ok(vec![]));

    // Not every kind can be chosen.
    assert_eq!(
        game.on_event(&Event::Promotion { piece: 0, kind: 6, is_local: true }, 0),
        Err(Fault::InvalidPieceKind)
    );
    for kind in [0, 5] {
        assert_eq!(
            game.on_event(&Event::Promotion { piece: 0, kind, is_local: true }, 0),
            Ok(vec![emit(Event::Disconnected)])
        );
    }
    assert_eq!(
        game.on_event(&Event::Promotion { piece: 1, kind: 1, is_local: true }, 0),
        Ok(vec![emit(Event::Disconnected)])
    );
    assert_eq!(
        game.on_event(&Event::Promotion { piece: 0, kind: 1, is_local: true }, 0),
        Ok(vec![Command::PromotePieces(vec![0x0100])])
    );
    assert_eq!(game.board.pieces[0].kind, PieceKind::Queen);
    assert_eq!(game.turn, Some(Color::Dark));
}

#[test]
fn controller_plays_online() {
    let mut host = Controller::new();
    host.on_event(&Event::SetGamemode(1), 0).unwrap();
    assert!(!host.is_solo);
    assert_eq!(host.on_event(&Event::Register("ann".to_string()), 0), Ok(vec![]));
    assert_eq!(
        host.on_event(&Event::JoinedRoom { code: "R".to_string(), is_host: true }, 0),
        Ok(vec![])
    );
    let commands = host.on_event(&Event::SetSettings { timer: 0, host_as_light: false }, 0).unwrap();
    assert_eq!(commands[0], Command::SetBoardPerspective(false));
    assert_eq!(host.color, Color::Dark);
    let board = host.board.describe();
    // The game waits for the peer.
    assert_eq!(
        host.on_event(&Event::LoadedBoard(board.clone()), 0),
        Ok(vec![Command::SetPieces(board.clone()), Command::Highlight(vec![])])
    );
    assert_eq!(host.on_event(&Event::Connected, 0), Ok(vec![emit(Event::GameStart)]));
    assert_eq!(
        host.on_event(&Event::Handshake("bob".to_string()), 0),
        Ok(vec![
            Command::AddChatMessage(ChatNote::Connected("bob".to_string())),
            Command::ShowChat,
        ])
    );
    assert_eq!(
        host.on_event(&Event::GameStart, 0),
        Ok(vec![
            Command::RemoveTimers,
            Command::RemoveTimers,
            Command::AddChatMessage(ChatNote::GameStart),
            Command::ShowButtons(vec![2, 0]),
        ])
    );
    assert_eq!(
        host.on_event(&Event::ChatMessage { is_local: true, content: "hi".to_string() }, 0),
        Ok(vec![Command::AddChatMessage(ChatNote::PlayerMessage {
            is_light: false,
            name: "ann".to_string(),
            content: "hi".to_string(),
        })])
    );
    assert_eq!(
        host.on_event(&Event::ChatMessage { is_local: false, content: "yo".to_string() }, 0),
        Ok(vec![Command::AddChatMessage(ChatNote::PlayerMessage {
            is_light: true,
            name: "bob".to_string(),
            content: "yo".to_string(),
        })])
    );
    // The host plays dark: clicks do nothing on the light side's turn.
    assert_eq!(host.on_event(&Event::HexClicked { q: 9, r: 0 }, 0), Ok(vec![]));
    assert_eq!(
        host.on_event(&Event::Movement { piece: 17, to: (9, 5), is_local: false }, 0),
        Ok(vec![Command::MovePieces(vec![0x1195]), Command::Highlight(vec![])])
    );
    assert_eq!(host.turn, Some(Color::Dark));
    assert_eq!(host.color, Color::Dark);
    assert_eq!(
        host.on_event(&Event::GameButtonClick(Button::Resign), 0),
        Ok(vec![emit(Event::Resign(true))])
    );
    assert_eq!(
        host.on_event(&Event::Resign(true), 0),
        Ok(vec![
            Command::AddChatMessage(ChatNote::Resign { is_light: false }),
            emit(Event::GameEnded { won_light: true }),
        ])
    );
    assert_eq!(
        host.on_event(&Event::Resign(false), 0),
        Ok(vec![
            Command::AddChatMessage(ChatNote::Resign { is_light: true }),
            emit(Event::GameEnded { won_light: false }),
        ])
    );
    assert_eq!(
        host.on_event(&Event::Disconnected, 0),
        Ok(vec![Command::AddChatMessage(ChatNote::Disconnected), Command::HideChat])
    );
    assert_eq!(host.turn, None);
    assert_eq!(host.on_event(&Event::Disconnected, 0), Ok(vec![]));
    assert_eq!(host.on_event(&Event::TimerExpired, 0), Ok(vec![]));
    host.turn = Some(Color::Dark);
    host.promoting = Some(1);
    assert_eq!(host.on_event(&Event::GameButtonClick(Button::LeaveRoom), 0), Ok(vec![]));
    assert_eq!((host.turn, host.promoting), (None, None));

    // A guest takes the board of the host, and plays the other side.
    let mut guest = Controller::new();
    guest.on_event(&Event::SetGamemode(1), 0).unwrap();
    guest.on_event(&Event::JoinedRoom { code: "R".to_string(), is_host: false }, 0).unwrap();
    assert_eq!(
        guest.on_event(&Event::SetSettings { timer: 0, host_as_light: false }, 0),
        Ok(vec![Command::SetBoardPerspective(true)])
    );
    assert_eq!(guest.color, Color::Light);
    assert!(guest.board.pieces.is_empty());
    guest.on_event(&Event::LoadedBoard(board), 0).unwrap();
    assert_eq!(guest.board.pieces.len(), 36);
    assert_eq!(guest.on_event(&Event::LoadedBoard(vec![0x0600]), 0), Err(Fault::InvalidPieceKind));
    assert_eq!(guest.on_event(&Event::LoadedBoard(vec![0; 257]), 0), Err(Fault::BoardTooLarge));
    assert_eq!(guest.on_event(&Event::SetGamemode(9), 0), Err(Fault::InvalidGamemode));
    assert_eq!(guest.get_color(true), Color::Light);
    assert_eq!(guest.get_color(false), Color::Dark);
}

#[test]
fn controller_faults() {
    let mut game = solo_game();
    game.selected_hex = Some((5, 5));
    assert_eq!(game.on_event(&Event::HexClicked { q: 1, r: 1 }, 0), Err(Fault::NoPiece));
    let mut game = solo_game();
    game.board.pieces[1] = piece(1, PieceKind::King, Color::Light, 12, 12);
    assert_eq!(game.on_event(&Event::HexClicked { q: 12, r: 12 }, 0), Err(Fault::OutOfBoard));
    let mut game = solo_game();
    game.timer = Some(1);
    game.light.time_left = None;
    assert_eq!(
        game.on_event(&Event::Movement { piece: 17, to: (9, 5), is_local: true }, 0),
        Err(Fault::NoTimeLeft)
    );
}

#[test]
fn host_negotiation() {
    let mut signal = SignalClient::new("u", 0);
    let mut attempt = Negotiation::host();
    assert_eq!(attempt.next(&signal), Step::PrepareOffer);
    attempt.described("offer".to_string(), &mut signal);
    assert_eq!(signal.signal_queue, vec![Signal::SetSDP("offer".to_string())]);
    assert_eq!(attempt.next(&signal), Step::Poll { drain: false });
    signal.handle_signals(vec![Signal::JoinRoom("ROOM01".to_string())], 0, 0);
    assert_eq!(attempt.next(&signal), Step::AnnounceRoom("ROOM01".to_string()));
    assert_eq!(attempt.next(&signal), Step::Poll { drain: true });
    assert_eq!(attempt.next(&signal), Step::Poll { drain: true });
    signal.handle_signals(
        vec![Signal::SetSDP("answer".to_string()), Signal::ConnectAt(5)],
        1_000,
        70,
    );
    assert_eq!(attempt.next(&signal), Step::Establish(4_070));
    assert_eq!(attempt.next(&signal), Step::SetRemote("answer".to_string()));
    assert_eq!(attempt.stage, Stage::Settled);
    assert_eq!(attempt.next(&signal), Step::Poll { drain: true });
    assert_eq!(attempt.next(&signal), Step::Poll { drain: true });
}

#[test]
fn guest_negotiation() {
    let mut signal = SignalClient::new("u", 0);
    let mut attempt = Negotiation::guest("ROOM01".to_string(), &mut signal);
    assert_eq!(attempt.role, Role::Guest);
    assert_eq!(signal.signal_queue, vec![Signal::JoinRoom("ROOM01".to_string())]);
    assert_eq!(attempt.next(&signal), Step::Poll { drain: false });
    signal.handle_signals(
        vec![Signal::SetSDP("offer".to_string()), Signal::JoinRoom("ROOM01".to_string())],
        0,
        0,
    );
    assert_eq!(attempt.next(&signal), Step::CreateAnswer("offer".to_string()));
    attempt.described("answer".to_string(), &mut signal);
    assert_eq!(attempt.next(&signal), Step::Poll { drain: false });
    assert_eq!(attempt.next(&signal), Step::AnnounceRoom("ROOM01".to_string()));
    assert_eq!(attempt.next(&signal), Step::Poll { drain: false });
    signal.handle_signals(vec![Signal::ConnectAt(0)], 1_000, 70);
    assert_eq!(attempt.next(&signal), Step::Establish(70));
    assert_eq!(attempt.next(&signal), Step::SetLocal("answer".to_string()));
    assert_eq!(attempt.next(&signal), Step::Poll { drain: true });
}

#[test]
fn negotiation_faults() {
    let signal = SignalClient::new("u", 0);
    let mut host = Negotiation::host();
    host.stage = Stage::Polled;
    assert_eq!(host.next(&signal), Step::Fail(ConnectFault::NoRoomCreated));
    assert_eq!(host.stage, Stage::Failed);
    assert_eq!(host.next(&signal), Step::Fail(ConnectFault::NoPeerDescription));

    let mut signal = SignalClient::new("u", 0);
    let mut guest = Negotiation::guest("R".to_string(), &mut signal);
    guest.next(&signal);
    assert_eq!(guest.next(&signal), Step::Fail(ConnectFault::NoRoomJoined));
    let mut guest = Negotiation::guest("R".to_string(), &mut signal);
    guest.next(&signal);
    signal.handle_signals(vec![Signal::JoinRoom("R".to_string())], 0, 0);
    assert_eq!(guest.next(&signal), Step::Fail(ConnectFault::NoRoomJoined));

    let mut host = Negotiation::host();
    host.stage = Stage::Due;
    let signal = SignalClient::new("u", 0);
    assert_eq!(host.next(&signal), Step::Fail(ConnectFault::NoPeerDescription));
    assert_eq!(ConnectFault::NoRoomCreated.as_str(), "couldn't create room");
    assert_eq!(ConnectFault::NoRoomJoined.as_str(), "couldn't join room");
}
