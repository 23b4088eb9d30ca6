//! The part of the game that talks to the peer.

use crate::buffer::Buffer;
use crate::db::seeded;
use crate::glue::{
    give, no_commands, Button, Command, CommandView, Event, EventView, Fault, PeerError,
};
use crate::interface::Scene;
use crate::packet::{
    parse, ChatMessage, ChessPacket, Handshake, Movement, PacketView, Ping, Promote,
    Resign, SetBoard, SetSettings, Start,
};
use rand::rngs::SmallRng;
use rand::RngCore;
use vstd::prelude::*;

verus! {

/// Every how many milliseconds the round trip time is probed.
pub const PING_INTERVAL: u32 = 5_000;

/// `RngCore::next_u32` of the small generator: the next number that it
/// makes. Nothing is claimed of the number.
#[verifier::external_body]
fn next_u32(rng: &mut SmallRng) -> u32 {
    rng.next_u32()
}

/// The number between -128 and 127 that a byte stands for.
pub open spec fn signed(byte: u8) -> i8 {
    if byte < 128 {
        byte as i8
    } else {
        (byte - 256) as i8
    }
}

/// The number between -128 and 127 that a byte stands for.
pub fn to_signed(byte: u8) -> (res: i8)
    ensures
        res == signed(byte),
{
    if byte < 128 {
        byte as i8
    } else {
        (byte as i16 - 256) as i8
    }
}

/// A probe of the round trip time that has not been answered.
#[derive(Debug, Clone, Copy, PartialEq, Eq, Structural)]
pub struct PingRequest {
    pub id: u16,
    /// When the probe was sent, in milliseconds on a clock that never goes
    /// back.
    pub sent_at: u64,
}

/// Talks to the peer: sends what happens here, and tells what happens
/// there.
pub struct Client {
    /// Whether the connection to the peer is open.
    pub connected: bool,
    /// The name of the player.
    pub name: String,
    /// Whether the player has made the room.
    pub is_host: bool,
    /// The packets that wait for the connection to open.
    pub queue: Vec<ChessPacket>,
    /// The probe that has not been answered, if there is one.
    pub ping: Option<PingRequest>,
    /// Whether an attempt to connect is under way.
    pub connecting: bool,
    pub rng: SmallRng,
}

/// The mathematical value of a [`Client`]: all but its generator.
pub struct ClientView {
    pub connected: bool,
    pub name: Seq<char>,
    pub is_host: bool,
    pub queue: Seq<PacketView>,
    pub ping: Option<PingRequest>,
    pub connecting: bool,
}

impl View for Client {
    type V = ClientView;

    open spec fn view(&self) -> ClientView {
        ClientView {
            connected: self.connected,
            name: self.name@,
            is_host: self.is_host,
            queue: self.queue.deep_view(),
            ping: self.ping,
            connecting: self.connecting,
        }
    }
}

impl ClientView {
    /// The command that stops the attempt to connect, where one is under
    /// way.
    pub open spec fn kill(self) -> Seq<CommandView> {
        if self.connecting {
            seq![CommandView::Kill]
        } else {
            Seq::empty()
        }
    }

    /// Sends a packet where the connection is open, and does nothing where
    /// it is not.
    pub open spec fn send(self, packet: PacketView) -> Seq<CommandView> {
        if self.connected {
            seq![CommandView::Send(packet)]
        } else {
            Seq::empty()
        }
    }

    /// Sends a packet where the connection is open, and keeps it for
    /// later where it is not.
    pub open spec fn send_when_ready(self, packet: PacketView) -> (ClientView, Seq<CommandView>) {
        if self.connected {
            (self, seq![CommandView::Send(packet)])
        } else {
            (ClientView { queue: self.queue.push(packet), ..self }, Seq::empty())
        }
    }

    /// The round trip time that is told where the probe `request` is
    /// answered at `now`.
    pub open spec fn rtt(request: PingRequest, now: u64) -> int {
        if now >= request.sent_at {
            now - request.sent_at
        } else {
            0
        }
    }

    /// What a packet of the peer that arrives at `now` comes to.
    pub open spec fn handle_packet(self, packet: PacketView, now: u64) -> Result<
        (ClientView, Seq<CommandView>),
        Fault,
    > {
        if !self.connected {
            Err(Fault::NoConnection)
        } else {
            match packet {
                PacketView::Handshake { name } => Ok(
                    (
                        self,
                        seq![
                            CommandView::SetPlayerName { is_self: false, name },
                            CommandView::Emit(EventView::Handshake(name)),
                        ],
                    ),
                ),
                PacketView::Start => Ok(
                    (
                        self,
                        if self.is_host {
                            seq![
                                CommandView::LogError(PeerError::GuestStartsMatch),
                                CommandView::Emit(EventView::Disconnected),
                            ]
                        } else {
                            seq![CommandView::Emit(EventView::GameStart)]
                        },
                    ),
                ),
                PacketView::ChatMessage { content } => Ok(
                    (
                        self,
                        seq![CommandView::Emit(EventView::ChatMessage { is_local: false, content })],
                    ),
                ),
                PacketView::Movement { idx, q, r, .. } => Ok(
                    (
                        self,
                        seq![
                            CommandView::Emit(
                                EventView::Movement { piece: idx, to: (q, r), is_local: false },
                            ),
                        ],
                    ),
                ),
                PacketView::Resign => Ok((self, seq![CommandView::Emit(EventView::Resign(false))])),
                PacketView::Ping { request, reply_to } => {
                    let reply = match request {
                        Some(id) => seq![
                            CommandView::Send(PacketView::Ping { request: None, reply_to: Some(id) }),
                        ],
                        None => Seq::empty(),
                    };
                    match (reply_to, self.ping) {
                        (Some(id), Some(request)) if request.id == id => if ClientView::rtt(
                            request,
                            now,
                        ) > i32::MAX {
                            Err(Fault::RttOverflow)
                        } else {
                            Ok(
                                (
                                    ClientView { ping: None, ..self },
                                    reply.push(CommandView::AddRtt(ClientView::rtt(request, now) as i32)),
                                ),
                            )
                        },
                        _ => Ok((self, reply)),
                    }
                },
                PacketView::SetBoard { board } => Ok(
                    (
                        self,
                        if self.is_host {
                            seq![
                                CommandView::LogError(PeerError::GuestLoadsBoard),
                                CommandView::Emit(EventView::Disconnected),
                            ]
                        } else {
                            seq![CommandView::Emit(EventView::LoadedBoard(board))]
                        },
                    ),
                ),
                PacketView::SetSettings { timer, host_as_light } => Ok(
                    (
                        self,
                        if self.is_host {
                            seq![
                                CommandView::LogError(PeerError::GuestSetsSettings),
                                CommandView::Emit(EventView::Disconnected),
                            ]
                        } else {
                            seq![
                                CommandView::Emit(EventView::SetSettings { timer, host_as_light }),
                            ]
                        },
                    ),
                ),
                PacketView::Promote { idx, kind } => Ok(
                    (
                        self,
                        seq![
                            CommandView::Emit(
                                EventView::Promotion { piece: idx, kind, is_local: false },
                            ),
                        ],
                    ),
                ),
            }
        }
    }

    /// What taking an event at `now` comes to, where the next probe is
    /// given the number `id`.
    pub open spec fn reaction(self, event: EventView, now: u64, id: u16) -> Result<
        (ClientView, Seq<CommandView>),
        Fault,
    > {
        match event {
            EventView::Start => Ok((self, seq![CommandView::StartPinging(PING_INTERVAL)])),
            EventView::JoinRoom(code) => Ok(
                (
                    ClientView { is_host: false, connecting: true, ..self },
                    self.kill().push(CommandView::StartAsGuest(code)),
                ),
            ),
            EventView::MenuHidden(menu) => match Scene::spec_from_i8(signed(menu)) {
                None => Err(Fault::InvalidScene),
                Some(Scene::Settings) => Ok((ClientView { connecting: false, ..self }, self.kill())),
                Some(_) => Ok((self, Seq::empty())),
            },
            EventView::GameButtonClick(Button::LeaveRoom) => Ok(
                (ClientView { connecting: false, ..self }, self.kill()),
            ),
            EventView::CreateRoom => Ok(
                (
                    ClientView { is_host: true, connecting: true, ..self },
                    self.kill().push(CommandView::StartAsHost),
                ),
            ),
            EventView::Connected => Ok(
                (
                    ClientView { connected: true, queue: Seq::empty(), ..self },
                    self.queue.map_values(|packet: PacketView| CommandView::Send(packet)),
                ),
            ),
            EventView::Register(name) => Ok((ClientView { name, ..self }, Seq::empty())),
            EventView::ChatMessage { is_local, content } => Ok(
                (
                    self,
                    if is_local {
                        self.send(PacketView::ChatMessage { content })
                    } else {
                        Seq::empty()
                    },
                ),
            ),
            EventView::Disconnected => Ok(
                (
                    ClientView { connected: false, connecting: false, ..self },
                    self.kill() + if self.connected {
                        seq![CommandView::Close]
                    } else {
                        Seq::empty()
                    },
                ),
            ),
            EventView::GameStart => if !self.is_host {
                Ok((self, Seq::empty()))
            } else if !self.connected {
                Err(Fault::NoConnection)
            } else {
                Ok((self, seq![CommandView::Send(PacketView::Start)]))
            },
            EventView::SetSettings { timer, host_as_light } => if self.is_host {
                Ok(self.send_when_ready(PacketView::SetSettings { timer, host_as_light }))
            } else {
                Ok((self, Seq::empty()))
            },
            EventView::LoadedBoard(board) => if self.is_host {
                Ok(self.send_when_ready(PacketView::SetBoard { board }))
            } else {
                Ok((self, Seq::empty()))
            },
            EventView::PingRequest => if !self.connected {
                Ok((self, Seq::empty()))
            } else if self.ping is Some {
                Ok(
                    (
                        self,
                        seq![
                            CommandView::LogError(PeerError::UnhandledPing),
                            CommandView::Emit(EventView::Disconnected),
                        ],
                    ),
                )
            } else {
                Ok(
                    (
                        ClientView { ping: Some(PingRequest { id, sent_at: now }), ..self },
                        seq![CommandView::Send(PacketView::Ping { request: Some(id), reply_to: None })],
                    ),
                )
            },
            EventView::PacketReceived(packet) => self.handle_packet(packet, now),
            EventView::Movement { piece, to, is_local } => Ok(
                (
                    self,
                    if is_local {
                        self.send(
                            PacketView::Movement { idx: piece, q: to.0, r: to.1, time_left: None },
                        )
                    } else {
                        Seq::empty()
                    },
                ),
            ),
            EventView::Resign(local) => Ok(
                (
                    self,
                    if local {
                        self.send(PacketView::Resign)
                    } else {
                        Seq::empty()
                    },
                ),
            ),
            EventView::Promotion { piece, kind, is_local } => Ok(
                (
                    self,
                    if is_local {
                        self.send(PacketView::Promote { idx: piece, kind })
                    } else {
                        Seq::empty()
                    },
                ),
            ),
            _ => Ok((self, Seq::empty())),
        }
    }
}

impl Client {
    /// A client without a connection, with a generator made from `seed`.
    pub fn new(seed: u64) -> (client: Self)
        ensures
            !client.connected,
            client.name@ == "unknown"@,
            !client.is_host,
            client.queue@.len() == 0,
            client.ping is None,
            !client.connecting,
    {
        Client {
            connected: false,
            name: "unknown".to_owned(),
            is_host: false,
            queue: Vec::new(),
            ping: None,
            connecting: false,
            rng: seeded(seed),
        }
    }

    /// What is to be done once the connection has opened: all parts of the
    /// game are told, and the peer is told the name of the player.
    pub fn on_open(&self) -> (commands: Vec<Command>)
        ensures
            commands.deep_view() == seq![
                CommandView::Emit(EventView::Connected),
                CommandView::Send(PacketView::Handshake { name: self.name@ }),
            ],
    {
        let mut commands = no_commands();
        give(&mut commands, Command::Emit(Event::Connected));
        give(&mut commands, Command::Send(ChessPacket::Handshake(Handshake { name: self.name.clone() })));
        commands
    }

    /// What is to be done with bytes that have come from the peer: the
    /// packet that they are is handed to all parts of the game; where they
    /// are none, that is written to the error log and the connection is
    /// given up.
    pub fn on_message(data: Buffer) -> (commands: Vec<Command>)
        ensures
            commands.deep_view() == match parse(data@) {
                Ok(packet) => seq![CommandView::Emit(EventView::PacketReceived(packet))],
                Err(e) => seq![
                    CommandView::LogParseError(e),
                    CommandView::Emit(EventView::Disconnected),
                ],
            },
    {
        let mut commands = no_commands();
        match ChessPacket::read(data) {
            Ok(packet) => {
                give(&mut commands, Command::Emit(Event::PacketReceived(packet)));
            },
            Err(e) => {
                give(&mut commands, Command::LogParseError(e));
                give(&mut commands, Command::Emit(Event::Disconnected));
            },
        }
        commands
    }

    fn kill(&mut self, commands: &mut Vec<Command>)
        ensures
            final(self)@ == (ClientView { connecting: false, ..old(self)@ }),
            final(commands).deep_view() == old(commands).deep_view() + old(self)@.kill(),
    {
        if self.connecting {
            self.connecting = false;
            give(commands, Command::Kill);
        }
        assert(commands.deep_view() =~= old(commands).deep_view() + old(self)@.kill());
    }

    fn send(&self, packet: ChessPacket, commands: &mut Vec<Command>)
        ensures
            final(commands).deep_view() == old(commands).deep_view() + self@.send(packet@),
    {
        if self.connected {
            give(commands, Command::Send(packet));
        }
        assert(commands.deep_view() =~= old(commands).deep_view() + self@.send(packet@));
    }

    fn send_when_ready(&mut self, packet: ChessPacket, commands: &mut Vec<Command>)
        ensures
            final(self)@ == old(self)@.send_when_ready(packet@).0,
            final(commands).deep_view() == old(commands).deep_view() + old(self)@.send_when_ready(
                packet@,
            ).1,
    {
        if self.connected {
            give(commands, Command::Send(packet));
        } else {
            self.queue.push(packet);
            assert(self.queue.deep_view() =~= old(self).queue.deep_view().push(packet@));
        }
        assert(commands.deep_view() =~= old(commands).deep_view() + old(self)@.send_when_ready(
            packet@,
        ).1);
    }

    /// Takes a packet of the peer that has arrived at `now`.
    pub fn handle_packet(&mut self, packet: &ChessPacket, now: u64) -> (res: Result<
        Vec<Command>,
        Fault,
    >)
        ensures
            match old(self)@.handle_packet(packet@, now) {
                Ok((after, commands)) => {
                    &&& res matches Ok(given)
                    &&& given.deep_view() == commands
                    &&& final(self)@ == after
                },
                Err(fault) => res == Err::<Vec<Command>, Fault>(fault),
            },
    {
        if !self.connected {
            return Err(Fault::NoConnection);
        }
        let mut commands = no_commands();
        match packet {
            ChessPacket::Handshake(p) => {
                give(&mut commands, Command::SetPlayerName { is_self: false, name: p.name.clone() });
                give(&mut commands, Command::Emit(Event::Handshake(p.name.clone())));
            },
            ChessPacket::Start(_) => {
                if self.is_host {
                    give(&mut commands, Command::LogError(PeerError::GuestStartsMatch));
                    give(&mut commands, Command::Emit(Event::Disconnected));
                } else {
                    give(&mut commands, Command::Emit(Event::GameStart));
                }
            },
            ChessPacket::ChatMessage(p) => {
                give(&mut commands, 
                    Command::Emit(Event::ChatMessage { is_local: false, content: p.content.clone() }),
                );
            },
            ChessPacket::Movement(p) => {
                give(&mut commands, 
                    Command::Emit(Event::Movement { piece: p.idx, to: (p.q, p.r), is_local: false }),
                );
            },
            ChessPacket::Resign(_) => {
                give(&mut commands, Command::Emit(Event::Resign(false)));
            },
            ChessPacket::Ping(p) => {
                match p.request {
                    Some(id) => {
                        give(&mut commands, 
                            Command::Send(
                                ChessPacket::Ping(Ping { request: None, reply_to: Some(id) }),
                            ),
                        );
                    },
                    None => {},
                }
                match (p.reply_to, self.ping) {
                    (Some(id), Some(request)) => {
                        if request.id == id {
                            let rtt = if now >= request.sent_at {
                                now - request.sent_at
                            } else {
                                0
                            };
                            if rtt > i32::MAX as u64 {
                                return Err(Fault::RttOverflow);
                            }
                            self.ping = None;
                            give(&mut commands, Command::AddRtt(rtt as i32));
                        }
                    },
                    _ => {},
                }
            },
            ChessPacket::SetBoard(p) => {
                if self.is_host {
                    give(&mut commands, Command::LogError(PeerError::GuestLoadsBoard));
                    give(&mut commands, Command::Emit(Event::Disconnected));
                } else {
                    give(&mut commands, Command::Emit(Event::LoadedBoard(p.board.clone())));
                }
            },
            ChessPacket::SetSettings(p) => {
                if self.is_host {
                    give(&mut commands, Command::LogError(PeerError::GuestSetsSettings));
                    give(&mut commands, Command::Emit(Event::Disconnected));
                } else {
                    give(&mut commands, 
                        Command::Emit(
                            Event::SetSettings { timer: p.timer, host_as_light: p.host_as_light },
                        ),
                    );
                }
            },
            ChessPacket::Promote(p) => {
                give(&mut commands, 
                    Command::Emit(Event::Promotion { piece: p.idx, kind: p.kind, is_local: false }),
                );
            },
        }
        assert(commands.deep_view() =~= old(self)@.handle_packet(packet@, now)->Ok_0.1);
        Ok(commands)
    }

    /// Takes an event at `now`: sends the peer what has happened here,
    /// and begins, gives up or closes the connection. Fails, with nothing
    /// said of the state, where the event does not fit.
    pub fn on_event(&mut self, event: &Event, now: u64) -> (res: Result<Vec<Command>, Fault>)
        ensures
            exists|id: u16|
                match #[trigger] old(self)@.reaction(event@, now, id) {
                    Ok((after, commands)) => {
                        &&& res matches Ok(given)
                        &&& given.deep_view() == commands
                        &&& final(self)@ == after
                    },
                    Err(fault) => res == Err::<Vec<Command>, Fault>(fault),
                },
    {
        let mut commands = no_commands();
        let ghost mut id: u16 = 0;
        match event {
            Event::Start => {
                give(&mut commands, Command::StartPinging(PING_INTERVAL));
            },
            Event::JoinRoom(code) => {
                self.is_host = false;
                self.kill(&mut commands);
                give(&mut commands, Command::StartAsGuest(code.clone()));
                self.connecting = true;
            },
            Event::MenuHidden(menu) => {
                let scene = match Scene::from_i8(to_signed(*menu)) {
                    Some(scene) => scene,
                    None => {
                        assert(old(self)@.reaction(event@, now, 0) is Err);
                        return Err(Fault::InvalidScene);
                    },
                };
                if scene == Scene::Settings {
                    self.kill(&mut commands);
                }
            },
            Event::GameButtonClick(button) => {
                if *button == Button::LeaveRoom {
                    self.kill(&mut commands);
                }
            },
            Event::CreateRoom => {
                self.is_host = true;
                self.kill(&mut commands);
                give(&mut commands, Command::StartAsHost);
                self.connecting = true;
            },
            Event::Connected => {
                self.connected = true;
                let ghost waiting = self.queue.deep_view();
                while self.queue.len() > 0
                    invariant
                        self.queue@.len() <= waiting.len(),
                        self.queue.deep_view() == waiting.skip(waiting.len() - self.queue@.len()),
                        commands.deep_view() == waiting.take(
                            waiting.len() - self.queue@.len(),
                        ).map_values(|packet: PacketView| CommandView::Send(packet)),
                        self.connected,
                        self.name == old(self).name,
                        self.is_host == old(self).is_host,
                        self.ping == old(self).ping,
                        self.connecting == old(self).connecting,
                    decreases self.queue@.len(),
                {
                    let ghost done = waiting.len() - self.queue@.len();
                    let ghost before = self.queue;
                    let packet = self.queue.remove(0);
                    give(&mut commands, Command::Send(packet));
                    proof {
                        assert(before.deep_view()[0] == packet@);
                        assert(waiting.skip(done)[0] == waiting[done]);
                        assert forall|k: int| 0 <= k < self.queue@.len() implies #[trigger] self.queue.deep_view()[k]
                            == waiting.skip(done + 1)[k] by {
                            assert(self.queue@[k] == before@[k + 1]);
                            assert(before.deep_view()[k + 1] == waiting.skip(done)[k + 1]);
                        }
                        assert(self.queue.deep_view() =~= waiting.skip(done + 1));
                        assert(commands.deep_view() =~= waiting.take(done + 1).map_values(
                            |packet: PacketView| CommandView::Send(packet),
                        ));
                    }
                }
                proof {
                    assert(waiting.take(waiting.len() as int) =~= waiting);
                    assert(self.queue.deep_view() =~= Seq::<PacketView>::empty());
                }
            },
            Event::Register(name) => {
                self.name = name.clone();
            },
            Event::ChatMessage { is_local, content } => {
                if *is_local {
                    self.send(
                        ChessPacket::ChatMessage(ChatMessage { content: content.clone() }),
                        &mut commands,
                    );
                }
            },
            Event::Disconnected => {
                self.kill(&mut commands);
                if self.connected {
                    self.connected = false;
                    give(&mut commands, Command::Close);
                }
                assert(commands.deep_view() =~= old(self)@.kill() + if old(self).connected {
                    seq![CommandView::Close]
                } else {
                    Seq::empty()
                });
            },
            Event::GameStart => {
                if self.is_host {
                    if !self.connected {
                        assert(old(self)@.reaction(event@, now, 0) is Err);
                        return Err(Fault::NoConnection);
                    }
                    give(&mut commands, Command::Send(ChessPacket::Start(Start {  })));
                }
            },
            Event::SetSettings { timer, host_as_light } => {
                if self.is_host {
                    self.send_when_ready(
                        ChessPacket::SetSettings(
                            SetSettings { timer: *timer, host_as_light: *host_as_light },
                        ),
                        &mut commands,
                    );
                }
            },
            Event::LoadedBoard(board) => {
                if self.is_host {
                    self.send_when_ready(
                        ChessPacket::SetBoard(SetBoard { board: board.clone() }),
                        &mut commands,
                    );
                }
            },
            Event::PingRequest => {
                if self.connected {
                    if self.ping.is_some() {
                        give(&mut commands, Command::LogError(PeerError::UnhandledPing));
                        give(&mut commands, Command::Emit(Event::Disconnected));
                    } else {
                        let drawn = (next_u32(&mut self.rng) % 65536) as u16;
                        proof {
                            id = drawn;
                        }
                        self.ping = Some(PingRequest { id: drawn, sent_at: now });
                        give(&mut commands, 
                            Command::Send(
                                ChessPacket::Ping(Ping { request: Some(drawn), reply_to: None }),
                            ),
                        );
                    }
                }
            },
            Event::PacketReceived(packet) => {
                assert(old(self)@.reaction(event@, now, 0) == old(self)@.handle_packet(
                    packet@,
                    now,
                ));
                return self.handle_packet(packet, now);
            },
            Event::Movement { piece, to, is_local } => {
                if *is_local {
                    self.send(
                        ChessPacket::Movement(
                            Movement { idx: *piece, q: to.0, r: to.1, time_left: None },
                        ),
                        &mut commands,
                    );
                }
            },
            Event::Resign(local) => {
                if *local {
                    self.send(ChessPacket::Resign(Resign {  }), &mut commands);
                }
            },
            Event::Promotion { piece, kind, is_local } => {
                if *is_local {
                    self.send(
                        ChessPacket::Promote(Promote { idx: *piece, kind: *kind }),
                        &mut commands,
                    );
                }
            },
            _ => {},
        }
        proof {
            assert(commands.deep_view() =~= old(self)@.reaction(event@, now, id)->Ok_0.1);
            assert(self@.queue =~= old(self)@.reaction(event@, now, id)->Ok_0.0.queue);
        }
        Ok(commands)
    }
}

} // verus!
