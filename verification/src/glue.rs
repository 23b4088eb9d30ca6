//! The events that drive the game, and the commands that it gives in
//! return.

use crate::buffer::{text_of, Buffer, BufferView};
use crate::chat::{Chat, ChatLine, ChatLineView};
use crate::packet::{ChessPacket, PacketView, ParseError, ParseErrorView};
use vstd::prelude::*;

verus! {

/// A button below the board.
#[derive(Debug, PartialEq, Eq, Clone, Copy, Structural)]
pub enum Button {
    Resign,
    PlayAgain,
    LeaveRoom,
}

impl Button {
    /// The button that a number stands for, if it stands for one.
    pub open spec fn spec_from_u8(value: u8) -> Option<Button> {
        if value == 0 {
            Some(Button::Resign)
        } else if value == 1 {
            Some(Button::PlayAgain)
        } else if value == 2 {
            Some(Button::LeaveRoom)
        } else {
            None
        }
    }

    /// The button that a number stands for, if it stands for one.
    #[verifier::when_used_as_spec(spec_from_u8)]
    pub fn from_u8(value: u8) -> (button: Option<Button>)
        ensures
            button == Button::spec_from_u8(value),
    {
        if value == 0 {
            Some(Button::Resign)
        } else if value == 1 {
            Some(Button::PlayAgain)
        } else if value == 2 {
            Some(Button::LeaveRoom)
        } else {
            None
        }
    }

    /// The number that stands for the button.
    pub open spec fn spec_to_u8(self) -> u8 {
        match self {
            Button::Resign => 0,
            Button::PlayAgain => 1,
            Button::LeaveRoom => 2,
        }
    }

    /// The number that stands for the button.
    #[verifier::when_used_as_spec(spec_to_u8)]
    pub fn to_u8(self) -> (value: u8)
        ensures
            value == self.spec_to_u8(),
            Button::spec_from_u8(value) == Some(self),
    {
        match self {
            Button::Resign => 0,
            Button::PlayAgain => 1,
            Button::LeaveRoom => 2,
        }
    }
}

/// The kind of an event that comes from the page.
#[derive(Debug, PartialEq, Eq, Clone, Copy, Structural)]
pub enum JsEvent {
    Start,
    SetGamemode,
    Register,
    CreateRoom,
    JoinRoom,
    SetSettings,
    SendMessage,
    MenuHidden,
    HexClicked,
    TimerExpired,
    GameButtonClick,
    PromotionResponse,
}

/// Something that has happened: on the page, on the network, or in the
/// game itself.
#[derive(Debug, PartialEq, Eq)]
pub enum Event {
    Start,
    SetGamemode(u8),
    Register(String),
    Handshake(String),
    CreateRoom,
    JoinRoom(String),
    SetSettings { timer: u16, host_as_light: bool },
    ChatMessage { is_local: bool, content: String },
    MenuHidden(u8),
    HexClicked { q: u8, r: u8 },
    JoinedRoom { code: String, is_host: bool },
    /// The network has failed.
    NetError,
    /// The connection to the peer is open.
    Connected,
    Disconnected,
    LoadedBoard(Vec<u16>),
    Movement { piece: u8, to: (u8, u8), is_local: bool },
    TimerExpired,
    GameStart,
    GameEnded { won_light: bool },
    PingRequest,
    PacketReceived(ChessPacket),
    Resign(bool),
    GameButtonClick(Button),
    PromotionPrompt(u8),
    PromotionResponse(u8),
    Promotion { piece: u8, kind: u8, is_local: bool },
}

/// What the page is told of an attempt to join a room.
#[derive(Debug, PartialEq, Eq, Clone, Copy, Structural)]
pub enum JoinOutcome {
    Success,
    NotFound,
}

impl JoinOutcome {
    /// The word that the page is told.
    pub fn as_str(self) -> (word: &'static str)
        ensures
            word@ == match self {
                JoinOutcome::Success => "success"@,
                JoinOutcome::NotFound => "not-found"@,
            },
    {
        match self {
            JoinOutcome::Success => "success",
            JoinOutcome::NotFound => "not-found",
        }
    }
}

/// A line for the chat.
#[derive(Debug, PartialEq, Eq)]
pub enum ChatNote {
    PlayerMessage { is_light: bool, name: String, content: String },
    JoinRoom(String),
    GameStart,
    GameEnd { won_light: bool },
    TimerExpired { is_light: bool },
    Resign { is_light: bool },
    /// The peer has connected: its name.
    Connected(String),
    Disconnected,
    /// A peer is about to connect.
    NewPeer,
}

/// What goes wrong with the peer.
#[derive(Debug, PartialEq, Eq, Clone, Copy, Structural)]
pub enum PeerError {
    GuestStartsMatch,
    GuestLoadsBoard,
    GuestSetsSettings,
    UnhandledPing,
}

impl PeerError {
    /// The line for the error log.
    pub fn as_str(self) -> (line: &'static str)
        ensures
            line@ == match self {
                PeerError::GuestStartsMatch => "guest can't start match."@,
                PeerError::GuestLoadsBoard => "guest can't load board"@,
                PeerError::GuestSetsSettings => "guest can't set settings"@,
                PeerError::UnhandledPing => "unhandled ping: is peer disconnected?"@,
            },
    {
        match self {
            PeerError::GuestStartsMatch => "guest can't start match.",
            PeerError::GuestLoadsBoard => "guest can't load board",
            PeerError::GuestSetsSettings => "guest can't set settings",
            PeerError::UnhandledPing => "unhandled ping: is peer disconnected?",
        }
    }
}

/// Why a part of the game cannot take an event: the event does not fit
/// the state that the part is in.
#[derive(Debug, PartialEq, Eq, Clone, Copy, Structural)]
pub enum Fault {
    /// The number stands for no mode of the game.
    InvalidGamemode,
    /// The number stands for no scene.
    InvalidScene,
    /// The number stands for no kind of piece.
    InvalidPieceKind,
    /// The scene that is shown is no menu that can be closed.
    CannotCloseMenu,
    /// There is no connection to the peer.
    NoConnection,
    /// No piece stands on the hex that is selected.
    NoPiece,
    /// The game has a timer, but a side has no time.
    NoTimeLeft,
    /// A side has used more time than it had.
    TimeOverrun,
    /// The round trip has taken longer than can be told.
    RttOverflow,
    /// The clock shows a time before one that it has shown.
    TimeTravel,
    /// A piece stands on a hex outside the square that holds the board.
    OutOfBoard,
    /// The board holds more pieces than can be numbered.
    BoardTooLarge,
}

/// Something that is to be done for the game: on the page, on the
/// network, or by handing an event to all parts of the game.
#[derive(Debug, PartialEq, Eq)]
pub enum Command {
    /// Hands an event to all parts of the game, once they have taken the
    /// event at hand.
    Emit(Event),
    SetScene(i8),
    ShowChat,
    HideChat,
    SetPlayerName { is_self: bool, name: String },
    JoinResponse(JoinOutcome),
    AddChatMessage(ChatNote),
    SetPieces(Vec<u16>),
    MovePieces(Vec<u16>),
    Highlight(Vec<u16>),
    PromotePieces(Vec<u16>),
    ShowPromotionPrompt { color: u8, q: u8, r: u8 },
    SetTimers { light: u16, dark: u16, active: i8 },
    RemoveTimers,
    AddRtt(i32),
    SetBoardPerspective(bool),
    ShowButtons(Vec<u8>),
    /// Writes a line to the error log of the page.
    LogError(PeerError),
    /// Writes to the error log of the page why bytes were no packet.
    LogParseError(ParseError),
    /// Asks for a `PingRequest` every so many milliseconds.
    StartPinging(u32),
    /// Sends a packet to the peer.
    Send(ChessPacket),
    /// Closes the connection to the peer.
    Close,
    /// Stops the attempt to connect that is under way.
    Kill,
    /// Begins to connect as the host of a new room.
    StartAsHost,
    /// Begins to connect as the guest of the room with the code.
    StartAsGuest(String),
}

/// The mathematical value of a [`ChatNote`].
pub enum ChatNoteView {
    PlayerMessage { is_light: bool, name: Seq<char>, content: Seq<char> },
    JoinRoom(Seq<char>),
    GameStart,
    GameEnd { won_light: bool },
    TimerExpired { is_light: bool },
    Resign { is_light: bool },
    Connected(Seq<char>),
    Disconnected,
    NewPeer,
}

impl View for ChatNote {
    type V = ChatNoteView;

    open spec fn view(&self) -> ChatNoteView {
        match *self {
            ChatNote::PlayerMessage { is_light, name, content } => ChatNoteView::PlayerMessage {
                is_light,
                name: name@,
                content: content@,
            },
            ChatNote::JoinRoom(code) => ChatNoteView::JoinRoom(code@),
            ChatNote::GameStart => ChatNoteView::GameStart,
            ChatNote::GameEnd { won_light } => ChatNoteView::GameEnd { won_light },
            ChatNote::TimerExpired { is_light } => ChatNoteView::TimerExpired { is_light },
            ChatNote::Resign { is_light } => ChatNoteView::Resign { is_light },
            ChatNote::Connected(name) => ChatNoteView::Connected(name@),
            ChatNote::Disconnected => ChatNoteView::Disconnected,
            ChatNote::NewPeer => ChatNoteView::NewPeer,
        }
    }
}

impl ChatNoteView {
    /// The line that the note is written as.
    pub open spec fn line(self) -> ChatLineView {
        match self {
            ChatNoteView::PlayerMessage { is_light, name, content } => ChatLineView {
                kind: if is_light {
                    0u8
                } else {
                    1u8
                },
                slots: seq![name, content],
            },
            ChatNoteView::JoinRoom(code) => ChatLineView { kind: 2, slots: seq![code] },
            ChatNoteView::GameStart => ChatLineView { kind: 3, slots: Seq::empty() },
            ChatNoteView::GameEnd { won_light } => ChatLineView {
                kind: if won_light {
                    4u8
                } else {
                    5u8
                },
                slots: Seq::empty(),
            },
            ChatNoteView::TimerExpired { is_light } => ChatLineView {
                kind: if is_light {
                    6u8
                } else {
                    7u8
                },
                slots: Seq::empty(),
            },
            ChatNoteView::Resign { is_light } => ChatLineView {
                kind: if is_light {
                    8u8
                } else {
                    9u8
                },
                slots: Seq::empty(),
            },
            ChatNoteView::Connected(name) => ChatLineView { kind: 10, slots: seq![name] },
            ChatNoteView::Disconnected => ChatLineView { kind: 11, slots: Seq::empty() },
            ChatNoteView::NewPeer => ChatLineView { kind: 12, slots: Seq::empty() },
        }
    }
}

impl ChatNote {
    /// The line that the note is written as.
    pub fn line(&self) -> (line: ChatLine)
        ensures
            line@ == self@.line(),
    {
        match self {
            ChatNote::PlayerMessage { is_light, name, content } => Chat::player_message(
                *is_light,
                name.as_str(),
                content.as_str(),
            ),
            ChatNote::JoinRoom(code) => Chat::join_room(code.as_str()),
            ChatNote::GameStart => Chat::game_start(),
            ChatNote::GameEnd { won_light } => Chat::game_end(*won_light),
            ChatNote::TimerExpired { is_light } => Chat::timer_expired(*is_light),
            ChatNote::Resign { is_light } => Chat::resign(*is_light),
            ChatNote::Connected(name) => Chat::connected(name.as_str()),
            ChatNote::Disconnected => Chat::disconnected(),
            ChatNote::NewPeer => Chat::new_peer(),
        }
    }
}

/// The mathematical value of an [`Event`].
pub enum EventView {
    Start,
    SetGamemode(u8),
    Register(Seq<char>),
    Handshake(Seq<char>),
    CreateRoom,
    JoinRoom(Seq<char>),
    SetSettings { timer: u16, host_as_light: bool },
    ChatMessage { is_local: bool, content: Seq<char> },
    MenuHidden(u8),
    HexClicked { q: u8, r: u8 },
    JoinedRoom { code: Seq<char>, is_host: bool },
    NetError,
    Connected,
    Disconnected,
    LoadedBoard(Seq<u16>),
    Movement { piece: u8, to: (u8, u8), is_local: bool },
    TimerExpired,
    GameStart,
    GameEnded { won_light: bool },
    PingRequest,
    PacketReceived(PacketView),
    Resign(bool),
    GameButtonClick(Button),
    PromotionPrompt(u8),
    PromotionResponse(u8),
    Promotion { piece: u8, kind: u8, is_local: bool },
}

impl View for Event {
    type V = EventView;

    open spec fn view(&self) -> EventView {
        match *self {
            Event::Start => EventView::Start,
            Event::SetGamemode(mode) => EventView::SetGamemode(mode),
            Event::Register(name) => EventView::Register(name@),
            Event::Handshake(name) => EventView::Handshake(name@),
            Event::CreateRoom => EventView::CreateRoom,
            Event::JoinRoom(code) => EventView::JoinRoom(code@),
            Event::SetSettings { timer, host_as_light } => EventView::SetSettings {
                timer,
                host_as_light,
            },
            Event::ChatMessage { is_local, content } => EventView::ChatMessage {
                is_local,
                content: content@,
            },
            Event::MenuHidden(menu) => EventView::MenuHidden(menu),
            Event::HexClicked { q, r } => EventView::HexClicked { q, r },
            Event::JoinedRoom { code, is_host } => EventView::JoinedRoom { code: code@, is_host },
            Event::NetError => EventView::NetError,
            Event::Connected => EventView::Connected,
            Event::Disconnected => EventView::Disconnected,
            Event::LoadedBoard(board) => EventView::LoadedBoard(board@),
            Event::Movement { piece, to, is_local } => EventView::Movement { piece, to, is_local },
            Event::TimerExpired => EventView::TimerExpired,
            Event::GameStart => EventView::GameStart,
            Event::GameEnded { won_light } => EventView::GameEnded { won_light },
            Event::PingRequest => EventView::PingRequest,
            Event::PacketReceived(packet) => EventView::PacketReceived(packet@),
            Event::Resign(local) => EventView::Resign(local),
            Event::GameButtonClick(button) => EventView::GameButtonClick(button),
            Event::PromotionPrompt(idx) => EventView::PromotionPrompt(idx),
            Event::PromotionResponse(kind) => EventView::PromotionResponse(kind),
            Event::Promotion { piece, kind, is_local } => EventView::Promotion {
                piece,
                kind,
                is_local,
            },
        }
    }
}

/// The mathematical value of a [`Command`].
pub enum CommandView {
    Emit(EventView),
    SetScene(i8),
    ShowChat,
    HideChat,
    SetPlayerName { is_self: bool, name: Seq<char> },
    JoinResponse(JoinOutcome),
    AddChatMessage(ChatNoteView),
    SetPieces(Seq<u16>),
    MovePieces(Seq<u16>),
    Highlight(Seq<u16>),
    PromotePieces(Seq<u16>),
    ShowPromotionPrompt { color: u8, q: u8, r: u8 },
    SetTimers { light: u16, dark: u16, active: i8 },
    RemoveTimers,
    AddRtt(i32),
    SetBoardPerspective(bool),
    ShowButtons(Seq<u8>),
    LogError(PeerError),
    LogParseError(ParseErrorView),
    StartPinging(u32),
    Send(PacketView),
    Close,
    Kill,
    StartAsHost,
    StartAsGuest(Seq<char>),
}

impl View for Command {
    type V = CommandView;

    open spec fn view(&self) -> CommandView {
        match *self {
            Command::Emit(event) => CommandView::Emit(event@),
            Command::SetScene(scene) => CommandView::SetScene(scene),
            Command::ShowChat => CommandView::ShowChat,
            Command::HideChat => CommandView::HideChat,
            Command::SetPlayerName { is_self, name } => CommandView::SetPlayerName {
                is_self,
                name: name@,
            },
            Command::JoinResponse(outcome) => CommandView::JoinResponse(outcome),
            Command::AddChatMessage(note) => CommandView::AddChatMessage(note@),
            Command::SetPieces(pieces) => CommandView::SetPieces(pieces@),
            Command::MovePieces(pieces) => CommandView::MovePieces(pieces@),
            Command::Highlight(hexes) => CommandView::Highlight(hexes@),
            Command::PromotePieces(pieces) => CommandView::PromotePieces(pieces@),
            Command::ShowPromotionPrompt { color, q, r } => CommandView::ShowPromotionPrompt {
                color,
                q,
                r,
            },
            Command::SetTimers { light, dark, active } => CommandView::SetTimers {
                light,
                dark,
                active,
            },
            Command::RemoveTimers => CommandView::RemoveTimers,
            Command::AddRtt(rtt) => CommandView::AddRtt(rtt),
            Command::SetBoardPerspective(light) => CommandView::SetBoardPerspective(light),
            Command::ShowButtons(ids) => CommandView::ShowButtons(ids@),
            Command::LogError(error) => CommandView::LogError(error),
            Command::LogParseError(error) => CommandView::LogParseError(error@),
            Command::StartPinging(every) => CommandView::StartPinging(every),
            Command::Send(packet) => CommandView::Send(packet@),
            Command::Close => CommandView::Close,
            Command::Kill => CommandView::Kill,
            Command::StartAsHost => CommandView::StartAsHost,
            Command::StartAsGuest(code) => CommandView::StartAsGuest(code@),
        }
    }
}

impl DeepView for Command {
    type V = CommandView;

    open spec fn deep_view(&self) -> CommandView {
        self@
    }
}

/// A list of commands with one more command holds the values of the old
/// list and, at the end, the value of that command.
pub proof fn lemma_commands_push(before: Vec<Command>, after: Vec<Command>, command: Command)
    requires
        after@ == before@.push(command),
    ensures
        after.deep_view() == before.deep_view().push(command@),
{
    assert(after.deep_view() =~= before.deep_view().push(command@));
}

/// Puts a command at the end of a list.
pub fn give(commands: &mut Vec<Command>, command: Command)
    ensures
        final(commands).deep_view() == old(commands).deep_view().push(command@),
{
    let ghost before = *commands;
    commands.push(command);
    proof {
        lemma_commands_push(before, *commands, command);
    }
}

/// A list without commands.
pub fn no_commands() -> (commands: Vec<Command>)
    ensures
        commands.deep_view() == Seq::<CommandView>::empty(),
{
    let commands: Vec<Command> = Vec::new();
    assert(commands.deep_view() =~= Seq::<CommandView>::empty());
    commands
}

/// What the bytes that come with an event of a kind from the page read
/// as; `None` where bytes are missing, or a button is named that is none.
pub open spec fn decoded(kind: JsEvent, bytes: Seq<u8>) -> Option<EventView> {
    let data = BufferView { bytes, ptr: 0 };
    match kind {
        JsEvent::Start => Some(EventView::Start),
        JsEvent::SetGamemode => match data.peek_u8() {
            Some(mode) => Some(EventView::SetGamemode(mode)),
            None => None,
        },
        JsEvent::Register => Some(EventView::Register(text_of(bytes))),
        JsEvent::CreateRoom => Some(EventView::CreateRoom),
        JsEvent::JoinRoom => Some(EventView::JoinRoom(text_of(bytes))),
        JsEvent::SetSettings => if data.has(3) {
            Some(
                EventView::SetSettings {
                    timer: crate::buffer::u16_of(data.at(0), data.at(1)),
                    host_as_light: data.at(2) == 1,
                },
            )
        } else {
            None
        },
        JsEvent::SendMessage => Some(
            EventView::ChatMessage { is_local: true, content: text_of(bytes) },
        ),
        JsEvent::MenuHidden => match data.peek_u8() {
            Some(menu) => Some(EventView::MenuHidden(menu)),
            None => None,
        },
        JsEvent::HexClicked => if data.has(2) {
            Some(EventView::HexClicked { q: data.at(0), r: data.at(1) })
        } else {
            None
        },
        JsEvent::TimerExpired => Some(EventView::TimerExpired),
        JsEvent::GameButtonClick => match data.peek_u8() {
            Some(value) => match Button::spec_from_u8(value) {
                Some(button) => Some(EventView::GameButtonClick(button)),
                None => None,
            },
            None => None,
        },
        JsEvent::PromotionResponse => match data.peek_u8() {
            Some(kind) => Some(EventView::PromotionResponse(kind)),
            None => None,
        },
    }
}

impl Event {
    /// The event that the page tells of: its kind, and the bytes that come
    /// with it.
    pub fn from_js(kind: JsEvent, data: &[u8]) -> (event: Option<Event>)
        ensures
            match event {
                Some(event) => decoded(kind, data@) == Some(event@),
                None => decoded(kind, data@) is None,
            },
    {
        let mut buf = Buffer::from_slice(data);
        proof {
            buf.lemma_len_fits();
            assert(data@.subrange(0, data@.len() as int) =~= data@);
        }
        match kind {
            JsEvent::Start => Some(Event::Start),
            JsEvent::SetGamemode => match buf.read_u8() {
                Some(mode) => Some(Event::SetGamemode(mode)),
                None => None,
            },
            JsEvent::Register => match buf.read_js_string() {
                Some(name) => Some(Event::Register(name)),
                None => None,
            },
            JsEvent::CreateRoom => Some(Event::CreateRoom),
            JsEvent::JoinRoom => match buf.read_js_string() {
                Some(code) => Some(Event::JoinRoom(code)),
                None => None,
            },
            JsEvent::SetSettings => {
                let timer = match buf.read_u16() {
                    Some(timer) => timer,
                    None => {
                        return None;
                    },
                };
                match buf.read_bool() {
                    Some(host_as_light) => Some(Event::SetSettings { timer, host_as_light }),
                    None => None,
                }
            },
            JsEvent::SendMessage => match buf.read_js_string() {
                Some(content) => Some(Event::ChatMessage { is_local: true, content }),
                None => None,
            },
            JsEvent::MenuHidden => match buf.read_u8() {
                Some(menu) => Some(Event::MenuHidden(menu)),
                None => None,
            },
            JsEvent::HexClicked => {
                let q = match buf.read_u8() {
                    Some(q) => q,
                    None => {
                        return None;
                    },
                };
                match buf.read_u8() {
                    Some(r) => Some(Event::HexClicked { q, r }),
                    None => None,
                }
            },
            JsEvent::TimerExpired => Some(Event::TimerExpired),
            JsEvent::GameButtonClick => match buf.read_u8() {
                Some(value) => match Button::from_u8(value) {
                    Some(button) => Some(Event::GameButtonClick(button)),
                    None => None,
                },
                None => None,
            },
            JsEvent::PromotionResponse => match buf.read_u8() {
                Some(kind) => Some(Event::PromotionResponse(kind)),
                None => None,
            },
        }
    }
}

} // verus!
