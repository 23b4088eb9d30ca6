//! The packets that the two peers send each other once they are connected.
//!
//! A packet is written as the version of the protocol, the code of its
//! kind, and its fields in their order.

use crate::buffer::{high_byte, low_byte, string_bytes, u16_of, Buffer, BufferView};
use crate::decimal::{decimal, format_u64};
use vstd::prelude::*;
use vstd::string::*;
use vstd::utf8::{encode_utf8, encode_utf8_decode_utf8, encode_utf8_valid_utf8};

verus! {

/// The version of the protocol.
pub const NET_VERSION: u8 = 0;

/// Why bytes are no packet.
#[derive(Debug, PartialEq, Eq)]
pub enum ParseError {
    /// The bytes end before a field; the text names the read that failed.
    MissingFields(String),
    /// No kind of packet has the code.
    UnknownPacket(u8),
    /// The packet is of another version: the one it has, and the one
    /// expected.
    VersionMismatch(u8, u8),
}

/// The mathematical value of a [`ParseError`].
pub enum ParseErrorView {
    MissingFields(Seq<char>),
    UnknownPacket(u8),
    VersionMismatch(u8, u8),
}

impl View for ParseError {
    type V = ParseErrorView;

    open spec fn view(&self) -> ParseErrorView {
        match *self {
            ParseError::MissingFields(kind) => ParseErrorView::MissingFields(kind@),
            ParseError::UnknownPacket(code) => ParseErrorView::UnknownPacket(code),
            ParseError::VersionMismatch(got, expected) => ParseErrorView::VersionMismatch(
                got,
                expected,
            ),
        }
    }
}

impl Clone for ParseError {
    fn clone(&self) -> (res: Self)
        ensures
            res == *self,
    {
        match self {
            ParseError::MissingFields(kind) => ParseError::MissingFields(kind.clone()),
            ParseError::UnknownPacket(code) => ParseError::UnknownPacket(*code),
            ParseError::VersionMismatch(got, expected) => ParseError::VersionMismatch(
                *got,
                *expected,
            ),
        }
    }
}

impl ParseErrorView {
    /// The message that describes the error.
    pub open spec fn message(self) -> Seq<char> {
        match self {
            ParseErrorView::MissingFields(kind) => "missing a field of kind "@ + kind,
            ParseErrorView::UnknownPacket(code) => "unknown packet with code "@ + decimal(
                code as nat,
            ),
            ParseErrorView::VersionMismatch(got, expected) => "net version mismatch: got "@
                + decimal(got as nat) + ", expected "@ + decimal(expected as nat),
        }
    }
}

impl ParseError {
    /// The message that describes the error.
    pub fn message(&self) -> (text: String)
        ensures
            text@ == self@.message(),
    {
        match self {
            ParseError::MissingFields(kind) => {
                let mut text = String::from_str("missing a field of kind ");
                text.append(kind.as_str());
                text
            },
            ParseError::UnknownPacket(code) => {
                let mut text = String::from_str("unknown packet with code ");
                text.append(format_u64(*code as u64).as_str());
                text
            },
            ParseError::VersionMismatch(got, expected) => {
                let mut text = String::from_str("net version mismatch: got ");
                text.append(format_u64(*got as u64).as_str());
                text.append(", expected ");
                text.append(format_u64(*expected as u64).as_str());
                text
            },
        }
    }
}

/// The error of a read that found no byte.
pub open spec fn missing_u8() -> ParseErrorView {
    ParseErrorView::MissingFields("read_u8"@)
}

/// The error of a read that found no truth value.
pub open spec fn missing_bool() -> ParseErrorView {
    ParseErrorView::MissingFields("read_bool"@)
}

/// The error of a read that found no number of two bytes.
pub open spec fn missing_u16() -> ParseErrorView {
    ParseErrorView::MissingFields("read_u16"@)
}

/// The error of a read that found no text.
pub open spec fn missing_string() -> ParseErrorView {
    ParseErrorView::MissingFields("read_string"@)
}

fn need_u8(data: &mut Buffer) -> (res: Result<u8, ParseError>)
    ensures
        match res {
            Ok(value) => old(data)@.peek_u8() == Some(value),
            Err(e) => old(data)@.peek_u8() is None && e@ == missing_u8(),
        },
        final(data)@ == old(data)@.advance(1),
{
    match data.read_u8() {
        Some(value) => Ok(value),
        None => Err(ParseError::MissingFields(String::from_str("read_u8"))),
    }
}

fn need_bool(data: &mut Buffer) -> (res: Result<bool, ParseError>)
    ensures
        match res {
            Ok(value) => old(data)@.peek_u8() is Some && value == (old(data)@.at(0) == 1),
            Err(e) => old(data)@.peek_u8() is None && e@ == missing_bool(),
        },
        final(data)@ == old(data)@.advance(1),
{
    match data.read_bool() {
        Some(value) => Ok(value),
        None => Err(ParseError::MissingFields(String::from_str("read_bool"))),
    }
}

fn need_u16(data: &mut Buffer) -> (res: Result<u16, ParseError>)
    ensures
        match res {
            Ok(value) => old(data)@.peek_u16() == Some(value),
            Err(e) => old(data)@.peek_u16() is None && e@ == missing_u16(),
        },
        final(data)@ == old(data)@.after_u16(),
{
    match data.read_u16() {
        Some(value) => Ok(value),
        None => Err(ParseError::MissingFields(String::from_str("read_u16"))),
    }
}

fn need_string(data: &mut Buffer) -> (res: Result<String, ParseError>)
    ensures
        match res {
            Ok(value) => old(data)@.peek_string() == Some(value@),
            Err(e) => old(data)@.peek_string() is None && e@ == missing_string(),
        },
        final(data)@ == old(data)@.after_string(),
{
    match data.read_string() {
        Some(value) => Ok(value),
        None => Err(ParseError::MissingFields(String::from_str("read_string"))),
    }
}

/// The mathematical value of a packet.
pub enum PacketView {
    Handshake { name: Seq<char> },
    Start,
    ChatMessage { content: Seq<char> },
    Movement { idx: u8, q: u8, r: u8, time_left: Option<u16> },
    Resign,
    Ping { request: Option<u16>, reply_to: Option<u16> },
    SetBoard { board: Seq<u16> },
    SetSettings { timer: u16, host_as_light: bool },
    Promote { idx: u8, kind: u8 },
}

/// The bytes that an optional number is written as: a one and the number,
/// or a zero.
pub open spec fn optional_bytes(value: Option<u16>) -> Seq<u8> {
    match value {
        Some(id) => seq![1u8, high_byte(id), low_byte(id)],
        None => seq![0u8],
    }
}

/// The bytes that numbers are written as, two bytes each.
pub open spec fn words_bytes(words: Seq<u16>) -> Seq<u8>
    decreases words.len(),
{
    if words.len() == 0 {
        Seq::empty()
    } else {
        words_bytes(words.drop_last()) + seq![high_byte(words.last()), low_byte(words.last())]
    }
}

impl PacketView {
    /// The code of the kind of the packet.
    pub open spec fn code(self) -> u8 {
        match self {
            PacketView::Handshake { .. } => 0,
            PacketView::Start => 1,
            PacketView::ChatMessage { .. } => 2,
            PacketView::Movement { .. } => 3,
            PacketView::Resign => 4,
            PacketView::Ping { .. } => 5,
            PacketView::SetBoard { .. } => 6,
            PacketView::SetSettings { .. } => 7,
            PacketView::Promote { .. } => 8,
        }
    }

    /// Whether the packet can be written: a board holds 255 pieces at most.
    pub open spec fn writable(self) -> bool {
        self matches PacketView::SetBoard { board } ==> board.len() <= 255
    }

    /// The bytes that the fields of the packet are written as.
    pub open spec fn fields(self) -> Seq<u8> {
        match self {
            PacketView::Handshake { name } => string_bytes(name),
            PacketView::Start => Seq::empty(),
            PacketView::ChatMessage { content } => string_bytes(content),
            PacketView::Movement { idx, q, r, time_left } => {
                let time = match time_left {
                    Some(t) => t,
                    None => 0u16,
                };
                seq![idx, q, r, high_byte(time), low_byte(time)]
            },
            PacketView::Resign => Seq::empty(),
            PacketView::Ping { request, reply_to } => optional_bytes(request) + optional_bytes(
                reply_to,
            ),
            PacketView::SetBoard { board } => seq![board.len() as u8] + words_bytes(board),
            PacketView::SetSettings { timer, host_as_light } => seq![
                high_byte(timer),
                low_byte(timer),
                if host_as_light {
                    1u8
                } else {
                    0u8
                },
            ],
            PacketView::Promote { idx, kind } => seq![idx, kind],
        }
    }

    /// The bytes that the packet is written as.
    pub open spec fn bytes(self) -> Seq<u8> {
        seq![NET_VERSION, self.code()] + self.fields()
    }
}

/// What the bytes at the cursor read as where an optional number is
/// expected, and how many bytes the read takes.
pub open spec fn parse_optional(data: BufferView) -> Result<(Option<u16>, nat), ParseErrorView> {
    match data.peek_u8() {
        None => Err(missing_bool()),
        Some(flag) => if flag == 1 {
            match data.advance(1).peek_u16() {
                None => Err(missing_u16()),
                Some(id) => Ok((Some(id), 3)),
            }
        } else {
            Ok((None, 1))
        },
    }
}

/// The `n` numbers of two bytes each that lie at the cursor.
pub open spec fn words_at(data: BufferView, n: nat) -> Seq<u16> {
    Seq::new(n, |k: int| u16_of(data.at((2 * k) as nat), data.at((2 * k + 1) as nat)))
}

/// What the bytes at the cursor read as where the fields of a packet of
/// the kind with `code` are expected.
pub open spec fn parse_fields(code: u8, data: BufferView) -> Result<PacketView, ParseErrorView> {
    if code == 0 {
        match data.peek_string() {
            Some(name) => Ok(PacketView::Handshake { name }),
            None => Err(missing_string()),
        }
    } else if code == 1 {
        Ok(PacketView::Start)
    } else if code == 2 {
        match data.peek_string() {
            Some(content) => Ok(PacketView::ChatMessage { content }),
            None => Err(missing_string()),
        }
    } else if code == 3 {
        if !data.has(3) {
            Err(missing_u8())
        } else if !data.has(5) {
            Err(missing_u16())
        } else {
            let time = u16_of(data.at(3), data.at(4));
            Ok(
                PacketView::Movement {
                    idx: data.at(0),
                    q: data.at(1),
                    r: data.at(2),
                    time_left: if time == 0 {
                        None
                    } else {
                        Some(time)
                    },
                },
            )
        }
    } else if code == 4 {
        Ok(PacketView::Resign)
    } else if code == 5 {
        match parse_optional(data) {
            Err(e) => Err(e),
            Ok((request, used)) => match parse_optional(data.advance(used)) {
                Err(e) => Err(e),
                Ok((reply_to, _)) => Ok(PacketView::Ping { request, reply_to }),
            },
        }
    } else if code == 6 {
        match data.peek_u8() {
            None => Err(missing_u8()),
            Some(n) => if data.advance(1).has(2 * n as nat) {
                Ok(PacketView::SetBoard { board: words_at(data.advance(1), n as nat) })
            } else {
                Err(missing_u16())
            },
        }
    } else if code == 7 {
        if !data.has(2) {
            Err(missing_u16())
        } else if !data.has(3) {
            Err(missing_bool())
        } else {
            Ok(
                PacketView::SetSettings {
                    timer: u16_of(data.at(0), data.at(1)),
                    host_as_light: data.at(2) == 1,
                },
            )
        }
    } else if code == 8 {
        if !data.has(2) {
            Err(missing_u8())
        } else {
            Ok(PacketView::Promote { idx: data.at(0), kind: data.at(1) })
        }
    } else {
        Err(ParseErrorView::UnknownPacket(code))
    }
}

/// What the bytes at the cursor read as where a packet is expected.
pub open spec fn parse(data: BufferView) -> Result<PacketView, ParseErrorView> {
    match data.peek_u8() {
        None => Err(missing_u8()),
        Some(version) => if version != NET_VERSION {
            Err(ParseErrorView::VersionMismatch(version, NET_VERSION))
        } else {
            match data.advance(1).peek_u8() {
                None => Err(missing_u8()),
                Some(code) => parse_fields(code, data.advance(2)),
            }
        },
    }
}

/// One kind of packet: its code, and how its fields are read and written.
pub trait Packet: Sized + View<V = PacketView> {
    /// The code of the kind.
    const CODE: u8;

    /// Reads the fields of a packet of this kind at the cursor.
    fn read(data: Buffer) -> (res: Result<Self, ParseError>)
        ensures
            match res {
                Ok(packet) => parse_fields(Self::CODE, data@) == Ok::<PacketView, ParseErrorView>(
                    packet@,
                ),
                Err(e) => parse_fields(Self::CODE, data@) == Err::<PacketView, ParseErrorView>(e@),
            },
    ;

    /// Writes the fields of the packet at the end of a buffer.
    fn write(&self, data: &mut Buffer)
        requires
            self@.writable(),
        ensures
            final(data)@ == old(data)@.append(self@.fields()),
    ;
}

/// The first packet of a peer: its name.
#[derive(Debug, PartialEq, Eq)]
pub struct Handshake {
    pub name: String,
}

impl View for Handshake {
    type V = PacketView;

    open spec fn view(&self) -> PacketView {
        PacketView::Handshake { name: self.name@ }
    }
}

impl Packet for Handshake {
    const CODE: u8 = 0;

    fn read(data: Buffer) -> (res: Result<Self, ParseError>) {
        let mut data = data;
        match need_string(&mut data) {
            Ok(name) => Ok(Handshake { name }),
            Err(e) => Err(e),
        }
    }

    fn write(&self, data: &mut Buffer) {
        data.write_string(self.name.as_str());
    }
}

/// The host starts the game.
#[derive(Debug, PartialEq, Eq)]
pub struct Start {}

impl View for Start {
    type V = PacketView;

    open spec fn view(&self) -> PacketView {
        PacketView::Start
    }
}

impl Packet for Start {
    const CODE: u8 = 1;

    fn read(data: Buffer) -> (res: Result<Self, ParseError>) {
        Ok(Start {  })
    }

    fn write(&self, data: &mut Buffer) {
        assert(data@.append(Seq::empty()) =~= data@);
    }
}

/// A line of chat.
#[derive(Debug, PartialEq, Eq)]
pub struct ChatMessage {
    pub content: String,
}

impl View for ChatMessage {
    type V = PacketView;

    open spec fn view(&self) -> PacketView {
        PacketView::ChatMessage { content: self.content@ }
    }
}

impl Packet for ChatMessage {
    const CODE: u8 = 2;

    fn read(data: Buffer) -> (res: Result<Self, ParseError>) {
        let mut data = data;
        match need_string(&mut data) {
            Ok(content) => Ok(ChatMessage { content }),
            Err(e) => Err(e),
        }
    }

    fn write(&self, data: &mut Buffer) {
        data.write_string(self.content.as_str());
    }
}

/// A piece moves to a hex.
#[derive(Debug, PartialEq, Eq)]
pub struct Movement {
    pub idx: u8,
    pub q: u8,
    pub r: u8,
    /// The seconds that the mover has left; none is written as zero.
    pub time_left: Option<u16>,
}

impl View for Movement {
    type V = PacketView;

    open spec fn view(&self) -> PacketView {
        PacketView::Movement { idx: self.idx, q: self.q, r: self.r, time_left: self.time_left }
    }
}

impl Packet for Movement {
    const CODE: u8 = 3;

    fn read(data: Buffer) -> (res: Result<Self, ParseError>) {
        let mut data = data;
        proof {
            data.lemma_len_fits();
        }
        let idx = match need_u8(&mut data) {
            Ok(idx) => idx,
            Err(e) => {
                return Err(e);
            },
        };
        let q = match need_u8(&mut data) {
            Ok(q) => q,
            Err(e) => {
                return Err(e);
            },
        };
        let r = match need_u8(&mut data) {
            Ok(r) => r,
            Err(e) => {
                return Err(e);
            },
        };
        let time = match need_u16(&mut data) {
            Ok(time) => time,
            Err(e) => {
                return Err(e);
            },
        };
        Ok(
            Movement {
                idx,
                q,
                r,
                time_left: if time == 0 {
                    None
                } else {
                    Some(time)
                },
            },
        )
    }

    fn write(&self, data: &mut Buffer) {
        let time = match self.time_left {
            Some(time) => time,
            None => 0,
        };
        data.write_u8(self.idx).write_u8(self.q).write_u8(self.r).write_u16(time);
        assert(data@.bytes =~= old(data)@.bytes + self@.fields());
    }
}

/// A player gives up.
#[derive(Debug, PartialEq, Eq)]
pub struct Resign {}

impl View for Resign {
    type V = PacketView;

    open spec fn view(&self) -> PacketView {
        PacketView::Resign
    }
}

impl Packet for Resign {
    const CODE: u8 = 4;

    fn read(data: Buffer) -> (res: Result<Self, ParseError>) {
        Ok(Resign {  })
    }

    fn write(&self, data: &mut Buffer) {
        assert(data@.append(Seq::empty()) =~= data@);
    }
}

/// A probe of the round trip time: a request with an id, the reply to
/// one, or both.
#[derive(Debug, PartialEq, Eq)]
pub struct Ping {
    pub request: Option<u16>,
    pub reply_to: Option<u16>,
}

impl View for Ping {
    type V = PacketView;

    open spec fn view(&self) -> PacketView {
        PacketView::Ping { request: self.request, reply_to: self.reply_to }
    }
}

fn read_optional(data: &mut Buffer) -> (res: Result<Option<u16>, ParseError>)
    ensures
        match res {
            Ok(value) => {
                &&& parse_optional(old(data)@) matches Ok((v, used))
                &&& v == value
                &&& final(data)@ == old(data)@.advance(used)
            },
            Err(e) => parse_optional(old(data)@) == Err::<(Option<u16>, nat), ParseErrorView>(e@),
        },
{
    proof {
        data.lemma_len_fits();
    }
    let present = match need_bool(data) {
        Ok(present) => present,
        Err(e) => {
            return Err(e);
        },
    };
    if present {
        match need_u16(data) {
            Ok(id) => Ok(Some(id)),
            Err(e) => Err(e),
        }
    } else {
        Ok(None)
    }
}

fn write_optional(data: &mut Buffer, value: Option<u16>)
    ensures
        final(data)@ == old(data)@.append(optional_bytes(value)),
{
    match value {
        Some(id) => {
            data.write_bool(true).write_u16(id);
        },
        None => {
            data.write_bool(false);
        },
    }
    assert(data@.bytes =~= old(data)@.bytes + optional_bytes(value));
}

impl Packet for Ping {
    const CODE: u8 = 5;

    fn read(data: Buffer) -> (res: Result<Self, ParseError>) {
        let mut data = data;
        let request = match read_optional(&mut data) {
            Ok(request) => request,
            Err(e) => {
                return Err(e);
            },
        };
        let reply_to = match read_optional(&mut data) {
            Ok(reply_to) => reply_to,
            Err(e) => {
                return Err(e);
            },
        };
        Ok(Ping { request, reply_to })
    }

    fn write(&self, data: &mut Buffer) {
        write_optional(data, self.request);
        write_optional(data, self.reply_to);
        assert(data@.bytes =~= old(data)@.bytes + self@.fields());
    }
}

/// The host sets the board: one number for each piece.
#[derive(Debug, PartialEq, Eq)]
pub struct SetBoard {
    pub board: Vec<u16>,
}

impl View for SetBoard {
    type V = PacketView;

    open spec fn view(&self) -> PacketView {
        PacketView::SetBoard { board: self.board@ }
    }
}

impl Packet for SetBoard {
    const CODE: u8 = 6;

    fn read(data: Buffer) -> (res: Result<Self, ParseError>) {
        let mut rest = data;
        proof {
            data.lemma_len_fits();
        }
        let n = match need_u8(&mut rest) {
            Ok(n) => n,
            Err(e) => {
                return Err(e);
            },
        };
        let ghost start = rest@;
        let mut board: Vec<u16> = Vec::new();
        let mut i: u8 = 0;
        while i < n
            invariant
                0 <= i <= n,
                start.bytes.len() <= usize::MAX,
                data@.peek_u8() == Some(n),
                start == data@.advance(1),
                start.has(2 * i as nat),
                rest@ == start.advance(2 * i as nat),
                board@ == words_at(start, i as nat),
            decreases n - i,
        {
            let word = match need_u16(&mut rest) {
                Ok(word) => word,
                Err(e) => {
                    return Err(e);
                },
            };
            board.push(word);
            i = i + 1;
            assert(board@ =~= words_at(start, i as nat));
        }
        Ok(SetBoard { board })
    }

    fn write(&self, data: &mut Buffer) {
        let n = self.board.len();
        data.write_u8(n as u8);
        let ghost start = data@;
        let mut i: usize = 0;
        while i < n
            invariant
                0 <= i <= n,
                n == self.board.len(),
                data@ == start.append(words_bytes(self.board@.take(i as int))),
            decreases n - i,
        {
            data.write_u16(self.board[i]);
            proof {
                assert(self.board@.take(i + 1).drop_last() =~= self.board@.take(i as int));
                assert(data@.bytes =~= start.bytes + words_bytes(self.board@.take(i + 1)));
            }
            i = i + 1;
        }
        assert(self.board@.take(n as int) =~= self.board@);
        assert(data@.bytes =~= old(data)@.bytes + self@.fields());
    }
}

/// The host sets the rules of the game.
#[derive(Debug, PartialEq, Eq)]
pub struct SetSettings {
    /// The seconds that each player has; zero for no limit.
    pub timer: u16,
    pub host_as_light: bool,
}

impl View for SetSettings {
    type V = PacketView;

    open spec fn view(&self) -> PacketView {
        PacketView::SetSettings { timer: self.timer, host_as_light: self.host_as_light }
    }
}

impl Packet for SetSettings {
    const CODE: u8 = 7;

    fn read(data: Buffer) -> (res: Result<Self, ParseError>) {
        let mut data = data;
        proof {
            data.lemma_len_fits();
        }
        let timer = match need_u16(&mut data) {
            Ok(timer) => timer,
            Err(e) => {
                return Err(e);
            },
        };
        let host_as_light = match need_bool(&mut data) {
            Ok(host_as_light) => host_as_light,
            Err(e) => {
                return Err(e);
            },
        };
        Ok(SetSettings { timer, host_as_light })
    }

    fn write(&self, data: &mut Buffer) {
        data.write_u16(self.timer).write_bool(self.host_as_light);
        assert(data@.bytes =~= old(data)@.bytes + self@.fields());
    }
}

/// A pawn becomes a piece of another kind.
#[derive(Debug, PartialEq, Eq)]
pub struct Promote {
    pub idx: u8,
    pub kind: u8,
}

impl View for Promote {
    type V = PacketView;

    open spec fn view(&self) -> PacketView {
        PacketView::Promote { idx: self.idx, kind: self.kind }
    }
}

impl Packet for Promote {
    const CODE: u8 = 8;

    fn read(data: Buffer) -> (res: Result<Self, ParseError>) {
        let mut data = data;
        proof {
            data.lemma_len_fits();
        }
        let idx = match need_u8(&mut data) {
            Ok(idx) => idx,
            Err(e) => {
                return Err(e);
            },
        };
        let kind = match need_u8(&mut data) {
            Ok(kind) => kind,
            Err(e) => {
                return Err(e);
            },
        };
        Ok(Promote { idx, kind })
    }

    fn write(&self, data: &mut Buffer) {
        data.write_u8(self.idx).write_u8(self.kind);
        assert(data@.bytes =~= old(data)@.bytes + self@.fields());
    }
}

/// A packet of any kind.
#[derive(Debug, PartialEq, Eq)]
pub enum ChessPacket {
    Handshake(Handshake),
    Start(Start),
    ChatMessage(ChatMessage),
    Movement(Movement),
    Resign(Resign),
    Ping(Ping),
    SetBoard(SetBoard),
    SetSettings(SetSettings),
    Promote(Promote),
}

impl View for ChessPacket {
    type V = PacketView;

    open spec fn view(&self) -> PacketView {
        match *self {
            ChessPacket::Handshake(p) => p@,
            ChessPacket::Start(p) => p@,
            ChessPacket::ChatMessage(p) => p@,
            ChessPacket::Movement(p) => p@,
            ChessPacket::Resign(p) => p@,
            ChessPacket::Ping(p) => p@,
            ChessPacket::SetBoard(p) => p@,
            ChessPacket::SetSettings(p) => p@,
            ChessPacket::Promote(p) => p@,
        }
    }
}

impl DeepView for ChessPacket {
    type V = PacketView;

    open spec fn deep_view(&self) -> PacketView {
        self@
    }
}

impl ChessPacket {
    /// Reads a packet at the cursor of a buffer: the version, which must be
    /// this one, the code of the kind, and the fields of the kind.
    pub fn read(data: Buffer) -> (res: Result<ChessPacket, ParseError>)
        ensures
            match res {
                Ok(packet) => parse(data@) == Ok::<PacketView, ParseErrorView>(packet@),
                Err(e) => parse(data@) == Err::<PacketView, ParseErrorView>(e@),
            },
    {
        let mut data = data;
        proof {
            data.lemma_len_fits();
        }
        let version = match need_u8(&mut data) {
            Ok(version) => version,
            Err(e) => {
                return Err(e);
            },
        };
        if version != NET_VERSION {
            return Err(ParseError::VersionMismatch(version, NET_VERSION));
        }
        let code = match need_u8(&mut data) {
            Ok(code) => code,
            Err(e) => {
                return Err(e);
            },
        };
        if code == Handshake::CODE {
            match Handshake::read(data) {
                Ok(p) => Ok(ChessPacket::Handshake(p)),
                Err(e) => Err(e),
            }
        } else if code == Start::CODE {
            match Start::read(data) {
                Ok(p) => Ok(ChessPacket::Start(p)),
                Err(e) => Err(e),
            }
        } else if code == ChatMessage::CODE {
            match ChatMessage::read(data) {
                Ok(p) => Ok(ChessPacket::ChatMessage(p)),
                Err(e) => Err(e),
            }
        } else if code == Movement::CODE {
            match Movement::read(data) {
                Ok(p) => Ok(ChessPacket::Movement(p)),
                Err(e) => Err(e),
            }
        } else if code == Resign::CODE {
            match Resign::read(data) {
                Ok(p) => Ok(ChessPacket::Resign(p)),
                Err(e) => Err(e),
            }
        } else if code == Ping::CODE {
            match Ping::read(data) {
                Ok(p) => Ok(ChessPacket::Ping(p)),
                Err(e) => Err(e),
            }
        } else if code == SetBoard::CODE {
            match SetBoard::read(data) {
                Ok(p) => Ok(ChessPacket::SetBoard(p)),
                Err(e) => Err(e),
            }
        } else if code == SetSettings::CODE {
            match SetSettings::read(data) {
                Ok(p) => Ok(ChessPacket::SetSettings(p)),
                Err(e) => Err(e),
            }
        } else if code == Promote::CODE {
            match Promote::read(data) {
                Ok(p) => Ok(ChessPacket::Promote(p)),
                Err(e) => Err(e),
            }
        } else {
            Err(ParseError::UnknownPacket(code))
        }
    }

    /// Writes the packet to a new buffer: the version, the code of its
    /// kind, and its fields.
    pub fn write(&self) -> (data: Buffer)
        requires
            self@.writable(),
        ensures
            data@ == (BufferView { bytes: self@.bytes(), ptr: 0 }),
    {
        let mut data = Buffer::new();
        data.write_u8(NET_VERSION);
        match self {
            ChessPacket::Handshake(p) => {
                data.write_u8(Handshake::CODE);
                p.write(&mut data);
            },
            ChessPacket::Start(p) => {
                data.write_u8(Start::CODE);
                p.write(&mut data);
            },
            ChessPacket::ChatMessage(p) => {
                data.write_u8(ChatMessage::CODE);
                p.write(&mut data);
            },
            ChessPacket::Movement(p) => {
                data.write_u8(Movement::CODE);
                p.write(&mut data);
            },
            ChessPacket::Resign(p) => {
                data.write_u8(Resign::CODE);
                p.write(&mut data);
            },
            ChessPacket::Ping(p) => {
                data.write_u8(Ping::CODE);
                p.write(&mut data);
            },
            ChessPacket::SetBoard(p) => {
                data.write_u8(SetBoard::CODE);
                p.write(&mut data);
            },
            ChessPacket::SetSettings(p) => {
                data.write_u8(SetSettings::CODE);
                p.write(&mut data);
            },
            ChessPacket::Promote(p) => {
                data.write_u8(Promote::CODE);
                p.write(&mut data);
            },
        }
        assert(data@.bytes =~= self@.bytes());
        data
    }
}

/// Two bytes that a number was written as stand for the number.
pub proof fn lemma_u16_round_trip(value: u16)
    ensures
        u16_of(high_byte(value), low_byte(value)) == value,
{
}

/// The bytes of numbers hold two bytes for each, the high one first.
pub proof fn lemma_words_bytes(words: Seq<u16>)
    ensures
        words_bytes(words).len() == 2 * words.len(),
        forall|k: int|
            0 <= k < words.len() ==> #[trigger] words_bytes(words)[2 * k] == high_byte(words[k])
                && words_bytes(words)[2 * k + 1] == low_byte(words[k]),
    decreases words.len(),
{
    if words.len() > 0 {
        lemma_words_bytes(words.drop_last());
        let shorter = words_bytes(words.drop_last());
        assert forall|k: int| 0 <= k < words.len() implies #[trigger] words_bytes(words)[2 * k]
            == high_byte(words[k]) && words_bytes(words)[2 * k + 1] == low_byte(words[k]) by {
            if k < words.len() - 1 {
                assert(shorter[2 * k] == high_byte(words.drop_last()[k]));
                assert(words_bytes(words)[2 * k] == shorter[2 * k]);
                assert(words_bytes(words)[2 * k + 1] == shorter[2 * k + 1]);
            }
        }
    }
}

/// A text that was written with its length in front is read as it was,
/// where its encoding is shorter than 65536 bytes.
pub proof fn lemma_string_round_trip(before: Seq<u8>, text: Seq<char>, after: Seq<u8>)
    requires
        encode_utf8(text).len() < 65536,
        before.len() + string_bytes(text).len() + after.len() <= usize::MAX,
    ensures
        (BufferView { bytes: before + string_bytes(text) + after, ptr: before.len() }).peek_string()
            == Some(text),
{
    let encoded = encode_utf8(text);
    let data = BufferView { bytes: before + string_bytes(text) + after, ptr: before.len() };
    lemma_u16_round_trip(encoded.len() as u16);
    assert(data.at(0) == high_byte(encoded.len() as u16));
    assert(data.at(1) == low_byte(encoded.len() as u16));
    assert(data.peek_u16() == Some(encoded.len() as u16));
    let moved = data.after_u16();
    assert(moved.ptr == before.len() + 2);
    assert(moved.peek_bytes(encoded.len()) == Some(encoded)) by {
        assert(moved.bytes.subrange(moved.ptr as int, (moved.ptr + encoded.len()) as int) =~= encoded);
    }
    encode_utf8_valid_utf8(text);
    encode_utf8_decode_utf8(text);
}

/// Whether a packet is read back as it was written: it can be written, its
/// text is encoded in fewer than 65536 bytes, and where it tells the time
/// that is left, that time is not zero.
pub open spec fn reads_back(packet: PacketView) -> bool {
    &&& packet.writable()
    &&& packet matches PacketView::Handshake { name } ==> encode_utf8(name).len() < 65536
    &&& packet matches PacketView::ChatMessage { content } ==> encode_utf8(content).len() < 65536
    &&& packet matches PacketView::Movement { time_left, .. } ==> time_left != Some(0u16)
}

/// A packet that was written is read back as it was.
pub proof fn law_packet_round_trip(packet: PacketView)
    requires
        reads_back(packet),
    ensures
        parse(BufferView { bytes: packet.bytes(), ptr: 0 }) == Ok::<PacketView, ParseErrorView>(
            packet,
        ),
{
    let data = BufferView { bytes: packet.bytes(), ptr: 0 };
    let head = seq![NET_VERSION, packet.code()];
    assert(data.at(0) == NET_VERSION);
    assert(data.advance(1).at(0) == packet.code());
    let fields = data.advance(2);
    assert(fields.ptr == 2);
    match packet {
        PacketView::Handshake { name } => {
            assert(packet.bytes() =~= head + string_bytes(name) + Seq::<u8>::empty());
            lemma_string_round_trip(head, name, Seq::empty());
        },
        PacketView::Start => {},
        PacketView::ChatMessage { content } => {
            assert(packet.bytes() =~= head + string_bytes(content) + Seq::<u8>::empty());
            lemma_string_round_trip(head, content, Seq::empty());
        },
        PacketView::Movement { idx, q, r, time_left } => {
            let time = match time_left {
                Some(t) => t,
                None => 0u16,
            };
            lemma_u16_round_trip(time);
            assert(fields.at(0) == idx && fields.at(1) == q && fields.at(2) == r);
            assert(fields.at(3) == high_byte(time) && fields.at(4) == low_byte(time));
        },
        PacketView::Resign => {},
        PacketView::Ping { request, reply_to } => {
            let first = optional_bytes(request);
            let second = optional_bytes(reply_to);
            assert(packet.bytes() =~= head + first + second);
            if let Some(id) = request {
                lemma_u16_round_trip(id);
                assert(fields.at(0) == 1);
                assert(fields.advance(1).at(0) == high_byte(id));
                assert(fields.advance(1).at(1) == low_byte(id));
            } else {
                assert(fields.at(0) == 0);
            }
            let used: nat = if request is Some {
                3
            } else {
                1
            };
            assert(parse_optional(fields) == Ok::<(Option<u16>, nat), ParseErrorView>(
                (request, used),
            ));
            let rest = fields.advance(used);
            if let Some(id) = reply_to {
                lemma_u16_round_trip(id);
                assert(rest.at(0) == 1);
                assert(rest.advance(1).at(0) == high_byte(id));
                assert(rest.advance(1).at(1) == low_byte(id));
            } else {
                assert(rest.at(0) == 0);
            }
        },
        PacketView::SetBoard { board } => {
            lemma_words_bytes(board);
            assert(fields.at(0) == board.len() as u8);
            let start = fields.advance(1);
            assert(start.has(2 * board.len()));
            assert(words_at(start, board.len()) =~= board) by {
                assert forall|k: int| 0 <= k < board.len() implies words_at(start, board.len())[k]
                    == board[k] by {
                    lemma_u16_round_trip(board[k]);
                    assert(start.at((2 * k) as nat) == words_bytes(board)[2 * k]);
                    assert(start.at((2 * k + 1) as nat) == words_bytes(board)[2 * k + 1]);
                }
            }
        },
        PacketView::SetSettings { timer, host_as_light } => {
            lemma_u16_round_trip(timer);
            assert(fields.at(0) == high_byte(timer) && fields.at(1) == low_byte(timer));
            assert(fields.at(2) == if host_as_light {
                1u8
            } else {
                0u8
            });
        },
        PacketView::Promote { idx, kind } => {
            assert(fields.at(0) == idx && fields.at(1) == kind);
        },
    }
}

} // verus!
