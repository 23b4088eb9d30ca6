//! The lines that the game writes into the chat.

use vstd::prelude::*;
use vstd::string::*;

verus! {

/// A line of the chat: the kind of the line, and the texts that fill its
/// slots.
#[derive(Debug, PartialEq, Eq)]
pub struct ChatLine {
    pub kind: u8,
    pub slots: Vec<String>,
}

/// The mathematical value of a [`ChatLine`].
pub struct ChatLineView {
    pub kind: u8,
    pub slots: Seq<Seq<char>>,
}

impl View for ChatLine {
    type V = ChatLineView;

    open spec fn view(&self) -> ChatLineView {
        ChatLineView { kind: self.kind, slots: self.slots.deep_view() }
    }
}

/// Makes the lines of the chat.
pub struct Chat {}

impl Chat {
    /// What a player says: the kind tells the side, the slots hold the
    /// name and what was said.
    pub fn player_message(is_light: bool, name: &str, content: &str) -> (line: ChatLine)
        ensures
            line@ == (ChatLineView {
                kind: if is_light {
                    0u8
                } else {
                    1u8
                },
                slots: seq![name@, content@],
            }),
    {
        let mut slots: Vec<String> = Vec::new();
        slots.push(String::from_str(name));
        slots.push(String::from_str(content));
        assert(slots.deep_view() =~= seq![name@, content@]);
        ChatLine { kind: if is_light { 0 } else { 1 }, slots }
    }

    /// The room has been joined: the slot holds its code.
    pub fn join_room(code: &str) -> (line: ChatLine)
        ensures
            line@ == (ChatLineView { kind: 2, slots: seq![code@] }),
    {
        let mut slots: Vec<String> = Vec::new();
        slots.push(String::from_str(code));
        assert(slots.deep_view() =~= seq![code@]);
        ChatLine { kind: 2, slots }
    }

    /// The game has begun.
    pub fn game_start() -> (line: ChatLine)
        ensures
            line@ == (ChatLineView { kind: 3, slots: Seq::empty() }),
    {
        Chat::bare(3)
    }

    /// The game has ended: the kind tells who has won.
    pub fn game_end(won_light: bool) -> (line: ChatLine)
        ensures
            line@ == (ChatLineView {
                kind: if won_light {
                    4u8
                } else {
                    5u8
                },
                slots: Seq::empty(),
            }),
    {
        Chat::bare(if won_light { 4 } else { 5 })
    }

    /// The time of a player has run out: the kind tells whose.
    pub fn timer_expired(is_light: bool) -> (line: ChatLine)
        ensures
            line@ == (ChatLineView {
                kind: if is_light {
                    6u8
                } else {
                    7u8
                },
                slots: Seq::empty(),
            }),
    {
        Chat::bare(if is_light { 6 } else { 7 })
    }

    /// A player has given up: the kind tells who.
    pub fn resign(is_light: bool) -> (line: ChatLine)
        ensures
            line@ == (ChatLineView {
                kind: if is_light {
                    8u8
                } else {
                    9u8
                },
                slots: Seq::empty(),
            }),
    {
        Chat::bare(if is_light { 8 } else { 9 })
    }

    /// The peer has connected: the slot holds its name.
    pub fn connected(name: &str) -> (line: ChatLine)
        ensures
            line@ == (ChatLineView { kind: 10, slots: seq![name@] }),
    {
        let mut slots: Vec<String> = Vec::new();
        slots.push(String::from_str(name));
        assert(slots.deep_view() =~= seq![name@]);
        ChatLine { kind: 10, slots }
    }

    /// The peer is gone.
    pub fn disconnected() -> (line: ChatLine)
        ensures
            line@ == (ChatLineView { kind: 11, slots: Seq::empty() }),
    {
        Chat::bare(11)
    }

    /// A peer is about to connect.
    pub fn new_peer() -> (line: ChatLine)
        ensures
            line@ == (ChatLineView { kind: 12, slots: Seq::empty() }),
    {
        Chat::bare(12)
    }

    fn bare(kind: u8) -> (line: ChatLine)
        ensures
            line@ == (ChatLineView { kind, slots: Seq::empty() }),
    {
        let slots: Vec<String> = Vec::new();
        assert(slots.deep_view() =~= Seq::<Seq<char>>::empty());
        ChatLine { kind, slots }
    }
}

} // verus!
