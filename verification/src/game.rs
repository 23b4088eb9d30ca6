//! A game on one screen: the board with the pieces of both sides, set up
//! for the beginning, on which only moves that the rules allow are made.

use crate::board::{available, can_capture, put, starting_pieces, threatened, Board};
use crate::directions::{first_on, lemma_first_on, occupant, Direction};
use crate::piece::{Color, Piece};
use vstd::prelude::*;

verus! {

/// The side that is light, or the other one.
pub open spec fn side(light: bool) -> Color {
    if light {
        Color::Light
    } else {
        Color::Dark
    }
}

/// Whether each piece has its place among the pieces as its number.
pub open spec fn numbered(pieces: Seq<Piece>) -> bool {
    forall|i: int| 0 <= i < pieces.len() ==> (#[trigger] pieces[i]).idx == i
}

/// What a move from one hex to another comes to: nothing where no piece
/// stands on the first hex or the piece may not move to the second; else
/// the piece on the second hex, if there is one, is captured, and the piece
/// is put there.
pub open spec fn played(pieces: Seq<Piece>, from: (u8, u8), to: (u8, u8)) -> Option<
    (Seq<Piece>, Seq<u16>),
> {
    match occupant(pieces, from.0, from.1) {
        None => None,
        Some(piece) => if !available(pieces, piece).contains(to) {
            None
        } else {
            let (cleared, capture) = put(pieces, to, (0, 0));
            Some(
                (
                    cleared.update(piece.idx as int, Piece { q: to.0, r: to.1, ..cleared[piece.idx as int] }),
                    capture.push(Piece::movement_code(cleared[piece.idx as int].idx, to.0, to.1)),
                ),
            )
        },
    }
}

/// A game on one screen.
#[derive(Debug)]
pub struct Game {
    pub board: Board,
}

impl Game {
    /// The pieces of the game.
    pub open spec fn pieces(&self) -> Seq<Piece> {
        self.board.pieces@
    }

    /// Each piece has its place among the pieces as its number.
    pub open spec fn wf(&self) -> bool {
        numbered(self.pieces())
    }

    /// A game at its beginning.
    pub fn new() -> (game: Self)
        ensures
            game.pieces() == starting_pieces(),
            game.wf(),
    {
        let mut board = Board::new();
        board.load_default();
        Game { board }
    }

    /// The descriptions of the pieces, in their order.
    pub fn describe(&self) -> (desc: Vec<u16>)
        ensures
            desc@ == self.pieces().map_values(|piece: Piece| piece.spec_describe()),
    {
        self.board.describe()
    }

    /// The piece that stands on the hex `(q, r)`, if one does.
    pub fn get_at(&self, q: u8, r: u8) -> (piece: Option<&Piece>)
        ensures
            match piece {
                Some(piece) => occupant(self.pieces(), q, r) == Some(*piece),
                None => occupant(self.pieces(), q, r) is None,
            },
    {
        self.board.get_at(q, r)
    }

    /// The piece that stands on the hex `(q, r)`, if one does, to be
    /// changed in its place.
    pub fn get_at_mut(&mut self, q: u8, r: u8) -> (piece: Option<&mut Piece>)
        ensures
            match piece {
                Some(piece) => {
                    &&& first_on(old(self).pieces(), q, r, 0) matches Some(i)
                    &&& *piece == old(self).pieces()[i]
                    &&& final(self).pieces() == old(self).pieces().update(i, *final(piece))
                },
                None => first_on(old(self).pieces(), q, r, 0) is None && *final(self) == *old(self),
            },
    {
        self.board.get_at_mut(q, r)
    }

    /// Whether a piece of the light side, or of the dark one, on the hex
    /// `(q, r)` could be captured.
    pub fn is_threatened(&self, q: u8, r: u8, threatened_light: bool) -> (res: bool)
        ensures
            res == threatened(self.pieces(), q, r, side(threatened_light)),
    {
        let color = if threatened_light {
            Color::Light
        } else {
            Color::Dark
        };
        self.board.is_threatened(q, r, color)
    }

    /// Whether `piece` can capture on the hex `(q, r)`, seen from that hex
    /// along a ray in the direction `dir`.
    pub fn can_capture(&self, piece: &Piece, q: u8, r: u8, dir: Direction) -> (res: bool)
        ensures
            res == can_capture(*piece, q, r, dir),
    {
        self.board.can_capture(piece, q, r, dir)
    }

    /// Whether `piece` may move to the hex `(q, r)`.
    pub fn can_move(&self, piece: &Piece, q: u8, r: u8) -> (res: bool)
        ensures
            res == available(self.pieces(), *piece).contains((q, r)),
    {
        self.board.can_move(piece, q, r)
    }

    /// The hexes that `piece` may move to, in the order in which they are
    /// found.
    pub fn available_moves(&self, piece: &Piece) -> (hexes: Vec<(u8, u8)>)
        ensures
            hexes@ == available(self.pieces(), *piece),
    {
        self.board.available_moves(piece)
    }

    /// Moves the piece on the hex `from` to the hex `to`, where the rules
    /// allow it, capturing the piece that stands there, if one does. Returns
    /// the numbers that tell of the capture and of the move, or `None`, with
    /// nothing changed, where no move was made.
    pub fn move_piece(&mut self, from: (u8, u8), to: (u8, u8)) -> (packet: Option<Vec<u16>>)
        requires
            old(self).wf(),
        ensures
            final(self).wf(),
            match played(old(self).pieces(), from, to) {
                Some((pieces, told)) => packet matches Some(p) && p@ == told && final(self).pieces()
                    == pieces,
                None => packet is None && final(self).pieces() == old(self).pieces(),
            },
    {
        let piece = match self.board.get_at(from.0, from.1) {
            Some(piece) => *piece,
            None => {
                return None;
            },
        };
        if !self.board.can_move(&piece, to.0, to.1) {
            return None;
        }
        proof {
            lemma_first_on(self.pieces(), from.0, from.1, 0);
            let at = first_on(self.pieces(), from.0, from.1, 0)->0;
            assert(self.pieces()[at].idx == at);
            assert(piece == self.pieces()[at]);
        }
        let idx = piece.idx as usize;
        assert(idx < self.board.pieces@.len());
        let mut packet: Vec<u16> = Vec::new();
        match self.board.get_at_mut(to.0, to.1) {
            Some(other) => {
                packet.push(other.movement(0, 0));
            },
            None => {},
        }
        proof {
            if first_on(old(self).pieces(), to.0, to.1, 0) is Some {
                lemma_first_on(old(self).pieces(), to.0, to.1, 0);
            }
            assert(self.pieces() =~= put(old(self).pieces(), to, (0, 0)).0);
            assert(packet@ =~= put(old(self).pieces(), to, (0, 0)).1);
            assert(self.pieces().len() == old(self).pieces().len());
            assert(numbered(self.pieces()));
        }
        let mut moving = self.board.pieces[idx];
        packet.push(moving.movement(to.0, to.1));
        self.board.pieces.set(idx, moving);
        Some(packet)
    }
}

} // verus!
