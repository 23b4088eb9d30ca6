//! The pieces of the game.

use crate::directions::{
    bishop, king, knight, queen, rays, rook, spec_bishop, spec_king, spec_knight, spec_queen,
    spec_rook, Direction, DirectionIterator,
};
use vstd::prelude::*;

verus! {

/// The kind of a piece.
#[derive(Copy, Clone, Debug, PartialEq, Eq, Structural)]
pub enum PieceKind {
    King,
    Queen,
    Rook,
    Bishop,
    Knight,
    Pawn,
}

/// The side that a piece belongs to.
#[derive(Copy, Clone, Debug, PartialEq, Eq, Structural)]
pub enum Color {
    Light,
    Dark,
}

impl Color {
    /// The other side.
    pub open spec fn spec_opposite(&self) -> Color {
        match self {
            Color::Light => Color::Dark,
            Color::Dark => Color::Light,
        }
    }

    /// The other side.
    #[verifier::when_used_as_spec(spec_opposite)]
    pub fn opposite(&self) -> (res: Color)
        ensures
            res == self.spec_opposite(),
    {
        match self {
            Color::Light => Color::Dark,
            Color::Dark => Color::Light,
        }
    }

    /// Whether this is the light side.
    pub open spec fn spec_is_light(&self) -> bool {
        *self == Color::Light
    }

    /// Whether this is the light side.
    #[verifier::when_used_as_spec(spec_is_light)]
    pub fn is_light(&self) -> (res: bool)
        ensures
            res == self.spec_is_light(),
    {
        *self == Color::Light
    }
}

/// A piece: its number on the board, what it is, and where it stands.
/// A piece on the hex `(0, 0)`, which is no hex of the board, is captured.
#[derive(Copy, Clone, Debug, PartialEq, Eq, Structural)]
pub struct Piece {
    pub idx: u8,
    pub kind: PieceKind,
    pub color: Color,
    pub q: u8,
    pub r: u8,
}

impl PieceKind {
    /// The number that stands for the kind.
    pub open spec fn spec_to_u8(self) -> u8 {
        match self {
            PieceKind::King => 0,
            PieceKind::Queen => 1,
            PieceKind::Rook => 2,
            PieceKind::Bishop => 3,
            PieceKind::Knight => 4,
            PieceKind::Pawn => 5,
        }
    }

    /// The number that stands for the kind.
    #[verifier::when_used_as_spec(spec_to_u8)]
    pub fn to_u8(self) -> (code: u8)
        ensures
            code == self.spec_to_u8(),
    {
        match self {
            PieceKind::King => 0,
            PieceKind::Queen => 1,
            PieceKind::Rook => 2,
            PieceKind::Bishop => 3,
            PieceKind::Knight => 4,
            PieceKind::Pawn => 5,
        }
    }

    /// The kind that a number stands for, if it stands for one.
    pub open spec fn spec_from_u8(code: u8) -> Option<PieceKind> {
        if code == 0 {
            Some(PieceKind::King)
        } else if code == 1 {
            Some(PieceKind::Queen)
        } else if code == 2 {
            Some(PieceKind::Rook)
        } else if code == 3 {
            Some(PieceKind::Bishop)
        } else if code == 4 {
            Some(PieceKind::Knight)
        } else if code == 5 {
            Some(PieceKind::Pawn)
        } else {
            None
        }
    }

    /// The kind that a number stands for, if it stands for one.
    #[verifier::when_used_as_spec(spec_from_u8)]
    pub fn from_u8(code: u8) -> (kind: Option<PieceKind>)
        ensures
            kind == PieceKind::spec_from_u8(code),
    {
        if code == 0 {
            Some(PieceKind::King)
        } else if code == 1 {
            Some(PieceKind::Queen)
        } else if code == 2 {
            Some(PieceKind::Rook)
        } else if code == 3 {
            Some(PieceKind::Bishop)
        } else if code == 4 {
            Some(PieceKind::Knight)
        } else if code == 5 {
            Some(PieceKind::Pawn)
        } else {
            None
        }
    }

    /// Whether a pawn can become a piece of this kind.
    pub open spec fn spec_is_promotion(self) -> bool {
        self == PieceKind::Queen || self == PieceKind::Knight || self == PieceKind::Rook || self
            == PieceKind::Bishop
    }

    /// Whether a pawn can become a piece of this kind.
    #[verifier::when_used_as_spec(spec_is_promotion)]
    pub fn is_promotion(self) -> (res: bool)
        ensures
            res == self.spec_is_promotion(),
    {
        match self {
            PieceKind::Queen => true,
            PieceKind::Knight => true,
            PieceKind::Rook => true,
            PieceKind::Bishop => true,
            _ => false,
        }
    }
}

impl Color {
    /// The number that stands for the side.
    pub open spec fn spec_to_u8(self) -> u8 {
        match self {
            Color::Light => 0,
            Color::Dark => 1,
        }
    }

    /// The number that stands for the side.
    #[verifier::when_used_as_spec(spec_to_u8)]
    pub fn to_u8(self) -> (code: u8)
        ensures
            code == self.spec_to_u8(),
    {
        match self {
            Color::Light => 0,
            Color::Dark => 1,
        }
    }
}

/// The number that a hex is written as: four bits for `q`, four for `r`.
pub open spec fn hex_code(q: u8, r: u8) -> u16 {
    ((q % 16) * 16 + r % 16) as u16
}

/// Whether a number describes a piece: the three bits of the kind stand
/// for one.
pub open spec fn valid_desc(desc: u16) -> bool {
    (desc / 256) % 8 <= 5
}

/// Whether a number describes a piece.
pub fn is_valid_desc(desc: u16) -> (res: bool)
    ensures
        res == valid_desc(desc),
{
    assert(desc >> 8 & 0x7 == (desc / 256) % 8) by (bit_vector);
    (desc >> 8 & 0x7) <= 5
}

impl Piece {
    /// The piece that a number describes: from the low end four bits for
    /// `r`, four for `q`, three for the kind, and the rest for the side,
    /// dark where any of them is set.
    pub open spec fn spec_from_desc(idx: u8, desc: u16) -> Piece {
        Piece {
            idx,
            kind: PieceKind::spec_from_u8(((desc / 256) % 8) as u8)->0,
            color: if desc >= 2048 {
                Color::Dark
            } else {
                Color::Light
            },
            q: ((desc / 16) % 16) as u8,
            r: (desc % 16) as u8,
        }
    }

    /// The piece with the number `idx` that `desc` describes.
    pub fn from_desc(idx: u8, desc: u16) -> (piece: Self)
        requires
            valid_desc(desc),
        ensures
            piece == Piece::spec_from_desc(idx, desc),
    {
        assert(desc >> 4 & 0xf == (desc / 16) % 16 && desc & 0xf == desc % 16 && desc >> 8 & 0x7 == (
        desc / 256) % 8 && ((desc >> 11) > 0) == (desc >= 2048)) by (bit_vector);
        let q = (desc >> 4 & 0xf) as u8;
        let r = (desc & 0xf) as u8;
        let kind = (desc >> 8 & 0x7) as u8;
        let dark = (desc >> 11) > 0;
        Piece {
            idx,
            kind: PieceKind::from_u8(kind).unwrap(),
            color: if dark {
                Color::Dark
            } else {
                Color::Light
            },
            q,
            r,
        }
    }

    /// The number that describes the piece.
    pub open spec fn spec_describe(&self) -> u16 {
        (self.color.spec_to_u8() * 2048 + self.kind.spec_to_u8() * 256 + hex_code(self.q, self.r)) as u16
    }

    /// The number that describes the piece.
    #[verifier::when_used_as_spec(spec_describe)]
    pub fn describe(&self) -> (desc: u16)
        ensures
            desc == self.spec_describe(),
    {
        let q: u16 = self.q as u16;
        let r: u16 = self.r as u16;
        let kind: u16 = self.kind.to_u8() as u16;
        let dark: u16 = self.color.to_u8() as u16;
        assert(dark << 11 | kind << 8 | q << 4 & 0xf0 | r & 0xf == dark * 2048 + kind * 256 + (q
            % 16) * 16 + r % 16) by (bit_vector)
            requires
                dark <= 1,
                kind <= 5,
                q < 256,
                r < 256,
        ;
        dark << 11 | kind << 8 | q << 4 & 0xf0 | r & 0xf
    }

    /// The number that tells where the piece with a number stands.
    pub open spec fn movement_code(idx: u8, q: u8, r: u8) -> u16 {
        (idx * 256 + hex_code(q, r)) as u16
    }

    /// Puts the piece on a hex, and returns the number that tells so.
    pub fn movement(&mut self, q: u8, r: u8) -> (code: u16)
        ensures
            *final(self) == (Piece { q, r, ..*old(self) }),
            code == Piece::movement_code(old(self).idx, q, r),
    {
        self.q = q;
        self.r = r;
        let q: u16 = q as u16;
        let r: u16 = r as u16;
        let idx: u16 = self.idx as u16;
        assert(idx << 8 | q << 4 & 0xf0 | r & 0xf == idx * 256 + (q % 16) * 16 + r % 16)
            by (bit_vector)
            requires
                idx < 256,
                q < 256,
                r < 256,
        ;
        idx << 8 | q << 4 & 0xf0 | r & 0xf
    }

    /// Whether the piece is captured: it stands on the hex `(0, 0)`.
    pub open spec fn spec_is_captured(&self) -> bool {
        self.r == 0 && self.q == 0
    }

    /// Whether the piece is captured.
    #[verifier::when_used_as_spec(spec_is_captured)]
    pub fn is_captured(&self) -> (res: bool)
        ensures
            res == self.spec_is_captured(),
    {
        self.r == 0 && self.q == 0
    }

    /// Whether the piece is a pawn that has reached the far edge of the
    /// board: for a light pawn the edges with `r = 0` and `q + r = 5`, for
    /// a dark one those with `r = 10` and `q + r = 15`.
    pub open spec fn spec_can_promote(&self) -> bool {
        &&& self.kind == PieceKind::Pawn
        &&& !self.spec_is_captured()
        &&& if self.color.spec_is_light() {
            self.r == 0 || self.q + self.r == 5
        } else {
            self.r == 10 || self.q + self.r == 15
        }
    }

    /// Whether the piece is a pawn that has reached the far edge.
    #[verifier::when_used_as_spec(spec_can_promote)]
    pub fn can_promote(&self) -> (res: bool)
        ensures
            res == self.spec_can_promote(),
    {
        if self.kind != PieceKind::Pawn {
            return false;
        }
        if self.is_captured() {
            return false;
        }
        let row: u8;
        let col: u16;
        if self.color.is_light() {
            row = 0;
            col = 5;
        } else {
            row = 10;
            col = 15;
        }
        self.r == row || (self.q as u16 + self.r as u16) == col
    }

    /// The number that tells that the piece with a number has become one
    /// of a kind.
    pub open spec fn promotion_code(idx: u8, kind: PieceKind) -> u16 {
        (kind.spec_to_u8() * 256 + idx) as u16
    }

    /// Makes the piece one of another kind, and returns the number that
    /// tells so.
    pub fn promote(&mut self, kind: PieceKind) -> (code: u16)
        ensures
            *final(self) == (Piece { kind, ..*old(self) }),
            code == Piece::promotion_code(old(self).idx, kind),
    {
        self.kind = kind;
        let idx: u16 = self.idx as u16;
        let kind: u16 = kind.to_u8() as u16;
        assert(kind << 8 | idx == kind * 256 + idx) by (bit_vector)
            requires
                kind <= 5,
                idx < 256,
        ;
        kind << 8 | idx
    }

    /// Whether a pawn stands where the pawns of its side begin, and so can
    /// make two steps.
    pub open spec fn on_starting_hex(&self) -> bool {
        if self.color.spec_is_light() {
            (self.r == 6 && self.q > 4) || (self.r > 6 && self.q + self.r == 11)
        } else {
            (self.r == 4 && self.q < 6) || (self.r < 5 && self.q + self.r == 9)
        }
    }

    /// The directions in which the piece moves. A pawn moves ahead, up
    /// the board where it is light and down where it is dark, two steps far
    /// from where it begins and one step far from elsewhere.
    pub open spec fn spec_directions(&self) -> Seq<Direction> {
        match self.kind {
            PieceKind::King => spec_king(),
            PieceKind::Queen => spec_queen(),
            PieceKind::Rook => spec_rook(),
            PieceKind::Bishop => spec_bishop(),
            PieceKind::Knight => spec_knight(),
            PieceKind::Pawn => seq![
                (
                    0i8,
                    if self.color.spec_is_light() {
                        -1i8
                    } else {
                        1i8
                    },
                    if self.on_starting_hex() {
                        2u8
                    } else {
                        1u8
                    },
                ),
            ],
        }
    }

    /// The walk along the rays in which the piece moves.
    pub fn available(&self) -> (walk: DirectionIterator)
        ensures
            walk.origin() == (self.q as int, self.r as int),
            walk.spec_directions() == self.spec_directions(),
            walk.remaining() == rays(self.q as int, self.r as int, self.spec_directions()),
            walk.current() == crate::directions::ray(
                self.q as int,
                self.r as int,
                self.spec_directions()[0],
                0,
            ),
            walk.upcoming() == self.spec_directions().drop_first(),
    {
        let dirs = match self.kind {
            PieceKind::Pawn => {
                let direction: i8 = if self.color.is_light() {
                    -1
                } else {
                    1
                };
                let sum = self.q as u16 + self.r as u16;
                let repeat = if self.color.is_light() {
                    (self.r == 6 && self.q > 4) || (self.r > 6 && sum == 11)
                } else {
                    (self.r == 4 && self.q < 6) || (self.r < 5 && sum == 9)
                };
                let repeat: u8 = if repeat {
                    2
                } else {
                    1
                };
                let mut dirs: Vec<Direction> = Vec::new();
                dirs.push((0i8, direction, repeat));
                dirs
            },
            PieceKind::King => king(),
            PieceKind::Queen => queen(),
            PieceKind::Rook => rook(),
            PieceKind::Bishop => bishop(),
            PieceKind::Knight => knight(),
        };
        assert(dirs@ =~= self.spec_directions());
        DirectionIterator::new(self.q, self.r, dirs)
    }
}

/// A piece that stands on a hex with `q` and `r` below sixteen is read
/// back from its description as it was.
pub proof fn law_description_round_trip(piece: Piece)
    requires
        piece.q < 16,
        piece.r < 16,
    ensures
        valid_desc(piece.spec_describe()),
        Piece::spec_from_desc(piece.idx, piece.spec_describe()) == piece,
{
}

} // verus!
