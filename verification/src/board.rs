//! The board: the pieces, and the rules by which they move.

use crate::directions::{
    find_piece, first_on, moves, occupant, rays, spec_pawn_capture, threats, Direction,
    DirectionIterator, Hit, MovementIterator,
};
use crate::piece::{valid_desc, Color, Piece, PieceKind};
use vstd::prelude::*;

verus! {

/// The pieces of a game, each with its number as its place among them.
#[derive(Debug)]
pub struct Board {
    pub pieces: Vec<Piece>,
}

/// How many pieces each side begins with.
pub const SIDE: usize = 18;

/// The kind of the `i`-th piece with which a side begins.
pub open spec fn starting_kind(i: int) -> PieceKind {
    if i == 0 {
        PieceKind::Queen
    } else if i == 1 {
        PieceKind::King
    } else if i <= 3 {
        PieceKind::Knight
    } else if i <= 5 {
        PieceKind::Rook
    } else if i <= 8 {
        PieceKind::Bishop
    } else {
        PieceKind::Pawn
    }
}

/// The hex on which the `i`-th piece of a side begins: `q`, then `r` for
/// the light side, then `r` for the dark side.
pub open spec fn starting_hex(i: int) -> (u8, u8, u8) {
    if i == 0 {
        (4, 10, 1)
    } else if i == 1 {
        (6, 9, 0)
    } else if i == 2 {
        (3, 10, 2)
    } else if i == 3 {
        (7, 8, 0)
    } else if i == 4 {
        (2, 10, 3)
    } else if i == 5 {
        (8, 7, 0)
    } else if i == 6 {
        (5, 10, 0)
    } else if i == 7 {
        (5, 9, 1)
    } else if i == 8 {
        (5, 8, 2)
    } else if i == 9 {
        (1, 10, 4)
    } else if i == 10 {
        (2, 9, 4)
    } else if i == 11 {
        (3, 8, 4)
    } else if i == 12 {
        (4, 7, 4)
    } else if i == 13 {
        (5, 6, 4)
    } else if i == 14 {
        (6, 6, 3)
    } else if i == 15 {
        (7, 6, 2)
    } else if i == 16 {
        (8, 6, 1)
    } else {
        (9, 6, 0)
    }
}

/// The piece with the number `idx` at the beginning of a game: the light
/// side has the first eighteen numbers, the dark side the next.
pub open spec fn starting_piece(idx: int) -> Piece {
    let i = idx % 18;
    let hex = starting_hex(i);
    if idx < 18 {
        Piece { idx: idx as u8, kind: starting_kind(i), color: Color::Light, q: hex.0, r: hex.1 }
    } else {
        Piece { idx: idx as u8, kind: starting_kind(i), color: Color::Dark, q: hex.0, r: hex.2 }
    }
}

/// The pieces at the beginning of a game.
pub open spec fn starting_pieces() -> Seq<Piece> {
    Seq::new(36, |idx: int| starting_piece(idx))
}

fn kind_at_start(i: usize) -> (kind: PieceKind)
    requires
        i < 18,
    ensures
        kind == starting_kind(i as int),
{
    if i == 0 {
        PieceKind::Queen
    } else if i == 1 {
        PieceKind::King
    } else if i <= 3 {
        PieceKind::Knight
    } else if i <= 5 {
        PieceKind::Rook
    } else if i <= 8 {
        PieceKind::Bishop
    } else {
        PieceKind::Pawn
    }
}

fn hex_at_start(i: usize) -> (hex: (u8, u8, u8))
    requires
        i < 18,
    ensures
        hex == starting_hex(i as int),
{
    if i == 0 {
        (4, 10, 1)
    } else if i == 1 {
        (6, 9, 0)
    } else if i == 2 {
        (3, 10, 2)
    } else if i == 3 {
        (7, 8, 0)
    } else if i == 4 {
        (2, 10, 3)
    } else if i == 5 {
        (8, 7, 0)
    } else if i == 6 {
        (5, 10, 0)
    } else if i == 7 {
        (5, 9, 1)
    } else if i == 8 {
        (5, 8, 2)
    } else if i == 9 {
        (1, 10, 4)
    } else if i == 10 {
        (2, 9, 4)
    } else if i == 11 {
        (3, 8, 4)
    } else if i == 12 {
        (4, 7, 4)
    } else if i == 13 {
        (5, 6, 4)
    } else if i == 14 {
        (6, 6, 3)
    } else if i == 15 {
        (7, 6, 2)
    } else if i == 16 {
        (8, 6, 1)
    } else {
        (9, 6, 0)
    }
}

/// The pieces that a list of descriptions stands for, numbered in its
/// order.
pub open spec fn described(desc: Seq<u16>) -> Seq<Piece> {
    Seq::new(desc.len(), |i: int| Piece::spec_from_desc(i as u8, desc[i]))
}

/// Whether a piece on `(q, r)` stands where a piece of the other side
/// would have to stand to be captured by `piece`, seen from the hex of that
/// piece along a ray in the direction `dir` after as many steps as `dir`
/// tells. A pawn captures on its two hexes; any other piece along its own
/// rays, so that one of them must run against `dir` and reach far enough.
pub open spec fn can_capture(piece: Piece, q: u8, r: u8, dir: Direction) -> bool {
    if piece.kind == PieceKind::Pawn {
        let hexes = rays(piece.q as int, piece.r as int, spec_pawn_capture(piece.color));
        exists|i: int| 0 <= i < hexes.len() && (#[trigger] hexes[i]).0 == q && hexes[i].1 == r
    } else {
        let dirs = piece.spec_directions();
        exists|i: int|
            0 <= i < dirs.len() && (#[trigger] dirs[i]).0 == -dir.0 && dirs[i].1 == -dir.1 && (
            dirs[i].2 == 0 || dirs[i].2 >= dir.2)
    }
}

/// Whether a piece of `color` on the hex `(q, r)` could be captured: a
/// piece of the other side looks at the hex and can capture along the way.
pub open spec fn threatened(pieces: Seq<Piece>, q: u8, r: u8, color: Color) -> bool {
    let looks = threats(pieces, color, q, r);
    exists|i: int|
        0 <= i < looks.len() && (occupant(pieces, (#[trigger] looks[i]).0, looks[i].1) matches Some(
            piece,
        ) && can_capture(piece, q, r, looks[i].2))
}

/// Whether a piece may make a move: a king may not move to a hex on which
/// it could be captured.
pub open spec fn avoids_check(pieces: Seq<Piece>, piece: Piece, hit: Hit) -> bool {
    piece.kind == PieceKind::King ==> !threatened(pieces, hit.0, hit.1, piece.color)
}

/// The hexes of those of the moves that a piece may make, in their order.
pub open spec fn legal(pieces: Seq<Piece>, piece: Piece, hits: Seq<Hit>) -> Seq<(u8, u8)>
    decreases hits.len(),
{
    if hits.len() == 0 {
        Seq::empty()
    } else {
        let before = legal(pieces, piece, hits.drop_last());
        if avoids_check(pieces, piece, hits.last()) {
            before.push((hits.last().0, hits.last().1))
        } else {
            before
        }
    }
}

/// The hexes that a piece may move to, in the order in which they are
/// found.
pub open spec fn available(pieces: Seq<Piece>, piece: Piece) -> Seq<(u8, u8)> {
    legal(pieces, piece, moves(pieces, piece, None))
}

/// The pieces after the piece on `hex`, if there is one, was put on the
/// hex `to`, and the numbers that tell so.
pub open spec fn put(pieces: Seq<Piece>, hex: (u8, u8), to: (u8, u8)) -> (Seq<Piece>, Seq<u16>) {
    match first_on(pieces, hex.0, hex.1, 0) {
        Some(i) => (
            pieces.update(i, Piece { q: to.0, r: to.1, ..pieces[i] }),
            seq![Piece::movement_code(pieces[i].idx, to.0, to.1)],
        ),
        None => (pieces, Seq::empty()),
    }
}

/// The pieces after a move from one hex to another, and the numbers that
/// tell of it: the piece that stood on the hex moved to, if there was one,
/// is captured, and then the piece on the hex moved from is put there.
pub open spec fn moved(pieces: Seq<Piece>, from: (u8, u8), to: (u8, u8)) -> (Seq<Piece>, Seq<u16>) {
    let (cleared, capture) = put(pieces, to, (0, 0));
    let (done, step) = put(cleared, from, to);
    (done, capture + step)
}

impl Board {
    /// A board without pieces.
    pub fn new() -> (board: Self)
        ensures
            board.pieces@.len() == 0,
    {
        Board { pieces: Vec::new() }
    }

    /// Sets up the pieces for the beginning of a game.
    pub fn load_default(&mut self)
        ensures
            final(self).pieces@ == starting_pieces(),
    {
        self.pieces = Vec::new();
        let mut side: usize = 0;
        while side < 2
            invariant
                0 <= side <= 2,
                self.pieces@.len() == side * 18,
                forall|idx: int|
                    0 <= idx < self.pieces@.len() ==> self.pieces@[idx] == starting_piece(idx),
            decreases 2 - side,
        {
            let color = if side == 0 {
                Color::Light
            } else {
                Color::Dark
            };
            let mut i: usize = 0;
            while i < SIDE
                invariant
                    0 <= i <= 18,
                    0 <= side < 2,
                    color == if side == 0 {
                        Color::Light
                    } else {
                        Color::Dark
                    },
                    self.pieces@.len() == side * 18 + i,
                    forall|idx: int|
                        0 <= idx < self.pieces@.len() ==> self.pieces@[idx] == starting_piece(idx),
                decreases 18 - i,
            {
                let hex = hex_at_start(i);
                let idx = self.pieces.len();
                self.pieces.push(
                    Piece {
                        idx: idx as u8,
                        color,
                        q: hex.0,
                        r: if color.is_light() {
                            hex.1
                        } else {
                            hex.2
                        },
                        kind: kind_at_start(i),
                    },
                );
                i = i + 1;
            }
            side = side + 1;
        }
        assert(self.pieces@ =~= starting_pieces());
    }

    /// Sets up the pieces that a list of descriptions stands for.
    pub fn load_desc(&mut self, desc: Vec<u16>)
        requires
            desc@.len() <= 256,
            forall|i: int| 0 <= i < desc@.len() ==> valid_desc(#[trigger] desc@[i]),
        ensures
            final(self).pieces@ == described(desc@),
    {
        self.pieces = Vec::new();
        let mut i: usize = 0;
        while i < desc.len()
            invariant
                0 <= i <= desc.len(),
                desc@.len() <= 256,
                forall|i: int| 0 <= i < desc@.len() ==> valid_desc(#[trigger] desc@[i]),
                self.pieces@.len() == i,
                forall|k: int|
                    0 <= k < i ==> self.pieces@[k] == Piece::spec_from_desc(k as u8, desc@[k]),
            decreases desc.len() - i,
        {
            self.pieces.push(Piece::from_desc(i as u8, desc[i]));
            i = i + 1;
        }
        assert(self.pieces@ =~= described(desc@));
    }

    /// The descriptions of the pieces, in their order.
    pub fn describe(&self) -> (desc: Vec<u16>)
        ensures
            desc@ == self.pieces@.map_values(|piece: Piece| piece.spec_describe()),
    {
        let mut result: Vec<u16> = Vec::new();
        let mut i: usize = 0;
        while i < self.pieces.len()
            invariant
                0 <= i <= self.pieces.len(),
                result@.len() == i,
                forall|k: int| 0 <= k < i ==> result@[k] == self.pieces@[k].spec_describe(),
            decreases self.pieces.len() - i,
        {
            result.push(self.pieces[i].describe());
            i = i + 1;
        }
        assert(result@ =~= self.pieces@.map_values(|piece: Piece| piece.spec_describe()));
        result
    }

    /// The piece that stands on the hex `(q, r)`, if one does.
    pub fn get_at(&self, q: u8, r: u8) -> (piece: Option<&Piece>)
        ensures
            match piece {
                Some(piece) => occupant(self.pieces@, q, r) == Some(*piece),
                None => occupant(self.pieces@, q, r) is None,
            },
    {
        match find_piece(&self.pieces, q, r) {
            Some(i) => Some(&self.pieces[i]),
            None => None,
        }
    }

    /// The piece that stands on the hex `(q, r)`, if one does, to be
    /// changed in its place.
    pub fn get_at_mut(&mut self, q: u8, r: u8) -> (piece: Option<&mut Piece>)
        ensures
            match piece {
                Some(piece) => {
                    &&& first_on(old(self).pieces@, q, r, 0) matches Some(i)
                    &&& *piece == old(self).pieces@[i]
                    &&& final(self).pieces@ == old(self).pieces@.update(i, *final(piece))
                },
                None => first_on(old(self).pieces@, q, r, 0) is None && *final(self) == *old(self),
            },
    {
        match find_piece(&self.pieces, q, r) {
            Some(i) => Some(&mut self.pieces[i]),
            None => None,
        }
    }

    /// The piece with the number `idx`, if there is one.
    pub fn get_piece(&self, idx: u8) -> (piece: Option<&Piece>)
        ensures
            match piece {
                Some(piece) => idx < self.pieces@.len() && *piece == self.pieces@[idx as int],
                None => idx >= self.pieces@.len(),
            },
    {
        if (idx as usize) < self.pieces.len() {
            Some(&self.pieces[idx as usize])
        } else {
            None
        }
    }

    /// Whether `piece` can capture on the hex `(q, r)`, seen from that hex
    /// along a ray in the direction `dir`.
    pub fn can_capture(&self, piece: &Piece, q: u8, r: u8, dir: Direction) -> (res: bool)
        ensures
            res == can_capture(*piece, q, r, dir),
    {
        if piece.kind == PieceKind::Pawn {
            let mut walk = DirectionIterator::pawn_capture(piece.q, piece.r, piece.color);
            let ghost hexes = walk.remaining();
            let ghost mut k: int = 0;
            assert(hexes.skip(0) =~= hexes);
            loop
                invariant
                    0 <= k <= hexes.len(),
                    hexes == rays(piece.q as int, piece.r as int, spec_pawn_capture(piece.color)),
                    walk.remaining() == hexes.skip(k),
                    forall|j: int| 0 <= j < k ==> !((#[trigger] hexes[j]).0 == q && hexes[j].1 == r),
                    piece.kind == PieceKind::Pawn,
                decreases hexes.len() - k,
            {
                match walk.next() {
                    Some(pos) => {
                        if pos.0 == q && pos.1 == r {
                            assert(hexes[k] == pos);
                            return true;
                        }
                        proof {
                            assert(hexes.skip(k).drop_first() =~= hexes.skip(k + 1));
                            k = k + 1;
                        }
                    },
                    None => {
                        return false;
                    },
                }
            }
        }
        let walk = piece.available();
        let dirs = walk.directions();
        let mut i: usize = 0;
        while i < dirs.len()
            invariant
                0 <= i <= dirs.len(),
                dirs@ == piece.spec_directions(),
                piece.kind != PieceKind::Pawn,
                forall|j: int|
                    0 <= j < i ==> !((#[trigger] dirs@[j]).0 == -dir.0 && dirs@[j].1 == -dir.1 && (
                    dirs@[j].2 == 0 || dirs@[j].2 >= dir.2)),
            decreases dirs.len() - i,
        {
            let other = dirs[i];
            let opposite = other.0 as i16 == -(dir.0 as i16) && other.1 as i16 == -(dir.1 as i16);
            let count = other.2 == 0 || other.2 >= dir.2;
            if opposite && count {
                return true;
            }
            i = i + 1;
        }
        false
    }

    /// Whether a piece of `color` on the hex `(q, r)` could be captured.
    pub fn is_threatened(&self, q: u8, r: u8, color: Color) -> (res: bool)
        ensures
            res == threatened(self.pieces@, q, r, color),
    {
        let mut search = MovementIterator::threatened(&self.pieces, color, q, r);
        let ghost looks = search.remaining();
        let ghost mut k: int = 0;
        assert(looks.skip(0) =~= looks);
        loop
            invariant
                0 <= k <= looks.len(),
                looks == threats(self.pieces@, color, q, r),
                search.remaining() == looks.skip(k),
                forall|j: int|
                    0 <= j < k ==> !(occupant(self.pieces@, (#[trigger] looks[j]).0, looks[j].1) matches Some(
                        piece,
                    ) && can_capture(piece, q, r, looks[j].2)),
            decreases looks.len() - k,
        {
            match search.next() {
                Some(pos) => {
                    assert(looks[k] == pos);
                    match self.get_at(pos.0, pos.1) {
                        Some(piece) => {
                            if self.can_capture(piece, q, r, pos.2) {
                                return true;
                            }
                        },
                        None => {},
                    }
                    proof {
                        assert(looks.skip(k).drop_first() =~= looks.skip(k + 1));
                        k = k + 1;
                    }
                },
                None => {
                    return false;
                },
            }
        }
    }

    /// Whether `piece` may make the move `hit`.
    pub fn avoid_checks(&self, piece: &Piece, hit: &Hit) -> (res: bool)
        ensures
            res == avoids_check(self.pieces@, *piece, *hit),
    {
        if piece.kind == PieceKind::King {
            return !self.is_threatened(hit.0, hit.1, piece.color);
        }
        true
    }

    /// The hexes that `piece` may move to, in the order in which they are
    /// found.
    pub fn available_moves(&self, piece: &Piece) -> (hexes: Vec<(u8, u8)>)
        ensures
            hexes@ == available(self.pieces@, *piece),
    {
        let mut search = MovementIterator::new(&self.pieces, piece, None);
        let ghost all = search.remaining();
        let ghost mut k: int = 0;
        let mut hexes: Vec<(u8, u8)> = Vec::new();
        assert(all.skip(0) =~= all);
        assert(all.take(0) =~= Seq::<Hit>::empty());
        loop
            invariant
                0 <= k <= all.len(),
                all == moves(self.pieces@, *piece, None),
                search.remaining() == all.skip(k),
                hexes@ == legal(self.pieces@, *piece, all.take(k)),
            decreases all.len() - k,
        {
            match search.next() {
                Some(pos) => {
                    proof {
                        assert(all[k] == pos);
                        assert(all.take(k + 1).drop_last() =~= all.take(k));
                        assert(all.take(k + 1).last() == pos);
                    }
                    if self.avoid_checks(piece, &pos) {
                        hexes.push((pos.0, pos.1));
                    }
                    proof {
                        assert(all.skip(k).drop_first() =~= all.skip(k + 1));
                        k = k + 1;
                    }
                },
                None => {
                    assert(all.take(k) =~= all);
                    return hexes;
                },
            }
        }
    }

    /// Whether `piece` may move to the hex `(q, r)`.
    pub fn can_move(&self, piece: &Piece, q: u8, r: u8) -> (res: bool)
        ensures
            res == available(self.pieces@, *piece).contains((q, r)),
    {
        let hexes = self.available_moves(piece);
        let mut i: usize = 0;
        while i < hexes.len()
            invariant
                0 <= i <= hexes.len(),
                hexes@ == available(self.pieces@, *piece),
                forall|j: int| 0 <= j < i ==> hexes@[j] != (q, r),
            decreases hexes.len() - i,
        {
            if hexes[i].0 == q && hexes[i].1 == r {
                assert(hexes@[i as int] == (q, r));
                return true;
            }
            i = i + 1;
        }
        false
    }

    /// Moves the piece on the hex `from` to the hex `to`, capturing the
    /// piece that stands there, if one does. Returns the numbers that tell
    /// of the capture and of the move.
    pub fn move_piece(&mut self, from: (u8, u8), to: (u8, u8)) -> (packet: Vec<u16>)
        requires
            first_on(put(old(self).pieces@, to, (0, 0)).0, from.0, from.1, 0) is Some,
        ensures
            (final(self).pieces@, packet@) == moved(old(self).pieces@, from, to),
    {
        let mut packet: Vec<u16> = Vec::new();
        match find_piece(&self.pieces, to.0, to.1) {
            Some(i) => {
                let mut piece = self.pieces[i];
                packet.push(piece.movement(0, 0));
                self.pieces.set(i, piece);
            },
            None => {},
        }
        assert(self.pieces@ =~= put(old(self).pieces@, to, (0, 0)).0);
        assert(packet@ =~= put(old(self).pieces@, to, (0, 0)).1);
        let ghost cleared = self.pieces@;
        let ghost capture = packet@;
        match find_piece(&self.pieces, from.0, from.1) {
            Some(j) => {
                let mut piece = self.pieces[j];
                packet.push(piece.movement(to.0, to.1));
                self.pieces.set(j, piece);
            },
            None => {},
        }
        assert(self.pieces@ =~= put(cleared, from, to).0);
        assert(packet@ =~= capture + put(cleared, from, to).1);
        packet
    }

    /// The king of a side, unless it is captured.
    pub fn get_king(&self, color: Color) -> (king: Option<&Piece>)
        ensures
            match king {
                Some(king) => spec_king_of(self.pieces@, color, 0) == Some(*king),
                None => spec_king_of(self.pieces@, color, 0) is None,
            },
    {
        let mut i: usize = 0;
        while i < self.pieces.len()
            invariant
                0 <= i <= self.pieces.len(),
                spec_king_of(self.pieces@, color, 0) == spec_king_of(self.pieces@, color, i as int),
            decreases self.pieces.len() - i,
        {
            let piece = &self.pieces[i];
            if piece.color == color && piece.kind == PieceKind::King {
                if piece.q != 0 || piece.r != 0 {
                    return Some(piece);
                }
                return None;
            }
            i = i + 1;
        }
        None
    }
}

/// The king of a side among the pieces from the place `from` on: the first
/// piece that is a king of the side, unless it is captured.
pub open spec fn spec_king_of(pieces: Seq<Piece>, color: Color, from: int) -> Option<Piece>
    decreases pieces.len() - from,
{
    if from < 0 || from >= pieces.len() {
        None
    } else if pieces[from].color == color && pieces[from].kind == PieceKind::King {
        if pieces[from].spec_is_captured() {
            None
        } else {
            Some(pieces[from])
        }
    } else {
        spec_king_of(pieces, color, from + 1)
    }
}

} // verus!
