//! Rays on the hexagonal board: the hexes that lie in a direction from a
//! hex, and the moves that pieces make along them.

use crate::piece::{Color, Piece, PieceKind};
use vstd::prelude::*;

verus! {

/// A direction: the step in `q`, the step in `r`, and how many steps can be
/// made; zero for any number.
pub type Direction = (i8, i8, u8);

/// A hex that a ray reaches, and how: the direction of the ray, with the
/// number of the step in place of the reach.
pub type Hit = (u8, u8, (i8, i8, u8));

/// The directions of a king.
pub open spec fn spec_king() -> Seq<Direction> {
    seq![
        (-1i8, -1i8, 1u8),
        (-1i8, 0i8, 1u8),
        (-1i8, 1i8, 1u8),
        (0i8, -1i8, 1u8),
        (0i8, 1i8, 1u8),
        (1i8, -1i8, 1u8),
        (1i8, 0i8, 1u8),
        (1i8, 1i8, 1u8),
        (-2i8, 1i8, 1u8),
        (-1i8, 2i8, 1u8),
        (1i8, -2i8, 1u8),
        (2i8, -1i8, 1u8),
    ]
}

/// The directions of a queen.
pub open spec fn spec_queen() -> Seq<Direction> {
    seq![
        (-1i8, -1i8, 0u8),
        (-1i8, 0i8, 0u8),
        (-1i8, 1i8, 0u8),
        (0i8, -1i8, 0u8),
        (0i8, 1i8, 0u8),
        (1i8, -1i8, 0u8),
        (1i8, 0i8, 0u8),
        (1i8, 1i8, 0u8),
        (-2i8, 1i8, 0u8),
        (-1i8, 2i8, 0u8),
        (1i8, -2i8, 0u8),
        (2i8, -1i8, 0u8),
    ]
}

/// The directions of a rook.
pub open spec fn spec_rook() -> Seq<Direction> {
    seq![
        (-1i8, 0i8, 0u8),
        (-1i8, 1i8, 0u8),
        (0i8, -1i8, 0u8),
        (0i8, 1i8, 0u8),
        (1i8, -1i8, 0u8),
        (1i8, 0i8, 0u8),
    ]
}

/// The directions of a bishop.
pub open spec fn spec_bishop() -> Seq<Direction> {
    seq![
        (-2i8, 1i8, 0u8),
        (2i8, -1i8, 0u8),
        (1i8, 1i8, 0u8),
        (-1i8, -1i8, 0u8),
        (-1i8, 2i8, 0u8),
        (1i8, -2i8, 0u8),
    ]
}

/// The jumps of a knight.
pub open spec fn spec_knight() -> Seq<Direction> {
    seq![
        (-2i8, -1i8, 1u8),
        (-3i8, 1i8, 1u8),
        (-3i8, 2i8, 1u8),
        (-2i8, 3i8, 1u8),
        (-1i8, 3i8, 1u8),
        (1i8, 2i8, 1u8),
        (2i8, 1i8, 1u8),
        (3i8, -1i8, 1u8),
        (3i8, -2i8, 1u8),
        (2i8, -3i8, 1u8),
        (1i8, -3i8, 1u8),
        (-1i8, -2i8, 1u8),
    ]
}

/// The directions in which a piece can stand that threatens a hex: those
/// of a queen and the jumps of a knight.
pub open spec fn spec_threaten_check() -> Seq<Direction> {
    spec_queen() + spec_knight()
}

/// The directions of a king.
pub fn king() -> (dirs: Vec<Direction>)
    ensures
        dirs@ == spec_king(),
{
    let dirs = vec![
        (-1i8, -1i8, 1u8),
        (-1i8, 0i8, 1u8),
        (-1i8, 1i8, 1u8),
        (0i8, -1i8, 1u8),
        (0i8, 1i8, 1u8),
        (1i8, -1i8, 1u8),
        (1i8, 0i8, 1u8),
        (1i8, 1i8, 1u8),
        (-2i8, 1i8, 1u8),
        (-1i8, 2i8, 1u8),
        (1i8, -2i8, 1u8),
        (2i8, -1i8, 1u8),
    ];
    assert(dirs@ =~= spec_king());
    dirs
}

/// The directions of a queen.
pub fn queen() -> (dirs: Vec<Direction>)
    ensures
        dirs@ == spec_queen(),
{
    let dirs = vec![
        (-1i8, -1i8, 0u8),
        (-1i8, 0i8, 0u8),
        (-1i8, 1i8, 0u8),
        (0i8, -1i8, 0u8),
        (0i8, 1i8, 0u8),
        (1i8, -1i8, 0u8),
        (1i8, 0i8, 0u8),
        (1i8, 1i8, 0u8),
        (-2i8, 1i8, 0u8),
        (-1i8, 2i8, 0u8),
        (1i8, -2i8, 0u8),
        (2i8, -1i8, 0u8),
    ];
    assert(dirs@ =~= spec_queen());
    dirs
}

/// The directions of a rook.
pub fn rook() -> (dirs: Vec<Direction>)
    ensures
        dirs@ == spec_rook(),
{
    let dirs = vec![
        (-1i8, 0i8, 0u8),
        (-1i8, 1i8, 0u8),
        (0i8, -1i8, 0u8),
        (0i8, 1i8, 0u8),
        (1i8, -1i8, 0u8),
        (1i8, 0i8, 0u8),
    ];
    assert(dirs@ =~= spec_rook());
    dirs
}

/// The directions of a bishop.
pub fn bishop() -> (dirs: Vec<Direction>)
    ensures
        dirs@ == spec_bishop(),
{
    let dirs = vec![
        (-2i8, 1i8, 0u8),
        (2i8, -1i8, 0u8),
        (1i8, 1i8, 0u8),
        (-1i8, -1i8, 0u8),
        (-1i8, 2i8, 0u8),
        (1i8, -2i8, 0u8),
    ];
    assert(dirs@ =~= spec_bishop());
    dirs
}

/// The jumps of a knight.
pub fn knight() -> (dirs: Vec<Direction>)
    ensures
        dirs@ == spec_knight(),
{
    let dirs = vec![
        (-2i8, -1i8, 1u8),
        (-3i8, 1i8, 1u8),
        (-3i8, 2i8, 1u8),
        (-2i8, 3i8, 1u8),
        (-1i8, 3i8, 1u8),
        (1i8, 2i8, 1u8),
        (2i8, 1i8, 1u8),
        (3i8, -1i8, 1u8),
        (3i8, -2i8, 1u8),
        (2i8, -3i8, 1u8),
        (1i8, -3i8, 1u8),
        (-1i8, -2i8, 1u8),
    ];
    assert(dirs@ =~= spec_knight());
    dirs
}

/// The directions in which a piece can stand that threatens a hex.
pub fn threaten_check() -> (dirs: Vec<Direction>)
    ensures
        dirs@ == spec_threaten_check(),
{
    let mut dirs = queen();
    let mut jumps = knight();
    dirs.append(&mut jumps);
    dirs
}

/// Whether a hex lies on the board: a hexagon with six hexes on each edge,
/// in a square of eleven by eleven of which two corners are cut off.
pub open spec fn in_bounds(q: int, r: int) -> bool {
    &&& 0 <= q <= 10
    &&& 0 <= r <= 10
    &&& 5 <= q + r <= 15
}

/// Whether a hex lies on the board.
pub fn is_in_bounds(q: i8, r: i8) -> (res: bool)
    ensures
        res == in_bounds(q as int, r as int),
{
    if q < 0 || r < 0 {
        return false;
    }
    if q > 10 || r > 10 {
        return false;
    }
    if q < 5 && r < 5 - q {
        return false;
    }
    if r > 15 - q {
        return false;
    }
    true
}

/// The hexes that a ray reaches from the hex `(q, r)` after it has made
/// `i` steps: one step on, and so on, while it stays on the board and has
/// steps left. No ray makes more than 255 steps.
pub open spec fn ray(q: int, r: int, dir: Direction, i: nat) -> Seq<Hit>
    decreases 255 - i,
{
    if (dir.2 != 0 && i >= dir.2) || i >= 255 || !in_bounds(q + dir.0, r + dir.1) {
        Seq::empty()
    } else {
        seq![((q + dir.0) as u8, (r + dir.1) as u8, (dir.0, dir.1, (i + 1) as u8))] + ray(
            q + dir.0,
            r + dir.1,
            dir,
            i + 1,
        )
    }
}

/// The hexes that rays in the given directions reach from one hex, ray by
/// ray.
pub open spec fn rays(q: int, r: int, dirs: Seq<Direction>) -> Seq<Hit>
    decreases dirs.len(),
{
    if dirs.len() == 0 {
        Seq::empty()
    } else {
        ray(q, r, dirs.first(), 0) + rays(q, r, dirs.drop_first())
    }
}

/// Walks along one ray.
pub struct SingleDirectionIterator {
    q: u8,
    r: u8,
    dir: Direction,
    i: u8,
}

impl SingleDirectionIterator {
    /// The hexes that are yet to come, in their order.
    pub closed spec fn remaining(&self) -> Seq<Hit> {
        ray(self.q as int, self.r as int, self.dir, self.i as nat)
    }

    /// A walk from the hex `(q, r)` in a direction.
    pub fn new(q: u8, r: u8, dir: Direction) -> (walk: Self)
        ensures
            walk.remaining() == ray(q as int, r as int, dir, 0),
    {
        SingleDirectionIterator { q, r, dir, i: 0 }
    }

    /// The next hex of the ray, with the direction and the number of the
    /// step; `None` once the ray has ended.
    pub fn next_hit(&mut self) -> (hit: Option<Hit>)
        ensures
            old(self).remaining().len() == 0 ==> hit is None && final(self).remaining().len() == 0,
            old(self).remaining().len() > 0 ==> hit == Some(old(self).remaining().first())
                && final(self).remaining() == old(self).remaining().drop_first(),
    {
        if (self.dir.2 != 0 && self.i >= self.dir.2) || self.i == u8::MAX {
            return None;
        }
        let q = self.q as i16 + self.dir.0 as i16;
        let r = self.r as i16 + self.dir.1 as i16;
        if q < 0 || q > 10 || r < 0 || r > 10 || !is_in_bounds(q as i8, r as i8) {
            return None;
        }
        self.i = self.i + 1;
        self.q = q as u8;
        self.r = r as u8;
        proof {
            let rest = old(self).remaining();
            assert(rest.drop_first() =~= self.remaining());
        }
        Some((self.q, self.r, (self.dir.0, self.dir.1, self.i)))
    }

    /// The next hex of the ray; `None` once the ray has ended.
    pub fn next(&mut self) -> (pos: Option<(u8, u8)>)
        ensures
            old(self).remaining().len() == 0 ==> pos is None && final(self).remaining().len() == 0,
            old(self).remaining().len() > 0 ==> pos == Some(
                (old(self).remaining().first().0, old(self).remaining().first().1),
            ) && final(self).remaining() == old(self).remaining().drop_first(),
    {
        match self.next_hit() {
            Some(hit) => Some((hit.0, hit.1)),
            None => None,
        }
    }
}

/// Walks along the rays from one hex in several directions, ray by ray.
pub struct DirectionIterator {
    q: u8,
    r: u8,
    directions: Vec<Direction>,
    idx: usize,
    current: Option<SingleDirectionIterator>,
}

impl DirectionIterator {
    /// The hex from which the rays start.
    pub closed spec fn origin(&self) -> (int, int) {
        (self.q as int, self.r as int)
    }

    /// All directions of the walk.
    pub closed spec fn spec_directions(&self) -> Seq<Direction> {
        self.directions@
    }

    /// Whether the walk is on a ray; it is on none once all rays have
    /// ended.
    pub closed spec fn on_ray(&self) -> bool {
        self.current is Some
    }

    /// What is yet to come of the ray that the walk is on.
    pub closed spec fn current(&self) -> Seq<Hit> {
        match self.current {
            Some(walk) => walk.remaining(),
            None => Seq::empty(),
        }
    }

    /// The directions whose rays the walk has not begun.
    pub closed spec fn upcoming(&self) -> Seq<Direction> {
        if self.current is Some && self.idx <= self.directions@.len() {
            self.directions@.skip(self.idx as int)
        } else {
            Seq::empty()
        }
    }

    /// The hexes that are yet to come, in their order.
    pub open spec fn remaining(&self) -> Seq<Hit> {
        self.current() + rays(self.origin().0, self.origin().1, self.upcoming())
    }

    /// All directions of the walk.
    pub fn directions(&self) -> (dirs: &Vec<Direction>)
        ensures
            dirs@ == self.spec_directions(),
    {
        &self.directions
    }

    /// A walk from the hex `(q, r)` along the rays in the given directions.
    pub fn new(q: u8, r: u8, directions: Vec<Direction>) -> (walk: Self)
        ensures
            walk.origin() == (q as int, r as int),
            walk.spec_directions() == directions@,
            walk.remaining() == rays(q as int, r as int, directions@),
            directions@.len() > 0 ==> walk.current() == ray(q as int, r as int, directions@[0], 0)
                && walk.upcoming() == directions@.drop_first(),
            directions@.len() == 0 ==> walk.current().len() == 0 && walk.upcoming().len() == 0,
    {
        let mut walk = DirectionIterator { q, r, directions, idx: 0, current: None };
        if walk.directions.len() > 0 {
            walk.current = Some(SingleDirectionIterator::new(q, r, walk.directions[0]));
            walk.idx = 1;
            assert(walk.directions@.skip(1) =~= walk.directions@.drop_first());
        }
        walk
    }

    /// The two hexes that a pawn on `(q, r)` captures on.
    pub fn pawn_capture(q: u8, r: u8, color: Color) -> (walk: Self)
        ensures
            walk.origin() == (q as int, r as int),
            walk.spec_directions() == spec_pawn_capture(color),
            walk.remaining() == rays(q as int, r as int, spec_pawn_capture(color)),
    {
        let dirs = if color.is_light() {
            vec![(-1i8, 0i8, 1u8), (1i8, -1i8, 1u8)]
        } else {
            vec![(1i8, 0i8, 1u8), (-1i8, 1i8, 1u8)]
        };
        assert(dirs@ =~= spec_pawn_capture(color));
        DirectionIterator::new(q, r, dirs)
    }

    /// Leaves the ray that the walk is on, and begins the next one.
    pub fn next_dir(&mut self)
        ensures
            final(self).origin() == old(self).origin(),
            final(self).spec_directions() == old(self).spec_directions(),
            old(self).upcoming().len() > 0 ==> final(self).current() == ray(
                old(self).origin().0,
                old(self).origin().1,
                old(self).upcoming().first(),
                0,
            ) && final(self).upcoming() == old(self).upcoming().drop_first(),
            old(self).upcoming().len() == 0 ==> final(self).current().len() == 0,
            old(self).upcoming().len() == 0 ==> final(self).upcoming().len() == 0,
            final(self).on_ray() == (old(self).upcoming().len() > 0),
            final(self).remaining() == rays(
                old(self).origin().0,
                old(self).origin().1,
                old(self).upcoming(),
            ),
    {
        if self.current.is_some() && self.idx < self.directions.len() {
            self.current = Some(
                SingleDirectionIterator::new(self.q, self.r, self.directions[self.idx]),
            );
            self.idx = self.idx + 1;
            assert(self.directions@.skip(self.idx as int) =~= old(self).directions@.skip(
                old(self).idx as int,
            ).drop_first());
        } else {
            self.current = None;
        }
    }

    /// Whether the walk is on a ray.
    pub fn has_ray(&self) -> (res: bool)
        ensures
            res == self.on_ray(),
            !res ==> self.current().len() == 0 && self.upcoming().len() == 0,
    {
        self.current.is_some()
    }

    /// The next hex of the ray that the walk is on; `None` where that ray
    /// has ended, or the walk is on none.
    pub fn step(&mut self) -> (hit: Option<Hit>)
        ensures
            final(self).origin() == old(self).origin(),
            final(self).spec_directions() == old(self).spec_directions(),
            final(self).upcoming() == old(self).upcoming(),
            final(self).on_ray() == old(self).on_ray(),
            old(self).current().len() == 0 ==> hit is None && final(self).current().len() == 0,
            old(self).current().len() > 0 ==> hit == Some(old(self).current().first())
                && final(self).current() == old(self).current().drop_first(),
    {
        let mut walk = match self.current.take() {
            Some(walk) => walk,
            None => {
                return None;
            },
        };
        let hit = walk.next_hit();
        self.current = Some(walk);
        hit
    }

    /// The next hex of the walk, with the direction of its ray and the
    /// number of the step; `None` once all rays have ended.
    pub fn next(&mut self) -> (hit: Option<Hit>)
        ensures
            final(self).origin() == old(self).origin(),
            final(self).spec_directions() == old(self).spec_directions(),
            old(self).remaining().len() == 0 ==> hit is None && final(self).remaining().len() == 0,
            old(self).remaining().len() > 0 ==> hit == Some(old(self).remaining().first())
                && final(self).remaining() == old(self).remaining().drop_first(),
    {
        loop
            invariant
                self.origin() == old(self).origin(),
                self.spec_directions() == old(self).spec_directions(),
                self.remaining() == old(self).remaining(),
            decreases
                    self.upcoming().len() + if self.on_ray() {
                        1nat
                    } else {
                        0nat
                    },
        {
            if !self.has_ray() {
                return None;
            }
            let ghost before = self.current();
            let ghost rest = rays(self.origin().0, self.origin().1, self.upcoming());
            match self.step() {
                Some(hit) => {
                    assert((before + rest).drop_first() =~= self.current() + rest);
                    return Some(hit);
                },
                None => {
                    assert(before + rest =~= rest);
                    self.next_dir();
                },
            }
        }
    }
}

/// The two directions in which a pawn captures: to the side and ahead on
/// the one hand, to the other side on the other.
pub open spec fn spec_pawn_capture(color: Color) -> Seq<Direction> {
    if color.is_light() {
        seq![(-1i8, 0i8, 1u8), (1i8, -1i8, 1u8)]
    } else {
        seq![(1i8, 0i8, 1u8), (-1i8, 1i8, 1u8)]
    }
}

/// Where the first of the pieces stands that stands on the hex `(q, r)`:
/// its place among the pieces counted from `from`.
pub open spec fn first_on(pieces: Seq<Piece>, q: u8, r: u8, from: int) -> Option<int>
    decreases pieces.len() - from,
{
    if from < 0 || from >= pieces.len() {
        None
    } else if pieces[from].q == q && pieces[from].r == r {
        Some(from)
    } else {
        first_on(pieces, q, r, from + 1)
    }
}

/// The first piece on a hex has a place among the pieces, and stands on the
/// hex.
pub proof fn lemma_first_on(pieces: Seq<Piece>, q: u8, r: u8, from: int)
    requires
        first_on(pieces, q, r, from) is Some,
    ensures
        from <= first_on(pieces, q, r, from)->0 < pieces.len(),
        pieces[first_on(pieces, q, r, from)->0].q == q,
        pieces[first_on(pieces, q, r, from)->0].r == r,
    decreases pieces.len() - from,
{
    if 0 <= from < pieces.len() && !(pieces[from].q == q && pieces[from].r == r) {
        lemma_first_on(pieces, q, r, from + 1);
    }
}

/// The piece that stands on the hex `(q, r)`: the first of the pieces that
/// does.
pub open spec fn occupant(pieces: Seq<Piece>, q: u8, r: u8) -> Option<Piece> {
    match first_on(pieces, q, r, 0) {
        Some(i) => Some(pieces[i]),
        None => None,
    }
}

/// The place of the first of the pieces that stands on the hex `(q, r)`.
pub fn find_piece(pieces: &Vec<Piece>, q: u8, r: u8) -> (res: Option<usize>)
    ensures
        match res {
            Some(i) => first_on(pieces@, q, r, 0) == Some(i as int) && i < pieces.len(),
            None => first_on(pieces@, q, r, 0) is None,
        },
{
    let mut i: usize = 0;
    while i < pieces.len()
        invariant
            0 <= i <= pieces.len(),
            first_on(pieces@, q, r, 0) == first_on(pieces@, q, r, i as int),
        decreases pieces.len() - i,
    {
        if pieces[i].q == q && pieces[i].r == r {
            return Some(i);
        }
        i = i + 1;
    }
    None
}

/// The hexes of a ray that a piece can move to: each free hex up to the
/// first piece in the way, and the hex of that piece where it can be
/// captured. A pawn captures nothing along its ray. Where only pieces are
/// looked for, the free hexes are left out.
pub open spec fn visible(
    pieces: Seq<Piece>,
    color: Color,
    pawn: bool,
    only_pieces: bool,
    ray: Seq<Hit>,
) -> Seq<Hit>
    decreases ray.len(),
{
    if ray.len() == 0 {
        Seq::empty()
    } else {
        let hit = ray.first();
        match occupant(pieces, hit.0, hit.1) {
            Some(other) => if pawn || other.color == color {
                Seq::empty()
            } else {
                seq![hit]
            },
            None => if only_pieces {
                visible(pieces, color, pawn, only_pieces, ray.drop_first())
            } else {
                seq![hit] + visible(pieces, color, pawn, only_pieces, ray.drop_first())
            },
        }
    }
}

/// The hexes that a piece can move to along the rays in the given
/// directions, ray by ray.
pub open spec fn visible_rays(
    pieces: Seq<Piece>,
    color: Color,
    pawn: bool,
    only_pieces: bool,
    q: int,
    r: int,
    dirs: Seq<Direction>,
) -> Seq<Hit>
    decreases dirs.len(),
{
    if dirs.len() == 0 {
        Seq::empty()
    } else {
        visible(pieces, color, pawn, only_pieces, ray(q, r, dirs.first(), 0)) + visible_rays(
            pieces,
            color,
            pawn,
            only_pieces,
            q,
            r,
            dirs.drop_first(),
        )
    }
}

/// Those of the hexes on which a pawn captures: the hex that a pawn of the
/// other side has just passed, and each hex on which a piece of the other
/// side stands.
pub open spec fn captures(
    pieces: Seq<Piece>,
    color: Color,
    passant: Option<(u8, u8)>,
    hits: Seq<Hit>,
) -> Seq<Hit>
    decreases hits.len(),
{
    if hits.len() == 0 {
        Seq::empty()
    } else {
        let hit = hits.first();
        let rest = captures(pieces, color, passant, hits.drop_first());
        if passant == Some((hit.0, hit.1)) || (occupant(pieces, hit.0, hit.1) matches Some(other)
            && other.color != color) {
            seq![hit] + rest
        } else {
            rest
        }
    }
}

/// The hex that a pawn has just passed, where the piece with the number
/// `idx` is of the other side than `color`.
pub open spec fn passed_hex(pieces: Seq<Piece>, color: Color, passant: Option<(u8, u8, u8)>) -> Option<
    (u8, u8),
> {
    match passant {
        Some((idx, q, r)) => if idx < pieces.len() && pieces[idx as int].color != color {
            Some((q, r))
        } else {
            None
        },
        None => None,
    }
}

/// The moves of a piece among the pieces of a board, in the order in which
/// they are found: for a pawn the hexes on which it captures, and then for
/// every piece the hexes along its rays.
pub open spec fn moves(pieces: Seq<Piece>, piece: Piece, passant: Option<(u8, u8, u8)>) -> Seq<Hit> {
    let pawn = piece.kind == PieceKind::Pawn;
    captures(
        pieces,
        piece.color,
        passed_hex(pieces, piece.color, passant),
        if pawn {
            rays(piece.q as int, piece.r as int, spec_pawn_capture(piece.color))
        } else {
            Seq::empty()
        },
    ) + visible_rays(
        pieces,
        piece.color,
        pawn,
        false,
        piece.q as int,
        piece.r as int,
        piece.spec_directions(),
    )
}

/// The hexes from which a piece of the other side than `color` looks at the
/// hex `(q, r)`: the first piece along each ray of a queen, and the pieces a
/// knight's jump away.
pub open spec fn threats(pieces: Seq<Piece>, color: Color, q: u8, r: u8) -> Seq<Hit> {
    visible_rays(pieces, color, false, true, q as int, r as int, spec_threaten_check())
}

/// Finds the moves of a piece, or the pieces that look at a hex.
pub struct MovementIterator<'a> {
    pieces: &'a Vec<Piece>,
    directions: DirectionIterator,
    pawn: bool,
    color: Color,
    only_pieces: bool,
    extra: DirectionIterator,
    passant: Option<(u8, u8)>,
}

impl<'a> MovementIterator<'a> {
    /// What is yet to come of the hexes along the rays.
    pub closed spec fn along_rays(&self) -> Seq<Hit> {
        if self.pawn && self.only_pieces {
            Seq::empty()
        } else {
            visible(
                self.pieces@,
                self.color,
                self.pawn,
                self.only_pieces,
                self.directions.current(),
            ) + visible_rays(
                self.pieces@,
                self.color,
                self.pawn,
                self.only_pieces,
                self.directions.origin().0,
                self.directions.origin().1,
                self.directions.upcoming(),
            )
        }
    }

    /// The hexes that are yet to come, in their order.
    pub closed spec fn remaining(&self) -> Seq<Hit> {
        captures(self.pieces@, self.color, self.passant, self.extra.remaining())
            + self.along_rays()
    }

    /// The search for the moves of a piece among the pieces of a board.
    /// `passant` names a pawn that has just made two steps, by its number,
    /// and the hex that it has passed.
    pub fn new(pieces: &'a Vec<Piece>, piece: &Piece, passant: Option<(u8, u8, u8)>) -> (search:
        Self)
        ensures
            search.remaining() == moves(pieces@, *piece, passant),
    {
        let pawn = piece.kind == PieceKind::Pawn;
        let extra = if pawn {
            DirectionIterator::pawn_capture(piece.q, piece.r, piece.color)
        } else {
            DirectionIterator::new(0, 0, Vec::new())
        };
        let passant = match passant {
            Some((idx, q, r)) => if (idx as usize) < pieces.len() && pieces[idx as usize].color
                != piece.color {
                Some((q, r))
            } else {
                None
            },
            None => None,
        };
        let search = MovementIterator {
            pieces,
            directions: piece.available(),
            pawn,
            color: piece.color,
            only_pieces: false,
            extra,
            passant,
        };
        proof {
            assert(piece.spec_directions().len() > 0);
            if !pawn {
                assert(rays(0, 0, Seq::<Direction>::empty()) =~= Seq::<Hit>::empty());
            }
        }
        search
    }

    /// The search for the pieces of the other side than `color` that look
    /// at the hex `(q, r)`.
    pub fn threatened(pieces: &'a Vec<Piece>, color: Color, q: u8, r: u8) -> (search: Self)
        ensures
            search.remaining() == threats(pieces@, color, q, r),
    {
        let search = MovementIterator {
            pieces,
            directions: DirectionIterator::new(q, r, threaten_check()),
            pawn: false,
            color,
            only_pieces: true,
            extra: DirectionIterator::new(0, 0, Vec::new()),
            passant: None,
        };
        proof {
            assert(spec_threaten_check().len() > 0);
            assert(rays(0, 0, Seq::<Direction>::empty()) =~= Seq::<Hit>::empty());
            assert(captures(pieces@, color, None, Seq::<Hit>::empty()) =~= Seq::<Hit>::empty());
            assert(search.remaining() =~= threats(pieces@, color, q, r));
        }
        search
    }

    /// The piece that stands on the hex `(q, r)`, if one does.
    pub fn get_at(&self, q: u8, r: u8) -> (piece: Option<&Piece>)
        ensures
            match piece {
                Some(piece) => self.spec_get_at(q, r) == Some(*piece),
                None => self.spec_get_at(q, r) is None,
            },
    {
        match find_piece(self.pieces, q, r) {
            Some(i) => Some(&self.pieces[i]),
            None => None,
        }
    }

    /// The piece that stands on the hex `(q, r)`, if one does.
    pub closed spec fn spec_get_at(&self, q: u8, r: u8) -> Option<Piece> {
        occupant(self.pieces@, q, r)
    }

    /// The next hex of the search, with the direction of its ray and the
    /// number of the step; `None` once the search has ended.
    pub fn next(&mut self) -> (hit: Option<Hit>)
        ensures
            old(self).remaining().len() == 0 ==> hit is None && final(self).remaining().len() == 0,
            old(self).remaining().len() > 0 ==> hit == Some(old(self).remaining().first())
                && final(self).remaining() == old(self).remaining().drop_first(),
    {
        loop
            invariant
                self.remaining() == old(self).remaining(),
            ensures
                self.extra.remaining().len() == 0,
            decreases self.extra.remaining().len(),
        {
            let ghost before = self.extra.remaining();
            let ghost rest = self.along_rays();
            let pos = match self.extra.next() {
                Some(pos) => pos,
                None => {
                    break ;
                },
            };
            let ghost later = captures(self.pieces@, self.color, self.passant, before.drop_first());
            let passed = match self.passant {
                Some((q, r)) => q == pos.0 && r == pos.1,
                None => false,
            };
            if passed {
                assert((seq![pos] + later + rest).drop_first() =~= later + rest);
                return Some(pos);
            }
            match self.get_at(pos.0, pos.1) {
                Some(piece) => {
                    if piece.color != self.color {
                        assert((seq![pos] + later + rest).drop_first() =~= later + rest);
                        return Some(pos);
                    }
                },
                None => {},
            }
        }
        assert(captures(self.pieces@, self.color, self.passant, self.extra.remaining())
            =~= Seq::<Hit>::empty());
        assert(self.remaining() =~= self.along_rays());
        if self.pawn && self.only_pieces {
            return None;
        }
        loop
            invariant
                !(self.pawn && self.only_pieces),
                self.extra.remaining().len() == 0,
                self.remaining() == old(self).remaining(),
                self.remaining() == self.along_rays(),
            decreases
                    self.directions.upcoming().len() + if self.directions.on_ray() {
                        1nat
                    } else {
                        0nat
                    },
                    self.directions.current().len(),
        {
            if !self.directions.has_ray() {
                assert(self.along_rays() =~= Seq::<Hit>::empty());
                return None;
            }
            let ghost ray = self.directions.current();
            let ghost later = visible_rays(
                self.pieces@,
                self.color,
                self.pawn,
                self.only_pieces,
                self.directions.origin().0,
                self.directions.origin().1,
                self.directions.upcoming(),
            );
            let pos = match self.directions.step() {
                Some(pos) => pos,
                None => {
                    self.directions.next_dir();
                    assert(self.along_rays() =~= later);
                    assert(self.remaining() =~= self.along_rays());
                    continue ;
                },
            };
            let found = match self.get_at(pos.0, pos.1) {
                Some(other) => Some(other.color == self.color),
                None => None,
            };
            match found {
                Some(same_color) => {
                    self.directions.next_dir();
                    assert(self.along_rays() =~= later);
                    if self.pawn || same_color {
                        assert(self.remaining() =~= self.along_rays());
                        continue ;
                    }
                    assert((seq![pos] + later).drop_first() =~= later);
                    assert(self.remaining() =~= later);
                    return Some(pos);
                },
                None => {
                    let ghost seen = visible(
                        self.pieces@,
                        self.color,
                        self.pawn,
                        self.only_pieces,
                        ray.drop_first(),
                    );
                    assert(self.along_rays() =~= seen + later);
                    assert(self.remaining() =~= self.along_rays());
                    if self.only_pieces {
                        continue ;
                    }
                    assert((seq![pos] + seen + later).drop_first() =~= seen + later);
                    return Some(pos);
                },
            }
        }
    }
}

} // verus!
