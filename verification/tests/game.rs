use chessagon::board::Board;
use chessagon::chat::{Chat, ChatLine};
use chessagon::game::Game;
use chessagon::glue::ChatNote;
use chessagon::directions::{
    bishop, find_piece, is_in_bounds, king, knight, queen, rook, threaten_check, DirectionIterator,
    MovementIterator, SingleDirectionIterator,
};
use chessagon::highlight::{Effect, HighlightController};
use chessagon::piece::{is_valid_desc, Color, Piece, PieceKind};
use chessagon::utils::Gamemode;

fn piece(idx: u8, kind: PieceKind, color: Color, q: u8, r: u8) -> Piece {
    Piece { idx, kind, color, q, r }
}

fn collect(mut walk: DirectionIterator) -> Vec<(u8, u8, (i8, i8, u8))> {
    let mut hits = Vec::new();
    while let Some(hit) = walk.next() {
        hits.push(hit);
    }
    assert_eq!(walk.next(), None);
    hits
}

fn collect_moves(mut search: MovementIterator) -> Vec<(u8, u8)> {
    let mut hexes = Vec::new();
    while let Some(hit) = search.next() {
        hexes.push((hit.0, hit.1));
    }
    assert_eq!(search.next(), None);
    hexes
}

fn sorted(mut hexes: Vec<(u8, u8)>) -> Vec<(u8, u8)> {
    hexes.sort();
    hexes
}

#[test]
fn colors() {
    assert_eq!(Color::Light.opposite(), Color::Dark);
    assert_eq!(Color::Dark.opposite(), Color::Light);
    assert!(Color::Light.is_light());
    assert!(!Color::Dark.is_light());
    assert_eq!(Color::Light.to_u8(), 0);
    assert_eq!(Color::Dark.to_u8(), 1);
}

#[test]
fn piece_kinds_and_their_numbers() {
    let kinds = [
        PieceKind::King,
        PieceKind::Queen,
        PieceKind::Rook,
        PieceKind::Bishop,
        PieceKind::Knight,
        PieceKind::Pawn,
    ];
    for (code, kind) in kinds.iter().enumerate() {
        assert_eq!(kind.to_u8(), code as u8);
        assert_eq!(PieceKind::from_u8(code as u8), Some(*kind));
    }
    assert_eq!(PieceKind::from_u8(6), None);
    assert_eq!(PieceKind::from_u8(255), None);
    assert!(PieceKind::Queen.is_promotion());
    assert!(PieceKind::Knight.is_promotion());
    assert!(PieceKind::Rook.is_promotion());
    assert!(PieceKind::Bishop.is_promotion());
    assert!(!PieceKind::King.is_promotion());
    assert!(!PieceKind::Pawn.is_promotion());
}

#[test]
fn piece_describe() {
    assert_eq!(piece(0, PieceKind::King, Color::Light, 0, 0).describe(), 0);
    assert_eq!(piece(7, PieceKind::Queen, Color::Light, 4, 10).describe(), 0x014a);
    assert_eq!(piece(7, PieceKind::Pawn, Color::Dark, 9, 0).describe(), 0x0d90);
    assert_eq!(piece(7, PieceKind::Knight, Color::Dark, 3, 2).describe(), 0x0c32);
    // Only four bits of each of q and r are written.
    assert_eq!(piece(7, PieceKind::King, Color::Light, 0x1f, 0x23).describe(), 0x00f3);
}

#[test]
fn piece_from_desc() {
    assert_eq!(
        Piece::from_desc(5, 0x014a),
        piece(5, PieceKind::Queen, Color::Light, 4, 10)
    );
    assert_eq!(
        Piece::from_desc(6, 0x0d90),
        piece(6, PieceKind::Pawn, Color::Dark, 9, 0)
    );
    // Any bit above the kind makes the piece dark.
    assert_eq!(
        Piece::from_desc(0, 0x8000),
        piece(0, PieceKind::King, Color::Dark, 0, 0)
    );
    assert!(is_valid_desc(0x0500));
    assert!(!is_valid_desc(0x0600));
    assert!(!is_valid_desc(0x0700));
    assert!(is_valid_desc(0xf8ff));
}

#[test]
fn piece_description_round_trip() {
    for kind in [PieceKind::King, PieceKind::Rook, PieceKind::Pawn] {
        for color in [Color::Light, Color::Dark] {
            for (q, r) in [(0, 0), (5, 5), (10, 0), (15, 15)] {
                let p = piece(3, kind, color, q, r);
                assert_eq!(Piece::from_desc(3, p.describe()), p);
            }
        }
    }
}

#[test]
fn piece_movement() {
    let mut p = piece(0x21, PieceKind::Rook, Color::Light, 1, 2);
    assert_eq!(p.movement(4, 10), 0x214a);
    assert_eq!((p.q, p.r), (4, 10));
    assert_eq!(p.movement(0, 0), 0x2100);
    assert!(p.is_captured());
    assert_eq!(p.idx, 0x21);
    assert_eq!(p.kind, PieceKind::Rook);
    assert!(!piece(0, PieceKind::Rook, Color::Light, 0, 1).is_captured());
    assert!(!piece(0, PieceKind::Rook, Color::Light, 1, 0).is_captured());
}

#[test]
fn piece_promotion() {
    let pawn = |color, q, r| piece(9, PieceKind::Pawn, color, q, r);
    assert!(pawn(Color::Light, 7, 0).can_promote());
    assert!(pawn(Color::Light, 2, 3).can_promote());
    assert!(!pawn(Color::Light, 5, 5).can_promote());
    assert!(!pawn(Color::Light, 0, 0).can_promote());
    assert!(pawn(Color::Dark, 3, 10).can_promote());
    assert!(pawn(Color::Dark, 8, 7).can_promote());
    assert!(!pawn(Color::Dark, 7, 0).can_promote());
    assert!(!pawn(Color::Dark, 2, 3).can_promote());
    assert!(!piece(9, PieceKind::Queen, Color::Light, 7, 0).can_promote());
    assert!(pawn(Color::Light, 255, 0).can_promote());
    assert!(!pawn(Color::Light, 255, 6).can_promote());

    let mut p = pawn(Color::Light, 7, 0);
    assert_eq!(p.promote(PieceKind::Queen), 0x0109);
    assert_eq!(p.kind, PieceKind::Queen);
    assert_eq!((p.idx, p.q, p.r), (9, 7, 0));
    assert_eq!(p.promote(PieceKind::Knight), 0x0409);
}

#[test]
fn directions_of_the_kinds() {
    assert_eq!(king().len(), 12);
    assert_eq!(queen().len(), 12);
    assert_eq!(rook().len(), 6);
    assert_eq!(bishop().len(), 6);
    assert_eq!(knight().len(), 12);
    assert_eq!(threaten_check().len(), 24);
    assert!(king().iter().all(|d| d.2 == 1));
    assert!(knight().iter().all(|d| d.2 == 1));
    assert!(queen().iter().all(|d| d.2 == 0));
    assert_eq!(rook()[0], (-1, 0, 0));
    assert_eq!(bishop()[0], (-2, 1, 0));
    assert_eq!(knight()[1], (-3, 1, 1));
    assert_eq!(&threaten_check()[..12], &queen()[..]);
    assert_eq!(&threaten_check()[12..], &knight()[..]);
    // The king steps where the queen slides.
    for (k, q) in king().iter().zip(queen().iter()) {
        assert_eq!((k.0, k.1), (q.0, q.1));
    }
}

#[test]
fn bounds_of_the_board() {
    let mut count = 0;
    for q in -1..12i8 {
        for r in -1..12i8 {
            let inside = (0..=10).contains(&q) && (0..=10).contains(&r) && q + r >= 5 && q + r <= 15;
            assert_eq!(is_in_bounds(q, r), inside, "({}, {})", q, r);
            if inside {
                count += 1;
            }
        }
    }
    assert_eq!(count, 91);
    assert!(is_in_bounds(5, 5));
    assert!(is_in_bounds(0, 5));
    assert!(!is_in_bounds(0, 4));
    assert!(is_in_bounds(10, 5));
    assert!(!is_in_bounds(10, 6));
    assert!(!is_in_bounds(0, 0));
    assert!(!is_in_bounds(-128, -128));
    assert!(!is_in_bounds(127, 127));
}

#[test]
fn single_direction_walk() {
    let mut walk = SingleDirectionIterator::new(5, 5, (1, 0, 0));
    let mut hexes = Vec::new();
    while let Some(pos) = walk.next() {
        hexes.push(pos);
    }
    assert_eq!(hexes, vec![(6, 5), (7, 5), (8, 5), (9, 5), (10, 5)]);
    assert_eq!(walk.next(), None);

    let mut walk = SingleDirectionIterator::new(5, 5, (0, -1, 2));
    assert_eq!(walk.next_hit(), Some((5, 4, (0, -1, 1))));
    assert_eq!(walk.next_hit(), Some((5, 3, (0, -1, 2))));
    assert_eq!(walk.next_hit(), None);

    let mut walk = SingleDirectionIterator::new(0, 5, (-1, 0, 0));
    assert_eq!(walk.next(), None);
    // From a hex off the board a ray can still reach the board.
    let mut walk = SingleDirectionIterator::new(0, 0, (1, 1, 0));
    assert_eq!(walk.next(), None);
    let mut walk = SingleDirectionIterator::new(2, 2, (1, 1, 0));
    assert_eq!(walk.next(), Some((3, 3)));
}

#[test]
fn direction_walk_goes_ray_by_ray() {
    let walk = DirectionIterator::new(5, 5, vec![(1, 0, 2), (0, 1, 1), (3, 3, 1), (-1, 0, 0)]);
    assert_eq!(walk.directions().len(), 4);
    assert_eq!(
        collect(walk),
        vec![
            (6, 5, (1, 0, 1)),
            (7, 5, (1, 0, 2)),
            (5, 6, (0, 1, 1)),
            (4, 5, (-1, 0, 1)),
            (3, 5, (-1, 0, 2)),
            (2, 5, (-1, 0, 3)),
            (1, 5, (-1, 0, 4)),
            (0, 5, (-1, 0, 5)),
        ]
    );
    assert_eq!(collect(DirectionIterator::new(5, 5, vec![])), vec![]);
}

#[test]
fn direction_walk_next_dir_leaves_the_ray() {
    let mut walk = DirectionIterator::new(5, 5, vec![(1, 0, 0), (0, 1, 0)]);
    assert!(walk.has_ray());
    assert_eq!(walk.next(), Some((6, 5, (1, 0, 1))));
    walk.next_dir();
    assert_eq!(walk.next(), Some((5, 6, (0, 1, 1))));
    assert_eq!(walk.step(), Some((5, 7, (0, 1, 2))));
    walk.next_dir();
    assert!(!walk.has_ray());
    assert_eq!(walk.next(), None);
    assert_eq!(walk.step(), None);
    walk.next_dir();
    assert_eq!(walk.next(), None);
}

#[test]
fn pawn_capture_hexes() {
    assert_eq!(
        collect(DirectionIterator::pawn_capture(5, 6, Color::Light)),
        vec![(4, 6, (-1, 0, 1)), (6, 5, (1, -1, 1))]
    );
    assert_eq!(
        collect(DirectionIterator::pawn_capture(5, 4, Color::Dark)),
        vec![(6, 4, (1, 0, 1)), (4, 5, (-1, 1, 1))]
    );
    assert_eq!(
        collect(DirectionIterator::pawn_capture(0, 5, Color::Light)),
        vec![(1, 4, (1, -1, 1))]
    );
}

#[test]
fn piece_available_directions() {
    let pawn = |color, q, r| collect(piece(0, PieceKind::Pawn, color, q, r).available());
    // From where it begins a pawn can make two steps.
    assert_eq!(pawn(Color::Light, 5, 6), vec![(5, 5, (0, -1, 1)), (5, 4, (0, -1, 2))]);
    assert_eq!(pawn(Color::Light, 9, 6), vec![(9, 5, (0, -1, 1)), (9, 4, (0, -1, 2))]);
    assert_eq!(pawn(Color::Light, 1, 10), vec![(1, 9, (0, -1, 1)), (1, 8, (0, -1, 2))]);
    assert_eq!(pawn(Color::Light, 4, 6), vec![(4, 5, (0, -1, 1))]);
    assert_eq!(pawn(Color::Light, 5, 5), vec![(5, 4, (0, -1, 1))]);
    assert_eq!(pawn(Color::Dark, 5, 4), vec![(5, 5, (0, 1, 1)), (5, 6, (0, 1, 2))]);
    assert_eq!(pawn(Color::Dark, 9, 0), vec![(9, 1, (0, 1, 1)), (9, 2, (0, 1, 2))]);
    assert_eq!(pawn(Color::Dark, 6, 4), vec![(6, 5, (0, 1, 1))]);

    let rook_walk = piece(0, PieceKind::Rook, Color::Light, 5, 5).available();
    assert_eq!(rook_walk.directions(), &rook());
    assert_eq!(collect(rook_walk).len(), 30);
    assert_eq!(collect(piece(0, PieceKind::King, Color::Dark, 5, 5).available()).len(), 12);
    assert_eq!(collect(piece(0, PieceKind::Knight, Color::Dark, 5, 5).available()).len(), 12);
    assert_eq!(collect(piece(0, PieceKind::Bishop, Color::Dark, 5, 5).available()).len(), 12);
    assert_eq!(collect(piece(0, PieceKind::Queen, Color::Dark, 5, 5).available()).len(), 42);
}

#[test]
fn moves_stop_at_pieces() {
    let rook_piece = piece(0, PieceKind::Rook, Color::Light, 5, 5);
    let pieces = vec![
        rook_piece,
        piece(1, PieceKind::Pawn, Color::Light, 7, 5),
        piece(2, PieceKind::Pawn, Color::Dark, 5, 3),
    ];
    let hexes = collect_moves(MovementIterator::new(&pieces, &rook_piece, None));
    // Towards its own pawn the rook reaches (6, 5) only; the dark pawn it
    // captures.
    assert!(hexes.contains(&(6, 5)));
    assert!(!hexes.contains(&(7, 5)));
    assert!(!hexes.contains(&(8, 5)));
    assert!(hexes.contains(&(5, 4)));
    assert!(hexes.contains(&(5, 3)));
    assert!(!hexes.contains(&(5, 2)));
    assert_eq!(hexes.len(), 30 - 4 - 3);
    assert_eq!(find_piece(&pieces, 7, 5), Some(1));
    assert_eq!(find_piece(&pieces, 7, 6), None);
}

#[test]
fn pawn_moves() {
    let pawn = piece(0, PieceKind::Pawn, Color::Light, 5, 6);
    let alone = vec![pawn];
    assert_eq!(collect_moves(MovementIterator::new(&alone, &pawn, None)), vec![(5, 5), (5, 4)]);

    // A pawn does not capture ahead, and is blocked by any piece.
    let blocked = vec![pawn, piece(1, PieceKind::Pawn, Color::Dark, 5, 5)];
    assert_eq!(collect_moves(MovementIterator::new(&blocked, &pawn, None)), vec![]);
    let blocked_far = vec![pawn, piece(1, PieceKind::Pawn, Color::Dark, 5, 4)];
    assert_eq!(collect_moves(MovementIterator::new(&blocked_far, &pawn, None)), vec![(5, 5)]);

    // It captures to the sides, pieces of the other side only.
    let targets = vec![
        pawn,
        piece(1, PieceKind::Pawn, Color::Dark, 4, 6),
        piece(2, PieceKind::Pawn, Color::Light, 6, 5),
    ];
    assert_eq!(
        collect_moves(MovementIterator::new(&targets, &pawn, None)),
        vec![(4, 6), (5, 5), (5, 4)]
    );
}

#[test]
fn pawn_captures_in_passing() {
    let pawn = piece(0, PieceKind::Pawn, Color::Light, 5, 6);
    let pieces = vec![pawn, piece(1, PieceKind::Pawn, Color::Dark, 6, 6), piece(2, PieceKind::Pawn, Color::Light, 4, 7)];
    assert_eq!(
        collect_moves(MovementIterator::new(&pieces, &pawn, Some((1, 6, 5)))),
        vec![(6, 5), (5, 5), (5, 4)]
    );
    // Not where the pawn that passed is of the same side, or is not there.
    assert_eq!(
        collect_moves(MovementIterator::new(&pieces, &pawn, Some((2, 6, 5)))),
        vec![(5, 5), (5, 4)]
    );
    assert_eq!(
        collect_moves(MovementIterator::new(&pieces, &pawn, Some((9, 6, 5)))),
        vec![(5, 5), (5, 4)]
    );
    // Only a pawn captures so.
    let rook_piece = piece(3, PieceKind::Rook, Color::Light, 0, 5);
    let with_rook = vec![rook_piece, piece(1, PieceKind::Pawn, Color::Dark, 6, 6)];
    assert!(!collect_moves(MovementIterator::new(&with_rook, &rook_piece, Some((1, 9, 9)))).contains(&(9, 9)));
}

#[test]
fn threats_are_the_first_pieces_of_the_other_side_along_the_rays() {
    let pieces = vec![
        piece(0, PieceKind::Rook, Color::Dark, 8, 5),
        piece(1, PieceKind::Rook, Color::Dark, 10, 5),
        piece(2, PieceKind::Pawn, Color::Light, 5, 7),
        piece(3, PieceKind::Rook, Color::Dark, 5, 9),
        piece(4, PieceKind::Knight, Color::Dark, 6, 7),
    ];
    let found = collect_moves(MovementIterator::threatened(&pieces, Color::Light, 5, 5));
    assert_eq!(sorted(found), vec![(6, 7), (8, 5)]);
    let search = MovementIterator::threatened(&pieces, Color::Light, 5, 5);
    assert_eq!(search.get_at(8, 5).map(|p| p.idx), Some(0));
    assert_eq!(search.get_at(9, 5).map(|p| p.idx), None);
}

#[test]
fn board_default_position() {
    let mut board = Board::new();
    assert!(board.pieces.is_empty());
    board.load_default();
    assert_eq!(board.pieces.len(), 36);
    for (i, p) in board.pieces.iter().enumerate() {
        assert_eq!(p.idx as usize, i);
        assert_eq!(p.color, if i < 18 { Color::Light } else { Color::Dark });
        assert!(is_in_bounds(p.q as i8, p.r as i8));
    }
    assert_eq!(board.pieces[0], piece(0, PieceKind::Queen, Color::Light, 4, 10));
    assert_eq!(board.pieces[1], piece(1, PieceKind::King, Color::Light, 6, 9));
    assert_eq!(board.pieces[3], piece(3, PieceKind::Knight, Color::Light, 7, 8));
    assert_eq!(board.pieces[5], piece(5, PieceKind::Rook, Color::Light, 8, 7));
    assert_eq!(board.pieces[8], piece(8, PieceKind::Bishop, Color::Light, 5, 8));
    assert_eq!(board.pieces[9], piece(9, PieceKind::Pawn, Color::Light, 1, 10));
    assert_eq!(board.pieces[17], piece(17, PieceKind::Pawn, Color::Light, 9, 6));
    assert_eq!(board.pieces[18], piece(18, PieceKind::Queen, Color::Dark, 4, 1));
    assert_eq!(board.pieces[19], piece(19, PieceKind::King, Color::Dark, 6, 0));
    assert_eq!(board.pieces[27], piece(27, PieceKind::Pawn, Color::Dark, 1, 4));
    assert_eq!(board.pieces[35], piece(35, PieceKind::Pawn, Color::Dark, 9, 0));
    let mut hexes: Vec<(u8, u8)> = board.pieces.iter().map(|p| (p.q, p.r)).collect();
    hexes.sort();
    hexes.dedup();
    assert_eq!(hexes.len(), 36);
    let pawns = board.pieces.iter().filter(|p| p.kind == PieceKind::Pawn).count();
    assert_eq!(pawns, 18);
    // Loading again does not add pieces.
    board.load_default();
    assert_eq!(board.pieces.len(), 36);
}

#[test]
fn board_describe_and_load() {
    let mut board = Board::new();
    board.load_default();
    let desc = board.describe();
    assert_eq!(desc.len(), 36);
    assert_eq!(desc[0], 0x014a);
    assert_eq!(desc[19], 0x0860);
    let mut other = Board::new();
    other.load_desc(desc.clone());
    assert_eq!(other.pieces, board.pieces);
    assert_eq!(other.describe(), desc);
    other.load_desc(vec![]);
    assert!(other.pieces.is_empty());
}

#[test]
fn board_get_at() {
    let mut board = Board::new();
    board.load_default();
    assert_eq!(board.get_at(6, 9).map(|p| p.idx), Some(1));
    assert_eq!(board.get_at(5, 5).map(|p| p.idx), None);
    assert_eq!(board.get_piece(35).map(|p| (p.q, p.r)), Some((9, 0)));
    assert_eq!(board.get_piece(36).map(|p| p.idx), None);
    {
        let found = board.get_at_mut(6, 9).unwrap();
        assert_eq!(found.idx, 1);
        found.q = 5;
        found.r = 5;
    }
    assert_eq!(board.get_at(5, 5).map(|p| p.idx), Some(1));
    assert!(board.get_at(6, 9).is_none());
    assert!(board.get_at_mut(6, 9).is_none());
    // Of two pieces on one hex the first is found.
    board.pieces[0].q = 5;
    board.pieces[0].r = 5;
    assert_eq!(board.get_at(5, 5).map(|p| p.idx), Some(0));
}

#[test]
fn board_kings() {
    let mut board = Board::new();
    assert!(board.get_king(Color::Light).is_none());
    board.load_default();
    assert_eq!(board.get_king(Color::Light).map(|p| p.idx), Some(1));
    assert_eq!(board.get_king(Color::Dark).map(|p| p.idx), Some(19));
    board.pieces[19].movement(0, 0);
    assert!(board.get_king(Color::Dark).is_none());
    assert_eq!(board.get_king(Color::Light).map(|p| p.idx), Some(1));
}

#[test]
fn board_opening_moves() {
    let mut board = Board::new();
    board.load_default();
    let pawn = board.pieces[13];
    assert_eq!((pawn.q, pawn.r), (5, 6));
    // The dark pawn on (5, 4) stands in the way of the second step.
    assert_eq!(board.available_moves(&pawn), vec![(5, 5)]);
    assert!(board.can_move(&pawn, 5, 5));
    assert!(!board.can_move(&pawn, 5, 4));
    assert!(!board.can_move(&pawn, 4, 6));
    let edge_pawn = board.pieces[17];
    assert_eq!((edge_pawn.q, edge_pawn.r), (9, 6));
    assert_eq!(board.available_moves(&edge_pawn), vec![(9, 5), (9, 4)]);
    // No piece moves onto a piece of its own side.
    for p in board.pieces.iter() {
        for hex in board.available_moves(p) {
            assert!(is_in_bounds(hex.0 as i8, hex.1 as i8));
            assert!(board.get_at(hex.0, hex.1).map_or(true, |other| other.color != p.color));
            assert!(board.can_move(p, hex.0, hex.1));
        }
    }
    let knight_piece = board.pieces[2];
    let jumps = board.available_moves(&knight_piece);
    for hex in jumps.iter() {
        assert!(is_in_bounds(hex.0 as i8, hex.1 as i8));
        assert!(board.get_at(hex.0, hex.1).is_none());
    }
}

#[test]
fn board_threats() {
    let mut board = Board::new();
    board.pieces = vec![
        piece(0, PieceKind::King, Color::Light, 5, 5),
        piece(1, PieceKind::Rook, Color::Dark, 5, 1),
        piece(2, PieceKind::Bishop, Color::Dark, 7, 7),
        piece(3, PieceKind::Pawn, Color::Dark, 3, 8),
    ];
    // The rook looks down its file.
    assert!(board.is_threatened(5, 5, Color::Light));
    assert!(board.is_threatened(5, 3, Color::Light));
    // Behind the king the file is shielded.
    assert!(!board.is_threatened(5, 9, Color::Light));
    assert!(!board.is_threatened(6, 5, Color::Light));
    // The bishop looks along its diagonal, not along the file.
    assert!(board.is_threatened(6, 6, Color::Light));
    assert!(!board.is_threatened(7, 6, Color::Light));
    // The dark pawn on (3, 8) captures on (4, 8) and (2, 9).
    assert!(board.is_threatened(4, 8, Color::Light));
    assert!(board.is_threatened(2, 9, Color::Light));
    // Ahead of it the pawn does not capture, but the bishop looks there
    // along (-2, 1).
    assert!(board.is_threatened(3, 9, Color::Light));
    assert!(!board.is_threatened(3, 7, Color::Light));
    // Its own pieces do not threaten a side.
    assert!(!board.is_threatened(5, 2, Color::Dark));
    // The light king threatens the hexes around it.
    assert!(board.is_threatened(5, 4, Color::Dark));

    assert!(board.can_capture(&board.pieces[1], 5, 5, (0, -1, 4)));
    assert!(!board.can_capture(&board.pieces[1], 5, 5, (1, 1, 1)));
    assert!(board.can_capture(&board.pieces[3], 4, 8, (-1, 0, 1)));
    assert!(!board.can_capture(&board.pieces[3], 3, 9, (0, -1, 1)));
    // A king reaches one step only.
    assert!(board.can_capture(&board.pieces[0], 5, 4, (0, 1, 1)));
    assert!(!board.can_capture(&board.pieces[0], 5, 3, (0, 1, 2)));
}

#[test]
fn king_does_not_move_into_check() {
    let mut board = Board::new();
    board.pieces = vec![
        piece(0, PieceKind::King, Color::Light, 5, 5),
        piece(1, PieceKind::Rook, Color::Dark, 6, 1),
    ];
    let king_piece = board.pieces[0];
    let hexes = board.available_moves(&king_piece);
    assert!(!hexes.contains(&(6, 5)));
    assert!(!hexes.contains(&(6, 4)));
    assert!(!hexes.contains(&(6, 6)));
    assert!(hexes.contains(&(4, 5)));
    assert!(hexes.contains(&(5, 4)));
    assert!(!board.can_move(&king_piece, 6, 5));
    assert!(board.can_move(&king_piece, 4, 5));
    assert!(!board.avoid_checks(&king_piece, &(6, 5, (1, 0, 1))));
    assert!(board.avoid_checks(&king_piece, &(4, 5, (-1, 0, 1))));
    // Pieces other than the king are not held back.
    let rook_piece = board.pieces[1];
    assert!(board.avoid_checks(&rook_piece, &(6, 5, (0, 1, 4))));
}

#[test]
fn board_move_piece() {
    let mut board = Board::new();
    board.pieces = vec![
        piece(0, PieceKind::Rook, Color::Light, 5, 5),
        piece(1, PieceKind::Pawn, Color::Dark, 5, 3),
    ];
    assert_eq!(board.move_piece((5, 5), (5, 4)), vec![0x0054]);
    assert_eq!((board.pieces[0].q, board.pieces[0].r), (5, 4));
    // A capture is told first: the piece goes to (0, 0).
    assert_eq!(board.move_piece((5, 4), (5, 3)), vec![0x0100, 0x0053]);
    assert_eq!((board.pieces[0].q, board.pieces[0].r), (5, 3));
    assert!(board.pieces[1].is_captured());
    assert_eq!(board.get_at(5, 3).map(|p| p.idx), Some(0));
}

#[test]
fn highlight_effects() {
    let mut highlight = HighlightController::new();
    assert_eq!(highlight.send(), Vec::<u16>::new());
    assert_eq!(Effect::Light.mask(), 1);
    assert_eq!(Effect::Check.mask(), 2);

    highlight.add(Effect::Light, &vec![(5, 5), (10, 0), (5, 5)]);
    assert_eq!(highlight.send(), vec![0x0155, 0x01a0]);
    highlight.add(Effect::Check, &vec![(5, 5), (0, 10)]);
    assert_eq!(highlight.send(), vec![0x020a, 0x0355, 0x01a0]);

    highlight.remove(Effect::Light);
    assert_eq!(highlight.send(), vec![0x020a, 0x0255]);
    highlight.remove(Effect::Light);
    assert_eq!(highlight.send(), vec![0x020a, 0x0255]);
    highlight.add(Effect::Light, &vec![]);
    assert_eq!(highlight.send().len(), 2);

    highlight.reset();
    assert_eq!(highlight.send(), Vec::<u16>::new());
    assert_eq!(HighlightController::default().send(), Vec::<u16>::new());
}

#[test]
fn chat_lines() {
    let line = |kind: u8, slots: &[&str]| ChatLine {
        kind,
        slots: slots.iter().map(|s| s.to_string()).collect(),
    };
    assert_eq!(Chat::player_message(true, "ann", "hi"), line(0, &["ann", "hi"]));
    assert_eq!(Chat::player_message(false, "bob", ""), line(1, &["bob", ""]));
    assert_eq!(Chat::join_room("ROOM01"), line(2, &["ROOM01"]));
    assert_eq!(Chat::game_start(), line(3, &[]));
    assert_eq!(Chat::game_end(true), line(4, &[]));
    assert_eq!(Chat::game_end(false), line(5, &[]));
    assert_eq!(Chat::timer_expired(true), line(6, &[]));
    assert_eq!(Chat::timer_expired(false), line(7, &[]));
    assert_eq!(Chat::resign(true), line(8, &[]));
    assert_eq!(Chat::resign(false), line(9, &[]));
}

#[test]
fn gamemodes() {
    for (value, mode) in [(0, Gamemode::Solo), (1, Gamemode::Online), (2, Gamemode::Bot)] {
        assert_eq!(Gamemode::from_u8(value), Some(mode));
        assert_eq!(mode.to_u8(), value);
    }
    assert_eq!(Gamemode::from_u8(3), None);
}

#[test]
fn chat_notes_are_written_as_lines() {
    let line = |kind: u8, slots: &[&str]| ChatLine {
        kind,
        slots: slots.iter().map(|s| s.to_string()).collect(),
    };
    assert_eq!(
        ChatNote::PlayerMessage { is_light: false, name: "a".to_string(), content: "b".to_string() }
            .line(),
        line(1, &["a", "b"])
    );
    assert_eq!(ChatNote::JoinRoom("R".to_string()).line(), line(2, &["R"]));
    assert_eq!(ChatNote::GameStart.line(), line(3, &[]));
    assert_eq!(ChatNote::GameEnd { won_light: true }.line(), line(4, &[]));
    assert_eq!(ChatNote::TimerExpired { is_light: false }.line(), line(7, &[]));
    assert_eq!(ChatNote::Resign { is_light: true }.line(), line(8, &[]));
    assert_eq!(ChatNote::Connected("bob".to_string()).line(), line(10, &["bob"]));
    assert_eq!(ChatNote::Disconnected.line(), line(11, &[]));
    assert_eq!(ChatNote::NewPeer.line(), line(12, &[]));
    assert_eq!(Chat::connected("bob"), line(10, &["bob"]));
    assert_eq!(Chat::disconnected(), line(11, &[]));
    assert_eq!(Chat::new_peer(), line(12, &[]));
}

#[test]
fn game_on_one_screen() {
    let mut game = Game::new();
    assert_eq!(game.board.pieces.len(), 36);
    assert_eq!(game.describe().len(), 36);
    assert_eq!(game.describe()[0], 0x014a);
    assert_eq!(game.get_at(9, 6).map(|p| p.idx), Some(17));
    assert!(game.get_at(5, 5).is_none());
    let pawn = *game.get_at(9, 6).unwrap();
    assert!(game.can_move(&pawn, 9, 4));
    assert!(!game.can_move(&pawn, 9, 3));
    assert_eq!(game.available_moves(&pawn), vec![(9, 5), (9, 4)]);
    // The dark bishop on (5, 1) looks at (9, 5) along (1, 1).
    assert!(game.is_threatened(9, 5, true));
    // The light pawn on (8, 6) captures on (9, 5).
    assert!(game.is_threatened(9, 5, false));
    assert!(!game.is_threatened(5, 5, true));
    assert!(game.is_threatened(9, 1, false) == game.board.is_threatened(9, 1, Color::Dark));
    assert!(game.can_capture(&pawn, 8, 6, (1, 0, 1)));
    assert!(!game.can_capture(&pawn, 9, 5, (0, 1, 1)));

    // A move against the rules is not made.
    assert_eq!(game.move_piece((9, 6), (9, 3)), None);
    assert_eq!(game.move_piece((5, 5), (5, 4)), None);
    assert_eq!(game.get_at(9, 6).map(|p| p.idx), Some(17));
    assert_eq!(game.move_piece((9, 6), (9, 4)), Some(vec![0x1194]));
    assert_eq!(game.get_at(9, 4).map(|p| p.idx), Some(17));
    {
        let moved = game.get_at_mut(9, 4).unwrap();
        moved.kind = PieceKind::Rook;
    }
    // The rook captures the dark pawn on (9, 0): the capture is told first.
    assert_eq!(game.move_piece((9, 4), (9, 0)), Some(vec![0x2300, 0x1190]));
    assert!(game.board.pieces[35].is_captured());
}
