//! The rules of a game between two sides: whose turn it is, which moves
//! count, and how the time runs.

use crate::board::{
    available, described, moved, spec_king_of, starting_pieces, threatened, Board,
};
use crate::directions::{first_on, occupant};
use crate::glue::{
    give, no_commands, Button, ChatNote, ChatNoteView, Command, CommandView, Event, EventView, Fault,
};
use crate::highlight::{
    no_effects, packets, with_effect, without_effect, Effect, HighlightController,
};
use crate::piece::{is_valid_desc, valid_desc, Color, Piece, PieceKind};
use crate::utils::Gamemode;
use vstd::prelude::*;

verus! {

/// One of the two sides of a game, and its time. Times are in
/// milliseconds.
#[derive(Debug, Clone, Copy, PartialEq, Eq, Structural)]
pub struct Side {
    pub color: Color,
    /// The time that the side has left, where the game has a timer.
    pub time_left: Option<u64>,
    /// Since when the time of the side runs, while it does.
    pub time_active_at: Option<u64>,
}

impl Side {
    /// The side after its time was stopped at `now`: what has run since
    /// the time began to run is taken from what was left.
    pub open spec fn spec_update_timer(self, now: u64) -> Result<Side, Fault> {
        match self.time_active_at {
            None => Ok(self),
            Some(since) => if now < since {
                Err(Fault::TimeTravel)
            } else {
                match self.time_left {
                    None => Err(Fault::NoTimeLeft),
                    Some(left) => if left < now - since {
                        Err(Fault::TimeOverrun)
                    } else {
                        Ok(
                            Side {
                                time_left: Some((left - (now - since)) as u64),
                                time_active_at: None,
                                ..self
                            },
                        )
                    },
                }
            },
        }
    }

    /// Stops the time of the side at `now`.
    pub fn update_timer(&mut self, now: u64) -> (res: Result<(), Fault>)
        ensures
            match old(self).spec_update_timer(now) {
                Ok(side) => res is Ok && *final(self) == side,
                Err(fault) => res == Err::<(), Fault>(fault),
            },
    {
        match self.time_active_at {
            None => Ok(()),
            Some(since) => {
                if now < since {
                    return Err(Fault::TimeTravel);
                }
                let left = match self.time_left {
                    Some(left) => left,
                    None => {
                        return Err(Fault::NoTimeLeft);
                    },
                };
                if left < now - since {
                    return Err(Fault::TimeOverrun);
                }
                self.time_active_at = None;
                self.time_left = Some(left - (now - since));
                Ok(())
            },
        }
    }
}

/// Keeps the board, and decides what each event makes of the game.
pub struct Controller {
    pub board: Board,
    pub is_host: bool,
    pub is_solo: bool,
    pub is_connected: bool,
    pub loaded_board: bool,
    /// The side that the player plays.
    pub color: Color,
    /// The side whose turn it is, while a game is on.
    pub turn: Option<Color>,
    /// The time that each side has for a game, if the game has a timer.
    pub timer: Option<u64>,
    pub light: Side,
    pub dark: Side,
    pub name: String,
    pub opp_name: String,
    pub highlight: HighlightController,
    pub selected_hex: Option<(u8, u8)>,
    /// The number of the pawn that is to be promoted, while the player is
    /// asked for the kind.
    pub promoting: Option<u8>,
}

/// The mathematical value of a [`Controller`].
pub struct ControllerView {
    pub pieces: Seq<Piece>,
    pub is_host: bool,
    pub is_solo: bool,
    pub is_connected: bool,
    pub loaded_board: bool,
    pub color: Color,
    pub turn: Option<Color>,
    pub timer: Option<u64>,
    pub light: Side,
    pub dark: Side,
    pub name: Seq<char>,
    pub opp_name: Seq<char>,
    /// The effects of the hexes, row by row.
    pub cells: Seq<u8>,
    pub selected_hex: Option<(u8, u8)>,
    pub promoting: Option<u8>,
}

impl View for Controller {
    type V = ControllerView;

    open spec fn view(&self) -> ControllerView {
        ControllerView {
            pieces: self.board.pieces@,
            is_host: self.is_host,
            is_solo: self.is_solo,
            is_connected: self.is_connected,
            loaded_board: self.loaded_board,
            color: self.color,
            turn: self.turn,
            timer: self.timer,
            light: self.light,
            dark: self.dark,
            name: self.name@,
            opp_name: self.opp_name@,
            cells: self.highlight.cells(),
            selected_hex: self.selected_hex,
            promoting: self.promoting,
        }
    }
}

/// The buttons that are shown while a game is on.
pub open spec fn buttons_in_game(is_solo: bool) -> Seq<u8> {
    if is_solo {
        seq![Button::LeaveRoom.spec_to_u8()]
    } else {
        seq![Button::LeaveRoom.spec_to_u8(), Button::Resign.spec_to_u8()]
    }
}

/// The buttons that are shown once a game has ended.
pub open spec fn buttons_after_game(may_restart: bool) -> Seq<u8> {
    if may_restart {
        seq![Button::LeaveRoom.spec_to_u8(), Button::PlayAgain.spec_to_u8()]
    } else {
        seq![Button::LeaveRoom.spec_to_u8()]
    }
}

impl ControllerView {
    /// The side of the player, or the other one.
    pub open spec fn get_color(self, is_local: bool) -> Color {
        if is_local {
            self.color
        } else {
            self.color.spec_opposite()
        }
    }

    /// The command that starts the game, where it can start: no game is
    /// on, and the player plays alone or is the host of a peer that is
    /// connected and has the board.
    pub open spec fn try_start(self) -> Seq<CommandView> {
        if self.turn is None && (self.is_solo || (self.is_host && self.is_connected
            && self.loaded_board)) {
            seq![CommandView::Emit(EventView::GameStart)]
        } else {
            Seq::empty()
        }
    }

    /// Which timer the page is to show as running: that of the side whose
    /// turn it is, where its time runs.
    pub open spec fn active_timer(self) -> i8 {
        match self.turn {
            Some(Color::Light) if self.light.time_active_at is Some => if self.light.color.spec_is_light() {
                0i8
            } else {
                1i8
            },
            Some(Color::Dark) if self.dark.time_active_at is Some => if self.dark.color.spec_is_light() {
                0i8
            } else {
                1i8
            },
            _ => -1i8,
        }
    }

    /// The command that shows the timers: the whole seconds that each side
    /// has left.
    pub open spec fn send_timers(self) -> Result<Seq<CommandView>, Fault> {
        if self.timer is None {
            Ok(seq![CommandView::RemoveTimers])
        } else {
            match (self.light.time_left, self.dark.time_left) {
                (Some(light), Some(dark)) => if light / 1000 > u16::MAX || dark / 1000 > u16::MAX {
                    Err(Fault::NoTimeLeft)
                } else {
                    Ok(
                        seq![
                            CommandView::SetTimers {
                                light: (light / 1000) as u16,
                                dark: (dark / 1000) as u16,
                                active: self.active_timer(),
                            },
                        ],
                    )
                },
                _ => Err(Fault::NoTimeLeft),
            }
        }
    }

    /// The game after the turn has passed to the other side at `now`,
    /// where it is a side's turn. In a game with a timer the time of the
    /// side that has moved stops, and that of the other side begins to run.
    #[verifier::opaque]
    pub open spec fn switch_turns(self, now: u64) -> Result<
        (ControllerView, Seq<CommandView>),
        Fault,
    > {
        match self.turn {
            None => Ok((self, Seq::empty())),
            Some(turn) => {
                let next = if turn == Color::Light {
                    self.dark.color
                } else {
                    self.light.color
                };
                let passed = ControllerView {
                    turn: Some(next),
                    color: if self.is_solo {
                        next
                    } else {
                        self.color
                    },
                    ..self
                };
                if self.timer is None {
                    Ok((passed, Seq::empty()))
                } else {
                    let (active, inactive) = if turn == Color::Light {
                        (self.light, self.dark)
                    } else {
                        (self.dark, self.light)
                    };
                    let inactive = Side { time_active_at: Some(now), ..inactive };
                    match active.spec_update_timer(now) {
                        Err(fault) => Err(fault),
                        Ok(active) => {
                            let timed = if turn == Color::Light {
                                ControllerView { light: active, dark: inactive, ..passed }
                            } else {
                                ControllerView { dark: active, light: inactive, ..passed }
                            };
                            match timed.send_timers() {
                                Err(fault) => Err(fault),
                                Ok(commands) => Ok((timed, commands)),
                            }
                        },
                    }
                }
            },
        }
    }

    /// The effects of the hexes after the king of a side was looked at: it
    /// is shown as in check where it could be captured.
    pub open spec fn mark_check(self, cells: Seq<u8>, color: Color) -> Result<Seq<u8>, Fault> {
        match spec_king_of(self.pieces, color, 0) {
            Some(king) => if threatened(self.pieces, king.q, king.r, color) {
                if king.q >= 11 || king.r >= 11 {
                    Err(Fault::OutOfBoard)
                } else {
                    Ok(with_effect(cells, Effect::Check.spec_mask(), seq![(king.q, king.r)]))
                }
            } else {
                Ok(cells)
            },
            None => Ok(cells),
        }
    }

    /// The side that has won: the other side than the one whose king is
    /// gone, the light side where both are.
    pub open spec fn winner(self) -> Option<Color> {
        if spec_king_of(self.pieces, Color::Dark, 0) is None {
            Some(Color::Light)
        } else if spec_king_of(self.pieces, Color::Light, 0) is None {
            Some(Color::Dark)
        } else {
            None
        }
    }

    /// The game after it was looked for kings in check and for a winner.
    #[verifier::opaque]
    pub open spec fn check_winner(self) -> Result<(ControllerView, Seq<CommandView>), Fault> {
        let cleared = without_effect(self.cells, Effect::Check.spec_mask());
        match self.mark_check(cleared, Color::Light) {
            Err(fault) => Err(fault),
            Ok(cells) => match self.mark_check(cells, Color::Dark) {
                Err(fault) => Err(fault),
                Ok(cells) => Ok(
                    (
                        ControllerView { cells, ..self },
                        seq![CommandView::Highlight(packets(cells, 121))],
                    ),
                ),
            },
        }
    }

    /// What a peer that is connected comes to.
    #[verifier::opaque]
    pub open spec fn on_connected(self) -> (ControllerView, Seq<CommandView>) {
        let connected = ControllerView { is_connected: true, ..self };
        (connected, connected.try_start())
    }

    /// What the loss of the peer comes to.
    #[verifier::opaque]
    pub open spec fn on_disconnected(self) -> (ControllerView, Seq<CommandView>) {
        if self.is_connected {
            (
                ControllerView { is_connected: false, turn: None, ..self },
                seq![
                    CommandView::AddChatMessage(ChatNoteView::Disconnected),
                    CommandView::HideChat,
                ],
            )
        } else {
            (self, Seq::empty())
        }
    }

    /// What the settings of a game come to: the host plays the side that
    /// the settings give it, a guest the other one.
    #[verifier::opaque]
    pub open spec fn on_settings(self, timer: u16, host_as_light: bool) -> (
        ControllerView,
        Seq<CommandView>,
    ) {
        let host = if host_as_light {
            Color::Light
        } else {
            Color::Dark
        };
        let color = if !self.is_solo && !self.is_host {
            host.spec_opposite()
        } else {
            host
        };
        let set = ControllerView {
            color,
            timer: if timer > 0 {
                Some((timer * 1000) as u64)
            } else {
                None
            },
            ..self
        };
        let perspective = CommandView::SetBoardPerspective(self.is_solo || color.spec_is_light());
        if self.is_host || self.is_solo {
            (
                ControllerView { pieces: starting_pieces(), ..set },
                seq![
                    perspective,
                    CommandView::Emit(
                        EventView::LoadedBoard(
                            starting_pieces().map_values(|piece: Piece| piece.spec_describe()),
                        ),
                    ),
                ],
            )
        } else {
            (set, seq![perspective])
        }
    }

    /// Whether a list of descriptions can be loaded.
    pub open spec fn loadable(board: Seq<u16>) -> Result<(), Fault> {
        if board.len() > 256 {
            Err(Fault::BoardTooLarge)
        } else if !(forall|i: int| 0 <= i < board.len() ==> valid_desc(#[trigger] board[i])) {
            Err(Fault::InvalidPieceKind)
        } else {
            Ok(())
        }
    }

    /// What a board that was loaded comes to. A guest takes the board
    /// that the host has sent.
    #[verifier::opaque]
    pub open spec fn on_loaded_board(self, board: Seq<u16>) -> Result<
        (ControllerView, Seq<CommandView>),
        Fault,
    > {
        if !self.is_host && ControllerView::loadable(board) is Err {
            Err(ControllerView::loadable(board)->Err_0)
        } else {
            let loaded = ControllerView {
                pieces: if self.is_host {
                    self.pieces
                } else {
                    described(board)
                },
                cells: no_effects(),
                loaded_board: true,
                ..self
            };
            Ok(
                (
                    loaded,
                    seq![CommandView::SetPieces(board), CommandView::Highlight(Seq::empty())]
                        + loaded.try_start(),
                ),
            )
        }
    }

    /// What a click on the hex `(q, r)` comes to. While it is the
    /// player's turn, a click on a hex that the selected piece may move to
    /// asks for the move, and a click on a piece of the player selects it
    /// and lights the hexes that it may move to.
    #[verifier::opaque]
    pub open spec fn on_hex_clicked(self, q: u8, r: u8) -> Result<
        (ControllerView, Seq<CommandView>),
        Fault,
    > {
        let dimmed = ControllerView {
            cells: without_effect(self.cells, Effect::Light.spec_mask()),
            ..self
        };
        if self.promoting is Some || self.turn != Some(self.color) {
            Ok((dimmed, Seq::empty()))
        } else {
            let unselected = ControllerView { selected_hex: None, ..dimmed };
            if self.selected_hex == Some((q, r)) {
                Ok((unselected, seq![CommandView::Highlight(packets(unselected.cells, 121))]))
            } else if self.selected_hex matches Some(from) && occupant(self.pieces, from.0, from.1)
                is None {
                Err(Fault::NoPiece)
            } else {
                let asked = match self.selected_hex {
                    Some(from) if available(
                        self.pieces,
                        occupant(self.pieces, from.0, from.1)->0,
                    ).contains((q, r)) => seq![
                        CommandView::Emit(
                            EventView::Movement {
                                piece: occupant(self.pieces, from.0, from.1)->0.idx,
                                to: (q, r),
                                is_local: true,
                            },
                        ),
                    ],
                    _ => Seq::empty(),
                };
                match occupant(self.pieces, q, r) {
                    Some(piece) if piece.color == self.color => {
                        let hexes = available(self.pieces, piece);
                        if !crate::highlight::all_in_square(hexes) || q >= 11 || r >= 11 {
                            Err(Fault::OutOfBoard)
                        } else {
                            let cells = with_effect(
                                with_effect(unselected.cells, Effect::Light.spec_mask(), hexes),
                                Effect::Light.spec_mask(),
                                seq![(q, r)],
                            );
                            Ok(
                                (
                                    ControllerView {
                                        cells,
                                        selected_hex: Some((q, r)),
                                        ..unselected
                                    },
                                    asked.push(CommandView::Highlight(packets(cells, 121))),
                                ),
                            )
                        }
                    },
                    _ => Ok(
                        (
                            unselected,
                            asked.push(CommandView::Highlight(packets(unselected.cells, 121))),
                        ),
                    ),
                }
            }
        }
    }

    /// Whether a move or a promotion comes from the side whose turn it is:
    /// a game is on, and what the peer does is done on the peer's turn.
    pub open spec fn in_turn(self, is_local: bool) -> bool {
        self.turn matches Some(turn) && (is_local || turn != self.color)
    }

    /// What is done with a move or a promotion that does not count: the
    /// peer that has sent it is given up.
    pub open spec fn refuse(self, is_local: bool) -> Seq<CommandView> {
        if self.turn is None && is_local {
            Seq::empty()
        } else {
            seq![CommandView::Emit(EventView::Disconnected)]
        }
    }

    /// Whether the piece with the number `idx` may move to the hex `to`
    /// now: it is there, belongs to the side whose turn it is, and the
    /// rules allow the move.
    pub open spec fn may_move(self, idx: u8, to: (u8, u8)) -> bool {
        &&& idx < self.pieces.len()
        &&& Some(self.pieces[idx as int].color) == self.turn
        &&& available(self.pieces, self.pieces[idx as int]).contains(to)
    }

    /// What follows a move of the piece with the number `idx` that was
    /// made at `now`: the game ends where a king is gone, the player is
    /// asked for a kind where its pawn has reached the far edge, and else
    /// the turn passes.
    #[verifier::opaque]
    pub open spec fn after_move(self, idx: u8, is_local: bool, now: u64) -> Result<
        (ControllerView, Seq<CommandView>),
        Fault,
    > {
        match self.check_winner() {
            Err(fault) => Err(fault),
            Ok((checked, shown)) => match checked.winner() {
                Some(winner) => Ok(
                    (
                        checked,
                        shown.push(
                            CommandView::Emit(
                                EventView::GameEnded { won_light: winner.spec_is_light() },
                            ),
                        ),
                    ),
                ),
                None => if idx < checked.pieces.len()
                    && checked.pieces[idx as int].spec_can_promote() {
                    Ok(
                        (
                            checked,
                            if is_local {
                                shown.push(CommandView::Emit(EventView::PromotionPrompt(idx)))
                            } else {
                                shown
                            },
                        ),
                    )
                } else {
                    match checked.switch_turns(now) {
                        Err(fault) => Err(fault),
                        Ok((next, timers)) => Ok((next, shown + timers)),
                    }
                },
            },
        }
    }

    /// What making the move of a piece that stands on `from` to the hex
    /// `to` comes to: the piece on `to`, if there is one, is captured, and
    /// the first piece on `from` is put there.
    #[verifier::opaque]
    pub open spec fn make_move(self, from: (u8, u8), to: (u8, u8)) -> Result<
        (ControllerView, Seq<CommandView>),
        Fault,
    > {
        if first_on(crate::board::put(self.pieces, to, (0, 0)).0, from.0, from.1, 0) is None {
            Err(Fault::NoPiece)
        } else {
            Ok(
                (
                    ControllerView { pieces: moved(self.pieces, from, to).0, ..self },
                    seq![CommandView::MovePieces(moved(self.pieces, from, to).1)],
                ),
            )
        }
    }

    /// What a move of the piece with the number `idx` to the hex `to` at
    /// `now` comes to. A move that does not count changes nothing. One
    /// that counts is made, and what follows a move follows.
    #[verifier::opaque]
    pub open spec fn on_movement(self, idx: u8, to: (u8, u8), is_local: bool, now: u64) -> Result<
        (ControllerView, Seq<CommandView>),
        Fault,
    > {
        if !self.in_turn(is_local) {
            Ok((self, self.refuse(is_local)))
        } else if !self.may_move(idx, to) {
            Ok((self, seq![CommandView::Emit(EventView::Disconnected)]))
        } else {
            let piece = self.pieces[idx as int];
            match self.make_move((piece.q, piece.r), to) {
                Err(fault) => Err(fault),
                Ok((made, told)) => match made.after_move(idx, is_local, now) {
                    Err(fault) => Err(fault),
                    Ok((next, more)) => Ok((next, told + more)),
                },
            }
        }
    }

    /// What the promotion of the pawn with the number `idx` to the kind
    /// with the number `kind` at `now` comes to. One that does not count
    /// changes nothing; one that counts is made, and the turn passes.
    #[verifier::opaque]
    pub open spec fn on_promotion(self, idx: u8, kind: u8, is_local: bool, now: u64) -> Result<
        (ControllerView, Seq<CommandView>),
        Fault,
    > {
        if !self.in_turn(is_local) {
            Ok((self, self.refuse(is_local)))
        } else {
            match PieceKind::spec_from_u8(kind) {
                None => Err(Fault::InvalidPieceKind),
                Some(kind) => if !kind.spec_is_promotion() || idx >= self.pieces.len() || Some(
                    self.pieces[idx as int].color,
                ) != self.turn || !self.pieces[idx as int].spec_can_promote() {
                    Ok((self, seq![CommandView::Emit(EventView::Disconnected)]))
                } else {
                    let promoted = ControllerView {
                        pieces: self.pieces.update(
                            idx as int,
                            Piece { kind, ..self.pieces[idx as int] },
                        ),
                        ..self
                    };
                    match promoted.switch_turns(now) {
                        Err(fault) => Err(fault),
                        Ok((next, timers)) => Ok(
                            (
                                next,
                                seq![
                                    CommandView::PromotePieces(
                                        seq![
                                            Piece::promotion_code(
                                                self.pieces[idx as int].idx,
                                                kind,
                                            ),
                                        ],
                                    ),
                                ] + timers,
                            ),
                        ),
                    }
                },
            }
        }
    }

    /// What the beginning of a game comes to: each side has the time of
    /// the timer, and it is the light side's turn.
    #[verifier::opaque]
    pub open spec fn on_game_start(self) -> Result<(ControllerView, Seq<CommandView>), Fault> {
        let timed = ControllerView {
            light: Side { time_left: self.timer, ..self.light },
            dark: Side { time_left: self.timer, ..self.dark },
            ..self
        };
        match timed.send_timers() {
            Err(fault) => Err(fault),
            Ok(timers) => Ok(
                (
                    ControllerView {
                        promoting: None,
                        turn: Some(Color::Light),
                        color: if self.is_solo {
                            Color::Light
                        } else {
                            self.color
                        },
                        ..timed
                    },
                    seq![CommandView::RemoveTimers] + timers + seq![
                        CommandView::AddChatMessage(ChatNoteView::GameStart),
                        CommandView::ShowButtons(buttons_in_game(self.is_solo)),
                    ],
                ),
            ),
        }
    }

    /// What the end of a game at `now` comes to: it is nobody's turn, and
    /// the time of both sides stops.
    #[verifier::opaque]
    pub open spec fn on_game_ended(self, won_light: bool, now: u64) -> Result<
        (ControllerView, Seq<CommandView>),
        Fault,
    > {
        match self.light.spec_update_timer(now) {
            Err(fault) => Err(fault),
            Ok(light) => match self.dark.spec_update_timer(now) {
                Err(fault) => Err(fault),
                Ok(dark) => {
                    let ended = ControllerView { turn: None, promoting: None, light, dark, ..self };
                    match ended.send_timers() {
                        Err(fault) => Err(fault),
                        Ok(timers) => Ok(
                            (
                                ended,
                                timers + seq![
                                    CommandView::AddChatMessage(ChatNoteView::GameEnd { won_light }),
                                    CommandView::ShowButtons(
                                        buttons_after_game(self.is_solo || self.is_host),
                                    ),
                                ],
                            ),
                        ),
                    }
                },
            },
        }
    }

    /// What the choice of a mode comes to.
    #[verifier::opaque]
    pub open spec fn on_gamemode(self, mode: u8) -> Result<
        (ControllerView, Seq<CommandView>),
        Fault,
    > {
        match Gamemode::spec_from_u8(mode) {
            None => Err(Fault::InvalidGamemode),
            Some(mode) => Ok(
                (
                    ControllerView { is_solo: mode == Gamemode::Solo, ..self },
                    seq![CommandView::HideChat],
                ),
            ),
        }
    }

    /// What the name of the peer comes to.
    #[verifier::opaque]
    pub open spec fn on_handshake(self, name: Seq<char>) -> (ControllerView, Seq<CommandView>) {
        (
            ControllerView { opp_name: name, ..self },
            seq![
                CommandView::AddChatMessage(ChatNoteView::Connected(name)),
                CommandView::ShowChat,
            ],
        )
    }

    /// What the end of the time of the side whose turn it is comes to.
    #[verifier::opaque]
    pub open spec fn on_timer_expired(self) -> Seq<CommandView> {
        match self.turn {
            Some(loser) => seq![
                CommandView::AddChatMessage(
                    ChatNoteView::TimerExpired { is_light: loser.spec_is_light() },
                ),
                CommandView::Emit(EventView::GameEnded { won_light: !loser.spec_is_light() }),
            ],
            None => Seq::empty(),
        }
    }

    /// What it comes to that the player, or the peer, gives up.
    #[verifier::opaque]
    pub open spec fn on_resign(self, local: bool) -> Seq<CommandView> {
        seq![
            CommandView::AddChatMessage(
                ChatNoteView::Resign { is_light: self.get_color(local).spec_is_light() },
            ),
            CommandView::Emit(
                EventView::GameEnded { won_light: !self.get_color(local).spec_is_light() },
            ),
        ]
    }

    /// What a line of chat comes to.
    #[verifier::opaque]
    pub open spec fn on_chat(self, is_local: bool, content: Seq<char>) -> Seq<CommandView> {
        seq![
            CommandView::AddChatMessage(
                ChatNoteView::PlayerMessage {
                    is_light: self.get_color(is_local).spec_is_light(),
                    name: if is_local {
                        self.name
                    } else {
                        self.opp_name
                    },
                    content,
                },
            ),
        ]
    }

    /// What a click on a button comes to.
    #[verifier::opaque]
    pub open spec fn on_button(self, button: Button) -> (ControllerView, Seq<CommandView>) {
        match button {
            Button::Resign => (self, seq![CommandView::Emit(EventView::Resign(true))]),
            Button::LeaveRoom => (
                ControllerView { turn: None, promoting: None, ..self },
                Seq::empty(),
            ),
            Button::PlayAgain => (self, Seq::empty()),
        }
    }

    /// What it comes to that the player is to be asked for the kind that
    /// the pawn with the number `idx` becomes.
    #[verifier::opaque]
    pub open spec fn on_prompt(self, idx: u8) -> (ControllerView, Seq<CommandView>) {
        if idx < self.pieces.len() {
            (
                ControllerView { promoting: Some(idx), ..self },
                seq![
                    CommandView::ShowPromotionPrompt {
                        color: self.pieces[idx as int].color.spec_to_u8(),
                        q: self.pieces[idx as int].q,
                        r: self.pieces[idx as int].r,
                    },
                ],
            )
        } else {
            (self, Seq::empty())
        }
    }

    /// What the kind that the player has chosen comes to.
    #[verifier::opaque]
    pub open spec fn on_response(self, kind: u8) -> (ControllerView, Seq<CommandView>) {
        (
            ControllerView { promoting: None, ..self },
            match self.promoting {
                Some(idx) if idx < self.pieces.len() && self.pieces[idx as int].spec_can_promote() => seq![
                    CommandView::Emit(
                        EventView::Promotion {
                            piece: self.pieces[idx as int].idx,
                            kind,
                            is_local: true,
                        },
                    ),
                ],
                _ => Seq::empty(),
            },
        )
    }

    /// What taking an event at `now` comes to.
    pub open spec fn reaction(self, event: EventView, now: u64) -> Result<
        (ControllerView, Seq<CommandView>),
        Fault,
    > {
        match event {
            EventView::Connected => Ok(self.on_connected()),
            EventView::Disconnected => Ok(self.on_disconnected()),
            EventView::SetGamemode(mode) => self.on_gamemode(mode),
            EventView::Register(name) => Ok((ControllerView { name, ..self }, Seq::empty())),
            EventView::Handshake(name) => Ok(self.on_handshake(name)),
            EventView::JoinedRoom { is_host, .. } => Ok(
                (ControllerView { is_host, ..self }, Seq::empty()),
            ),
            EventView::SetSettings { timer, host_as_light } => Ok(
                self.on_settings(timer, host_as_light),
            ),
            EventView::LoadedBoard(board) => self.on_loaded_board(board),
            EventView::HexClicked { q, r } => self.on_hex_clicked(q, r),
            EventView::Movement { piece, to, is_local } => self.on_movement(
                piece,
                to,
                is_local,
                now,
            ),
            EventView::Promotion { piece, kind, is_local } => self.on_promotion(
                piece,
                kind,
                is_local,
                now,
            ),
            EventView::TimerExpired => Ok((self, self.on_timer_expired())),
            EventView::Resign(local) => Ok((self, self.on_resign(local))),
            EventView::ChatMessage { is_local, content } => Ok(
                (self, self.on_chat(is_local, content)),
            ),
            EventView::GameStart => self.on_game_start(),
            EventView::GameEnded { won_light } => self.on_game_ended(won_light, now),
            EventView::GameButtonClick(button) => Ok(self.on_button(button)),
            EventView::PromotionPrompt(idx) => Ok(self.on_prompt(idx)),
            EventView::PromotionResponse(kind) => Ok(self.on_response(kind)),
            _ => Ok((self, Seq::empty())),
        }
    }
}

/// Whether a part of the game has done what was to be done: on success
/// its state is the one that was to come, and the commands that were to be
/// given stand at the end of the list; on failure the fault is told.
pub open spec fn follows(
    outcome: Result<(ControllerView, Seq<CommandView>), Fault>,
    after: ControllerView,
    given_before: Seq<CommandView>,
    given_after: Seq<CommandView>,
    res: Result<(), Fault>,
) -> bool {
    match outcome {
        Ok((view, commands)) => res is Ok && after == view && given_after == given_before
            + commands,
        Err(fault) => res == Err::<(), Fault>(fault),
    }
}

impl Controller {
    /// A controller before any game: the player plays the light side, and
    /// the board is empty.
    pub fn new() -> (controller: Self)
        ensures
            controller@ == (ControllerView {
                pieces: Seq::empty(),
                is_host: false,
                is_solo: false,
                is_connected: false,
                loaded_board: false,
                color: Color::Light,
                turn: None,
                timer: None,
                light: Side { color: Color::Light, time_left: None, time_active_at: None },
                dark: Side { color: Color::Dark, time_left: None, time_active_at: None },
                name: Seq::empty(),
                opp_name: Seq::empty(),
                cells: no_effects(),
                selected_hex: None,
                promoting: None,
            }),
    {
        let controller = Controller {
            board: Board::new(),
            is_host: false,
            is_solo: false,
            is_connected: false,
            loaded_board: false,
            color: Color::Light,
            turn: None,
            timer: None,
            light: Side { color: Color::Light, time_left: None, time_active_at: None },
            dark: Side { color: Color::Dark, time_left: None, time_active_at: None },
            name: String::new(),
            opp_name: String::new(),
            highlight: HighlightController::new(),
            selected_hex: None,
            promoting: None,
        };
        assert(controller.board.pieces@ =~= Seq::<Piece>::empty());
        controller
    }

    /// The side of the player, or the other one.
    pub fn get_color(&self, is_local: bool) -> (color: Color)
        ensures
            color == self@.get_color(is_local),
    {
        if is_local {
            self.color
        } else {
            self.color.opposite()
        }
    }

    fn try_start(&self, commands: &mut Vec<Command>)
        ensures
            final(commands).deep_view() == old(commands).deep_view() + self@.try_start(),
    {
        if self.turn.is_none() && (self.is_solo || (self.is_host && self.is_connected
            && self.loaded_board)) {
            give(commands, Command::Emit(Event::GameStart));
        }
        assert(commands.deep_view() =~= old(commands).deep_view() + self@.try_start());
    }

    fn send_timers(&self, commands: &mut Vec<Command>) -> (res: Result<(), Fault>)
        ensures
            match self@.send_timers() {
                Ok(timers) => res is Ok && final(commands).deep_view() == old(commands).deep_view()
                    + timers,
                Err(fault) => res == Err::<(), Fault>(fault),
            },
    {
        if self.timer.is_none() {
            give(commands, Command::RemoveTimers);
            assert(commands.deep_view() =~= old(commands).deep_view() + self@.send_timers()->Ok_0);
            return Ok(());
        }
        let active: i8 = match self.turn {
            Some(turn) => {
                let side = if turn.is_light() {
                    &self.light
                } else {
                    &self.dark
                };
                if side.time_active_at.is_some() {
                    if side.color.is_light() {
                        0
                    } else {
                        1
                    }
                } else {
                    -1
                }
            },
            None => -1,
        };
        let light = match self.light.time_left {
            Some(light) => light / 1000,
            None => {
                return Err(Fault::NoTimeLeft);
            },
        };
        let dark = match self.dark.time_left {
            Some(dark) => dark / 1000,
            None => {
                return Err(Fault::NoTimeLeft);
            },
        };
        if light > u16::MAX as u64 || dark > u16::MAX as u64 {
            return Err(Fault::NoTimeLeft);
        }
        give(commands, Command::SetTimers { light: light as u16, dark: dark as u16, active });
        assert(commands.deep_view() =~= old(commands).deep_view() + self@.send_timers()->Ok_0);
        Ok(())
    }

    fn switch_turns(&mut self, now: u64, commands: &mut Vec<Command>) -> (res: Result<(), Fault>)
        ensures
            follows(
                old(self)@.switch_turns(now),
                final(self)@,
                old(commands).deep_view(),
                final(commands).deep_view(),
                res,
            ),
    {
        proof {
            reveal(ControllerView::switch_turns);
        }
        let turn = match self.turn {
            Some(turn) => turn,
            None => {
                assert(commands.deep_view() =~= old(commands).deep_view() + Seq::<
                    CommandView,
                >::empty());
                return Ok(());
            },
        };
        let next = if turn.is_light() {
            self.dark.color
        } else {
            self.light.color
        };
        self.turn = Some(next);
        if self.is_solo {
            self.color = next;
        }
        if self.timer.is_none() {
            assert(commands.deep_view() =~= old(commands).deep_view() + Seq::<CommandView>::empty());
            return Ok(());
        }
        let stopped = if turn.is_light() {
            self.dark.time_active_at = Some(now);
            self.light.update_timer(now)
        } else {
            self.light.time_active_at = Some(now);
            self.dark.update_timer(now)
        };
        match stopped {
            Ok(()) => self.send_timers(commands),
            Err(fault) => Err(fault),
        }
    }

    fn mark_check(&mut self, color: Color) -> (res: Result<(), Fault>)
        ensures
            match old(self)@.mark_check(old(self)@.cells, color) {
                Ok(cells) => res is Ok && final(self)@ == (ControllerView { cells, ..old(self)@ }),
                Err(fault) => res == Err::<(), Fault>(fault),
            },
    {
        let king = match self.board.get_king(color) {
            Some(king) => *king,
            None => {
                return Ok(());
            },
        };
        if self.board.is_threatened(king.q, king.r, color) {
            if king.q >= 11 || king.r >= 11 {
                return Err(Fault::OutOfBoard);
            }
            let mut hexes: Vec<(u8, u8)> = Vec::new();
            hexes.push((king.q, king.r));
            assert(hexes@ =~= seq![(king.q, king.r)]);
            self.highlight.add(Effect::Check, &hexes);
        }
        Ok(())
    }

    fn check_winner(&mut self, commands: &mut Vec<Command>) -> (res: Result<Option<Color>, Fault>)
        ensures
            match old(self)@.check_winner() {
                Ok((after, shown)) => {
                    &&& res == Ok::<Option<Color>, Fault>(after.winner())
                    &&& final(self)@ == after
                    &&& final(commands).deep_view() == old(commands).deep_view() + shown
                },
                Err(fault) => res == Err::<Option<Color>, Fault>(fault),
            },
    {
        proof {
            reveal(ControllerView::check_winner);
        }
        self.highlight.remove(Effect::Check);
        match self.mark_check(Color::Light) {
            Ok(()) => {},
            Err(fault) => {
                return Err(fault);
            },
        }
        match self.mark_check(Color::Dark) {
            Ok(()) => {},
            Err(fault) => {
                return Err(fault);
            },
        }
        let mut winner = None;
        if self.board.get_king(Color::Light).is_none() {
            winner = Some(Color::Dark);
        }
        if self.board.get_king(Color::Dark).is_none() {
            winner = Some(Color::Light);
        }
        give(commands, Command::Highlight(self.highlight.send()));
        assert(commands.deep_view() =~= old(commands).deep_view() + old(self)@.check_winner()->Ok_0.1);
        Ok(winner)
    }

    fn on_connected(&mut self, commands: &mut Vec<Command>) -> (res: Result<(), Fault>)
        ensures
            follows(
                Ok(old(self)@.on_connected()),
                final(self)@,
                old(commands).deep_view(),
                final(commands).deep_view(),
                res,
            ),
    {
        proof {
            reveal(ControllerView::on_connected);
        }
        self.is_connected = true;
        self.try_start(commands);
        Ok(())
    }

    fn on_disconnected(&mut self, commands: &mut Vec<Command>) -> (res: Result<(), Fault>)
        ensures
            follows(
                Ok(old(self)@.on_disconnected()),
                final(self)@,
                old(commands).deep_view(),
                final(commands).deep_view(),
                res,
            ),
    {
        proof {
            reveal(ControllerView::on_disconnected);
        }
        if self.is_connected {
            self.is_connected = false;
            self.turn = None;
            give(commands, Command::AddChatMessage(ChatNote::Disconnected));
            give(commands, Command::HideChat);
        }
        assert(commands.deep_view() =~= old(commands).deep_view() + old(self)@.on_disconnected().1);
        Ok(())
    }

    fn on_gamemode(&mut self, mode: u8, commands: &mut Vec<Command>) -> (res: Result<(), Fault>)
        ensures
            follows(
                old(self)@.on_gamemode(mode),
                final(self)@,
                old(commands).deep_view(),
                final(commands).deep_view(),
                res,
            ),
    {
        proof {
            reveal(ControllerView::on_gamemode);
        }
        match Gamemode::from_u8(mode) {
            Some(mode) => {
                self.is_solo = mode == Gamemode::Solo;
                give(commands, Command::HideChat);
                assert(commands.deep_view() =~= old(commands).deep_view() + seq![
                    CommandView::HideChat,
                ]);
                Ok(())
            },
            None => Err(Fault::InvalidGamemode),
        }
    }

    fn on_handshake(&mut self, name: &String, commands: &mut Vec<Command>) -> (res: Result<
        (),
        Fault,
    >)
        ensures
            follows(
                Ok(old(self)@.on_handshake(name@)),
                final(self)@,
                old(commands).deep_view(),
                final(commands).deep_view(),
                res,
            ),
    {
        proof {
            reveal(ControllerView::on_handshake);
        }
        give(commands, Command::AddChatMessage(ChatNote::Connected(name.clone())));
        give(commands, Command::ShowChat);
        self.opp_name = name.clone();
        assert(commands.deep_view() =~= old(commands).deep_view() + old(self)@.on_handshake(name@).1);
        Ok(())
    }

    fn on_settings(&mut self, timer: u16, host_as_light: bool, commands: &mut Vec<Command>) -> (res:
        Result<(), Fault>)
        ensures
            follows(
                Ok(old(self)@.on_settings(timer, host_as_light)),
                final(self)@,
                old(commands).deep_view(),
                final(commands).deep_view(),
                res,
            ),
    {
        proof {
            reveal(ControllerView::on_settings);
        }
        self.color = if host_as_light {
            Color::Light
        } else {
            Color::Dark
        };
        if !self.is_solo && !self.is_host {
            self.color = self.color.opposite();
        }
        self.timer = if timer > 0 {
            Some(timer as u64 * 1000)
        } else {
            None
        };
        give(commands, Command::SetBoardPerspective(self.is_solo || self.color.is_light()));
        if self.is_host || self.is_solo {
            self.board.load_default();
            give(commands, Command::Emit(Event::LoadedBoard(self.board.describe())));
        }
        assert(commands.deep_view() =~= old(commands).deep_view() + old(self)@.on_settings(
            timer,
            host_as_light,
        ).1);
        Ok(())
    }

    fn check_loadable(board: &Vec<u16>) -> (res: Result<(), Fault>)
        ensures
            res == ControllerView::loadable(board@),
    {
        if board.len() > 256 {
            return Err(Fault::BoardTooLarge);
        }
        let mut i: usize = 0;
        while i < board.len()
            invariant
                0 <= i <= board.len(),
                board.len() <= 256,
                forall|k: int| 0 <= k < i ==> valid_desc(#[trigger] board@[k]),
            decreases board.len() - i,
        {
            if !is_valid_desc(board[i]) {
                return Err(Fault::InvalidPieceKind);
            }
            i = i + 1;
        }
        Ok(())
    }

    fn on_loaded_board(&mut self, board: &Vec<u16>, commands: &mut Vec<Command>) -> (res: Result<
        (),
        Fault,
    >)
        ensures
            follows(
                old(self)@.on_loaded_board(board@),
                final(self)@,
                old(commands).deep_view(),
                final(commands).deep_view(),
                res,
            ),
    {
        proof {
            reveal(ControllerView::on_loaded_board);
        }
        if !self.is_host {
            match Controller::check_loadable(board) {
                Ok(()) => {},
                Err(fault) => {
                    return Err(fault);
                },
            }
            self.board.load_desc(board.clone());
        }
        give(commands, Command::SetPieces(board.clone()));
        self.highlight.reset();
        give(commands, Command::Highlight(Vec::new()));
        self.loaded_board = true;
        self.try_start(commands);
        assert(commands.deep_view() =~= old(commands).deep_view() + old(self)@.on_loaded_board(
            board@,
        )->Ok_0.1);
        Ok(())
    }

    fn all_in_square(hexes: &Vec<(u8, u8)>) -> (res: bool)
        ensures
            res == crate::highlight::all_in_square(hexes@),
    {
        let mut i: usize = 0;
        while i < hexes.len()
            invariant
                0 <= i <= hexes.len(),
                forall|k: int| 0 <= k < i ==> (#[trigger] hexes@[k]).0 < 11 && hexes@[k].1 < 11,
            decreases hexes.len() - i,
        {
            if hexes[i].0 >= 11 || hexes[i].1 >= 11 {
                return false;
            }
            i = i + 1;
        }
        true
    }

    fn on_hex_clicked(&mut self, q: u8, r: u8, commands: &mut Vec<Command>) -> (res: Result<
        (),
        Fault,
    >)
        ensures
            follows(
                old(self)@.on_hex_clicked(q, r),
                final(self)@,
                old(commands).deep_view(),
                final(commands).deep_view(),
                res,
            ),
    {
        proof {
            reveal(ControllerView::on_hex_clicked);
        }
        self.highlight.remove(Effect::Light);
        if self.promoting.is_some() || self.turn != Some(self.color) {
            assert(commands.deep_view() =~= old(commands).deep_view() + Seq::<CommandView>::empty());
            return Ok(());
        }
        let selected = self.selected_hex;
        self.selected_hex = None;
        match selected {
            Some(from) => {
                if from.0 == q && from.1 == r {
                    give(commands, Command::Highlight(self.highlight.send()));
                    assert(commands.deep_view() =~= old(commands).deep_view() + old(
                        self,
                    )@.on_hex_clicked(q, r)->Ok_0.1);
                    return Ok(());
                }
                let piece = match self.board.get_at(from.0, from.1) {
                    Some(piece) => *piece,
                    None => {
                        return Err(Fault::NoPiece);
                    },
                };
                if self.board.can_move(&piece, q, r) {
                    give(
                        commands,
                        Command::Emit(Event::Movement { piece: piece.idx, to: (q, r), is_local: true }),
                    );
                }
            },
            None => {},
        }
        let found = match self.board.get_at(q, r) {
            Some(piece) => Some(*piece),
            None => None,
        };
        match found {
            Some(piece) => {
                if piece.color == self.color {
                    let hexes = self.board.available_moves(&piece);
                    if q >= 11 || r >= 11 || !Controller::all_in_square(&hexes) {
                        return Err(Fault::OutOfBoard);
                    }
                    self.highlight.add(Effect::Light, &hexes);
                    let mut own: Vec<(u8, u8)> = Vec::new();
                    own.push((q, r));
                    assert(own@ =~= seq![(q, r)]);
                    self.highlight.add(Effect::Light, &own);
                    self.selected_hex = Some((q, r));
                }
            },
            None => {},
        }
        give(commands, Command::Highlight(self.highlight.send()));
        assert(commands.deep_view() =~= old(commands).deep_view() + old(self)@.on_hex_clicked(
            q,
            r,
        )->Ok_0.1);
        Ok(())
    }

    /// Whether a move or a promotion comes from the side whose turn it
    /// is; where it does not, the peer that has sent it is given up.
    fn check_turn(&self, is_local: bool, commands: &mut Vec<Command>) -> (res: Option<Color>)
        ensures
            res is Some == self@.in_turn(is_local),
            res is Some ==> self.turn == res,
            res is Some ==> final(commands).deep_view() == old(commands).deep_view(),
            res is None ==> final(commands).deep_view() == old(commands).deep_view()
                + self@.refuse(is_local),
    {
        let turn = match self.turn {
            Some(turn) => turn,
            None => {
                if !is_local {
                    give(commands, Command::Emit(Event::Disconnected));
                }
                assert(commands.deep_view() =~= old(commands).deep_view() + self@.refuse(is_local));
                return None;
            },
        };
        if !is_local && turn == self.color {
            give(commands, Command::Emit(Event::Disconnected));
            assert(commands.deep_view() =~= old(commands).deep_view() + self@.refuse(is_local));
            return None;
        }
        Some(turn)
    }

    fn refuse(commands: &mut Vec<Command>)
        ensures
            final(commands).deep_view() == old(commands).deep_view() + seq![
                CommandView::Emit(EventView::Disconnected),
            ],
    {
        give(commands, Command::Emit(Event::Disconnected));
        assert(commands.deep_view() =~= old(commands).deep_view() + seq![
            CommandView::Emit(EventView::Disconnected),
        ]);
    }

    fn make_move(&mut self, from: (u8, u8), to: (u8, u8), commands: &mut Vec<Command>) -> (res:
        Result<(), Fault>)
        ensures
            follows(
                old(self)@.make_move(from, to),
                final(self)@,
                old(commands).deep_view(),
                final(commands).deep_view(),
                res,
            ),
    {
        proof {
            reveal(ControllerView::make_move);
        }
        let ghost before = self.board.pieces@;
        let mut packet: Vec<u16> = Vec::new();
        match self.board.get_at_mut(to.0, to.1) {
            Some(taken) => {
                packet.push(taken.movement(0, 0));
            },
            None => {},
        }
        proof {
            assert(self.board.pieces@ =~= crate::board::put(before, to, (0, 0)).0);
            assert(packet@ =~= crate::board::put(before, to, (0, 0)).1);
        }
        let ghost cleared = self.board.pieces@;
        let ghost capture = packet@;
        match self.board.get_at_mut(from.0, from.1) {
            Some(moving) => {
                packet.push(moving.movement(to.0, to.1));
            },
            None => {
                return Err(Fault::NoPiece);
            },
        }
        proof {
            assert(self.board.pieces@ =~= crate::board::put(cleared, from, to).0);
            assert(packet@ =~= capture + crate::board::put(cleared, from, to).1);
        }
        give(commands, Command::MovePieces(packet));
        assert(commands.deep_view() =~= old(commands).deep_view() + seq![
            CommandView::MovePieces(moved(before, from, to).1),
        ]);
        Ok(())
    }

    fn after_move(&mut self, idx: u8, is_local: bool, now: u64, commands: &mut Vec<Command>) -> (res:
        Result<(), Fault>)
        ensures
            follows(
                old(self)@.after_move(idx, is_local, now),
                final(self)@,
                old(commands).deep_view(),
                final(commands).deep_view(),
                res,
            ),
    {
        proof {
            reveal(ControllerView::after_move);
            reveal(ControllerView::check_winner);
        }
        let winner = match self.check_winner(commands) {
            Ok(winner) => winner,
            Err(fault) => {
                return Err(fault);
            },
        };
        let ghost shown = old(self)@.check_winner()->Ok_0.1;
        match winner {
            Some(winner) => {
                give(commands, Command::Emit(Event::GameEnded { won_light: winner.is_light() }));
                assert(commands.deep_view() =~= old(commands).deep_view() + shown.push(
                    CommandView::Emit(EventView::GameEnded { won_light: winner.spec_is_light() }),
                ));
                return Ok(());
            },
            None => {},
        }
        let promotes = match self.board.get_piece(idx) {
            Some(piece) => piece.can_promote(),
            None => false,
        };
        if promotes {
            if is_local {
                give(commands, Command::Emit(Event::PromotionPrompt(idx)));
                assert(commands.deep_view() =~= old(commands).deep_view() + shown.push(
                    CommandView::Emit(EventView::PromotionPrompt(idx)),
                ));
            }
            Ok(())
        } else {
            let ghost checked = self@;
            match self.switch_turns(now, commands) {
                Ok(()) => {
                    assert(commands.deep_view() =~= old(commands).deep_view() + (shown
                        + checked.switch_turns(now)->Ok_0.1));
                    Ok(())
                },
                Err(fault) => Err(fault),
            }
        }
    }

    fn on_movement(
        &mut self,
        idx: u8,
        to: (u8, u8),
        is_local: bool,
        now: u64,
        commands: &mut Vec<Command>,
    ) -> (res: Result<(), Fault>)
        ensures
            follows(
                old(self)@.on_movement(idx, to, is_local, now),
                final(self)@,
                old(commands).deep_view(),
                final(commands).deep_view(),
                res,
            ),
    {
        proof {
            reveal(ControllerView::on_movement);
        }
        let turn = match self.check_turn(is_local, commands) {
            Some(turn) => turn,
            None => {
                return Ok(());
            },
        };
        let piece = match self.board.get_piece(idx) {
            Some(piece) => *piece,
            None => {
                Controller::refuse(commands);
                return Ok(());
            },
        };
        if piece.color != turn || !self.board.can_move(&piece, to.0, to.1) {
            Controller::refuse(commands);
            return Ok(());
        }
        match self.make_move((piece.q, piece.r), to, commands) {
            Ok(()) => {},
            Err(fault) => {
                return Err(fault);
            },
        }
        let ghost made = self@;
        let ghost told = old(self)@.make_move((piece.q, piece.r), to)->Ok_0.1;
        match self.after_move(idx, is_local, now, commands) {
            Ok(()) => {
                assert(commands.deep_view() =~= old(commands).deep_view() + (told
                    + made.after_move(idx, is_local, now)->Ok_0.1));
                Ok(())
            },
            Err(fault) => Err(fault),
        }
    }

    fn on_promotion(
        &mut self,
        idx: u8,
        kind: u8,
        is_local: bool,
        now: u64,
        commands: &mut Vec<Command>,
    ) -> (res: Result<(), Fault>)
        ensures
            follows(
                old(self)@.on_promotion(idx, kind, is_local, now),
                final(self)@,
                old(commands).deep_view(),
                final(commands).deep_view(),
                res,
            ),
    {
        proof {
            reveal(ControllerView::on_promotion);
        }
        let turn = match self.check_turn(is_local, commands) {
            Some(turn) => turn,
            None => {
                return Ok(());
            },
        };
        let to = match PieceKind::from_u8(kind) {
            Some(to) => to,
            None => {
                return Err(Fault::InvalidPieceKind);
            },
        };
        let fits = to.is_promotion() && match self.board.get_piece(idx) {
            Some(piece) => piece.color == turn && piece.can_promote(),
            None => false,
        };
        if !fits {
            Controller::refuse(commands);
            return Ok(());
        }
        let ghost before = self@;
        let mut piece = self.board.pieces[idx as usize];
        let code = piece.promote(to);
        self.board.pieces.set(idx as usize, piece);
        let mut codes: Vec<u16> = Vec::new();
        codes.push(code);
        assert(codes@ =~= seq![code]);
        give(commands, Command::PromotePieces(codes));
        let ghost promoted = self@;
        assert(promoted == (ControllerView {
            pieces: before.pieces.update(idx as int, Piece { kind: to, ..before.pieces[idx as int] }),
            ..before
        }));
        match self.switch_turns(now, commands) {
            Ok(()) => {
                assert(commands.deep_view() =~= old(commands).deep_view() + (seq![
                    CommandView::PromotePieces(
                        seq![Piece::promotion_code(before.pieces[idx as int].idx, to)],
                    ),
                ] + promoted.switch_turns(now)->Ok_0.1));
                Ok(())
            },
            Err(fault) => Err(fault),
        }
    }

    fn on_timer_expired(&self, commands: &mut Vec<Command>)
        ensures
            final(commands).deep_view() == old(commands).deep_view() + self@.on_timer_expired(),
    {
        proof {
            reveal(ControllerView::on_timer_expired);
        }
        match self.turn {
            Some(loser) => {
                let loser = loser.is_light();
                give(commands, Command::AddChatMessage(ChatNote::TimerExpired { is_light: loser }));
                give(commands, Command::Emit(Event::GameEnded { won_light: !loser }));
            },
            None => {},
        }
        assert(commands.deep_view() =~= old(commands).deep_view() + self@.on_timer_expired());
    }

    fn on_resign(&self, local: bool, commands: &mut Vec<Command>)
        ensures
            final(commands).deep_view() == old(commands).deep_view() + self@.on_resign(local),
    {
        proof {
            reveal(ControllerView::on_resign);
        }
        let is_light = self.get_color(local).is_light();
        give(commands, Command::AddChatMessage(ChatNote::Resign { is_light }));
        give(commands, Command::Emit(Event::GameEnded { won_light: !is_light }));
        assert(commands.deep_view() =~= old(commands).deep_view() + self@.on_resign(local));
    }

    fn on_chat(&self, is_local: bool, content: &String, commands: &mut Vec<Command>)
        ensures
            final(commands).deep_view() == old(commands).deep_view() + self@.on_chat(
                is_local,
                content@,
            ),
    {
        proof {
            reveal(ControllerView::on_chat);
        }
        let color = self.get_color(is_local);
        let name = if is_local {
            self.name.clone()
        } else {
            self.opp_name.clone()
        };
        give(
            commands,
            Command::AddChatMessage(
                ChatNote::PlayerMessage { is_light: color.is_light(), name, content: content.clone() },
            ),
        );
        assert(commands.deep_view() =~= old(commands).deep_view() + self@.on_chat(
            is_local,
            content@,
        ));
    }

    fn buttons_in_game(is_solo: bool) -> (ids: Vec<u8>)
        ensures
            ids@ == buttons_in_game(is_solo),
    {
        let mut ids: Vec<u8> = Vec::new();
        ids.push(Button::LeaveRoom.to_u8());
        if !is_solo {
            ids.push(Button::Resign.to_u8());
        }
        assert(ids@ =~= buttons_in_game(is_solo));
        ids
    }

    fn buttons_after_game(may_restart: bool) -> (ids: Vec<u8>)
        ensures
            ids@ == buttons_after_game(may_restart),
    {
        let mut ids: Vec<u8> = Vec::new();
        ids.push(Button::LeaveRoom.to_u8());
        if may_restart {
            ids.push(Button::PlayAgain.to_u8());
        }
        assert(ids@ =~= buttons_after_game(may_restart));
        ids
    }

    fn on_game_start(&mut self, commands: &mut Vec<Command>) -> (res: Result<(), Fault>)
        ensures
            follows(
                old(self)@.on_game_start(),
                final(self)@,
                old(commands).deep_view(),
                final(commands).deep_view(),
                res,
            ),
    {
        proof {
            reveal(ControllerView::on_game_start);
        }
        give(commands, Command::RemoveTimers);
        self.light.time_left = self.timer;
        self.dark.time_left = self.timer;
        let ghost timed = self@;
        match self.send_timers(commands) {
            Ok(()) => {},
            Err(fault) => {
                return Err(fault);
            },
        }
        self.promoting = None;
        self.turn = Some(Color::Light);
        give(commands, Command::AddChatMessage(ChatNote::GameStart));
        give(commands, Command::ShowButtons(Controller::buttons_in_game(self.is_solo)));
        if self.is_solo {
            self.color = Color::Light;
        }
        assert(commands.deep_view() =~= old(commands).deep_view() + (seq![
            CommandView::RemoveTimers,
        ] + timed.send_timers()->Ok_0 + seq![
            CommandView::AddChatMessage(ChatNoteView::GameStart),
            CommandView::ShowButtons(buttons_in_game(self.is_solo)),
        ]));
        Ok(())
    }

    fn on_game_ended(&mut self, won_light: bool, now: u64, commands: &mut Vec<Command>) -> (res:
        Result<(), Fault>)
        ensures
            follows(
                old(self)@.on_game_ended(won_light, now),
                final(self)@,
                old(commands).deep_view(),
                final(commands).deep_view(),
                res,
            ),
    {
        proof {
            reveal(ControllerView::on_game_ended);
        }
        self.turn = None;
        self.promoting = None;
        match self.light.update_timer(now) {
            Ok(()) => {},
            Err(fault) => {
                return Err(fault);
            },
        }
        match self.dark.update_timer(now) {
            Ok(()) => {},
            Err(fault) => {
                return Err(fault);
            },
        }
        let ghost ended = self@;
        match self.send_timers(commands) {
            Ok(()) => {},
            Err(fault) => {
                return Err(fault);
            },
        }
        give(commands, Command::AddChatMessage(ChatNote::GameEnd { won_light }));
        give(
            commands,
            Command::ShowButtons(Controller::buttons_after_game(self.is_solo || self.is_host)),
        );
        assert(commands.deep_view() =~= old(commands).deep_view() + (ended.send_timers()->Ok_0
            + seq![
            CommandView::AddChatMessage(ChatNoteView::GameEnd { won_light }),
            CommandView::ShowButtons(buttons_after_game(self.is_solo || self.is_host)),
        ]));
        Ok(())
    }

    fn on_button(&mut self, button: Button, commands: &mut Vec<Command>) -> (res: Result<(), Fault>)
        ensures
            follows(
                Ok(old(self)@.on_button(button)),
                final(self)@,
                old(commands).deep_view(),
                final(commands).deep_view(),
                res,
            ),
    {
        proof {
            reveal(ControllerView::on_button);
        }
        match button {
            Button::Resign => {
                give(commands, Command::Emit(Event::Resign(true)));
            },
            Button::LeaveRoom => {
                self.turn = None;
                self.promoting = None;
            },
            Button::PlayAgain => {},
        }
        assert(commands.deep_view() =~= old(commands).deep_view() + old(self)@.on_button(button).1);
        Ok(())
    }

    fn on_prompt(&mut self, idx: u8, commands: &mut Vec<Command>) -> (res: Result<(), Fault>)
        ensures
            follows(
                Ok(old(self)@.on_prompt(idx)),
                final(self)@,
                old(commands).deep_view(),
                final(commands).deep_view(),
                res,
            ),
    {
        proof {
            reveal(ControllerView::on_prompt);
        }
        let found = match self.board.get_piece(idx) {
            Some(piece) => Some(*piece),
            None => None,
        };
        match found {
            Some(piece) => {
                self.promoting = Some(idx);
                give(
                    commands,
                    Command::ShowPromotionPrompt { color: piece.color.to_u8(), q: piece.q, r: piece.r },
                );
            },
            None => {},
        }
        assert(commands.deep_view() =~= old(commands).deep_view() + old(self)@.on_prompt(idx).1);
        Ok(())
    }

    fn on_response(&mut self, kind: u8, commands: &mut Vec<Command>) -> (res: Result<(), Fault>)
        ensures
            follows(
                Ok(old(self)@.on_response(kind)),
                final(self)@,
                old(commands).deep_view(),
                final(commands).deep_view(),
                res,
            ),
    {
        proof {
            reveal(ControllerView::on_response);
        }
        let asked = self.promoting;
        self.promoting = None;
        match asked {
            Some(idx) => {
                match self.board.get_piece(idx) {
                    Some(piece) => {
                        if piece.can_promote() {
                            give(
                                commands,
                                Command::Emit(
                                    Event::Promotion { piece: piece.idx, kind, is_local: true },
                                ),
                            );
                        }
                    },
                    None => {},
                }
            },
            None => {},
        }
        assert(commands.deep_view() =~= old(commands).deep_view() + old(self)@.on_response(kind).1);
        Ok(())
    }

    fn plain(commands: &Vec<Command>)
        ensures
            commands.deep_view() == commands.deep_view() + Seq::<CommandView>::empty(),
    {
        assert(commands.deep_view() =~= commands.deep_view() + Seq::<CommandView>::empty());
    }

    /// Takes an event at `now`, in milliseconds: changes the game as the
    /// rules have it, and gives the commands that show the change and tell
    /// the other parts of the game. Fails, with nothing said of the state,
    /// where the event does not fit.
    #[verifier::rlimit(40)]
    pub fn on_event(&mut self, event: &Event, now: u64) -> (res: Result<Vec<Command>, Fault>)
        ensures
            match old(self)@.reaction(event@, now) {
                Ok((after, commands)) => {
                    &&& res matches Ok(given)
                    &&& given.deep_view() == commands
                    &&& final(self)@ == after
                },
                Err(fault) => res == Err::<Vec<Command>, Fault>(fault),
            },
    {
        let mut commands = no_commands();
        let done = match event {
            Event::Connected => self.on_connected(&mut commands),
            Event::Disconnected => self.on_disconnected(&mut commands),
            Event::SetGamemode(mode) => self.on_gamemode(*mode, &mut commands),
            Event::Register(name) => {
                self.name = name.clone();
                Controller::plain(&commands);
                Ok(())
            },
            Event::Handshake(name) => self.on_handshake(name, &mut commands),
            Event::JoinedRoom { is_host, .. } => {
                self.is_host = *is_host;
                Controller::plain(&commands);
                Ok(())
            },
            Event::SetSettings { timer, host_as_light } => self.on_settings(
                *timer,
                *host_as_light,
                &mut commands,
            ),
            Event::LoadedBoard(board) => self.on_loaded_board(board, &mut commands),
            Event::HexClicked { q, r } => self.on_hex_clicked(*q, *r, &mut commands),
            Event::Movement { piece, to, is_local } => self.on_movement(
                *piece,
                *to,
                *is_local,
                now,
                &mut commands,
            ),
            Event::Promotion { piece, kind, is_local } => self.on_promotion(
                *piece,
                *kind,
                *is_local,
                now,
                &mut commands,
            ),
            Event::TimerExpired => {
                self.on_timer_expired(&mut commands);
                Ok(())
            },
            Event::Resign(local) => {
                self.on_resign(*local, &mut commands);
                Ok(())
            },
            Event::ChatMessage { is_local, content } => {
                self.on_chat(*is_local, content, &mut commands);
                Ok(())
            },
            Event::GameStart => self.on_game_start(&mut commands),
            Event::GameEnded { won_light } => self.on_game_ended(*won_light, now, &mut commands),
            Event::GameButtonClick(button) => self.on_button(*button, &mut commands),
            Event::PromotionPrompt(idx) => self.on_prompt(*idx, &mut commands),
            Event::PromotionResponse(kind) => self.on_response(*kind, &mut commands),
            _ => {
                Controller::plain(&commands);
                Ok(())
            },
        };
        match done {
            Ok(()) => {
                assert(commands.deep_view() =~= old(self)@.reaction(event@, now)->Ok_0.1);
                Ok(commands)
            },
            Err(fault) => Err(fault),
        }
    }
}

} // verus!
