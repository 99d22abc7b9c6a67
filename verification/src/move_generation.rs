//! The moves of a position.
//!
//! The pseudo-legal moves are those that each piece of the player to
//! move can make by its own rule, whether or not they leave that player's
//! king attacked. They are listed piece by piece in the order pawn, rook,
//! knight, bishop, queen, king, and for each kind square by square in
//! ascending order. The legal moves are those among them that do not leave
//! the mover's king attacked.

use vstd::prelude::*;
use crate::bitboard::{holds, members_from, Bitboard, BitboardExt};
use crate::bits::has_bit;
use crate::board::Board;
use crate::castling_rights::{has_right, CastlingRightsExt};
use crate::chess_moves::ChessMove;
use crate::move_data::MoveData;
use crate::pieces::{Color, Piece};
use crate::position::Position;
use crate::rules::{CastleType, GameState};
use crate::square::Square;

verus! {

/// The moves of `piece` from `origin` to each square of `targets`, in the
/// order of `targets`, all with the same tag.
pub open spec fn moves_to(piece: Piece, origin: Square, targets: Seq<Square>, tag: MoveData) -> Seq<
    ChessMove,
> {
    Seq::new(
        targets.len(),
        |k: int| ChessMove { piece, origin, target: targets[k], meta_data: tag },
    )
}

/// The four promotions of a pawn of `color` that goes from `origin` to
/// `target`: to queen, knight, bishop and rook, in this order.
pub open spec fn promotions(color: Color, origin: Square, target: Square, tag: MoveData) -> Seq<
    ChessMove,
> {
    Seq::new(
        4,
        |k: int| ChessMove { piece: color.promotion_pieces()[k], origin, target, meta_data: tag },
    )
}

/// The directions in which a rook moves, as rows and columns per step.
pub open spec fn rook_dirs() -> Seq<(i8, i8)> {
    seq![(1i8, 0i8), (0i8, 1i8), (-1i8, 0i8), (0i8, -1i8)]
}

/// The directions in which a bishop moves.
pub open spec fn bishop_dirs() -> Seq<(i8, i8)> {
    seq![(1i8, 1i8), (1i8, -1i8), (-1i8, 1i8), (-1i8, -1i8)]
}

/// The directions in which a queen moves.
pub open spec fn queen_dirs() -> Seq<(i8, i8)> {
    seq![
        (0i8, 1i8),
        (1i8, 1i8),
        (1i8, 0i8),
        (1i8, -1i8),
        (0i8, -1i8),
        (-1i8, 1i8),
        (-1i8, 0i8),
        (-1i8, -1i8),
    ]
}

/// Each direction takes one step or none along rows and along columns,
/// and not none along both.
pub open spec fn proper_dirs(dirs: Seq<(i8, i8)>) -> bool {
    forall|k: int|
        0 <= k < dirs.len() ==> -1 <= (#[trigger] dirs[k]).0 <= 1 && -1 <= dirs[k].1 <= 1 && (
        dirs[k].0 != 0 || dirs[k].1 != 0)
}

/// Every move of the list can be played on the position.
pub open spec fn all_playable(moves: Seq<ChessMove>, pos: Position) -> bool {
    forall|k: int| 0 <= k < moves.len() ==> (#[trigger] moves[k]).playable_on(pos)
}

/// The row direction in which the pawns of a colour move: White's towards
/// row 0, Black's towards row 7.
pub open spec fn forward(color: Color) -> int {
    match color {
        Color::White => -1,
        Color::Black => 1,
    }
}

impl Position {
    /// The moves of a slider along one line: a plain move to each empty
    /// square before the line's first piece, in ascending order of the
    /// squares, and then a capture of that piece if it is the opponent's.
    pub open spec fn line_moves(self, piece: Piece, origin: Square, line: Seq<Square>) -> Seq<
        ChessMove,
    > {
        moves_to(piece, origin, self.reached(line), MoveData::Normal) + match self.capture_on(
            line,
            piece.get_opponent_color(),
        ) {
            Some(t) => seq![
                ChessMove { piece, origin, target: t, meta_data: MoveData::Capture },
            ],
            None => Seq::empty(),
        }
    }

    /// The moves of a slider along each of its directions in turn.
    pub open spec fn slider_moves(self, piece: Piece, origin: Square, dirs: Seq<(i8, i8)>) -> Seq<
        ChessMove,
    >
        decreases dirs.len(),
    {
        if dirs.len() == 0 {
            Seq::empty()
        } else {
            self.slider_moves(piece, origin, dirs.drop_last()) + self.line_moves(
                piece,
                origin,
                origin.ray(dirs.last().0 as int, dirs.last().1 as int),
            )
        }
    }

    /// The move of a leaper to one square: a plain move if the square is
    /// empty, a capture if it holds a piece of the opponent, none if it
    /// holds a piece of the mover.
    pub open spec fn leap_move(self, piece: Piece, origin: Square, target: Square) -> Seq<ChessMove> {
        if !self.occupied(target) {
            seq![ChessMove { piece, origin, target, meta_data: MoveData::Normal }]
        } else if self.holds_color(target, piece.get_opponent_color()) {
            seq![ChessMove { piece, origin, target, meta_data: MoveData::Capture }]
        } else {
            Seq::empty()
        }
    }

    /// The moves of a leaper to each of its squares in turn.
    pub open spec fn leaper_moves(self, piece: Piece, origin: Square, targets: Seq<Square>) -> Seq<
        ChessMove,
    >
        decreases targets.len(),
    {
        if targets.len() == 0 {
            Seq::empty()
        } else {
            self.leaper_moves(piece, origin, targets.drop_last()) + self.leap_move(
                piece,
                origin,
                targets.last(),
            )
        }
    }

    /// The colour may castle on the side. It holds the right; king and
    /// rook stand where they started; the king sees the rook along the
    /// rank, so that nothing stands between them; the squares on which
    /// king and rook land are free; and the king is not attacked where it
    /// stands, nor on the square that it passes over, nor where it lands.
    pub open spec fn castle_allowed(self, color: Color, side: CastleType) -> bool {
        &&& has_right(self.castling_rights, color, side)
        &&& self.piece_at(color.king_starting_square()) == Some(color.get_king())
        &&& self.piece_at(color.rook_starting_square(side)) == Some(color.get_rook())
        &&& self.sees(
            color.king_starting_square().ray(
                0,
                match side {
                    CastleType::KingSide => 1,
                    CastleType::QueenSide => -1,
                },
            ),
            color.rook_starting_square(side),
        )
        &&& !self.occupied(color.king_castle_target(side))
        &&& !self.occupied(color.rook_castle_target(side))
        &&& !self.attacked_by(color.king_starting_square(), color.toggle_color())
        &&& !self.attacked_by(color.rook_castle_target(side), color.toggle_color())
        &&& !self.attacked_by(color.king_castle_target(side), color.toggle_color())
    }

    /// The castle of the colour on the side, if it is allowed.
    pub open spec fn castle_move(self, color: Color, side: CastleType) -> Seq<ChessMove> {
        if self.castle_allowed(color, side) {
            seq![
                ChessMove {
                    piece: color.get_king(),
                    origin: color.king_starting_square(),
                    target: color.king_castle_target(side),
                    meta_data: MoveData::Castling,
                },
            ]
        } else {
            Seq::empty()
        }
    }

    /// The moves of a king on `origin`: its steps, and from the square on
    /// which it started its castles, the king's side first.
    pub open spec fn king_moves(self, piece: Piece, origin: Square) -> Seq<ChessMove> {
        self.leaper_moves(piece, origin, origin.king_targets()) + if origin
            == piece.get_color().king_starting_square() {
            self.castle_move(piece.get_color(), CastleType::KingSide) + self.castle_move(
                piece.get_color(),
                CastleType::QueenSide,
            )
        } else {
            Seq::empty()
        }
    }

    /// The double step of a pawn that stands on the row on which the
    /// pawns of its colour start: allowed if the square two rows ahead is
    /// empty. The square one row ahead is known to be empty.
    pub open spec fn pawn_double_step(self, color: Color, origin: Square) -> Seq<ChessMove> {
        if origin.row() == color.get_pawn_starting_row() {
            match origin.leap(2 * forward(color), 0) {
                Some(t) => if !self.occupied(t) {
                    seq![
                        ChessMove {
                            piece: color.get_pawn(),
                            origin,
                            target: t,
                            meta_data: MoveData::EnableEnPassant,
                        },
                    ]
                } else {
                    Seq::empty()
                },
                None => Seq::empty(),
            }
        } else {
            Seq::empty()
        }
    }

    /// The moves of a pawn straight ahead: none if the square ahead is
    /// occupied or off the board; the four promotions if that square lies
    /// on the last row; else the single step and, after it, the double step.
    #[verifier::opaque]
    pub open spec fn pawn_advance(self, color: Color, origin: Square) -> Seq<ChessMove> {
        match origin.leap(forward(color), 0) {
            Some(t) => if self.occupied(t) {
                Seq::empty()
            } else if t.row() == color.get_pawn_promotion_row() {
                promotions(color, origin, t, MoveData::Promotion)
            } else {
                seq![
                    ChessMove {
                        piece: color.get_pawn(),
                        origin,
                        target: t,
                        meta_data: MoveData::Normal,
                    },
                ] + self.pawn_double_step(color, origin)
            },
            None => Seq::empty(),
        }
    }

    /// The moves of a pawn to the square diagonally ahead in column
    /// direction `dc`. If a piece of the opponent stands there, the
    /// capture, or on the last row the four promotions with capture. If
    /// the square is empty and is the en-passant square, and the pawn to
    /// capture stands beside the mover, the en-passant capture.
    #[verifier::opaque]
    pub open spec fn pawn_capture(self, color: Color, origin: Square, dc: int) -> Seq<ChessMove> {
        match origin.leap(forward(color), dc) {
            Some(t) => if self.occupied(t) {
                if self.holds_color(t, color.toggle_color()) {
                    if t.row() == color.get_pawn_promotion_row() {
                        promotions(color, origin, t, MoveData::CapturePromotion)
                    } else {
                        seq![
                            ChessMove {
                                piece: color.get_pawn(),
                                origin,
                                target: t,
                                meta_data: MoveData::Capture,
                            },
                        ]
                    }
                } else {
                    Seq::empty()
                }
            } else if self.en_passant_square == Some(t) && self.piece_at(
                Square::at(8 * origin.row() + t.col()),
            ) == Some(color.toggle_color().get_pawn()) {
                seq![
                    ChessMove {
                        piece: color.get_pawn(),
                        origin,
                        target: t,
                        meta_data: MoveData::EnPassant,
                    },
                ]
            } else {
                Seq::empty()
            },
            None => Seq::empty(),
        }
    }

    /// The moves of a pawn on `origin`: straight ahead, then the capture
    /// to the left, then the capture to the right.
    pub open spec fn pawn_moves(self, color: Color, origin: Square) -> Seq<ChessMove> {
        self.pawn_advance(color, origin) + self.pawn_capture(color, origin, -1) + self.pawn_capture(
            color,
            origin,
            1,
        )
    }

    /// The moves of `piece` from `origin`, by the rule of its kind.
    pub open spec fn moves_at(self, piece: Piece, origin: Square) -> Seq<ChessMove> {
        if piece.is_pawn() {
            self.pawn_moves(piece.get_color(), origin)
        } else if piece.is_rook() {
            self.slider_moves(piece, origin, rook_dirs())
        } else if piece.is_knight() {
            self.leaper_moves(piece, origin, origin.knight_targets())
        } else if piece.is_bishop() {
            self.slider_moves(piece, origin, bishop_dirs())
        } else if piece.is_queen() {
            self.slider_moves(piece, origin, queen_dirs())
        } else {
            self.king_moves(piece, origin)
        }
    }

    /// The moves of `piece` from each square of `origins` in turn.
    pub open spec fn moves_from(self, piece: Piece, origins: Seq<Square>) -> Seq<ChessMove>
        decreases origins.len(),
    {
        if origins.len() == 0 {
            Seq::empty()
        } else {
            self.moves_from(piece, origins.drop_last()) + self.moves_at(piece, origins.last())
        }
    }

    /// The moves of `piece` from every square on which it stands, in
    /// ascending order of the squares.
    pub open spec fn piece_moves(self, piece: Piece) -> Seq<ChessMove> {
        self.moves_from(piece, self.places(piece))
    }

    /// The moves of each piece of `pieces` in turn.
    pub open spec fn moves_of(self, pieces: Seq<Piece>) -> Seq<ChessMove>
        decreases pieces.len(),
    {
        if pieces.len() == 0 {
            Seq::empty()
        } else {
            self.moves_of(pieces.drop_last()) + self.piece_moves(pieces.last())
        }
    }

    /// The pseudo-legal moves of the position: the moves of the pieces of
    /// the player to move, each by the rule of its kind.
    pub open spec fn pseudo_legal_moves(self) -> Seq<ChessMove> {
        self.moves_of(Piece::of_color(self.active_player))
    }

    /// The move would leave the mover's own king attacked.
    pub open spec fn leaves_in_check(self, m: ChessMove) -> bool {
        m.applied_to(self).in_check(m.piece.get_color())
    }

    /// The moves of `moves` that do not leave the mover's king attacked,
    /// in the order of `moves`.
    pub open spec fn keep_legal(self, moves: Seq<ChessMove>) -> Seq<ChessMove>
        decreases moves.len(),
    {
        if moves.len() == 0 {
            Seq::empty()
        } else if self.leaves_in_check(moves.last()) {
            self.keep_legal(moves.drop_last())
        } else {
            self.keep_legal(moves.drop_last()).push(moves.last())
        }
    }

    /// The legal moves of the position: the pseudo-legal moves that do not
    /// leave the mover's king attacked.
    pub open spec fn legal_moves(self) -> Seq<ChessMove> {
        self.keep_legal(self.pseudo_legal_moves())
    }
}

/// A list made of two lists of playable moves is a list of playable moves.
pub proof fn lemma_playable_concat(a: Seq<ChessMove>, b: Seq<ChessMove>, pos: Position)
    requires
        all_playable(a, pos),
        all_playable(b, pos),
    ensures
        all_playable(a + b, pos),
{
    assert forall|k: int| 0 <= k < (a + b).len() implies (#[trigger] (a + b)[k]).playable_on(
        pos,
    ) by {
        if k < a.len() {
            assert((a + b)[k] == a[k]);
        } else {
            assert((a + b)[k] == b[k - a.len()]);
        }
    }
}

impl Position {
    /// The moves of a slider along a line can be played.
    #[verifier::rlimit(30)]
    pub proof fn lemma_line_moves_playable(self, piece: Piece, origin: Square, line: Seq<Square>)
        requires
            self.wf(),
            self.piece_at(origin) == Some(piece),
        ensures
            all_playable(self.line_moves(piece, origin, line), self),
    {
        let plain = moves_to(piece, origin, self.reached(line), MoveData::Normal);
        assert forall|k: int| 0 <= k < plain.len() implies (#[trigger] plain[k]).playable_on(
            self,
        ) by {
            let t = self.reached(line)[k];
            self.lemma_reached(line, 0, k);
            self.lemma_reaches_empty(line, t);
        }
        let capture = match self.capture_on(line, piece.get_opponent_color()) {
            Some(t) => seq![
                ChessMove { piece, origin, target: t, meta_data: MoveData::Capture },
            ],
            None => Seq::<ChessMove>::empty(),
        };
        self.lemma_capture_on(line, piece.get_opponent_color());
        assert(all_playable(capture, self));
        lemma_playable_concat(plain, capture, self);
    }

    /// The moves of a slider can be played.
    pub proof fn lemma_slider_moves_playable(self, piece: Piece, origin: Square, dirs: Seq<(i8, i8)>)
        requires
            self.wf(),
            self.piece_at(origin) == Some(piece),
        ensures
            all_playable(self.slider_moves(piece, origin, dirs), self),
        decreases dirs.len(),
    {
        if dirs.len() > 0 {
            self.lemma_slider_moves_playable(piece, origin, dirs.drop_last());
            let line = origin.ray(dirs.last().0 as int, dirs.last().1 as int);
            self.lemma_line_moves_playable(piece, origin, line);
            lemma_playable_concat(
                self.slider_moves(piece, origin, dirs.drop_last()),
                self.line_moves(piece, origin, line),
                self,
            );
        }
    }

    /// The moves of a leaper can be played.
    pub proof fn lemma_leaper_moves_playable(self, piece: Piece, origin: Square, targets: Seq<Square>)
        requires
            self.wf(),
            self.piece_at(origin) == Some(piece),
        ensures
            all_playable(self.leaper_moves(piece, origin, targets), self),
        decreases targets.len(),
    {
        if targets.len() > 0 {
            self.lemma_leaper_moves_playable(piece, origin, targets.drop_last());
            lemma_playable_concat(
                self.leaper_moves(piece, origin, targets.drop_last()),
                self.leap_move(piece, origin, targets.last()),
                self,
            );
        }
    }

    /// The castles of a king can be played.
    #[verifier::rlimit(30)]
    pub proof fn lemma_castle_move_playable(self, color: Color, side: CastleType)
        requires
            self.wf(),
        ensures
            all_playable(self.castle_move(color, side), self),
    {
        if self.castle_allowed(color, side) {
            let m = ChessMove {
                piece: color.get_king(),
                origin: color.king_starting_square(),
                target: color.king_castle_target(side),
                meta_data: MoveData::Castling,
            };
            assert(m.castle_side() == side) by {
                match (color, side) {
                    (Color::White, CastleType::KingSide) => {},
                    (Color::White, CastleType::QueenSide) => {},
                    (Color::Black, CastleType::KingSide) => {},
                    (Color::Black, CastleType::QueenSide) => {},
                }
            }
            assert(m.origin != m.target);
            assert(m.playable_on(self));
            assert(self.castle_move(color, side)[0] == m);
        }
    }

    /// The moves of a king can be played.
    pub proof fn lemma_king_moves_playable(self, piece: Piece, origin: Square)
        requires
            self.wf(),
            self.piece_at(origin) == Some(piece),
        ensures
            all_playable(self.king_moves(piece, origin), self),
    {
        self.lemma_leaper_moves_playable(piece, origin, origin.king_targets());
        let color = piece.get_color();
        let castles = if origin == color.king_starting_square() {
            self.castle_move(color, CastleType::KingSide) + self.castle_move(
                color,
                CastleType::QueenSide,
            )
        } else {
            Seq::<ChessMove>::empty()
        };
        self.lemma_castle_move_playable(color, CastleType::KingSide);
        self.lemma_castle_move_playable(color, CastleType::QueenSide);
        lemma_playable_concat(
            self.castle_move(color, CastleType::KingSide),
            self.castle_move(color, CastleType::QueenSide),
            self,
        );
        lemma_playable_concat(
            self.leaper_moves(piece, origin, origin.king_targets()),
            castles,
            self,
        );
    }

    /// The double step of a pawn can be played.
    #[verifier::rlimit(30)]
    proof fn lemma_pawn_double_step_playable(self, color: Color, origin: Square)
        requires
            self.wf(),
            self.piece_at(origin) == Some(color.get_pawn()),
        ensures
            all_playable(self.pawn_double_step(color, origin), self),
    {
        origin.lemma_index();
        let fwd = forward(color);
        if origin.leap(2 * fwd, 0) is Some {
            Square::lemma_at(8 * (origin.row() + 2 * fwd) + origin.col());
        }
    }

    /// The moves of a pawn straight ahead can be played.
    #[verifier::rlimit(30)]
    proof fn lemma_pawn_advance_playable(self, color: Color, origin: Square)
        requires
            self.wf(),
            self.piece_at(origin) == Some(color.get_pawn()),
        ensures
            all_playable(self.pawn_advance(color, origin), self),
    {
        reveal(Position::pawn_advance);
        origin.lemma_index();
        let fwd = forward(color);
        match origin.leap(fwd, 0) {
            Some(t) => {
                Square::lemma_at(8 * (origin.row() + fwd) + origin.col());
                if self.occupied(t) {
                } else if t.row() == color.get_pawn_promotion_row() {
                    let ms = promotions(color, origin, t, MoveData::Promotion);
                    assert forall|k: int| 0 <= k < ms.len() implies (#[trigger] ms[k]).playable_on(
                        self,
                    ) by {
                        let m = ms[k];
                        assert(m.piece == color.promotion_pieces()[k]);
                        assert(m.piece.get_color() == color);
                        assert(m.standing_piece() == color.get_pawn());
                    }
                } else {
                    self.lemma_pawn_double_step_playable(color, origin);
                    let step = seq![
                        ChessMove {
                            piece: color.get_pawn(),
                            origin,
                            target: t,
                            meta_data: MoveData::Normal,
                        },
                    ];
                    assert(all_playable(step, self));
                    lemma_playable_concat(step, self.pawn_double_step(color, origin), self);
                }
            },
            None => {},
        }
    }

    /// The captures of a pawn to one side can be played.
    #[verifier::rlimit(30)]
    proof fn lemma_pawn_capture_playable(self, color: Color, origin: Square, dc: int)
        requires
            self.wf(),
            self.piece_at(origin) == Some(color.get_pawn()),
            dc == 1 || dc == -1,
        ensures
            all_playable(self.pawn_capture(color, origin, dc), self),
    {
        reveal(Position::pawn_capture);
        origin.lemma_index();
        let fwd = forward(color);
        match origin.leap(fwd, dc) {
            Some(t) => {
                Square::lemma_at(8 * (origin.row() + fwd) + origin.col() + dc);
                if self.occupied(t) {
                    if self.holds_color(t, color.toggle_color()) {
                        if t.row() == color.get_pawn_promotion_row() {
                            let ms = promotions(color, origin, t, MoveData::CapturePromotion);
                            assert forall|k: int| 0 <= k < ms.len() implies (
                            #[trigger] ms[k]).playable_on(self) by {
                                let m = ms[k];
                                assert(m.piece == color.promotion_pieces()[k]);
                                assert(m.piece.get_color() == color);
                                assert(m.standing_piece() == color.get_pawn());
                            }
                        } else {
                            let m = ChessMove {
                                piece: color.get_pawn(),
                                origin,
                                target: t,
                                meta_data: MoveData::Capture,
                            };
                            assert(m.playable_on(self));
                        }
                    }
                } else if self.en_passant_square == Some(t) && self.piece_at(
                    Square::at(8 * origin.row() + t.col()),
                ) == Some(color.toggle_color().get_pawn()) {
                    let m = ChessMove {
                        piece: color.get_pawn(),
                        origin,
                        target: t,
                        meta_data: MoveData::EnPassant,
                    };
                    assert(m.victim_square() == Square::at(8 * origin.row() + t.col()));
                    assert(m.playable_on(self));
                }
            },
            None => {},
        }
    }

    /// The moves of a pawn can be played.
    pub proof fn lemma_pawn_moves_playable(self, color: Color, origin: Square)
        requires
            self.wf(),
            self.piece_at(origin) == Some(color.get_pawn()),
        ensures
            all_playable(self.pawn_moves(color, origin), self),
    {
        self.lemma_pawn_advance_playable(color, origin);
        self.lemma_pawn_capture_playable(color, origin, -1);
        self.lemma_pawn_capture_playable(color, origin, 1);
        lemma_playable_concat(
            self.pawn_advance(color, origin),
            self.pawn_capture(color, origin, -1),
            self,
        );
        lemma_playable_concat(
            self.pawn_advance(color, origin) + self.pawn_capture(color, origin, -1),
            self.pawn_capture(color, origin, 1),
            self,
        );
    }

    /// The moves of a piece from a square on which it stands can be played.
    pub proof fn lemma_moves_at_playable(self, piece: Piece, origin: Square)
        requires
            self.wf(),
            self.piece_at(origin) == Some(piece),
        ensures
            all_playable(self.moves_at(piece, origin), self),
    {
        if piece.is_pawn() {
            self.lemma_pawn_moves_playable(piece.get_color(), origin);
        } else if piece.is_rook() {
            self.lemma_slider_moves_playable(piece, origin, rook_dirs());
        } else if piece.is_knight() {
            self.lemma_leaper_moves_playable(piece, origin, origin.knight_targets());
        } else if piece.is_bishop() {
            self.lemma_slider_moves_playable(piece, origin, bishop_dirs());
        } else if piece.is_queen() {
            self.lemma_slider_moves_playable(piece, origin, queen_dirs());
        } else {
            self.lemma_king_moves_playable(piece, origin);
        }
    }

    /// The moves of a piece from squares on which it stands can be played.
    pub proof fn lemma_moves_from_playable(self, piece: Piece, origins: Seq<Square>)
        requires
            self.wf(),
            forall|k: int| 0 <= k < origins.len() ==> self.piece_at(origins[k]) == Some(piece),
        ensures
            all_playable(self.moves_from(piece, origins), self),
        decreases origins.len(),
    {
        if origins.len() > 0 {
            self.lemma_moves_from_playable(piece, origins.drop_last());
            self.lemma_moves_at_playable(piece, origins.last());
            lemma_playable_concat(
                self.moves_from(piece, origins.drop_last()),
                self.moves_at(piece, origins.last()),
                self,
            );
        }
    }

    /// The moves of the pieces of a list can be played.
    pub proof fn lemma_moves_of_playable(self, pieces: Seq<Piece>)
        requires
            self.wf(),
        ensures
            all_playable(self.moves_of(pieces), self),
        decreases pieces.len(),
    {
        if pieces.len() > 0 {
            self.lemma_moves_of_playable(pieces.drop_last());
            let piece = pieces.last();
            assert forall|k: int| 0 <= k < self.places(piece).len() implies self.piece_at(
                self.places(piece)[k],
            ) == Some(piece) by {
                self.lemma_places_hold(piece, 0, k);
            }
            self.lemma_moves_from_playable(piece, self.places(piece));
            lemma_playable_concat(
                self.moves_of(pieces.drop_last()),
                self.piece_moves(piece),
                self,
            );
        }
    }

    /// Every move that is kept as legal is one of the moves that were
    /// given, and does not leave the mover's king attacked.
    #[verifier::rlimit(30)]
    pub proof fn lemma_keep_legal(self, moves: Seq<ChessMove>, k: int)
        requires
            0 <= k < self.keep_legal(moves).len(),
        ensures
            moves.contains(self.keep_legal(moves)[k]),
            !self.leaves_in_check(self.keep_legal(moves)[k]),
            self.keep_legal(moves).len() <= moves.len(),
        decreases moves.len(),
    {
        if moves.len() > 0 {
            let rest = moves.drop_last();
            if self.leaves_in_check(moves.last()) {
                self.lemma_keep_legal(rest, k);
                let m = self.keep_legal(rest)[k];
                let j = choose|j: int| 0 <= j < rest.len() && rest[j] == m;
                assert(moves[j] == m);
            } else if k < self.keep_legal(rest).len() {
                self.lemma_keep_legal(rest, k);
                let m = self.keep_legal(rest)[k];
                let j = choose|j: int| 0 <= j < rest.len() && rest[j] == m;
                assert(moves[j] == m);
            } else {
                if self.keep_legal(rest).len() > 0 {
                    self.lemma_keep_legal(rest, 0);
                }
                assert(moves[moves.len() - 1] == moves.last());
            }
        }
    }

    /// Every legal move of a position is one of its pseudo-legal moves,
    /// can be played on it, and does not leave the mover's king attacked.
    pub proof fn lemma_legal_moves(self, k: int)
        requires
            self.wf(),
            0 <= k < self.legal_moves().len(),
        ensures
            self.pseudo_legal_moves().contains(self.legal_moves()[k]),
            self.legal_moves()[k].playable_on(self),
            !self.leaves_in_check(self.legal_moves()[k]),
    {
        self.lemma_keep_legal(self.pseudo_legal_moves(), k);
        self.lemma_pseudo_legal_playable();
    }

    /// Every pseudo-legal move of a position can be played on it.
    pub proof fn lemma_pseudo_legal_playable(self)
        requires
            self.wf(),
        ensures
            all_playable(self.pseudo_legal_moves(), self),
    {
        self.lemma_moves_of_playable(Piece::of_color(self.active_player));
    }

    /// A pawn that can step onto the last row, and can capture nothing,
    /// has exactly four moves: one promotion to each of queen, knight,
    /// bishop and rook, all from its square to the square ahead.
    #[verifier::rlimit(30)]
    pub proof fn lemma_promotion_complete(self, color: Color, origin: Square, target: Square)
        requires
            self.wf(),
            origin.leap(forward(color), 0) == Some(target),
            !self.occupied(target),
            target.row() == color.get_pawn_promotion_row(),
            self.pawn_capture(color, origin, -1).len() == 0,
            self.pawn_capture(color, origin, 1).len() == 0,
        ensures
            self.pawn_moves(color, origin) == promotions(
                color,
                origin,
                target,
                MoveData::Promotion,
            ),
            self.pawn_moves(color, origin).len() == 4,
            forall|k: int|
                0 <= k < 4 ==> {
                    let m = #[trigger] self.pawn_moves(color, origin)[k];
                    &&& m.origin == origin
                    &&& m.target == target
                    &&& m.meta_data == MoveData::Promotion
                    &&& m.piece.is_promotion_candidate()
                    &&& m.piece.get_color() == color
                },
            forall|j: int, k: int|
                0 <= j < k < 4 ==> self.pawn_moves(color, origin)[j].piece != self.pawn_moves(
                    color,
                    origin,
                )[k].piece,
    {
        reveal(Position::pawn_advance);
        let four = promotions(color, origin, target, MoveData::Promotion);
        assert(self.pawn_advance(color, origin) == four);
        assert(self.pawn_capture(color, origin, -1) =~= Seq::<ChessMove>::empty());
        assert(self.pawn_capture(color, origin, 1) =~= Seq::<ChessMove>::empty());
        assert(self.pawn_moves(color, origin) =~= four);
    }

    /// After a pawn's double step the en-passant square is the square
    /// that the pawn has passed over. After the next move it is none again,
    /// unless that move is a double step itself.
    pub proof fn lemma_en_passant_lifecycle(self, first: ChessMove, second: ChessMove)
        ensures
            first.applied_to(self).en_passant_square == (if first.meta_data.is_enable_en_passant() {
                Some(first.passed_square())
            } else {
                None
            }),
            !second.meta_data.is_enable_en_passant() ==> second.applied_to(
                first.applied_to(self),
            ).en_passant_square is None,
    {
    }

    /// Playing a pseudo-legal move of a position and taking it back gives
    /// the position back: every square, the castling rights, the
    /// en-passant square, both counters and the player to move.
    pub proof fn lemma_round_trip(self, k: int)
        requires
            self.wf(),
            0 <= k < self.pseudo_legal_moves().len(),
        ensures
            ({
                let m = self.pseudo_legal_moves()[k];
                m.taken_back_from(m.applied_to(self), m.record_of(self)) == self
            }),
    {
        self.lemma_pseudo_legal_playable();
        self.pseudo_legal_moves()[k].lemma_make_undo(self);
    }
}

/// The members of a set that holds exactly the squares reached along a
/// line are the list of the reached squares.
proof fn lemma_members_reached(pos: Position, line: Seq<Square>, bb: Bitboard, i: int)
    requires
        0 <= i <= 64,
        forall|s: Square| #[trigger] holds(bb, s) == pos.reaches(line, s),
    ensures
        members_from(bb, i) == pos.reached_from(line, i),
    decreases 64 - i,
{
    if i < 64 {
        Square::lemma_at(i);
        assert(holds(bb, Square::at(i)) == has_bit(bb, i));
        lemma_members_reached(pos, line, bb, i + 1);
    }
}

fn rook_directions() -> (dirs: Vec<(i8, i8)>)
    ensures
        dirs@ == rook_dirs(),
        proper_dirs(dirs@),
{
    let dirs: Vec<(i8, i8)> = vec![(1, 0), (0, 1), (-1, 0), (0, -1)];
    assert(dirs@ =~= rook_dirs());
    dirs
}

fn bishop_directions() -> (dirs: Vec<(i8, i8)>)
    ensures
        dirs@ == bishop_dirs(),
        proper_dirs(dirs@),
{
    let dirs: Vec<(i8, i8)> = vec![(1, 1), (1, -1), (-1, 1), (-1, -1)];
    assert(dirs@ =~= bishop_dirs());
    dirs
}

fn queen_directions() -> (dirs: Vec<(i8, i8)>)
    ensures
        dirs@ == queen_dirs(),
        proper_dirs(dirs@),
{
    let dirs: Vec<(i8, i8)> = vec![
        (0, 1),
        (1, 1),
        (1, 0),
        (1, -1),
        (0, -1),
        (-1, 1),
        (-1, 0),
        (-1, -1),
    ];
    assert(dirs@ =~= queen_dirs());
    dirs
}

/// Adds the moves of a slider along one line.
#[verifier::rlimit(30)]
fn add_line_moves(
    board: &Board,
    moves: &mut Vec<ChessMove>,
    piece: Piece,
    origin: Square,
    dr: i8,
    dc: i8,
)
    requires
        board.wf(),
        -1 <= dr <= 1,
        -1 <= dc <= 1,
        dr != 0 || dc != 0,
    ensures
        final(moves)@ == old(moves)@ + board@.line_moves(
            piece,
            origin,
            origin.ray(dr as int, dc as int),
        ),
{
    let ghost pos = board@;
    let ghost line = origin.ray(dr as int, dc as int);
    let opponent = piece.get_opponent_color();
    let (clear, capture) = if dc == 0 {
        board.clear_n_capture_down_file(origin, dr > 0, opponent)
    } else if dr == 0 {
        board.clear_n_capture_down_rank(origin, dc > 0, opponent)
    } else {
        board.clear_n_capture_down_diagonal(origin, dr > 0, dc > 0, opponent)
    };
    let targets = clear.squares().collect();
    proof {
        lemma_members_reached(pos, line, clear, 0);
    }
    let mut k: usize = 0;
    while k < targets.len()
        invariant
            k <= targets.len(),
            targets@ == pos.reached(line),
            moves@ == old(moves)@ + moves_to(piece, origin, targets@.take(k as int), MoveData::Normal),
        decreases targets.len() - k,
    {
        moves.push(ChessMove::new(piece, origin, targets[k], MoveData::Normal));
        k = k + 1;
        assert(moves@ =~= old(moves)@ + moves_to(
            piece,
            origin,
            targets@.take(k as int),
            MoveData::Normal,
        ));
    }
    assert(targets@.take(k as int) =~= targets@);
    match capture {
        Some(target_square) => {
            moves.push(ChessMove::new(piece, origin, target_square, MoveData::Capture));
            assert(moves@ =~= old(moves)@ + pos.line_moves(piece, origin, line));
        },
        None => {
            assert(moves@ =~= old(moves)@ + pos.line_moves(piece, origin, line));
        },
    }
}

/// Adds the moves of a slider on `origin` along each of its directions.
fn add_slider_moves(
    board: &Board,
    moves: &mut Vec<ChessMove>,
    piece: Piece,
    origin: Square,
    dirs: &Vec<(i8, i8)>,
)
    requires
        board.wf(),
        proper_dirs(dirs@),
    ensures
        final(moves)@ == old(moves)@ + board@.slider_moves(piece, origin, dirs@),
{
    let ghost pos = board@;
    let mut k: usize = 0;
    assert(dirs@.take(0) =~= Seq::empty());
    assert(moves@ =~= old(moves)@ + pos.slider_moves(piece, origin, dirs@.take(0)));
    while k < dirs.len()
        invariant
            k <= dirs.len(),
            board.wf(),
            pos == board@,
            proper_dirs(dirs@),
            moves@ == old(moves)@ + pos.slider_moves(piece, origin, dirs@.take(k as int)),
        decreases dirs.len() - k,
    {
        let (dr, dc) = dirs[k];
        let ghost before = moves@;
        proof {
            let next = dirs@.take(k as int + 1);
            assert(next.drop_last() =~= dirs@.take(k as int));
            assert(next.last() == dirs@[k as int]);
        }
        add_line_moves(board, moves, piece, origin, dr, dc);
        k = k + 1;
        assert(moves@ =~= old(moves)@ + pos.slider_moves(piece, origin, dirs@.take(k as int)));
    }
    assert(dirs@.take(k as int) =~= dirs@);
}

/// Adds the moves of a leaper on `origin`: those of a knight if `knight`,
/// the steps of a king if not.
#[verifier::rlimit(30)]
fn add_leaper_moves(
    board: &Board,
    moves: &mut Vec<ChessMove>,
    piece: Piece,
    origin: Square,
    knight: bool,
)
    requires
        board.wf(),
    ensures
        final(moves)@ == old(moves)@ + board@.leaper_moves(
            piece,
            origin,
            if knight {
                origin.knight_targets()
            } else {
                origin.king_targets()
            },
        ),
{
    let ghost pos = board@;
    let opponent = piece.get_opponent_color();
    let targets = leap_squares(origin, knight);
    let mut k: usize = 0;
    assert(targets@.take(0) =~= Seq::empty());
    assert(moves@ =~= old(moves)@ + pos.leaper_moves(piece, origin, targets@.take(0)));
    while k < targets.len()
        invariant
            k <= targets.len(),
            board.wf(),
            pos == board@,
            opponent == piece.get_opponent_color(),
            moves@ == old(moves)@ + pos.leaper_moves(piece, origin, targets@.take(k as int)),
        decreases targets.len() - k,
    {
        let target_square = targets[k];
        proof {
            let next = targets@.take(k as int + 1);
            assert(next.drop_last() =~= targets@.take(k as int));
            assert(next.last() == target_square);
        }
        if board.is_square_occupied(target_square) {
            if board.get_colored_piece_at(target_square, opponent).is_some() {
                moves.push(ChessMove::new(piece, origin, target_square, MoveData::Capture));
            }
        } else {
            moves.push(ChessMove::new(piece, origin, target_square, MoveData::Normal));
        }
        k = k + 1;
        assert(moves@ =~= old(moves)@ + pos.leaper_moves(piece, origin, targets@.take(k as int)));
    }
    assert(targets@.take(k as int) =~= targets@);
}

/// The squares a leaper's jump away from `origin`, in the table's order.
fn leap_squares(origin: Square, knight: bool) -> (targets: Vec<Square>)
    ensures
        targets@ == (if knight {
            origin.knight_targets()
        } else {
            origin.king_targets()
        }),
{
    let mut targets: Vec<Square> = Vec::new();
    if knight {
        let mut it = origin.iter_knight_offsets();
        loop
            invariant_except_break
                targets@ + it.upcoming() == origin.knight_targets(),
            ensures
                targets@ == origin.knight_targets(),
            decreases it.upcoming().len(),
        {
            let ghost before = it.upcoming();
            match it.next() {
                Some(s) => {
                    targets.push(s);
                    assert(targets@ + it.upcoming() =~= targets@.drop_last() + before);
                },
                None => {
                    assert(targets@ + before =~= targets@);
                    break ;
                },
            }
        }
    } else {
        let mut it = origin.iter_king_offsets();
        loop
            invariant_except_break
                targets@ + it.upcoming() == origin.king_targets(),
            ensures
                targets@ == origin.king_targets(),
            decreases it.upcoming().len(),
        {
            let ghost before = it.upcoming();
            match it.next() {
                Some(s) => {
                    targets.push(s);
                    assert(targets@ + it.upcoming() =~= targets@.drop_last() + before);
                },
                None => {
                    assert(targets@ + before =~= targets@);
                    break ;
                },
            }
        }
    }
    targets
}

/// Whether the colour may castle on the side.
#[verifier::rlimit(30)]
fn may_castle(board: &Board, color: Color, side: CastleType) -> (r: bool)
    requires
        board.wf(),
    ensures
        r == board@.castle_allowed(color, side),
{
    let opponent = color.toggle_color();
    let king_start = color.king_starting_square();
    let rook_start = color.rook_starting_square(side);
    let king_target = color.king_castle_target(side);
    let rook_target = color.rook_castle_target(side);
    let towards_h = match side {
        CastleType::KingSide => true,
        CastleType::QueenSide => false,
    };
    if !board.castling_rights().can_castle(color, side) {
        return false;
    }
    if !board.is_piece_at(king_start, color.get_king()) {
        return false;
    }
    if !board.is_piece_at(rook_start, color.get_rook()) {
        return false;
    }
    if !board.sees_down_rank(king_start, towards_h).square_in_bitboard(rook_start) {
        return false;
    }
    if board.is_square_occupied(king_target) || board.is_square_occupied(rook_target) {
        return false;
    }
    if board.is_attacked_by(king_start, opponent) {
        return false;
    }
    if board.is_attacked_by(rook_target, opponent) {
        return false;
    }
    !board.is_attacked_by(king_target, opponent)
}

/// Adds the castle of the colour on the side, if it is allowed.
fn add_castle_move(board: &Board, moves: &mut Vec<ChessMove>, color: Color, side: CastleType)
    requires
        board.wf(),
    ensures
        final(moves)@ == old(moves)@ + board@.castle_move(color, side),
{
    if may_castle(board, color, side) {
        moves.push(
            ChessMove::new(
                color.get_king(),
                color.king_starting_square(),
                color.king_castle_target(side),
                MoveData::Castling,
            ),
        );
        assert(moves@ =~= old(moves)@ + board@.castle_move(color, side));
    } else {
        assert(moves@ =~= old(moves)@ + board@.castle_move(color, side));
    }
}

/// Adds the moves of a king on `origin`.
#[verifier::rlimit(30)]
fn add_king_moves_at(board: &Board, moves: &mut Vec<ChessMove>, piece: Piece, origin: Square)
    requires
        board.wf(),
    ensures
        final(moves)@ == old(moves)@ + board@.king_moves(piece, origin),
{
    let ghost pos = board@;
    let color = piece.get_color();
    add_leaper_moves(board, moves, piece, origin, false);
    let ghost steps = pos.leaper_moves(piece, origin, origin.king_targets());
    if origin == color.king_starting_square() {
        add_castle_move(board, moves, color, CastleType::KingSide);
        add_castle_move(board, moves, color, CastleType::QueenSide);
        assert(moves@ =~= old(moves)@ + (steps + (pos.castle_move(color, CastleType::KingSide)
            + pos.castle_move(color, CastleType::QueenSide))));
    } else {
        assert(moves@ =~= old(moves)@ + (steps + Seq::<ChessMove>::empty()));
    }
}

/// Adds the four promotions of a pawn.
fn add_promotions(
    moves: &mut Vec<ChessMove>,
    color: Color,
    origin: Square,
    target: Square,
    tag: MoveData,
)
    ensures
        final(moves)@ == old(moves)@ + promotions(color, origin, target, tag),
{
    let pieces = color.get_promotion_pieces();
    moves.push(ChessMove::new(pieces[0], origin, target, tag));
    moves.push(ChessMove::new(pieces[1], origin, target, tag));
    moves.push(ChessMove::new(pieces[2], origin, target, tag));
    moves.push(ChessMove::new(pieces[3], origin, target, tag));
    assert(moves@ =~= old(moves)@ + promotions(color, origin, target, tag));
}

/// The row direction of the colour's pawns.
fn forward_of(color: Color) -> (d: i8)
    ensures
        d == forward(color),
{
    match color {
        Color::White => -1,
        Color::Black => 1,
    }
}

/// Adds the moves of a pawn straight ahead.
#[verifier::rlimit(30)]
fn add_pawn_advance(board: &Board, moves: &mut Vec<ChessMove>, color: Color, origin: Square)
    requires
        board.wf(),
    ensures
        final(moves)@ == old(moves)@ + board@.pawn_advance(color, origin),
{
    let ghost pos = board@;
    let pawn = color.get_pawn();
    let fwd = forward_of(color);
    proof {
        reveal(Position::pawn_advance);
    }
    match origin.leap_by(fwd, 0) {
        Some(target_square) => {
            if board.is_square_occupied(target_square) {
                assert(moves@ =~= old(moves)@ + pos.pawn_advance(color, origin));
            } else if target_square.get_row().as_u8() == color.get_pawn_promotion_row() {
                add_promotions(moves, color, origin, target_square, MoveData::Promotion);
            } else {
                moves.push(ChessMove::new(pawn, origin, target_square, MoveData::Normal));
                if origin.get_row().as_u8() == color.get_pawn_starting_row() {
                    match origin.leap_by(2 * fwd, 0) {
                        Some(double_target) => {
                            if !board.is_square_occupied(double_target) {
                                moves.push(
                                    ChessMove::new(
                                        pawn,
                                        origin,
                                        double_target,
                                        MoveData::EnableEnPassant,
                                    ),
                                );
                            }
                        },
                        None => {},
                    }
                }
                assert(moves@ =~= old(moves)@ + pos.pawn_advance(color, origin));
            }
        },
        None => {
            assert(moves@ =~= old(moves)@ + pos.pawn_advance(color, origin));
        },
    }
}

/// Adds the captures of a pawn to one side: to the right if `right`.
#[verifier::rlimit(30)]
fn add_pawn_capture(
    board: &Board,
    moves: &mut Vec<ChessMove>,
    color: Color,
    origin: Square,
    right: bool,
)
    requires
        board.wf(),
    ensures
        final(moves)@ == old(moves)@ + board@.pawn_capture(
            color,
            origin,
            if right {
                1
            } else {
                -1
            },
        ),
{
    let ghost pos = board@;
    let ghost dci: int = if right {
        1
    } else {
        -1
    };
    let pawn = color.get_pawn();
    let opponent = color.toggle_color();
    let fwd = forward_of(color);
    let dc: i8 = if right {
        1
    } else {
        -1
    };
    proof {
        reveal(Position::pawn_capture);
    }
    match origin.leap_by(fwd, dc) {
        Some(target_square) => {
            if board.is_square_occupied(target_square) {
                if board.get_colored_piece_at(target_square, opponent).is_some() {
                    if target_square.get_row().as_u8() == color.get_pawn_promotion_row() {
                        add_promotions(
                            moves,
                            color,
                            origin,
                            target_square,
                            MoveData::CapturePromotion,
                        );
                    } else {
                        moves.push(ChessMove::new(pawn, origin, target_square, MoveData::Capture));
                        assert(moves@ =~= old(moves)@ + pos.pawn_capture(color, origin, dci));
                    }
                } else {
                    assert(moves@ =~= old(moves)@ + pos.pawn_capture(color, origin, dci));
                }
            } else {
                let beside = Square::new(origin.get_row(), target_square.get_col());
                proof {
                    beside.lemma_index();
                }
                let is_target = match board.en_passant_square() {
                    Some(s) => s == target_square,
                    None => false,
                };
                if is_target && board.is_piece_at(beside, opponent.get_pawn()) {
                    moves.push(ChessMove::new(pawn, origin, target_square, MoveData::EnPassant));
                    assert(moves@ =~= old(moves)@ + pos.pawn_capture(color, origin, dci));
                } else {
                    assert(moves@ =~= old(moves)@ + pos.pawn_capture(color, origin, dci));
                }
            }
        },
        None => {
            assert(moves@ =~= old(moves)@ + pos.pawn_capture(color, origin, dci));
        },
    }
}

/// Adds the moves of a pawn on `origin`.
fn add_pawn_moves_at(board: &Board, moves: &mut Vec<ChessMove>, color: Color, origin: Square)
    requires
        board.wf(),
    ensures
        final(moves)@ == old(moves)@ + board@.pawn_moves(color, origin),
{
    let ghost pos = board@;
    add_pawn_advance(board, moves, color, origin);
    add_pawn_capture(board, moves, color, origin, false);
    add_pawn_capture(board, moves, color, origin, true);
    assert(moves@ =~= old(moves)@ + pos.pawn_moves(color, origin));
}

/// Adds the moves of `piece` from `origin`, by the rule of its kind.
fn add_moves_at(board: &Board, moves: &mut Vec<ChessMove>, piece: Piece, origin: Square)
    requires
        board.wf(),
    ensures
        final(moves)@ == old(moves)@ + board@.moves_at(piece, origin),
{
    if piece.is_pawn() {
        add_pawn_moves_at(board, moves, piece.get_color(), origin);
    } else if piece.is_rook() {
        let dirs = rook_directions();
        add_slider_moves(board, moves, piece, origin, &dirs);
    } else if piece.is_knight() {
        add_leaper_moves(board, moves, piece, origin, true);
    } else if piece.is_bishop() {
        let dirs = bishop_directions();
        add_slider_moves(board, moves, piece, origin, &dirs);
    } else if piece.is_queen() {
        let dirs = queen_directions();
        add_slider_moves(board, moves, piece, origin, &dirs);
    } else {
        add_king_moves_at(board, moves, piece, origin);
    }
}

/// Adds the moves of `piece` from every square on which it stands.
fn add_piece_moves(board: &Board, moves: &mut Vec<ChessMove>, piece: Piece)
    requires
        board.wf(),
    ensures
        final(moves)@ == old(moves)@ + board@.piece_moves(piece),
{
    let ghost pos = board@;
    let origins = board.find_piece_positions(piece);
    let mut k: usize = 0;
    assert(origins@.take(0) =~= Seq::empty());
    assert(moves@ =~= old(moves)@ + pos.moves_from(piece, origins@.take(0)));
    while k < origins.len()
        invariant
            k <= origins.len(),
            board.wf(),
            pos == board@,
            origins@ == pos.places(piece),
            moves@ == old(moves)@ + pos.moves_from(piece, origins@.take(k as int)),
        decreases origins.len() - k,
    {
        let origin = origins[k];
        proof {
            let next = origins@.take(k as int + 1);
            assert(next.drop_last() =~= origins@.take(k as int));
            assert(next.last() == origin);
        }
        add_moves_at(board, moves, piece, origin);
        k = k + 1;
        assert(moves@ =~= old(moves)@ + pos.moves_from(piece, origins@.take(k as int)));
    }
    assert(origins@.take(k as int) =~= origins@);
}

impl ChessMove {
    /// Adds the moves of the pawns of the player to move.
    pub fn add_pawn_moves(board: &Board, moves: &mut Vec<ChessMove>)
        requires
            board.wf(),
        ensures
            final(moves)@ == old(moves)@ + board@.piece_moves(board@.active_player.get_pawn()),
    {
        add_piece_moves(board, moves, board.active_player().get_pawn());
    }

    /// Adds the moves of the rooks of the player to move.
    pub fn add_rook_moves(board: &Board, moves: &mut Vec<ChessMove>)
        requires
            board.wf(),
        ensures
            final(moves)@ == old(moves)@ + board@.piece_moves(board@.active_player.get_rook()),
    {
        add_piece_moves(board, moves, board.active_player().get_rook());
    }

    /// Adds the moves of the knights of the player to move.
    pub fn add_knight_moves(board: &Board, moves: &mut Vec<ChessMove>)
        requires
            board.wf(),
        ensures
            final(moves)@ == old(moves)@ + board@.piece_moves(board@.active_player.get_knight()),
    {
        add_piece_moves(board, moves, board.active_player().get_knight());
    }

    /// Adds the moves of the bishops of the player to move.
    pub fn add_bishop_moves(board: &Board, moves: &mut Vec<ChessMove>)
        requires
            board.wf(),
        ensures
            final(moves)@ == old(moves)@ + board@.piece_moves(board@.active_player.get_bishop()),
    {
        add_piece_moves(board, moves, board.active_player().get_bishop());
    }

    /// Adds the moves of the queens of the player to move.
    pub fn add_queen_moves(board: &Board, moves: &mut Vec<ChessMove>)
        requires
            board.wf(),
        ensures
            final(moves)@ == old(moves)@ + board@.piece_moves(board@.active_player.get_queen()),
    {
        add_piece_moves(board, moves, board.active_player().get_queen());
    }

    /// Adds the moves of the king of the player to move, castles among them.
    pub fn add_king_moves(board: &Board, moves: &mut Vec<ChessMove>)
        requires
            board.wf(),
        ensures
            final(moves)@ == old(moves)@ + board@.piece_moves(board@.active_player.get_king()),
    {
        add_piece_moves(board, moves, board.active_player().get_king());
    }

    /// The pseudo-legal moves of the board's position.
    #[verifier::rlimit(30)]
    pub fn get_possible_moves(board: &Board) -> (moves: Vec<ChessMove>)
        requires
            board.wf(),
        ensures
            moves@ == board@.pseudo_legal_moves(),
            all_playable(moves@, board@),
    {
        let ghost pos = board@;
        let mut moves: Vec<ChessMove> = Vec::new();
        let pieces = Piece::iter_color_pieces(&board.active_player());
        let mut k: usize = 0;
        assert(pieces@.take(0) =~= Seq::empty());
        assert(moves@ =~= pos.moves_of(pieces@.take(0)));
        while k < pieces.len()
            invariant
                k <= pieces.len(),
                board.wf(),
                pos == board@,
                pieces@ == Piece::of_color(pos.active_player),
                moves@ == pos.moves_of(pieces@.take(k as int)),
            decreases pieces.len() - k,
        {
            let piece = pieces[k];
            proof {
                let next = pieces@.take(k as int + 1);
                assert(next.drop_last() =~= pieces@.take(k as int));
                assert(next.last() == piece);
            }
            match piece {
                Piece::WhitePawn | Piece::BlackPawn => ChessMove::add_pawn_moves(board, &mut moves),
                Piece::WhiteRook | Piece::BlackRook => ChessMove::add_rook_moves(board, &mut moves),
                Piece::WhiteKnight | Piece::BlackKnight => ChessMove::add_knight_moves(
                    board,
                    &mut moves,
                ),
                Piece::WhiteBishop | Piece::BlackBishop => ChessMove::add_bishop_moves(
                    board,
                    &mut moves,
                ),
                Piece::WhiteQueen | Piece::BlackQueen => ChessMove::add_queen_moves(
                    board,
                    &mut moves,
                ),
                Piece::WhiteKing | Piece::BlackKing => ChessMove::add_king_moves(board, &mut moves),
            }
            k = k + 1;
        }
        assert(pieces@.take(k as int) =~= pieces@);
        proof {
            board.lemma_view_wf();
            pos.lemma_pseudo_legal_playable();
        }
        moves
    }
}

impl Position {
    /// How the game stands for the player to move: it goes on while that
    /// player has a legal move; without one it is lost if the player's king
    /// is attacked, and drawn by stalemate if not.
    pub open spec fn game_state(self) -> GameState {
        if self.legal_moves().len() > 0 {
            GameState::Running
        } else if self.in_check(self.active_player) {
            GameState::Checkmate
        } else {
            GameState::Draw
        }
    }
}

impl ChessMove {
    /// Whether the move would leave the mover's own king attacked. The
    /// move is played on the board, the king is looked at, and the move is
    /// taken back: the board is left as it was, bit for bit.
    pub fn leaves_king_in_check(&self, board: &mut Board) -> (r: bool)
        requires
            old(board).wf(),
            self.playable_on(old(board)@),
        ensures
            *final(board) == *old(board),
            r == old(board)@.leaves_in_check(*self),
    {
        proof {
            board.lemma_view_wf();
            self.lemma_make_undo(board@);
        }
        let record = self.make_reversible_move(board);
        let in_check = board.is_in_check(self.piece.get_color());
        self.undo_move(board, record);
        proof {
            board.lemma_same_position(*old(board));
        }
        in_check
    }

    /// The moves of `moves` that do not leave the mover's king attacked.
    #[verifier::rlimit(30)]
    pub fn validate_moves(moves: Vec<ChessMove>, board: &mut Board) -> (valid: Vec<ChessMove>)
        requires
            old(board).wf(),
            all_playable(moves@, old(board)@),
        ensures
            *final(board) == *old(board),
            valid@ == old(board)@.keep_legal(moves@),
    {
        let ghost pos = board@;
        let mut valid: Vec<ChessMove> = Vec::new();
        let mut k: usize = 0;
        assert(moves@.take(0) =~= Seq::empty());
        while k < moves.len()
            invariant
                k <= moves.len(),
                *board == *old(board),
                board.wf(),
                pos == board@,
                all_playable(moves@, pos),
                valid@ == pos.keep_legal(moves@.take(k as int)),
            decreases moves.len() - k,
        {
            let m = moves[k];
            proof {
                let next = moves@.take(k as int + 1);
                assert(next.drop_last() =~= moves@.take(k as int));
                assert(next.last() == m);
            }
            if !m.leaves_king_in_check(board) {
                valid.push(m);
            }
            k = k + 1;
        }
        assert(moves@.take(k as int) =~= moves@);
        valid
    }

    /// The legal moves of the board's position: its pseudo-legal moves
    /// without those that leave the mover's king attacked. Each candidate
    /// is played and taken back in turn; the board is left as it was.
    pub fn get_valid_moves(board: &mut Board) -> (moves: Vec<ChessMove>)
        requires
            old(board).wf(),
        ensures
            *final(board) == *old(board),
            moves@ == old(board)@.legal_moves(),
    {
        let possible_moves = ChessMove::get_possible_moves(board);
        ChessMove::validate_moves(possible_moves, board)
    }

    /// How the game stands for the player to move.
    pub fn game_state(board: &mut Board) -> (state: GameState)
        requires
            old(board).wf(),
        ensures
            *final(board) == *old(board),
            state == old(board)@.game_state(),
    {
        let moves = ChessMove::get_valid_moves(board);
        if moves.len() > 0 {
            GameState::Running
        } else if board.is_in_check(board.active_player()) {
            GameState::Checkmate
        } else {
            GameState::Draw
        }
    }
}

} // verus!
