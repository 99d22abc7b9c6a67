//! Moves: how they change a board, how the change is taken back, and how
//! the moves of a position are found.

use vstd::prelude::*;
use crate::board::Board;
use crate::castling_rights::{after_change, CastlingRights, CastlingRightsExt, RightsChange};
use crate::move_data::MoveData;
use crate::pieces::{Color, Piece};
use crate::position::Position;
use crate::rules::{CastleType, MoveResult, MoveType};
use crate::square::{Row, Square};
use crate::text::push_char;

verus! {

/// A move: the piece that arrives, the square it leaves, the square it
/// reaches, and what kind of move it is. For a promotion the piece is the
/// one that the pawn becomes; for a castle it is the king.
#[derive(Clone, Copy, Debug, PartialEq, Eq, Structural)]
pub struct ChessMove {
    pub piece: Piece,
    pub origin: Square,
    pub target: Square,
    pub meta_data: MoveData,
}

/// What a move has changed beyond where the pieces stand, and the piece
/// that it has captured: what is needed to take the move back.
#[derive(Clone, Copy, Debug, PartialEq, Eq, Structural)]
pub struct MoveRecord {
    /// The piece that the move captured.
    pub captured_piece: Option<Piece>,
    /// The en-passant square before the move.
    pub en_passant_square: Option<Square>,
    /// The half-move clock before the move.
    pub half_move_clock: u8,
    /// The full-move number before the move.
    pub full_move_number: u8,
    /// The castling rights before the move.
    pub castling_rights: CastlingRights,
}

/// A counter one higher, or the same where it is at its limit of 255.
pub open spec fn bumped(x: u8) -> u8 {
    if x < 255 {
        (x + 1) as u8
    } else {
        255u8
    }
}

fn bump(x: u8) -> (r: u8)
    ensures
        r == bumped(x),
{
    if x < 255 {
        x + 1
    } else {
        255
    }
}

impl ChessMove {
    /// The move of `piece` from `origin` to `target` with the given tag.
    pub fn new(piece: Piece, origin: Square, target: Square, special: MoveData) -> (m: ChessMove)
        ensures
            m == (ChessMove { piece, origin, target, meta_data: special }),
    {
        ChessMove { piece, origin, target, meta_data: special }
    }

    /// The piece that arrives.
    pub fn piece(&self) -> (p: Piece)
        ensures
            p == self.piece,
    {
        self.piece
    }

    /// The square that the move leaves.
    pub fn origin(&self) -> (s: Square)
        ensures
            s == self.origin,
    {
        self.origin
    }

    /// The square that the move reaches.
    pub fn target(&self) -> (s: Square)
        ensures
            s == self.target,
    {
        self.target
    }

    /// The move's tag.
    pub fn meta_data(&self) -> (d: MoveData)
        ensures
            d == self.meta_data,
    {
        self.meta_data
    }

    /// The tag of a move that is applied in the given way. A double step
    /// is a plain move with `enables_en_passant`; whether a move captures
    /// is asked of plain moves and promotions only.
    pub fn assemble_special_move(
        move_type: MoveType,
        captures: bool,
        enables_en_passant: bool,
        result: MoveResult,
    ) -> (tag: MoveData)
        ensures
            tag.move_result() == result,
            tag.is_enable_en_passant() == enables_en_passant,
            !enables_en_passant ==> tag.get_move_type() == move_type,
            tag.is_capture() == (!enables_en_passant && match move_type {
                MoveType::Regular | MoveType::Promotion => captures,
                MoveType::EnPassant => true,
                MoveType::Castling => false,
            }),
    {
        if enables_en_passant {
            MoveData::EnableEnPassant.with_result(result)
        } else {
            match move_type {
                MoveType::Regular => if captures {
                    MoveData::Capture.with_result(result)
                } else {
                    MoveData::Normal.with_result(result)
                },
                MoveType::Castling => MoveData::Castling.with_result(result),
                MoveType::EnPassant => MoveData::EnPassant.with_result(result),
                MoveType::Promotion => if captures {
                    MoveData::CapturePromotion.with_result(result)
                } else {
                    MoveData::Promotion.with_result(result)
                },
            }
        }
    }

    /// The colour that moves.
    pub open spec fn color(self) -> Color {
        self.piece.get_color()
    }

    /// The piece that stands on the origin before the move: the pawn for
    /// a promotion, the piece that arrives for every other move.
    pub open spec fn standing_piece(self) -> Piece {
        if self.meta_data.is_promotion() {
            self.color().get_pawn()
        } else {
            self.piece
        }
    }

    /// The side to which a castle goes: the king's side if the target lies
    /// to the right of the origin.
    pub open spec fn castle_side(self) -> CastleType {
        if self.target.col() > self.origin.col() {
            CastleType::KingSide
        } else {
            CastleType::QueenSide
        }
    }

    /// The square of the pawn that an en-passant capture takes: in the row
    /// of the origin and the column of the target.
    pub open spec fn victim_square(self) -> Square {
        Square::at(8 * self.origin.row() + self.target.col())
    }

    /// The square that a double step passes over: half way from origin to target.
    pub open spec fn passed_square(self) -> Square {
        Square::at((self.origin.index() + self.target.index()) / 2)
    }

    /// The target of a move that lands on an empty square is empty; the
    /// target of one that captures there holds a piece of the other colour.
    pub open spec fn target_fits(self, pos: Position) -> bool {
        if self.meta_data.is_capture() {
            pos.holds_color(self.target, self.color().toggle_color())
        } else {
            !pos.occupied(self.target)
        }
    }

    /// The move can be played on the position: the pieces that it moves
    /// and captures stand where it takes them from, and the squares on
    /// which it puts pieces are free. This is what applying the move relies
    /// on; it is less than legality.
    pub open spec fn playable_on(self, pos: Position) -> bool {
        &&& self.origin != self.target
        &&& pos.piece_at(self.origin) == Some(self.standing_piece())
        &&& match self.meta_data.get_move_type() {
            MoveType::Regular => {
                &&& self.target_fits(pos)
                &&& self.meta_data.is_enable_en_passant() ==> {
                    &&& self.piece.is_pawn()
                    &&& self.origin.col() == self.target.col()
                    &&& (self.origin.row() == self.target.row() + 2 || self.origin.row() + 2
                        == self.target.row())
                }
            },
            MoveType::Promotion => self.piece.is_promotion_candidate() && self.target_fits(pos),
            MoveType::EnPassant => {
                &&& self.piece.is_pawn()
                &&& !pos.occupied(self.target)
                &&& self.origin.row() != self.target.row()
                &&& self.origin.col() != self.target.col()
                &&& pos.piece_at(self.victim_square()) == Some(
                    self.color().toggle_color().get_pawn(),
                )
            },
            MoveType::Castling => {
                &&& self.piece.is_king()
                &&& self.origin == self.color().king_starting_square()
                &&& self.target == self.color().king_castle_target(self.castle_side())
                &&& pos.piece_at(self.color().rook_starting_square(self.castle_side())) == Some(
                    self.color().get_rook(),
                )
                &&& !pos.occupied(self.target)
                &&& !pos.occupied(self.color().rook_castle_target(self.castle_side()))
            },
        }
    }

    /// Where the pieces stand after the move.
    pub open spec fn squares_after(self, pos: Position) -> Seq<Option<Piece>> {
        let moved = pos.squares.update(self.origin.index(), None).update(
            self.target.index(),
            Some(self.piece),
        );
        match self.meta_data.get_move_type() {
            MoveType::Regular | MoveType::Promotion => moved,
            MoveType::EnPassant => moved.update(self.victim_square().index(), None),
            MoveType::Castling => moved.update(
                self.color().rook_starting_square(self.castle_side()).index(),
                None,
            ).update(
                self.color().rook_castle_target(self.castle_side()).index(),
                Some(self.color().get_rook()),
            ),
        }
    }

    /// The rights without those of `color` on the side whose rook starts on
    /// `square`, if a rook of `color` starts there.
    pub open spec fn without_rook_of(rights: CastlingRights, color: Color, square: Square) -> CastlingRights {
        if square == color.rook_starting_square(CastleType::KingSide) {
            after_change(rights, RightsChange::RookMoved(color, true))
        } else if square == color.rook_starting_square(CastleType::QueenSide) {
            after_change(rights, RightsChange::RookMoved(color, false))
        } else {
            rights
        }
    }

    /// The castling rights after the move. A king that moves loses both
    /// rights of its colour. A rook that leaves the square on which it
    /// started loses the right of its side. A move that lands on a square
    /// on which a rook of the other colour started takes the other colour's
    /// right of that side.
    pub open spec fn rights_after(self, rights: CastlingRights) -> CastlingRights {
        let r1 = if self.piece.is_king() {
            after_change(rights, RightsChange::KingMoved(self.color()))
        } else {
            rights
        };
        let r2 = if self.piece.is_rook() {
            ChessMove::without_rook_of(r1, self.color(), self.origin)
        } else {
            r1
        };
        ChessMove::without_rook_of(r2, self.color().toggle_color(), self.target)
    }

    /// Whether the move sets the half-move clock back to 0: captures,
    /// promotions and pawn moves do.
    pub open spec fn resets_clock(self) -> bool {
        self.meta_data.reset_halfmove() || self.piece.is_pawn()
    }

    /// The position after the move. The pieces concerned change squares.
    /// The turn passes to the other player, and the full-move number grows
    /// when it passes to White. The half-move clock is set back to 0 by a
    /// capture, a promotion or a pawn move and grows otherwise. The
    /// en-passant square is the square passed over by a double step, and
    /// none after any other move. Both counters stop at 255.
    pub open spec fn applied_to(self, pos: Position) -> Position {
        Position {
            squares: self.squares_after(pos),
            castling_rights: self.rights_after(pos.castling_rights),
            en_passant_square: if self.meta_data.is_enable_en_passant() {
                Some(self.passed_square())
            } else {
                None
            },
            half_move_clock: if self.resets_clock() {
                0
            } else {
                bumped(pos.half_move_clock)
            },
            full_move_number: if pos.active_player == Color::Black {
                bumped(pos.full_move_number)
            } else {
                pos.full_move_number
            },
            active_player: pos.active_player.toggle_color(),
        }
    }

    /// What has to be kept of the position to take the move back.
    pub open spec fn record_of(self, pos: Position) -> MoveRecord {
        MoveRecord {
            captured_piece: match self.meta_data.get_move_type() {
                MoveType::Regular | MoveType::Promotion => if self.meta_data.is_capture() {
                    pos.piece_at(self.target)
                } else {
                    None
                },
                MoveType::EnPassant => pos.piece_at(self.victim_square()),
                MoveType::Castling => None,
            },
            en_passant_square: pos.en_passant_square,
            half_move_clock: pos.half_move_clock,
            full_move_number: pos.full_move_number,
            castling_rights: pos.castling_rights,
        }
    }

    /// The move can be taken back from the position: the pieces that it
    /// has moved stand where it has put them, and the squares that it has
    /// left are free.
    pub open spec fn undoable_on(self, pos: Position, record: MoveRecord) -> bool {
        &&& self.origin != self.target
        &&& !pos.occupied(self.origin)
        &&& pos.piece_at(self.target) == Some(self.piece)
        &&& match self.meta_data.get_move_type() {
            MoveType::Regular | MoveType::Promotion => true,
            MoveType::EnPassant => {
                &&& self.origin.row() != self.target.row()
                &&& self.origin.col() != self.target.col()
                &&& !pos.occupied(self.victim_square())
            },
            MoveType::Castling => {
                &&& self.origin == self.color().king_starting_square()
                &&& self.target == self.color().king_castle_target(self.castle_side())
                &&& record.captured_piece is None
                &&& pos.piece_at(self.color().rook_castle_target(self.castle_side())) == Some(
                    self.color().get_rook(),
                )
                &&& !pos.occupied(self.color().rook_starting_square(self.castle_side()))
            },
        }
    }

    /// Where the pieces stand once the move has been taken back.
    pub open spec fn squares_before(self, pos: Position, record: MoveRecord) -> Seq<Option<Piece>> {
        match self.meta_data.get_move_type() {
            MoveType::Regular | MoveType::Promotion => pos.squares.update(
                self.target.index(),
                record.captured_piece,
            ).update(self.origin.index(), Some(self.standing_piece())),
            MoveType::EnPassant => pos.squares.update(self.target.index(), None).update(
                self.origin.index(),
                Some(self.piece),
            ).update(self.victim_square().index(), record.captured_piece),
            MoveType::Castling => pos.squares.update(self.target.index(), None).update(
                self.origin.index(),
                Some(self.piece),
            ).update(self.color().rook_castle_target(self.castle_side()).index(), None).update(
                self.color().rook_starting_square(self.castle_side()).index(),
                Some(self.color().get_rook()),
            ),
        }
    }

    /// The position once the move has been taken back: the pieces return,
    /// the captured piece with them; the turn passes back; the counters,
    /// the en-passant square and the castling rights are those of the record.
    pub open spec fn taken_back_from(self, pos: Position, record: MoveRecord) -> Position {
        Position {
            squares: self.squares_before(pos, record),
            castling_rights: record.castling_rights,
            en_passant_square: record.en_passant_square,
            half_move_clock: record.half_move_clock,
            full_move_number: record.full_move_number,
            active_player: pos.active_player.toggle_color(),
        }
    }

    /// The square that a double step passes over lies in the column of the
    /// step, in the row between its origin and its target.
    pub proof fn lemma_passed_square(self)
        requires
            self.origin.col() == self.target.col(),
            self.origin.row() == self.target.row() + 2 || self.origin.row() + 2
                == self.target.row(),
        ensures
            self.passed_square().col() == self.origin.col(),
            self.passed_square().row() * 2 == self.origin.row() + self.target.row(),
    {
        self.origin.lemma_index();
        self.target.lemma_index();
        Square::lemma_at((self.origin.index() + self.target.index()) / 2);
    }

    /// The squares of a castle are four different squares, and those of an
    /// en-passant capture three.
    #[verifier::rlimit(30)]
    proof fn lemma_distinct_squares(self)
        ensures
            self.origin != self.target ==> self.origin.index() != self.target.index(),
            self.origin.row() != self.target.row() && self.origin.col() != self.target.col() ==> {
                &&& self.victim_square().index() != self.origin.index()
                &&& self.victim_square().index() != self.target.index()
                &&& self.victim_square().row() == self.origin.row()
                &&& self.victim_square().col() == self.target.col()
            },
    {
        self.origin.lemma_index();
        self.target.lemma_index();
        Square::lemma_at(8 * self.origin.row() + self.target.col());
    }

    /// Taking back a move that has just been played on a position on which
    /// it can be played gives the position back: where every piece stands,
    /// the castling rights, the en-passant square, both counters and the
    /// player to move.
    #[verifier::rlimit(30)]
    pub proof fn lemma_make_undo(self, pos: Position)
        requires
            pos.wf(),
            self.playable_on(pos),
        ensures
            self.undoable_on(self.applied_to(pos), self.record_of(pos)),
            self.taken_back_from(self.applied_to(pos), self.record_of(pos)) == pos,
    {
        self.lemma_distinct_squares();
        let after = self.applied_to(pos);
        let record = self.record_of(pos);
        let back = self.taken_back_from(after, record);
        let color = self.color();
        let side = self.castle_side();
        color.rook_starting_square(side).lemma_index();
        color.rook_castle_target(side).lemma_index();
        color.king_starting_square().lemma_index();
        color.king_castle_target(side).lemma_index();
        self.victim_square().lemma_index();
        assert(back.squares =~= pos.squares);
    }

    /// Whether the target of the move is as its tag says: empty for a move
    /// without a capture, held by the other colour for one with.
    fn target_is_fit(&self, board: &Board) -> (r: bool)
        requires
            board.wf(),
        ensures
            r == self.target_fits(board@),
    {
        if self.meta_data.is_capture() {
            board.get_colored_piece_at(
                self.target,
                self.piece.get_color().toggle_color(),
            ).is_some()
        } else {
            !board.is_square_occupied(self.target)
        }
    }

    /// Whether the move can be played on the board: whether the pieces
    /// that it moves and captures stand where it takes them from, and the
    /// squares on which it puts pieces are free.
    #[verifier::rlimit(30)]
    pub fn is_playable(&self, board: &Board) -> (r: bool)
        requires
            board.wf(),
        ensures
            r == self.playable_on(board@),
    {
        let color = self.piece.get_color();
        let standing = if self.meta_data.is_promotion() {
            color.get_pawn()
        } else {
            self.piece
        };
        if self.origin == self.target || !board.is_piece_at(self.origin, standing) {
            return false;
        }
        let origin_row = self.origin.get_row().as_u8();
        let target_row = self.target.get_row().as_u8();
        let origin_col = self.origin.get_col().as_u8();
        let target_col = self.target.get_col().as_u8();
        match self.meta_data.get_move_type() {
            MoveType::Regular => {
                if !self.target_is_fit(board) {
                    return false;
                }
                !self.meta_data.is_enable_en_passant() || (self.piece.is_pawn() && origin_col
                    == target_col && (origin_row == target_row + 2 || origin_row + 2
                    == target_row))
            },
            MoveType::Promotion => self.piece.is_promotion_candidate() && self.target_is_fit(board),
            MoveType::EnPassant => {
                let beside = Square::new(self.origin.get_row(), self.target.get_col());
                proof {
                    beside.lemma_index();
                }
                self.piece.is_pawn() && !board.is_square_occupied(self.target) && origin_row
                    != target_row && origin_col != target_col && board.is_piece_at(
                    beside,
                    color.toggle_color().get_pawn(),
                )
            },
            MoveType::Castling => {
                let side = if target_col > origin_col {
                    CastleType::KingSide
                } else {
                    CastleType::QueenSide
                };
                self.piece.is_king() && self.origin == color.king_starting_square() && self.target
                    == color.king_castle_target(side) && board.is_piece_at(
                    color.rook_starting_square(side),
                    color.get_rook(),
                ) && !board.is_square_occupied(self.target) && !board.is_square_occupied(
                    color.rook_castle_target(side),
                )
            },
        }
    }

    /// Puts the pieces where the move takes them.
    #[verifier::rlimit(30)]
    fn move_pieces(&self, board: &mut Board)
        requires
            old(board).wf(),
            self.playable_on(old(board)@),
        ensures
            final(board).wf(),
            final(board)@ == (Position { squares: self.squares_after(old(board)@), ..old(board)@ }),
    {
        let ghost pos = board@;
        let color = self.piece.get_color();
        proof {
            board.lemma_view_wf();
            self.lemma_distinct_squares();
        }
        match self.meta_data.get_move_type() {
            MoveType::Regular => {
                relocate(board, self.origin, self.target, self.piece, self.piece);
            },
            MoveType::Castling => {
                let rook = color.get_rook();
                let kingside = self.target.get_col().as_u8() > self.origin.get_col().as_u8();
                let side = if kingside {
                    CastleType::KingSide
                } else {
                    CastleType::QueenSide
                };
                proof {
                    color.rook_starting_square(side).lemma_index();
                    color.rook_castle_target(side).lemma_index();
                }
                relocate(board, self.origin, self.target, self.piece, self.piece);
                relocate(
                    board,
                    color.rook_starting_square(side),
                    color.rook_castle_target(side),
                    rook,
                    rook,
                );
            },
            MoveType::EnPassant => {
                let removal_square = Square::new(self.origin.get_row(), self.target.get_col());
                proof {
                    removal_square.lemma_index();
                }
                let target_pawn = color.toggle_color().get_pawn();
                relocate(board, self.origin, self.target, self.piece, self.piece);
                let _ = board.remove_piece_at(removal_square, target_pawn);
            },
            MoveType::Promotion => {
                relocate(board, self.origin, self.target, color.get_pawn(), self.piece);
            },
        }
        assert(board@.squares =~= self.squares_after(pos));
    }

    /// Passes the turn and brings the counters, the en-passant square and
    /// the castling rights up to date.
    #[verifier::rlimit(30)]
    fn advance_state(&self, board: &mut Board)
        requires
            old(board).wf(),
            self.meta_data.is_enable_en_passant() ==> self.origin.col() == self.target.col() && (
            self.origin.row() == self.target.row() + 2 || self.origin.row() + 2
                == self.target.row()),
        ensures
            final(board).wf(),
            final(board)@ == (Position {
                squares: old(board)@.squares,
                ..self.applied_to(old(board)@)
            }),
    {
        let color = self.piece.get_color();
        if self.meta_data.is_enable_en_passant() {
            let row = (self.origin.get_row().as_u8() + self.target.get_row().as_u8()) / 2;
            let passed = Square::new(Row::of(row), self.origin.get_col());
            proof {
                passed.lemma_index();
                self.origin.lemma_index();
                self.target.lemma_index();
            }
            board.set_en_passant_square(Some(passed));
        } else {
            board.set_en_passant_square(None);
        }

        let mut rights = board.castling_rights();
        if self.piece.is_king() {
            rights.king_moved(color);
        }
        if self.piece.is_rook() {
            rights = without_rook(rights, color, self.origin);
        }
        rights = without_rook(rights, color.toggle_color(), self.target);
        board.set_castling_rights(rights);

        let mover = board.active_player();
        board.set_active_player(mover.toggle_color());
        match mover {
            Color::Black => {
                let number = board.full_move_number();
                board.set_full_move_number(bump(number));
            },
            Color::White => {},
        }
        if self.meta_data.reset_halfmove() || self.piece.is_pawn() {
            board.set_half_move_clock(0);
        } else {
            let clock = board.half_move_clock();
            board.set_half_move_clock(bump(clock));
        }
    }

    /// Plays the move on the board.
    fn make_move_on_board(&self, board: &mut Board)
        requires
            old(board).wf(),
            self.playable_on(old(board)@),
        ensures
            final(board).wf(),
            final(board)@ == self.applied_to(old(board)@),
    {
        self.move_pieces(board);
        self.advance_state(board);
    }

    /// Plays the move on the board. The move must be one that can be played
    /// there: every move that the board's position generates can.
    pub fn make_move(&self, board: &mut Board)
        requires
            old(board).wf(),
            self.playable_on(old(board)@),
        ensures
            final(board).wf(),
            final(board)@ == self.applied_to(old(board)@),
    {
        self.make_move_on_board(board);
    }

    /// Plays the move on the board and returns what is needed to take it back.
    pub fn make_reversible_move(&self, board: &mut Board) -> (record: MoveRecord)
        requires
            old(board).wf(),
            self.playable_on(old(board)@),
        ensures
            final(board).wf(),
            final(board)@ == self.applied_to(old(board)@),
            record == self.record_of(old(board)@),
    {
        let captured_piece = match self.meta_data.get_move_type() {
            MoveType::Regular | MoveType::Promotion => if self.meta_data.is_capture() {
                board.get_piece_at(self.target)
            } else {
                None
            },
            MoveType::EnPassant => {
                let removal_square = Square::new(self.origin.get_row(), self.target.get_col());
                proof {
                    removal_square.lemma_index();
                }
                board.get_piece_at(removal_square)
            },
            MoveType::Castling => None,
        };
        let record = MoveRecord {
            captured_piece,
            en_passant_square: board.en_passant_square(),
            half_move_clock: board.half_move_clock(),
            full_move_number: board.full_move_number(),
            castling_rights: board.castling_rights(),
        };
        self.make_move_on_board(board);
        record
    }

    /// Puts the pieces back where the move has taken them from.
    #[verifier::rlimit(30)]
    fn return_pieces(&self, board: &mut Board, record: MoveRecord)
        requires
            old(board).wf(),
            self.undoable_on(old(board)@, record),
        ensures
            final(board).wf(),
            final(board)@ == (Position {
                squares: self.squares_before(old(board)@, record),
                ..old(board)@
            }),
    {
        let ghost pos = board@;
        let color = self.piece.get_color();
        proof {
            board.lemma_view_wf();
            self.lemma_distinct_squares();
        }
        match self.meta_data.get_move_type() {
            MoveType::Regular => {
                relocate(board, self.target, self.origin, self.piece, self.piece);
                restore(board, self.target, record.captured_piece);
            },
            MoveType::Promotion => {
                relocate(board, self.target, self.origin, self.piece, color.get_pawn());
                restore(board, self.target, record.captured_piece);
            },
            MoveType::EnPassant => {
                let removal_square = Square::new(self.origin.get_row(), self.target.get_col());
                proof {
                    removal_square.lemma_index();
                }
                relocate(board, self.target, self.origin, self.piece, self.piece);
                restore(board, removal_square, record.captured_piece);
            },
            MoveType::Castling => {
                let rook = color.get_rook();
                let kingside = self.target.get_col().as_u8() > self.origin.get_col().as_u8();
                let side = if kingside {
                    CastleType::KingSide
                } else {
                    CastleType::QueenSide
                };
                proof {
                    color.rook_starting_square(side).lemma_index();
                    color.rook_castle_target(side).lemma_index();
                }
                relocate(board, self.target, self.origin, self.piece, self.piece);
                relocate(
                    board,
                    color.rook_castle_target(side),
                    color.rook_starting_square(side),
                    rook,
                    rook,
                );
            },
        }
        assert(board@.squares =~= self.squares_before(pos, record));
    }

    /// Takes the move back from the board on which it has been played.
    pub fn undo_move(&self, board: &mut Board, record: MoveRecord)
        requires
            old(board).wf(),
            self.undoable_on(old(board)@, record),
        ensures
            final(board).wf(),
            final(board)@ == self.taken_back_from(old(board)@, record),
    {
        self.return_pieces(board, record);
        let mover = board.active_player();
        board.set_active_player(mover.toggle_color());
        board.set_full_move_number(record.full_move_number);
        board.set_en_passant_square(record.en_passant_square);
        board.set_half_move_clock(record.half_move_clock);
        board.set_castling_rights(record.castling_rights);
    }
}

/// Takes `leaving` off the square `from` and puts `arriving` on the square
/// `to`, in place of whatever stands there.
#[verifier::rlimit(30)]
fn relocate(board: &mut Board, from: Square, to: Square, leaving: Piece, arriving: Piece)
    requires
        old(board).wf(),
        from != to,
        old(board)@.piece_at(from) == Some(leaving),
    ensures
        final(board).wf(),
        final(board)@ == old(board)@.with_square(from, None).with_square(to, Some(arriving)),
{
    proof {
        board.lemma_view_wf();
        from.lemma_index();
        to.lemma_index();
    }
    match board.get_piece_at(to) {
        Some(captured) => {
            let _ = board.remove_piece_at(to, captured);
        },
        None => {},
    }
    let _ = board.remove_piece_at(from, leaving);
    let _ = board.add_piece_at(to, arriving);
    assert(board@.squares =~= old(board)@.squares.update(from.index(), None).update(
        to.index(),
        Some(arriving),
    ));
}

/// Puts a captured piece back on its square, which must be free.
fn restore(board: &mut Board, square: Square, captured: Option<Piece>)
    requires
        old(board).wf(),
        !old(board)@.occupied(square),
    ensures
        final(board).wf(),
        final(board)@ == old(board)@.with_square(square, captured),
{
    proof {
        board.lemma_view_wf();
        square.lemma_index();
    }
    match captured {
        Some(piece) => {
            let _ = board.add_piece_at(square, piece);
        },
        None => {
            assert(board@.squares =~= board@.squares.update(square.index(), None));
        },
    }
}

/// The rights without those of `color` on the side whose rook starts on
/// `square`, if a rook of `color` starts there.
fn without_rook(rights: CastlingRights, color: Color, square: Square) -> (r: CastlingRights)
    ensures
        r == ChessMove::without_rook_of(rights, color, square),
{
    let mut rights = rights;
    if square == color.rook_starting_square(CastleType::KingSide) {
        rights.rook_moved(color, true);
    } else if square == color.rook_starting_square(CastleType::QueenSide) {
        rights.rook_moved(color, false);
    }
    rights
}

impl ChessMove {
    /// The letter of the piece as notation writes it before a move: none
    /// for a pawn or a promotion.
    pub open spec fn letter(self) -> Seq<char> {
        if self.meta_data.is_promotion() || self.piece.is_pawn() {
            Seq::empty()
        } else {
            seq![self.piece.to_char()]
        }
    }

    /// The move without what follows it: `O-O` or `O-O-O` for a castle;
    /// for every other move the letter of the piece, the origin, `x` for a
    /// capture or `-` for none, and the target.
    pub open spec fn stem(self) -> Seq<char> {
        if self.meta_data.is_castle() {
            self.castle_side().notation()
        } else {
            self.letter() + self.origin.name_of() + seq![
                if self.meta_data.is_capture() {
                    'x'
                } else {
                    '-'
                },
            ] + self.target.name_of()
        }
    }

    /// What follows a promotion: `=` and the letter of the new piece.
    pub open spec fn promotion_sign(self) -> Seq<char> {
        if self.meta_data.is_promotion() {
            seq!['=', self.piece.to_char()]
        } else {
            Seq::empty()
        }
    }

    /// The sign of the move's result, if it has one.
    pub open spec fn result_sign(self) -> Seq<char> {
        match self.meta_data.move_result().to_char() {
            Some(c) => seq![c],
            None => Seq::empty(),
        }
    }

    /// The move in long algebraic notation: its stem, the sign of a
    /// promotion and the sign of its result.
    pub open spec fn notation(self) -> Seq<char> {
        self.stem() + self.promotion_sign() + self.result_sign()
    }

    #[verifier::rlimit(30)]
    fn write_stem(&self) -> (s: String)
        ensures
            s@ == self.stem(),
    {
        if self.meta_data.is_castle() {
            if self.target.get_col().as_u8() > self.origin.get_col().as_u8() {
                CastleType::KingSide.to_string()
            } else {
                CastleType::QueenSide.to_string()
            }
        } else {
            let mut text = String::new();
            if !self.meta_data.is_promotion() && !self.piece.is_pawn() {
                push_char(&mut text, self.piece.to_char());
            }
            assert(text@ =~= self.letter());
            text.append(self.origin.to_square_str());
            push_char(
                &mut text,
                if self.meta_data.is_capture() {
                    'x'
                } else {
                    '-'
                },
            );
            text.append(self.target.to_square_str());
            assert(text@ =~= self.stem());
            text
        }
    }

    /// The move in long algebraic notation.
    #[verifier::rlimit(30)]
    pub fn to_long_algebraic(&self) -> (s: String)
        ensures
            s@ == self.notation(),
    {
        let mut algebraic_notation = self.write_stem();
        if self.meta_data.is_promotion() {
            push_char(&mut algebraic_notation, '=');
            push_char(&mut algebraic_notation, self.piece.to_char());
        }
        assert(algebraic_notation@ =~= self.stem() + self.promotion_sign());
        match self.meta_data.move_result().to_char() {
            Some(move_result) => {
                push_char(&mut algebraic_notation, move_result);
            },
            None => {},
        }
        assert(algebraic_notation@ =~= self.stem() + self.promotion_sign() + self.result_sign());
        algebraic_notation
    }

    /// The move in the notation for display, which is the long one.
    pub fn to_simplified(&self) -> (s: String)
        ensures
            s@ == self.notation(),
    {
        self.to_long_algebraic()
    }

    /// The move in long algebraic notation, a blank, and the name of its tag.
    pub fn debug_string(&self) -> (s: String)
        ensures
            s@ == self.notation() + seq![' '] + self.meta_data.name(),
    {
        let mut text = self.to_long_algebraic();
        push_char(&mut text, ' ');
        let name = self.meta_data.to_string();
        text.append(name.as_str());
        assert(text@ =~= self.notation() + seq![' '] + self.meta_data.name());
        text
    }
}

} // verus!
