//! Finding the move that is meant.
//!
//! A move comes from outside as a description: which piece, from where as
//! far as that is said, to which square, whether it promotes or castles.
//! The description is resolved against the moves of the position. It
//! stands for a move if exactly one legal move fits it.

use vstd::prelude::*;
use crate::board::Board;
use crate::chess_moves::ChessMove;
use crate::move_data::MoveError;
use crate::pieces::{Color, Piece};
use crate::position::Position;
use crate::rules::CastleType;
use crate::square::{Col, Row, Square};

verus! {

/// What is said of the square from which a move starts.
#[derive(Clone, Copy, Debug, PartialEq, Eq, Structural)]
pub enum Disambiguity {
    /// Nothing.
    Unspecified,
    /// Its column.
    File(Col),
    /// Its row.
    Rank(Row),
    /// The square itself.
    Square(Square),
}

/// The description of a move.
#[derive(Clone, Copy, Debug, PartialEq, Eq, Structural)]
pub struct MoveQuery {
    /// The piece that arrives: for a promotion the piece that the pawn becomes.
    pub piece: Piece,
    /// What is said of the origin.
    pub origin: Disambiguity,
    /// The square that the move reaches.
    pub target: Square,
    /// Whether the move promotes a pawn.
    pub promotes: bool,
    /// Whether the move is a castle.
    pub castles: bool,
}

impl Disambiguity {
    /// The square is one that the description allows as an origin.
    pub open spec fn admits(self, square: Square) -> bool {
        match self {
            Disambiguity::Unspecified => true,
            Disambiguity::File(col) => square.col() == col.index(),
            Disambiguity::Rank(row) => square.row() == row.index(),
            Disambiguity::Square(s) => square == s,
        }
    }

    /// Whether the square is one that the description allows as an origin.
    pub fn allows(&self, square: Square) -> (r: bool)
        ensures
            r == self.admits(square),
    {
        match self {
            Disambiguity::Unspecified => true,
            Disambiguity::File(col) => {
                proof {
                    col.lemma_index();
                }
                square.get_col().as_u8() == col.as_u8()
            },
            Disambiguity::Rank(row) => {
                proof {
                    row.lemma_index();
                }
                square.get_row().as_u8() == row.as_u8()
            },
            Disambiguity::Square(s) => square == *s,
        }
    }
}

impl MoveQuery {
    /// The move is one that the description fits.
    pub open spec fn fits(self, m: ChessMove) -> bool {
        &&& m.piece == self.piece
        &&& m.target == self.target
        &&& m.meta_data.is_promotion() == self.promotes
        &&& m.meta_data.is_castle() == self.castles
        &&& self.origin.admits(m.origin)
    }

    /// Whether the move is one that the description fits.
    pub fn accepts(&self, m: &ChessMove) -> (r: bool)
        ensures
            r == self.fits(*m),
    {
        m.piece == self.piece && m.target == self.target && m.meta_data.is_promotion()
            == self.promotes && m.meta_data.is_castle() == self.castles && self.origin.allows(
            m.origin,
        )
    }

    /// The piece that has to stand on the origin: the pawn for a
    /// promotion, the piece that arrives for every other move.
    #[verifier::allow_in_spec]
    pub fn mover(&self) -> Piece
        returns
            (if self.promotes {
                self.piece.get_color().get_pawn()
            } else {
                self.piece
            }),
    {
        if self.promotes {
            self.piece.get_color().get_pawn()
        } else {
            self.piece
        }
    }

    /// The moves of `moves` that the description fits, in the order of `moves`.
    pub open spec fn matching(self, moves: Seq<ChessMove>) -> Seq<ChessMove>
        decreases moves.len(),
    {
        if moves.len() == 0 {
            Seq::empty()
        } else if self.fits(moves.last()) {
            self.matching(moves.drop_last()).push(moves.last())
        } else {
            self.matching(moves.drop_last())
        }
    }

    /// The piece that is to move stands on a square that the description
    /// allows as an origin.
    pub open spec fn mover_present(self, pos: Position) -> bool {
        exists|k: int|
            0 <= k < pos.places(self.mover()).len() && self.origin.admits(
                #[trigger] pos.places(self.mover())[k],
            )
    }

    /// What the description stands for on the position. It stands for a
    /// move if exactly one legal move fits it. If several do, the
    /// description is ambiguous. If none does, the reason is the first that
    /// holds of: a pseudo-legal move fits, so that the move would leave the
    /// king attacked; the piece stands where the move should start but
    /// cannot go where it should; there is no such piece.
    pub open spec fn resolved(self, pos: Position) -> Result<ChessMove, MoveError> {
        let legal = self.matching(pos.legal_moves());
        if legal.len() == 1 {
            Ok(legal[0])
        } else if legal.len() > 1 {
            Err(MoveError::DisambiguousMove)
        } else if self.matching(pos.pseudo_legal_moves()).len() > 0 {
            Err(MoveError::LeavesKingInCheck)
        } else if self.mover_present(pos) {
            Err(MoveError::ObstructedMove)
        } else {
            Err(MoveError::PieceNotFound)
        }
    }

    /// The moves of `moves` that the description fits.
    pub fn select(&self, moves: &Vec<ChessMove>) -> (found: Vec<ChessMove>)
        ensures
            found@ == self.matching(moves@),
    {
        let mut found: Vec<ChessMove> = Vec::new();
        let mut k: usize = 0;
        assert(moves@.take(0) =~= Seq::empty());
        while k < moves.len()
            invariant
                k <= moves.len(),
                found@ == self.matching(moves@.take(k as int)),
            decreases moves.len() - k,
        {
            let m = moves[k];
            proof {
                let next = moves@.take(k as int + 1);
                assert(next.drop_last() =~= moves@.take(k as int));
                assert(next.last() == m);
            }
            if self.accepts(&m) {
                found.push(m);
            }
            k = k + 1;
        }
        assert(moves@.take(k as int) =~= moves@);
        found
    }

    /// Whether the piece that is to move stands on a square that the
    /// description allows as an origin.
    pub fn has_mover(&self, board: &Board) -> (r: bool)
        requires
            board.wf(),
        ensures
            r == self.mover_present(board@),
    {
        let places = board.find_piece_positions(self.mover());
        let mut k: usize = 0;
        while k < places.len()
            invariant
                k <= places.len(),
                places@ == board@.places(self.mover()),
                forall|j: int| 0 <= j < k ==> !self.origin.admits(places@[j]),
            decreases places.len() - k,
        {
            if self.origin.allows(places[k]) {
                return true;
            }
            k = k + 1;
        }
        false
    }

    /// The move that the description stands for on the board, or the
    /// reason why it stands for none. The board is left as it was.
    #[verifier::rlimit(30)]
    pub fn resolve(&self, board: &mut Board) -> (r: Result<ChessMove, MoveError>)
        requires
            old(board).wf(),
        ensures
            *final(board) == *old(board),
            r == self.resolved(old(board)@),
    {
        let possible = ChessMove::get_possible_moves(board);
        let legal = self.select(&ChessMove::get_valid_moves(board));
        if legal.len() == 1 {
            Ok(legal[0])
        } else if legal.len() > 1 {
            Err(MoveError::DisambiguousMove)
        } else if self.select(&possible).len() > 0 {
            Err(MoveError::LeavesKingInCheck)
        } else if self.has_mover(board) {
            Err(MoveError::ObstructedMove)
        } else {
            Err(MoveError::PieceNotFound)
        }
    }
}

/// The description of the castle of `color` on the side.
pub open spec fn castle_query(color: Color, castle_type: CastleType) -> MoveQuery {
    MoveQuery {
        piece: color.get_king(),
        origin: Disambiguity::Unspecified,
        target: color.king_castle_target(castle_type),
        promotes: false,
        castles: true,
    }
}

/// The description of the move of the piece `standing` from `origin` to
/// `target`. A move that promotes is taken to promote to a queen. A king
/// that goes two columns along its row is taken to castle.
pub open spec fn squares_query(standing: Piece, origin: Square, target: Square, promotes: bool) -> MoveQuery {
    MoveQuery {
        piece: if promotes {
            standing.get_color().get_queen()
        } else {
            standing
        },
        origin: Disambiguity::Square(origin),
        target,
        promotes,
        castles: standing.is_king() && origin.row() == target.row() && (origin.col()
            == target.col() + 2 || origin.col() + 2 == target.col()),
    }
}

impl ChessMove {
    /// The castle of the player to move on the given side, if it is legal.
    pub fn new_castle(board: &mut Board, castle_type: CastleType) -> (r: Result<
        ChessMove,
        MoveError,
    >)
        requires
            old(board).wf(),
        ensures
            *final(board) == *old(board),
            r == castle_query(old(board)@.active_player, castle_type).resolved(old(board)@),
    {
        let color = board.active_player();
        let query = MoveQuery {
            piece: color.get_king(),
            origin: Disambiguity::Unspecified,
            target: color.king_castle_target(castle_type),
            promotes: false,
            castles: true,
        };
        query.resolve(board)
    }

    /// The legal move that brings `piece` from `origin` to `target`, as a
    /// promotion if `promotes`.
    pub fn valid_new(
        board: &mut Board,
        piece: Piece,
        origin: Square,
        target: Square,
        promotes: bool,
    ) -> (r: Result<ChessMove, MoveError>)
        requires
            old(board).wf(),
        ensures
            *final(board) == *old(board),
            r == (MoveQuery {
                piece,
                origin: Disambiguity::Square(origin),
                target,
                promotes,
                castles: false,
            }).resolved(old(board)@),
    {
        let query = MoveQuery {
            piece,
            origin: Disambiguity::Square(origin),
            target,
            promotes,
            castles: false,
        };
        query.resolve(board)
    }

    /// The legal move that brings `piece` to `target` from a square that
    /// the description of the origin allows, as a promotion if `promotes`.
    pub fn new_with_disambiguation(
        board: &mut Board,
        piece: Piece,
        origin: Disambiguity,
        target: Square,
        promotes: bool,
    ) -> (r: Result<ChessMove, MoveError>)
        requires
            old(board).wf(),
        ensures
            *final(board) == *old(board),
            r == (MoveQuery { piece, origin, target, promotes, castles: false }).resolved(
                old(board)@,
            ),
    {
        let query = MoveQuery { piece, origin, target, promotes, castles: false };
        query.resolve(board)
    }

    /// The legal move from `origin` to `target` of the piece that stands
    /// on `origin`. Fails with `PieceNotFound` where the square is empty.
    #[verifier::rlimit(30)]
    pub fn new_from_squares(board: &mut Board, origin: Square, target: Square, promotes: bool) -> (r:
        Result<ChessMove, MoveError>)
        requires
            old(board).wf(),
        ensures
            *final(board) == *old(board),
            r == (match old(board)@.piece_at(origin) {
                Some(standing) => squares_query(standing, origin, target, promotes).resolved(
                    old(board)@,
                ),
                None => Err(MoveError::PieceNotFound),
            }),
    {
        match board.get_piece_at(origin) {
            None => Err(MoveError::PieceNotFound),
            Some(standing) => {
                let origin_col = origin.get_col().as_u8();
                let target_col = target.get_col().as_u8();
                let castles = standing.is_king() && origin.get_row().as_u8()
                    == target.get_row().as_u8() && (origin_col == target_col + 2 || origin_col + 2
                    == target_col);
                let query = MoveQuery {
                    piece: if promotes {
                        standing.get_color().get_queen()
                    } else {
                        standing
                    },
                    origin: Disambiguity::Square(origin),
                    target,
                    promotes,
                    castles,
                };
                query.resolve(board)
            },
        }
    }
}

} // verus!
