//! The board: twelve sets of squares, one for each piece, and the set of
//! all occupied squares beside them, with the rest of the game state.
//!
//! What a board means is its [`Position`]; every operation says what it
//! does to that. The representation has one invariant, [`Board::wf`]: no
//! square belongs to two of the twelve sets, and the set of occupied
//! squares is their union. Every operation that changes a board keeps it.

use vstd::prelude::*;
use crate::bitboard::{holds, members, members_from, Bitboard, BitboardExt};
use crate::bits::{
    has_bit,
    lemma_and,
    lemma_clear_bit,
    lemma_empty,
    lemma_ext,
    lemma_mask_test,
    lemma_or,
    lemma_set_bit,
    lemma_xor,
    lemma_zero,
};
use crate::castling_rights::CastlingRights;
use crate::pieces::{Color, Piece};
use crate::position::{in_prefix, lemma_in_prefix_step, Position};
use crate::square::{dir, rank_char, tail, Square, SquareIterator};
use crate::text::push_char;

verus! {

/// What can go wrong when a piece is put on a board or taken off it.
#[derive(Clone, Copy, Debug, PartialEq, Eq, Structural)]
pub enum BoardError {
    /// The piece to take off does not stand on the square.
    PieceNotFound,
    /// The square on which to put a piece is occupied.
    SquareOccupied,
}

/// A chess board with its pieces, castling rights, en-passant square, move
/// counters and the player to move.
#[derive(Clone, Copy, Debug, PartialEq, Eq)]
pub struct Board {
    data: [Bitboard; 12],
    piece_locations: Bitboard,
    castling_rights: CastlingRights,
    en_passant_square: Option<Square>,
    half_move_clock: u8,
    full_move_number: u8,
    active_player: Color,
}

proof fn bv_standard(j: u64)
    by (bit_vector)
    requires
        j < 64,
    ensures
        ((0x00FF000000000000u64 >> j) & 1 == 1) == (48 <= j && j < 56),
        ((0x000000000000FF00u64 >> j) & 1 == 1) == (8 <= j && j < 16),
        ((0x8100000000000000u64 >> j) & 1 == 1) == (j == 56 || j == 63),
        ((0x0000000000000081u64 >> j) & 1 == 1) == (j == 0 || j == 7),
        ((0x4200000000000000u64 >> j) & 1 == 1) == (j == 57 || j == 62),
        ((0x0000000000000042u64 >> j) & 1 == 1) == (j == 1 || j == 6),
        ((0x2400000000000000u64 >> j) & 1 == 1) == (j == 58 || j == 61),
        ((0x0000000000000024u64 >> j) & 1 == 1) == (j == 2 || j == 5),
        ((0x0800000000000000u64 >> j) & 1 == 1) == (j == 59),
        ((0x0000000000000008u64 >> j) & 1 == 1) == (j == 3),
        ((0x1000000000000000u64 >> j) & 1 == 1) == (j == 60),
        ((0x0000000000000010u64 >> j) & 1 == 1) == (j == 4),
        ((0xFFFF00000000FFFFu64 >> j) & 1 == 1) == (j < 16 || j >= 48),
{
}

impl View for Board {
    type V = Position;

    /// The position that the board stands for.
    closed spec fn view(&self) -> Position {
        Position {
            squares: Seq::new(64, |i: int| self.piece_on(i)),
            castling_rights: self.castling_rights,
            en_passant_square: self.en_passant_square,
            half_move_clock: self.half_move_clock,
            full_move_number: self.full_move_number,
            active_player: self.active_player,
        }
    }
}

impl Board {
    /// The set of squares on which `piece` stands.
    pub closed spec fn bitboard(self, piece: Piece) -> Bitboard {
        self.data[piece.index()]
    }

    /// The set of occupied squares, as the board keeps it.
    pub closed spec fn occupancy(self) -> Bitboard {
        self.piece_locations
    }

    /// The union of the twelve sets.
    pub open spec fn union(self) -> Bitboard {
        self.bitboard(Piece::WhitePawn) | self.bitboard(Piece::BlackPawn) | self.bitboard(
            Piece::WhiteRook,
        ) | self.bitboard(Piece::BlackRook) | self.bitboard(Piece::WhiteKnight) | self.bitboard(
            Piece::BlackKnight,
        ) | self.bitboard(Piece::WhiteBishop) | self.bitboard(Piece::BlackBishop) | self.bitboard(
            Piece::WhiteQueen,
        ) | self.bitboard(Piece::BlackQueen) | self.bitboard(Piece::WhiteKing) | self.bitboard(
            Piece::BlackKing,
        )
    }

    /// The invariant of the representation: the set of occupied squares is
    /// the union of the twelve sets, and no two of the twelve share a square.
    pub open spec fn wf(self) -> bool {
        &&& self.occupancy() == self.union()
        &&& forall|p: Piece, q: Piece|
            #![trigger self.bitboard(p), self.bitboard(q)]
            p != q ==> self.bitboard(p) & self.bitboard(q) == 0
    }

    spec fn piece_on(self, i: int) -> Option<Piece> {
        if has_bit(self.bitboard(Piece::WhitePawn), i) {
            Some(Piece::WhitePawn)
        } else if has_bit(self.bitboard(Piece::BlackPawn), i) {
            Some(Piece::BlackPawn)
        } else if has_bit(self.bitboard(Piece::WhiteRook), i) {
            Some(Piece::WhiteRook)
        } else if has_bit(self.bitboard(Piece::BlackRook), i) {
            Some(Piece::BlackRook)
        } else if has_bit(self.bitboard(Piece::WhiteKnight), i) {
            Some(Piece::WhiteKnight)
        } else if has_bit(self.bitboard(Piece::BlackKnight), i) {
            Some(Piece::BlackKnight)
        } else if has_bit(self.bitboard(Piece::WhiteBishop), i) {
            Some(Piece::WhiteBishop)
        } else if has_bit(self.bitboard(Piece::BlackBishop), i) {
            Some(Piece::BlackBishop)
        } else if has_bit(self.bitboard(Piece::WhiteQueen), i) {
            Some(Piece::WhiteQueen)
        } else if has_bit(self.bitboard(Piece::BlackQueen), i) {
            Some(Piece::BlackQueen)
        } else if has_bit(self.bitboard(Piece::WhiteKing), i) {
            Some(Piece::WhiteKing)
        } else if has_bit(self.bitboard(Piece::BlackKing), i) {
            Some(Piece::BlackKing)
        } else {
            None
        }
    }

    /// The sets say, square by square, what `target` says.
    spec fn bits_match(self, target: Seq<Option<Piece>>) -> bool {
        &&& target.len() == 64
        &&& forall|i: int, p: Piece|
            0 <= i < 64 ==> #[trigger] has_bit(self.bitboard(p), i) == (target[i] == Some(p))
        &&& forall|i: int|
            0 <= i < 64 ==> #[trigger] has_bit(self.occupancy(), i) == (target[i] is Some)
    }

    #[verifier::rlimit(30)]
    proof fn lemma_union_bits(self)
        ensures
            forall|i: int| #[trigger]
                has_bit(self.union(), i) == (exists|p: Piece| has_bit(self.bitboard(p), i)),
    {
        let d0 = self.bitboard(Piece::WhitePawn);
        let d1 = self.bitboard(Piece::BlackPawn);
        let d2 = self.bitboard(Piece::WhiteRook);
        let d3 = self.bitboard(Piece::BlackRook);
        let d4 = self.bitboard(Piece::WhiteKnight);
        let d5 = self.bitboard(Piece::BlackKnight);
        let d6 = self.bitboard(Piece::WhiteBishop);
        let d7 = self.bitboard(Piece::BlackBishop);
        let d8 = self.bitboard(Piece::WhiteQueen);
        let d9 = self.bitboard(Piece::BlackQueen);
        let d10 = self.bitboard(Piece::WhiteKing);
        let d11 = self.bitboard(Piece::BlackKing);
        let u1 = d0 | d1;
        let u2 = u1 | d2;
        let u3 = u2 | d3;
        let u4 = u3 | d4;
        let u5 = u4 | d5;
        let u6 = u5 | d6;
        let u7 = u6 | d7;
        let u8 = u7 | d8;
        let u9 = u8 | d9;
        let u10 = u9 | d10;
        let u11 = u10 | d11;
        lemma_or(d0, d1);
        lemma_or(u1, d2);
        lemma_or(u2, d3);
        lemma_or(u3, d4);
        lemma_or(u4, d5);
        lemma_or(u5, d6);
        lemma_or(u6, d7);
        lemma_or(u7, d8);
        lemma_or(u8, d9);
        lemma_or(u9, d10);
        lemma_or(u10, d11);
        assert(self.union() == u11);
        assert forall|i: int| #[trigger]
            has_bit(self.union(), i) == (exists|p: Piece| has_bit(self.bitboard(p), i)) by {
            if exists|p: Piece| has_bit(self.bitboard(p), i) {
                let p = choose|p: Piece| has_bit(self.bitboard(p), i);
                assert(has_bit(u11, i)) by {
                    match p {
                        Piece::WhitePawn => {},
                        Piece::BlackPawn => {},
                        Piece::WhiteRook => {},
                        Piece::BlackRook => {},
                        Piece::WhiteKnight => {},
                        Piece::BlackKnight => {},
                        Piece::WhiteBishop => {},
                        Piece::BlackBishop => {},
                        Piece::WhiteQueen => {},
                        Piece::BlackQueen => {},
                        Piece::WhiteKing => {},
                        Piece::BlackKing => {},
                    }
                }
            }
            if has_bit(u11, i) {
                if has_bit(d0, i) {
                } else if has_bit(d1, i) {
                } else if has_bit(d2, i) {
                } else if has_bit(d3, i) {
                } else if has_bit(d4, i) {
                } else if has_bit(d5, i) {
                } else if has_bit(d6, i) {
                } else if has_bit(d7, i) {
                } else if has_bit(d8, i) {
                } else if has_bit(d9, i) {
                } else if has_bit(d10, i) {
                } else {
                    assert(has_bit(d11, i));
                }
            }
        }
    }

    /// On a board that keeps the invariant, the sets say what the position says.
    #[verifier::rlimit(30)]
    proof fn lemma_bits(self)
        requires
            self.wf(),
        ensures
            self.bits_match(self@.squares),
    {
        self.lemma_union_bits();
        lemma_zero();
        assert forall|i: int, p: Piece, q: Piece|
            p != q && has_bit(self.bitboard(p), i) implies !has_bit(self.bitboard(q), i) by {
            lemma_and(self.bitboard(p), self.bitboard(q));
            assert(self.bitboard(p) & self.bitboard(q) == 0);
            assert(!has_bit(self.bitboard(p) & self.bitboard(q), i));
        }
        let target = self@.squares;
        assert forall|i: int, p: Piece| 0 <= i < 64 implies #[trigger] has_bit(
            self.bitboard(p),
            i,
        ) == (target[i] == Some(p)) by {
            assert(target[i] == self.piece_on(i));
            if has_bit(self.bitboard(p), i) {
                assert forall|q: Piece| q != p implies !has_bit(self.bitboard(q), i) by {}
            }
        }
        assert forall|i: int| 0 <= i < 64 implies #[trigger] has_bit(self.occupancy(), i)
            == (target[i] is Some) by {
            assert(target[i] == self.piece_on(i));
            if target[i] is Some {
                let p = target[i]->0;
                assert(has_bit(self.bitboard(p), i));
            }
        }
    }

    /// A board whose sets say what `target` says keeps the invariant and
    /// stands for `target`.
    #[verifier::rlimit(30)]
    proof fn lemma_establish(self, target: Seq<Option<Piece>>)
        requires
            self.bits_match(target),
        ensures
            self.wf(),
            self@.squares == target,
    {
        self.lemma_union_bits();
        lemma_zero();
        assert forall|j: int| 0 <= j < 64 implies has_bit(self.occupancy(), j) == has_bit(
            self.union(),
            j,
        ) by {
            if target[j] is Some {
                let p = target[j]->0;
                assert(has_bit(self.bitboard(p), j));
            }
        }
        lemma_ext(self.occupancy(), self.union());
        assert forall|p: Piece, q: Piece|
            #![trigger self.bitboard(p), self.bitboard(q)]
            p != q implies self.bitboard(p) & self.bitboard(q) == 0 by {
            let x = self.bitboard(p) & self.bitboard(q);
            lemma_and(self.bitboard(p), self.bitboard(q));
            assert forall|j: int| 0 <= j < 64 implies !has_bit(x, j) by {
                if has_bit(self.bitboard(p), j) && has_bit(self.bitboard(q), j) {
                    assert(target[j] == Some(p));
                    assert(target[j] == Some(q));
                }
            }
            lemma_empty(x);
        }
        assert forall|i: int| 0 <= i < 64 implies self.piece_on(i) == target[i] by {
            match target[i] {
                Some(p) => {
                    assert(has_bit(self.bitboard(p), i));
                    assert forall|q: Piece| q != p implies !has_bit(self.bitboard(q), i) by {
                        if has_bit(self.bitboard(q), i) {
                            assert(target[i] == Some(q));
                        }
                    }
                },
                None => {
                    assert forall|q: Piece| !has_bit(self.bitboard(q), i) by {
                        if has_bit(self.bitboard(q), i) {
                            assert(target[i] == Some(q));
                        }
                    }
                },
            }
        }
        assert(self@.squares =~= target);
    }

    /// A position is well formed if a board stands for it.
    pub proof fn lemma_view_wf(self)
        ensures
            self@.wf(),
    {
    }

    /// On a board that keeps the invariant, the set of a piece holds the
    /// squares on which the position has that piece, and the set of
    /// occupied squares those on which it has any.
    pub proof fn lemma_sets(self)
        requires
            self.wf(),
        ensures
            forall|p: Piece, s: Square|
                #![trigger holds(self.bitboard(p), s)]
                holds(self.bitboard(p), s) == (self@.piece_at(s) == Some(p)),
            forall|s: Square| #[trigger] holds(self.occupancy(), s) == self@.occupied(s),
    {
        self.lemma_bits();
        assert forall|p: Piece, s: Square|
            #![trigger holds(self.bitboard(p), s)]
            holds(self.bitboard(p), s) == (self@.piece_at(s) == Some(p)) by {
            s.lemma_index();
        }
        assert forall|s: Square| #[trigger] holds(self.occupancy(), s) == self@.occupied(s) by {
            s.lemma_index();
        }
    }

    /// Two boards that keep the invariant and stand for the same position
    /// are the same board, bit for bit.
    #[verifier::rlimit(30)]
    pub proof fn lemma_same_position(self, other: Board)
        requires
            self.wf(),
            other.wf(),
            self@ == other@,
        ensures
            self == other,
    {
        self.lemma_bits();
        other.lemma_bits();
        assert forall|k: int| 0 <= k < 12 implies self.data[k] == other.data[k] by {
            let p = Piece::at(k);
            Piece::lemma_at(k);
            assert(self.bitboard(p) == self.data[k]);
            assert(other.bitboard(p) == other.data[k]);
            assert forall|j: int| 0 <= j < 64 implies has_bit(self.data[k], j) == has_bit(
                other.data[k],
                j,
            ) by {
                assert(has_bit(self.bitboard(p), j) == (self@.squares[j] == Some(p)));
                assert(has_bit(other.bitboard(p), j) == (other@.squares[j] == Some(p)));
            }
            lemma_ext(self.data[k], other.data[k]);
        }
        assert(self.data@ =~= other.data@);
        assert(self.data == other.data);
        assert forall|j: int| 0 <= j < 64 implies has_bit(self.piece_locations, j) == has_bit(
            other.piece_locations,
            j,
        ) by {
            assert(has_bit(self.occupancy(), j) == (self@.squares[j] is Some));
            assert(has_bit(other.occupancy(), j) == (other@.squares[j] is Some));
        }
        lemma_ext(self.piece_locations, other.piece_locations);
    }

    /// The board at the start of a game: the pieces on their first squares,
    /// all castling rights, White to move.
    #[verifier::rlimit(30)]
    pub fn std_new() -> (board: Board)
        ensures
            board.wf(),
            board@ == Position::standard(),
    {
        let board = Board {
            castling_rights: 15,
            en_passant_square: None,
            half_move_clock: 0,
            full_move_number: 1,
            active_player: Color::White,
            piece_locations: 0xFFFF00000000FFFF,
            data: [
                0x00FF000000000000,
                0x000000000000FF00,
                0x8100000000000000,
                0x0000000000000081,
                0x4200000000000000,
                0x0000000000000042,
                0x2400000000000000,
                0x0000000000000024,
                0x0800000000000000,
                0x0000000000000008,
                0x1000000000000000,
                0x0000000000000010,
            ],
        };
        proof {
            let target = Position::standard().squares;
            assert forall|i: int, p: Piece| 0 <= i < 64 implies #[trigger] has_bit(
                board.bitboard(p),
                i,
            ) == (target[i] == Some(p)) by {
                bv_standard(i as u64);
            }
            assert forall|i: int| 0 <= i < 64 implies #[trigger] has_bit(board.occupancy(), i) == (
            target[i] is Some) by {
                bv_standard(i as u64);
            }
            board.lemma_establish(target);
        }
        board
    }

    /// The board without any piece and without castling rights, White to move.
    pub fn empty_new() -> (board: Board)
        ensures
            board.wf(),
            board@ == Position::empty(),
    {
        let board = Board {
            castling_rights: 0,
            en_passant_square: None,
            half_move_clock: 0,
            full_move_number: 1,
            active_player: Color::White,
            piece_locations: 0,
            data: [0, 0, 0, 0, 0, 0, 0, 0, 0, 0, 0, 0],
        };
        proof {
            lemma_zero();
            board.lemma_establish(Position::empty().squares);
        }
        board
    }

    /// A copy of the board.
    pub fn clone(&self) -> (board: Board)
        ensures
            board == *self,
    {
        Board {
            castling_rights: self.castling_rights,
            en_passant_square: self.en_passant_square,
            half_move_clock: self.half_move_clock,
            full_move_number: self.full_move_number,
            active_player: self.active_player,
            piece_locations: self.piece_locations,
            data: self.data,
        }
    }

    /// The castling rights that are still held.
    pub fn castling_rights(&self) -> (r: CastlingRights)
        ensures
            r == self@.castling_rights,
    {
        self.castling_rights
    }

    /// The square that a pawn has just passed over in a double step.
    pub fn en_passant_square(&self) -> (r: Option<Square>)
        ensures
            r == self@.en_passant_square,
    {
        self.en_passant_square
    }

    /// The number of moves since the last capture or pawn move.
    pub fn half_move_clock(&self) -> (r: u8)
        ensures
            r == self@.half_move_clock,
    {
        self.half_move_clock
    }

    /// The number of the move that is being played.
    pub fn full_move_number(&self) -> (r: u8)
        ensures
            r == self@.full_move_number,
    {
        self.full_move_number
    }

    /// The player whose turn it is.
    pub fn active_player(&self) -> (r: Color)
        ensures
            r == self@.active_player,
    {
        self.active_player
    }

    /// Replaces the castling rights.
    pub fn set_castling_rights(&mut self, rights: CastlingRights)
        ensures
            final(self)@ == (Position { castling_rights: rights, ..old(self)@ }),
            final(self).wf() == old(self).wf(),
    {
        self.castling_rights = rights;
        proof {
            self.lemma_kept(*old(self));
        }
    }

    /// Replaces the en-passant square.
    pub fn set_en_passant_square(&mut self, square: Option<Square>)
        ensures
            final(self)@ == (Position { en_passant_square: square, ..old(self)@ }),
            final(self).wf() == old(self).wf(),
    {
        self.en_passant_square = square;
        proof {
            self.lemma_kept(*old(self));
        }
    }

    /// Replaces the count of moves since the last capture or pawn move.
    pub fn set_half_move_clock(&mut self, clock: u8)
        ensures
            final(self)@ == (Position { half_move_clock: clock, ..old(self)@ }),
            final(self).wf() == old(self).wf(),
    {
        self.half_move_clock = clock;
        proof {
            self.lemma_kept(*old(self));
        }
    }

    /// Replaces the number of the move that is being played.
    pub fn set_full_move_number(&mut self, number: u8)
        ensures
            final(self)@ == (Position { full_move_number: number, ..old(self)@ }),
            final(self).wf() == old(self).wf(),
    {
        self.full_move_number = number;
        proof {
            self.lemma_kept(*old(self));
        }
    }

    /// Replaces the player whose turn it is.
    pub fn set_active_player(&mut self, color: Color)
        ensures
            final(self)@ == (Position { active_player: color, ..old(self)@ }),
            final(self).wf() == old(self).wf(),
    {
        self.active_player = color;
        proof {
            self.lemma_kept(*old(self));
        }
    }

    /// A board with the sets of another has its invariant and its pieces.
    proof fn lemma_kept(self, other: Board)
        requires
            self.data == other.data,
            self.piece_locations == other.piece_locations,
        ensures
            self.wf() == other.wf(),
            self@.squares == other@.squares,
    {
        assert forall|p: Piece| self.bitboard(p) == other.bitboard(p) by {}
        assert(self.union() == other.union());
        assert forall|i: int| 0 <= i < 64 implies self.piece_on(i) == other.piece_on(i) by {}
        assert(self@.squares =~= other@.squares);
    }

    /// The set of squares on which `piece` stands.
    pub fn get_bitboard(&self, piece: Piece) -> (bb: Bitboard)
        requires
            self.wf(),
        ensures
            bb == self.bitboard(piece),
            forall|s: Square| #[trigger] holds(bb, s) == (self@.piece_at(s) == Some(piece)),
    {
        proof {
            self.lemma_sets();
        }
        self.data[piece.to_index()]
    }

    /// The set of occupied squares.
    pub fn get_occupancy(&self) -> (bb: Bitboard)
        requires
            self.wf(),
        ensures
            bb == self.occupancy(),
            forall|s: Square| #[trigger] holds(bb, s) == self@.occupied(s),
    {
        proof {
            self.lemma_sets();
        }
        self.piece_locations
    }

    /// Puts `piece` on exactly the squares of `bitboard`. None of them may
    /// hold another piece: the set must not meet the set of any other piece.
    /// The set of occupied squares follows by the difference between the
    /// old set of the piece and the new one.
    #[verifier::rlimit(30)]
    pub fn set_bitboard(&mut self, piece: Piece, bitboard: u64)
        requires
            old(self).wf(),
            forall|s: Square|
                holds(bitboard, s) ==> old(self)@.piece_at(s) is None || old(self)@.piece_at(s)
                    == Some(piece),
        ensures
            final(self).wf(),
            final(self).bitboard(piece) == bitboard,
            forall|q: Piece| q != piece ==> final(self).bitboard(q) == old(self).bitboard(q),
            final(self).occupancy() == old(self).occupancy() ^ (old(self).bitboard(piece)
                ^ bitboard),
            final(self)@ == (Position {
                squares: Seq::new(
                    64,
                    |i: int|
                        if has_bit(bitboard, i) {
                            Some(piece)
                        } else if old(self)@.squares[i] == Some(piece) {
                            None
                        } else {
                            old(self)@.squares[i]
                        },
                ),
                ..old(self)@
            }),
    {
        let index = piece.to_index();
        let bitboard_change = self.data[index] ^ bitboard;
        proof {
            self.lemma_bits();
            lemma_xor(self.data[index as int], bitboard);
            lemma_xor(self.piece_locations, bitboard_change);
        }
        self.data[index] = bitboard;
        self.piece_locations = self.piece_locations ^ bitboard_change;
        proof {
            let before = old(self)@.squares;
            let target = Seq::new(
                64,
                |i: int|
                    if has_bit(bitboard, i) {
                        Some(piece)
                    } else if before[i] == Some(piece) {
                        None
                    } else {
                        before[i]
                    },
            );
            assert forall|q: Piece| q != piece implies self.bitboard(q) == old(self).bitboard(
                q,
            ) by {}
            assert forall|i: int, p: Piece| 0 <= i < 64 implies #[trigger] has_bit(
                self.bitboard(p),
                i,
            ) == (target[i] == Some(p)) by {
                Square::lemma_at(i);
                assert(holds(bitboard, Square::at(i)) == has_bit(bitboard, i));
                assert(has_bit(old(self).bitboard(p), i) == (before[i] == Some(p)));
            }
            assert forall|i: int| 0 <= i < 64 implies #[trigger] has_bit(self.occupancy(), i) == (
            target[i] is Some) by {
                Square::lemma_at(i);
                assert(holds(bitboard, Square::at(i)) == has_bit(bitboard, i));
                assert(has_bit(old(self).occupancy(), i) == (before[i] is Some));
                assert(has_bit(old(self).bitboard(piece), i) == (before[i] == Some(piece)));
            }
            self.lemma_establish(target);
        }
    }

    /// The number of pieces on the board.
    pub fn get_piece_count(&self) -> (n: u8)
        requires
            self.wf(),
        ensures
            n == self@.piece_count(),
    {
        proof {
            self.lemma_bits();
            self.lemma_count(64);
        }
        self.piece_locations.count()
    }

    proof fn lemma_count(self, n: int)
        requires
            self.bits_match(self@.squares),
            0 <= n <= 64,
        ensures
            crate::bits::count_below(self.occupancy(), n) == self@.count_below(n),
        decreases n,
    {
        if n > 0 {
            self.lemma_count(n - 1);
        }
    }

    /// The piece on the square, if there is one.
    #[verifier::rlimit(30)]
    pub fn get_piece_at(&self, square: Square) -> (r: Option<Piece>)
        requires
            self.wf(),
        ensures
            r == self@.piece_at(square),
    {
        let i = square.inner();
        let mask = 1u64 << (i as u64);
        proof {
            self.lemma_bits();
            lemma_mask_test(self.piece_locations, i as int);
        }
        if self.piece_locations & mask == 0 {
            return None;
        }
        let mut k: usize = 0;
        while k < 12
            invariant
                k <= 12,
                i == square.index(),
                mask == 1u64 << (i as u64),
                self.bits_match(self@.squares),
                forall|j: int| 0 <= j < k ==> self@.piece_at(square) != Some(Piece::at(j)),
            decreases 12 - k,
        {
            proof {
                lemma_mask_test(self.data[k as int], i as int);
                Piece::lemma_at(k as int);
                assert(self.bitboard(Piece::at(k as int)) == self.data[k as int]);
            }
            if self.data[k] & mask != 0 {
                return Piece::from_index(k);
            }
            k = k + 1;
        }
        proof {
            if self@.piece_at(square) is Some {
                let p = self@.piece_at(square)->0;
                p.lemma_index();
                assert(self@.piece_at(square) != Some(Piece::at(p.index())));
            }
        }
        None
    }

    /// The colour of the piece on the square, if there is one.
    pub fn get_piece_color_at(&self, square: Square) -> (r: Option<Color>)
        requires
            self.wf(),
        ensures
            r == (match self@.piece_at(square) {
                Some(p) => Some(p.get_color()),
                None => None,
            }),
    {
        match self.get_piece_at(square) {
            Some(piece) => Some(piece.get_color()),
            None => None,
        }
    }

    /// Whether a piece stands on the square.
    pub fn is_square_occupied(&self, square: Square) -> (r: bool)
        requires
            self.wf(),
        ensures
            r == self@.occupied(square),
    {
        proof {
            self.lemma_sets();
        }
        self.piece_locations.square_in_bitboard(square)
    }

    /// Whether `piece` stands on the square.
    pub fn is_piece_at(&self, square: Square, piece: Piece) -> (r: bool)
        requires
            self.wf(),
        ensures
            r == (self@.piece_at(square) == Some(piece)),
    {
        proof {
            self.lemma_sets();
        }
        self.data[piece.to_index()].square_in_bitboard(square)
    }

    /// The piece on the square, if it has the given colour.
    #[verifier::rlimit(30)]
    pub fn get_colored_piece_at(&self, square: Square, color: Color) -> (r: Option<Piece>)
        requires
            self.wf(),
        ensures
            r == self@.colored_piece_at(square, color),
    {
        let pieces = Piece::iter_color_pieces(&color);
        let mut k: usize = 0;
        while k < 6
            invariant
                k <= 6,
                self.wf(),
                pieces@ == Piece::of_color(color),
                forall|j: int| 0 <= j < k ==> self@.piece_at(square) != Some(pieces@[j]),
            decreases 6 - k,
        {
            let piece = pieces[k];
            if self.is_piece_at(square, piece) {
                return Some(piece);
            }
            k = k + 1;
        }
        proof {
            if self@.holds_color(square, color) {
                let p = self@.piece_at(square)->0;
                assert(exists|j: int| 0 <= j < 6 && pieces@[j] == p) by {
                    if p.is_pawn() {
                        assert(pieces@[0] == p);
                    } else if p.is_rook() {
                        assert(pieces@[1] == p);
                    } else if p.is_knight() {
                        assert(pieces@[2] == p);
                    } else if p.is_bishop() {
                        assert(pieces@[3] == p);
                    } else if p.is_queen() {
                        assert(pieces@[4] == p);
                    } else {
                        assert(pieces@[5] == p);
                    }
                }
            }
        }
        None
    }

    /// Takes `piece` off the square. Fails, and changes nothing, where the
    /// piece does not stand there.
    #[verifier::rlimit(30)]
    pub fn remove_piece_at(&mut self, square: Square, piece: Piece) -> (r: Result<(), BoardError>)
        requires
            old(self).wf(),
        ensures
            final(self).wf(),
            old(self)@.piece_at(square) == Some(piece) ==> r is Ok && final(self)@ == old(
                self,
            )@.with_square(square, None),
            old(self)@.piece_at(square) != Some(piece) ==> r == Err::<(), BoardError>(
                BoardError::PieceNotFound,
            ) && *final(self) == *old(self),
    {
        let i = square.inner();
        let index = piece.to_index();
        let mask = 1u64 << (i as u64);
        proof {
            self.lemma_bits();
            lemma_mask_test(self.data[index as int], i as int);
        }
        if self.data[index] & mask == 0 {
            return Err(BoardError::PieceNotFound);
        }
        proof {
            lemma_clear_bit(self.data[index as int], i as int);
            lemma_clear_bit(self.piece_locations, i as int);
        }
        self.data[index] = self.data[index] & !mask;
        self.piece_locations = self.piece_locations & !mask;
        proof {
            let before = old(self)@.squares;
            let target = before.update(i as int, None);
            assert forall|q: Piece| q != piece implies self.bitboard(q) == old(self).bitboard(
                q,
            ) by {}
            assert forall|j: int, p: Piece| 0 <= j < 64 implies #[trigger] has_bit(
                self.bitboard(p),
                j,
            ) == (target[j] == Some(p)) by {
                assert(has_bit(old(self).bitboard(p), j) == (before[j] == Some(p)));
            }
            assert forall|j: int| 0 <= j < 64 implies #[trigger] has_bit(self.occupancy(), j) == (
            target[j] is Some) by {
                assert(has_bit(old(self).occupancy(), j) == (before[j] is Some));
            }
            self.lemma_establish(target);
        }
        Ok(())
    }

    /// Puts `piece` on the square. Fails, and changes nothing, where the
    /// square is occupied.
    #[verifier::rlimit(30)]
    pub fn add_piece_at(&mut self, square: Square, piece: Piece) -> (r: Result<(), BoardError>)
        requires
            old(self).wf(),
        ensures
            final(self).wf(),
            !old(self)@.occupied(square) ==> r is Ok && final(self)@ == old(self)@.with_square(
                square,
                Some(piece),
            ),
            old(self)@.occupied(square) ==> r == Err::<(), BoardError>(BoardError::SquareOccupied)
                && *final(self) == *old(self),
    {
        let i = square.inner();
        let index = piece.to_index();
        let mask = 1u64 << (i as u64);
        proof {
            self.lemma_bits();
            lemma_mask_test(self.piece_locations, i as int);
        }
        if self.piece_locations & mask != 0 {
            return Err(BoardError::SquareOccupied);
        }
        proof {
            lemma_set_bit(self.data[index as int], i as int);
            lemma_set_bit(self.piece_locations, i as int);
        }
        self.data[index] = self.data[index] | mask;
        self.piece_locations = self.piece_locations | mask;
        proof {
            let before = old(self)@.squares;
            let target = before.update(i as int, Some(piece));
            assert forall|q: Piece| q != piece implies self.bitboard(q) == old(self).bitboard(
                q,
            ) by {}
            assert forall|j: int, p: Piece| 0 <= j < 64 implies #[trigger] has_bit(
                self.bitboard(p),
                j,
            ) == (target[j] == Some(p)) by {
                assert(has_bit(old(self).bitboard(p), j) == (before[j] == Some(p)));
            }
            assert forall|j: int| 0 <= j < 64 implies #[trigger] has_bit(self.occupancy(), j) == (
            target[j] is Some) by {
                assert(has_bit(old(self).occupancy(), j) == (before[j] is Some));
            }
            self.lemma_establish(target);
        }
        Ok(())
    }
}

/// The set with the squares of `clear` and, if there is one, `extra`.
fn with_optional(clear: Bitboard, extra: Option<Square>) -> (bb: Bitboard)
    ensures
        forall|s: Square| #[trigger] holds(bb, s) == (holds(clear, s) || extra == Some(s)),
{
    let mut bb = clear;
    match extra {
        Some(s) => {
            bb.add_square(s);
        },
        None => {},
    }
    bb
}

impl Board {
    /// On a board that keeps the invariant, the squares of a piece's set
    /// in ascending order are the places of the piece in the position.
    pub proof fn lemma_places(self, piece: Piece, i: int)
        requires
            self.wf(),
            0 <= i <= 64,
        ensures
            members_from(self.bitboard(piece), i) == self@.places_from(piece, i),
        decreases 64 - i,
    {
        self.lemma_bits();
        if i < 64 {
            self.lemma_places(piece, i + 1);
        }
    }

    /// Walks along a line until it meets a piece. Returns the set of the
    /// empty squares that it has passed, the square of the piece that it
    /// has met, if any, and whether that piece stood on the line's first square.
    #[verifier::rlimit(30)]
    fn scan_line(&self, it: SquareIterator) -> (r: (Bitboard, Option<Square>, bool))
        requires
            self.wf(),
        ensures
            forall|s: Square| #[trigger] holds(r.0, s) == self@.reaches(it.upcoming(), s),
            r.1 == self@.blocker(it.upcoming()),
            r.2 == (self@.clear_run(it.upcoming()) == 0 && it.upcoming().len() > 0),
    {
        let ghost line = it.upcoming();
        let ghost mut k: int = 0;
        let mut it = it;
        let mut clear: Bitboard = Bitboard::new_bitboard();
        let mut blocker: Option<Square> = None;
        let mut first = true;
        let mut adjacent = false;
        loop
            invariant_except_break
                0 <= k <= line.len(),
                it.upcoming() == line.skip(k),
                self@.first_blocker(line, 0) == self@.first_blocker(line, k),
                forall|s: Square| #[trigger] holds(clear, s) == in_prefix(line, k, s),
                blocker is None,
                first == (k == 0),
                !adjacent,
            invariant
                self.wf(),
            ensures
                forall|s: Square| #[trigger] holds(clear, s) == self@.reaches(line, s),
                blocker == self@.blocker(line),
                adjacent == (self@.clear_run(line) == 0 && line.len() > 0),
            decreases line.len() - k,
        {
            match it.next() {
                None => {
                    assert(line.skip(k).len() == 0);
                    break ;
                },
                Some(s) => {
                    assert(line.skip(k)[0] == line[k]);
                    assert(tail(line.skip(k)) =~= line.skip(k + 1));
                    if self.is_square_occupied(s) {
                        blocker = Some(s);
                        adjacent = first;
                        break ;
                    }
                    proof {
                        assert forall|x: Square| #[trigger]
                            in_prefix(line, k + 1, x) == (in_prefix(line, k, x) || s == x) by {
                            lemma_in_prefix_step(line, k, x);
                        }
                    }
                    clear.add_square(s);
                    first = false;
                    proof {
                        k = k + 1;
                    }
                },
            }
        }
        (clear, blocker, adjacent)
    }

    /// What is seen along a line: the empty squares up to the first piece,
    /// and the square of that piece.
    #[verifier::rlimit(30)]
    fn vision(&self, it: SquareIterator) -> (bb: Bitboard)
        requires
            self.wf(),
        ensures
            forall|s: Square| #[trigger] holds(bb, s) == self@.sees(it.upcoming(), s),
    {
        let (clear, blocker, _adjacent) = self.scan_line(it);
        let bb = with_optional(clear, blocker);
        proof {
            let line = it.upcoming();
            let n = self@.clear_run(line);
            self@.lemma_clear_run(line, 0);
            assert forall|s: Square| #[trigger] holds(bb, s) == self@.sees(line, s) by {
                if n < line.len() {
                    lemma_in_prefix_step(line, n, s);
                } else {
                    if in_prefix(line, n + 1, s) {
                        let j = choose|j: int| 0 <= j < n + 1 && j < line.len() && line[j] == s;
                        assert(0 <= j < n && j < line.len() && line[j] == s);
                    }
                    if in_prefix(line, n, s) {
                        let j = choose|j: int| 0 <= j < n && j < line.len() && line[j] == s;
                        assert(0 <= j < n + 1 && j < line.len() && line[j] == s);
                    }
                }
            }
        }
        bb
    }

    /// What can be done along a line: the empty squares up to the first
    /// piece, and the square of that piece if it has the given colour.
    fn clear_n_capture(&self, it: SquareIterator, color: Color) -> (r: (Bitboard, Option<Square>))
        requires
            self.wf(),
        ensures
            forall|s: Square| #[trigger] holds(r.0, s) == self@.reaches(it.upcoming(), s),
            r.1 == self@.capture_on(it.upcoming(), color),
    {
        let (clear, blocker, _adjacent) = self.scan_line(it);
        proof {
            self@.lemma_clear_run(it.upcoming(), 0);
        }
        match blocker {
            Some(s) => match self.get_colored_piece_at(s, color) {
                Some(_) => (clear, Some(s)),
                None => (clear, None),
            },
            None => (clear, None),
        }
    }

    /// Whether the first piece of a line attacks the square from which
    /// the line sets out.
    #[verifier::rlimit(30)]
    fn line_is_threat(
        &self,
        it: SquareIterator,
        attacker: Color,
        diagonal: bool,
        pawn_side: bool,
    ) -> (r: bool)
        requires
            self.wf(),
        ensures
            r == self@.line_threat(it.upcoming(), attacker, diagonal, pawn_side),
    {
        let (_clear, blocker, adjacent) = self.scan_line(it);
        proof {
            self@.lemma_clear_run(it.upcoming(), 0);
        }
        match blocker {
            None => false,
            Some(s) => match self.get_piece_at(s) {
                None => false,
                Some(p) => {
                    match p.get_color() {
                        Color::White => {
                            if attacker == Color::Black {
                                return false;
                            }
                        },
                        Color::Black => {
                            if attacker == Color::White {
                                return false;
                            }
                        },
                    }
                    p.is_queen() || (diagonal && p.is_bishop()) || (!diagonal && p.is_rook()) || (
                    adjacent && p.is_king()) || (adjacent && diagonal && pawn_side && p.is_pawn())
                },
            },
        }
    }

    /// Whether a knight of the given colour stands a knight's jump from the square.
    fn knight_is_threat(&self, square: Square, attacker: Color) -> (r: bool)
        requires
            self.wf(),
        ensures
            r == self@.knight_threat(square, attacker),
    {
        let enemy_knight = attacker.get_knight();
        let mut it = square.iter_knight_offsets();
        let ghost targets = square.knight_targets();
        let ghost mut k: int = 0;
        loop
            invariant
                self.wf(),
                0 <= k <= targets.len(),
                targets == square.knight_targets(),
                enemy_knight == attacker.get_knight(),
                it.upcoming() == targets.skip(k),
                forall|j: int| 0 <= j < k ==> self@.piece_at(targets[j]) != Some(enemy_knight),
            decreases targets.len() - k,
        {
            match it.next() {
                None => {
                    assert(targets.skip(k).len() == 0);
                    return false;
                },
                Some(s) => {
                    assert(targets.skip(k)[0] == targets[k]);
                    assert(tail(targets.skip(k)) =~= targets.skip(k + 1));
                    if self.is_piece_at(s, enemy_knight) {
                        return true;
                    }
                    proof {
                        k = k + 1;
                    }
                },
            }
        }
    }

    /// Whether a piece of the given colour attacks the square, whatever
    /// stands on it.
    #[verifier::rlimit(30)]
    pub fn is_attacked_by(&self, square: Square, attacker: Color) -> (r: bool)
        requires
            self.wf(),
        ensures
            r == self@.attacked_by(square, attacker),
    {
        let white = match attacker {
            Color::White => true,
            Color::Black => false,
        };
        proof {
            reveal(Position::attacked_by);
        }
        if self.line_is_threat(square.get_row_squares(false), attacker, false, false) {
            return true;
        }
        if self.line_is_threat(square.get_row_squares(true), attacker, false, false) {
            return true;
        }
        if self.line_is_threat(square.get_col_squares(false), attacker, false, false) {
            return true;
        }
        if self.line_is_threat(square.get_col_squares(true), attacker, false, false) {
            return true;
        }
        if self.line_is_threat(
            square.iter_diagonal(false, false).into_square_iterator(),
            attacker,
            true,
            !white,
        ) {
            return true;
        }
        if self.line_is_threat(
            square.iter_diagonal(false, true).into_square_iterator(),
            attacker,
            true,
            !white,
        ) {
            return true;
        }
        if self.line_is_threat(
            square.iter_diagonal(true, false).into_square_iterator(),
            attacker,
            true,
            white,
        ) {
            return true;
        }
        if self.line_is_threat(
            square.iter_diagonal(true, true).into_square_iterator(),
            attacker,
            true,
            white,
        ) {
            return true;
        }
        self.knight_is_threat(square, attacker)
    }

    /// Whether the piece on the square is attacked by a piece of the other
    /// colour: along the four lines of its rank and file by a rook or a
    /// queen at any distance or by a king next to it, along the four
    /// diagonals by a bishop or a queen at any distance or by a king or,
    /// from its own side of the board, a pawn next to it, and by a knight a
    /// knight's jump away. On each line only the first piece counts. An
    /// empty square is not threatened.
    pub fn is_threatened(&self, square: Square) -> (r: bool)
        requires
            self.wf(),
        ensures
            r == self@.threatened(square),
    {
        match self.get_piece_at(square) {
            Some(piece) => self.is_attacked_by(square, piece.get_opponent_color()),
            None => false,
        }
    }

    /// The squares on which `piece` stands, in ascending order.
    pub fn find_piece_positions(&self, piece: Piece) -> (positions: Vec<Square>)
        requires
            self.wf(),
        ensures
            positions@ == self@.places(piece),
    {
        proof {
            self.lemma_places(piece, 0);
        }
        self.data[piece.to_index()].squares().collect()
    }

    /// The square of the king of the player to move.
    pub fn king_square(&self) -> (r: Option<Square>)
        requires
            self.wf(),
        ensures
            r == self@.king_square(self@.active_player),
    {
        self.king_square_by_color(self.active_player)
    }

    /// The square of the colour's king, if it has one.
    pub fn king_square_by_color(&self, color: Color) -> (r: Option<Square>)
        requires
            self.wf(),
        ensures
            r == self@.king_square(color),
    {
        proof {
            self.lemma_places(color.get_king(), 0);
        }
        self.data[color.get_king().to_index()].bit_scan_forward()
    }

    /// Whether the colour's king is attacked.
    pub fn is_in_check(&self, color: Color) -> (r: bool)
        requires
            self.wf(),
        ensures
            r == self@.in_check(color),
    {
        match self.king_square_by_color(color) {
            Some(king_square) => self.is_attacked_by(king_square, color.toggle_color()),
            None => false,
        }
    }

    /// The squares seen from `square` along its file: downwards if
    /// `ascending`, upwards if not. They are the empty squares up to the
    /// first piece and the square of that piece.
    pub fn sees_down_file(&self, square: Square, ascending: bool) -> (bb: Bitboard)
        requires
            self.wf(),
        ensures
            forall|s: Square| #[trigger]
                holds(bb, s) == self@.sees(square.ray(dir(ascending), 0), s),
    {
        self.vision(square.get_row_squares(ascending))
    }

    /// The squares seen from `square` along its rank: to the right if
    /// `ascending`, to the left if not.
    pub fn sees_down_rank(&self, square: Square, ascending: bool) -> (bb: Bitboard)
        requires
            self.wf(),
        ensures
            forall|s: Square| #[trigger]
                holds(bb, s) == self@.sees(square.ray(0, dir(ascending)), s),
    {
        self.vision(square.get_col_squares(ascending))
    }

    /// The squares seen from `square` along one of its diagonals.
    pub fn sees_down_diagonal(&self, square: Square, ascending_row: bool, ascending_col: bool) -> (bb:
        Bitboard)
        requires
            self.wf(),
        ensures
            forall|s: Square| #[trigger]
                holds(bb, s) == self@.sees(square.ray(dir(ascending_row), dir(ascending_col)), s),
    {
        self.vision(square.iter_diagonal(ascending_row, ascending_col).into_square_iterator())
    }

    /// The squares a knight's jump away from `square`, whatever stands on them.
    #[verifier::rlimit(30)]
    pub fn sees_like_knight(&self, square: Square) -> (bb: Bitboard)
        ensures
            forall|s: Square| #[trigger] holds(bb, s) == square.knight_targets().contains(s),
    {
        let mut it = square.iter_knight_offsets();
        let ghost targets = square.knight_targets();
        let ghost mut k: int = 0;
        let mut bb: Bitboard = Bitboard::new_bitboard();
        loop
            invariant_except_break
                0 <= k <= targets.len(),
                it.upcoming() == targets.skip(k),
                forall|s: Square| #[trigger] holds(bb, s) == in_prefix(targets, k, s),
            ensures
                forall|s: Square| #[trigger] holds(bb, s) == in_prefix(targets, targets.len() as int, s),
            decreases targets.len() - k,
        {
            match it.next() {
                None => {
                    assert(targets.skip(k).len() == 0);
                    break ;
                },
                Some(s) => {
                    assert(targets.skip(k)[0] == targets[k]);
                    assert(tail(targets.skip(k)) =~= targets.skip(k + 1));
                    proof {
                        assert forall|x: Square| #[trigger]
                            in_prefix(targets, k + 1, x) == (in_prefix(targets, k, x) || s == x) by {
                            lemma_in_prefix_step(targets, k, x);
                        }
                    }
                    bb.add_square(s);
                    proof {
                        k = k + 1;
                    }
                },
            }
        }
        proof {
            assert forall|s: Square| #[trigger]
                holds(bb, s) == square.knight_targets().contains(s) by {
                if in_prefix(targets, targets.len() as int, s) {
                    let j = choose|j: int|
                        0 <= j < targets.len() && j < targets.len() && targets[j] == s;
                    assert(targets.contains(s));
                }
                if targets.contains(s) {
                    let j = choose|j: int| 0 <= j < targets.len() && targets[j] == s;
                    assert(0 <= j < targets.len() && j < targets.len() && targets[j] == s);
                }
            }
        }
        bb
    }

    /// What a slider on `square` can do along its file, downwards if
    /// `ascending` and upwards if not: the set of the empty squares before
    /// the first piece, to which it can move, and the square of that piece
    /// if it has the colour `color`, which it can then capture. A first
    /// piece of the other colour ends the line and is not returned.
    pub fn clear_n_capture_down_file(&self, square: Square, ascending: bool, color: Color) -> (r: (
        Bitboard,
        Option<Square>,
    ))
        requires
            self.wf(),
        ensures
            forall|s: Square| #[trigger]
                holds(r.0, s) == self@.reaches(square.ray(dir(ascending), 0), s),
            r.1 == self@.capture_on(square.ray(dir(ascending), 0), color),
    {
        self.clear_n_capture(square.get_row_squares(ascending), color)
    }

    /// What a slider on `square` can do along its rank, to the right if
    /// `ascending` and to the left if not.
    pub fn clear_n_capture_down_rank(&self, square: Square, ascending: bool, color: Color) -> (r: (
        Bitboard,
        Option<Square>,
    ))
        requires
            self.wf(),
        ensures
            forall|s: Square| #[trigger]
                holds(r.0, s) == self@.reaches(square.ray(0, dir(ascending)), s),
            r.1 == self@.capture_on(square.ray(0, dir(ascending)), color),
    {
        self.clear_n_capture(square.get_col_squares(ascending), color)
    }

    /// What a slider on `square` can do along one of its diagonals.
    pub fn clear_n_capture_down_diagonal(
        &self,
        square: Square,
        ascending_row: bool,
        ascending_col: bool,
        color: Color,
    ) -> (r: (Bitboard, Option<Square>))
        requires
            self.wf(),
        ensures
            forall|s: Square| #[trigger]
                holds(r.0, s) == self@.reaches(
                    square.ray(dir(ascending_row), dir(ascending_col)),
                    s,
                ),
            r.1 == self@.capture_on(square.ray(dir(ascending_row), dir(ascending_col)), color),
    {
        self.clear_n_capture(
            square.iter_diagonal(ascending_row, ascending_col).into_square_iterator(),
            color,
        )
    }

    /// The pieces that stand on the squares of `bitboard`, each with its
    /// square, in ascending order of the squares.
    pub fn get_pieces_at_bitboard(&self, bitboard: Bitboard) -> (pieces: Vec<(Piece, Square)>)
        requires
            self.wf(),
        ensures
            pieces@ == self@.pieces_on(members(bitboard)),
    {
        let squares = bitboard.squares().collect();
        let mut pieces: Vec<(Piece, Square)> = Vec::new();
        let mut k: usize = 0;
        while k < squares.len()
            invariant
                self.wf(),
                k <= squares.len(),
                squares@ == members(bitboard),
                pieces@ == self@.pieces_on(squares@.take(k as int)),
            decreases squares.len() - k,
        {
            let pos = squares[k];
            proof {
                let next = squares@.take(k as int + 1);
                assert(next.drop_last() =~= squares@.take(k as int));
                assert(next.last() == pos);
            }
            match self.get_piece_at(pos) {
                Some(piece) => {
                    pieces.push((piece, pos));
                },
                None => {},
            }
            k = k + 1;
        }
        assert(squares@.take(k as int) =~= squares@);
        pieces
    }

    /// The squares of `bitboard` on which `piece` stands, in ascending order.
    pub fn get_piece_squares_from_bitboard(&self, piece: Piece, bitboard: Bitboard) -> (found: Vec<
        Square,
    >)
        requires
            self.wf(),
        ensures
            found@ == self@.squares_holding(piece, members(bitboard)),
    {
        let squares = bitboard.squares().collect();
        let mut found: Vec<Square> = Vec::new();
        let mut k: usize = 0;
        while k < squares.len()
            invariant
                self.wf(),
                k <= squares.len(),
                squares@ == members(bitboard),
                found@ == self@.squares_holding(piece, squares@.take(k as int)),
            decreases squares.len() - k,
        {
            let pos = squares[k];
            proof {
                let next = squares@.take(k as int + 1);
                assert(next.drop_last() =~= squares@.take(k as int));
                assert(next.last() == pos);
            }
            if self.is_piece_at(pos, piece) {
                found.push(pos);
            }
            k = k + 1;
        }
        assert(squares@.take(k as int) =~= squares@);
        found
    }

    /// The pieces of the player to move, each with its square.
    pub fn get_active_pieces(&self) -> (pieces: Vec<(Piece, Square)>)
        requires
            self.wf(),
        ensures
            pieces@ == self@.active_pieces(),
    {
        let kinds = Piece::iter_color_pieces(&self.active_player);
        let mut pieces: Vec<(Piece, Square)> = Vec::new();
        let mut k: usize = 0;
        while k < kinds.len()
            invariant
                self.wf(),
                k <= kinds.len(),
                kinds@ == Piece::of_color(self@.active_player),
                pieces@ == self@.pieces_listed(kinds@.take(k as int)),
            decreases kinds.len() - k,
        {
            let piece = kinds[k];
            proof {
                let next = kinds@.take(k as int + 1);
                assert(next.drop_last() =~= kinds@.take(k as int));
                assert(next.last() == piece);
                self.lemma_places(piece, 0);
            }
            let mut found = self.get_pieces_at_bitboard(self.data[piece.to_index()]);
            pieces.append(&mut found);
            k = k + 1;
        }
        assert(kinds@.take(k as int) =~= kinds@);
        pieces
    }
}

fn rank_digit(row: u8) -> (c: char)
    requires
        row < 8,
    ensures
        c == rank_char(row as int),
{
    match row {
        0 => '8',
        1 => '7',
        2 => '6',
        3 => '5',
        4 => '4',
        5 => '3',
        6 => '2',
        _ => '1',
    }
}

impl Board {
    /// The letter of the piece on the square, a blank for an empty square.
    pub fn get_char_at(&self, square: Square) -> (c: char)
        requires
            self.wf(),
        ensures
            c == self@.char_at(square),
    {
        match self.get_piece_at(square) {
            Some(piece) => piece.to_char(),
            None => ' ',
        }
    }

    /// The figurine of the piece on the square, a dash for an empty square.
    pub fn get_symbol_at(&self, square: Square) -> (c: char)
        requires
            self.wf(),
        ensures
            c == self@.symbol_at(square),
    {
        match self.get_piece_at(square) {
            Some(piece) => piece.to_symbol(),
            None => '-',
        }
    }

    /// Draws one row at the end of a text.
    #[verifier::rlimit(30)]
    fn draw_row(&self, text: &mut String, row: u8)
        requires
            self.wf(),
            row < 8,
        ensures
            final(text)@ == old(text)@ + self@.drawn_row(row as int),
    {
        let ghost pos = self@;
        text.append("╎ ");
        push_char(text, rank_digit(row));
        text.append(" ╏");
        let ghost start = text@;
        let mut col: u8 = 0;
        while col < 8
            invariant
                col <= 8,
                row < 8,
                self.wf(),
                pos == self@,
                text@ == start + pos.drawn_cells(row as int, col as int),
            decreases 8 - col,
        {
            let square = Square::from_inner(row * 8 + col);
            push_char(text, ' ');
            push_char(text, self.get_symbol_at(square));
            col = col + 1;
            assert(text@ =~= start + pos.drawn_cells(row as int, col as int));
        }
        text.append(" ╏\n");
        assert(text@ =~= old(text)@ + pos.drawn_row(row as int));
    }

    /// The board drawn as text: a frame, the eight rows from rank 8 down
    /// to rank 1 with the figurines of the pieces, and the file letters
    /// below them.
    #[verifier::rlimit(30)]
    pub fn to_string(&self) -> (text: String)
        requires
            self.wf(),
        ensures
            text@ == self@.drawn(),
    {
        let ghost pos = self@;
        let mut text = String::from_str("┌╌╌╌┲╍╍╍╍╍╍╍╍╍╍╍╍╍╍╍╍╍┓\n");
        let ghost start = text@;
        let mut row: u8 = 0;
        while row < 8
            invariant
                row <= 8,
                self.wf(),
                pos == self@,
                text@ == start + pos.drawn_rows(row as int),
            decreases 8 - row,
        {
            self.draw_row(&mut text, row);
            row = row + 1;
            assert(text@ =~= start + pos.drawn_rows(row as int));
        }
        text.append("└╌╌╌╄╍╍╍╍╍╍╍╍╍╍╍╍╍╍╍╍╍┩\n");
        text.append("    ╎ a b c d e f g h ╎\n");
        text.append("    └╌╌╌╌╌╌╌╌╌╌╌╌╌╌╌╌╌┘");
        assert(text@ =~= pos.drawn());
        text
    }
}

} // verus!
