//! The two colours and the twelve pieces.

use vstd::prelude::*;
use crate::rules::CastleType;
use crate::square::Square;

verus! {

/// The colour of a player and of that player's pieces.
#[derive(Clone, Copy, Debug, PartialEq, Eq, Structural)]
pub enum Color {
    White,
    Black,
}

/// A piece: one of six kinds in one of two colours.
#[derive(Clone, Copy, Debug, PartialEq, Eq, Structural)]
pub enum Piece {
    WhitePawn,
    BlackPawn,
    WhiteRook,
    BlackRook,
    WhiteKnight,
    BlackKnight,
    WhiteBishop,
    BlackBishop,
    WhiteQueen,
    BlackQueen,
    WhiteKing,
    BlackKing,
}

impl Piece {
    /// The piece's place in the list of the twelve pieces: pawns, rooks,
    /// knights, bishops, queens, kings, White before Black in each pair.
    pub open spec fn index(self) -> int {
        match self {
            Piece::WhitePawn => 0,
            Piece::BlackPawn => 1,
            Piece::WhiteRook => 2,
            Piece::BlackRook => 3,
            Piece::WhiteKnight => 4,
            Piece::BlackKnight => 5,
            Piece::WhiteBishop => 6,
            Piece::BlackBishop => 7,
            Piece::WhiteQueen => 8,
            Piece::BlackQueen => 9,
            Piece::WhiteKing => 10,
            Piece::BlackKing => 11,
        }
    }

    /// The piece at place `i` of the list; the black king for every `i` above 10.
    pub open spec fn at(i: int) -> Piece {
        if i <= 0 {
            Piece::WhitePawn
        } else if i == 1 {
            Piece::BlackPawn
        } else if i == 2 {
            Piece::WhiteRook
        } else if i == 3 {
            Piece::BlackRook
        } else if i == 4 {
            Piece::WhiteKnight
        } else if i == 5 {
            Piece::BlackKnight
        } else if i == 6 {
            Piece::WhiteBishop
        } else if i == 7 {
            Piece::BlackBishop
        } else if i == 8 {
            Piece::WhiteQueen
        } else if i == 9 {
            Piece::BlackQueen
        } else if i == 10 {
            Piece::WhiteKing
        } else {
            Piece::BlackKing
        }
    }

    /// The six kinds in the order of the list, in the given colour.
    pub open spec fn of_color(color: Color) -> Seq<Piece> {
        match color {
            Color::White => seq![
                Piece::WhitePawn,
                Piece::WhiteRook,
                Piece::WhiteKnight,
                Piece::WhiteBishop,
                Piece::WhiteQueen,
                Piece::WhiteKing,
            ],
            Color::Black => seq![
                Piece::BlackPawn,
                Piece::BlackRook,
                Piece::BlackKnight,
                Piece::BlackBishop,
                Piece::BlackQueen,
                Piece::BlackKing,
            ],
        }
    }

    /// Every piece has a place in `0..12`, and `at` undoes `index`.
    pub proof fn lemma_index(self)
        ensures
            0 <= self.index() < 12,
            Piece::at(self.index()) == self,
    {
    }

    /// `index` undoes `at` on `0..12`.
    pub proof fn lemma_at(i: int)
        requires
            0 <= i < 12,
        ensures
            Piece::at(i).index() == i,
    {
    }

    /// The twelve pieces in the order of the list.
    pub fn iter() -> (pieces: Vec<Piece>)
        ensures
            pieces@ == Seq::new(12, |i: int| Piece::at(i)),
    {
        let pieces = vec![
            Piece::WhitePawn,
            Piece::BlackPawn,
            Piece::WhiteRook,
            Piece::BlackRook,
            Piece::WhiteKnight,
            Piece::BlackKnight,
            Piece::WhiteBishop,
            Piece::BlackBishop,
            Piece::WhiteQueen,
            Piece::BlackQueen,
            Piece::WhiteKing,
            Piece::BlackKing,
        ];
        assert(pieces@ =~= Seq::new(12, |i: int| Piece::at(i)));
        pieces
    }

    /// The twelve pieces in the order of the list, each with its colour.
    pub fn iter_with_color() -> (pieces: Vec<(Piece, Color)>)
        ensures
            pieces@ == Seq::new(12, |i: int| (Piece::at(i), Piece::at(i).get_color())),
    {
        let pieces = vec![
            (Piece::WhitePawn, Color::White),
            (Piece::BlackPawn, Color::Black),
            (Piece::WhiteRook, Color::White),
            (Piece::BlackRook, Color::Black),
            (Piece::WhiteKnight, Color::White),
            (Piece::BlackKnight, Color::Black),
            (Piece::WhiteBishop, Color::White),
            (Piece::BlackBishop, Color::Black),
            (Piece::WhiteQueen, Color::White),
            (Piece::BlackQueen, Color::Black),
            (Piece::WhiteKing, Color::White),
            (Piece::BlackKing, Color::Black),
        ];
        assert(pieces@ =~= Seq::new(12, |i: int| (Piece::at(i), Piece::at(i).get_color())));
        pieces
    }

    /// The six white pieces in the order of the list.
    pub fn iter_white_pieces() -> (pieces: Vec<Piece>)
        ensures
            pieces@ == Piece::of_color(Color::White),
    {
        let pieces = vec![
            Piece::WhitePawn,
            Piece::WhiteRook,
            Piece::WhiteKnight,
            Piece::WhiteBishop,
            Piece::WhiteQueen,
            Piece::WhiteKing,
        ];
        assert(pieces@ =~= Piece::of_color(Color::White));
        pieces
    }

    /// The six black pieces in the order of the list.
    pub fn iter_black_pieces() -> (pieces: Vec<Piece>)
        ensures
            pieces@ == Piece::of_color(Color::Black),
    {
        let pieces = vec![
            Piece::BlackPawn,
            Piece::BlackRook,
            Piece::BlackKnight,
            Piece::BlackBishop,
            Piece::BlackQueen,
            Piece::BlackKing,
        ];
        assert(pieces@ =~= Piece::of_color(Color::Black));
        pieces
    }

    /// The six pieces of the given colour in the order of the list.
    pub fn iter_color_pieces(color: &Color) -> (pieces: Vec<Piece>)
        ensures
            pieces@ == Piece::of_color(*color),
    {
        match color {
            Color::White => Piece::iter_white_pieces(),
            Color::Black => Piece::iter_black_pieces(),
        }
    }

    /// The piece's colour.
    #[verifier::allow_in_spec]
    pub fn get_color(&self) -> Color
        returns
            (match self {
                Piece::WhitePawn
                | Piece::WhiteRook
                | Piece::WhiteKnight
                | Piece::WhiteBishop
                | Piece::WhiteQueen
                | Piece::WhiteKing => Color::White,
                Piece::BlackPawn
                | Piece::BlackRook
                | Piece::BlackKnight
                | Piece::BlackBishop
                | Piece::BlackQueen
                | Piece::BlackKing => Color::Black,
            }),
    {
        match self {
            Piece::WhitePawn
            | Piece::WhiteRook
            | Piece::WhiteKnight
            | Piece::WhiteBishop
            | Piece::WhiteQueen
            | Piece::WhiteKing => Color::White,
            Piece::BlackPawn
            | Piece::BlackRook
            | Piece::BlackKnight
            | Piece::BlackBishop
            | Piece::BlackQueen
            | Piece::BlackKing => Color::Black,
        }
    }

    /// The colour that the piece does not have.
    #[verifier::allow_in_spec]
    pub fn get_opponent_color(&self) -> Color
        returns
            self.get_color().toggle_color(),
    {
        self.get_color().toggle_color()
    }

    /// Whether the piece is a pawn, of either colour.
    #[verifier::allow_in_spec]
    pub fn is_pawn(&self) -> bool
        returns
            (*self == Piece::WhitePawn || *self == Piece::BlackPawn),
    {
        match self {
            Piece::WhitePawn | Piece::BlackPawn => true,
            _ => false,
        }
    }

    /// Whether the piece is a rook, of either colour.
    #[verifier::allow_in_spec]
    pub fn is_rook(&self) -> bool
        returns
            (*self == Piece::WhiteRook || *self == Piece::BlackRook),
    {
        match self {
            Piece::WhiteRook | Piece::BlackRook => true,
            _ => false,
        }
    }

    /// Whether the piece is a knight, of either colour.
    #[verifier::allow_in_spec]
    pub fn is_knight(&self) -> bool
        returns
            (*self == Piece::WhiteKnight || *self == Piece::BlackKnight),
    {
        match self {
            Piece::WhiteKnight | Piece::BlackKnight => true,
            _ => false,
        }
    }

    /// Whether the piece is a bishop, of either colour.
    #[verifier::allow_in_spec]
    pub fn is_bishop(&self) -> bool
        returns
            (*self == Piece::WhiteBishop || *self == Piece::BlackBishop),
    {
        match self {
            Piece::WhiteBishop | Piece::BlackBishop => true,
            _ => false,
        }
    }

    /// Whether the piece is a queen, of either colour.
    #[verifier::allow_in_spec]
    pub fn is_queen(&self) -> bool
        returns
            (*self == Piece::WhiteQueen || *self == Piece::BlackQueen),
    {
        match self {
            Piece::WhiteQueen | Piece::BlackQueen => true,
            _ => false,
        }
    }

    /// Whether the piece is a king, of either colour.
    #[verifier::allow_in_spec]
    pub fn is_king(&self) -> bool
        returns
            (*self == Piece::WhiteKing || *self == Piece::BlackKing),
    {
        match self {
            Piece::WhiteKing | Piece::BlackKing => true,
            _ => false,
        }
    }

    /// Whether the piece moves along diagonals: bishop, queen and king do.
    #[verifier::allow_in_spec]
    pub fn moves_diagonally(&self) -> bool
        returns
            (self.is_bishop() || self.is_queen() || self.is_king()),
    {
        self.is_bishop() || self.is_queen() || self.is_king()
    }

    /// Whether the piece captures along diagonals: bishop, queen, king and
    /// pawn do.
    #[verifier::allow_in_spec]
    pub fn captures_diagonally(&self) -> bool
        returns
            (self.is_bishop() || self.is_queen() || self.is_king() || self.is_pawn()),
    {
        self.is_bishop() || self.is_queen() || self.is_king() || self.is_pawn()
    }

    /// Whether the piece moves and captures along ranks and files: rook,
    /// queen and king do.
    #[verifier::allow_in_spec]
    pub fn moves_n_captures_straight(&self) -> bool
        returns
            (self.is_rook() || self.is_queen() || self.is_king()),
    {
        self.is_rook() || self.is_queen() || self.is_king()
    }

    /// Whether a pawn may be promoted to this piece: every piece but pawn and king.
    #[verifier::allow_in_spec]
    pub fn is_promotion_candidate(&self) -> bool
        returns
            (!self.is_pawn() && !self.is_king()),
    {
        !self.is_pawn() && !self.is_king()
    }

    /// The piece's place in the list of the twelve pieces.
    pub fn to_index(&self) -> (i: usize)
        ensures
            i == self.index(),
            i < 12,
    {
        match self {
            Piece::WhitePawn => 0,
            Piece::BlackPawn => 1,
            Piece::WhiteRook => 2,
            Piece::BlackRook => 3,
            Piece::WhiteKnight => 4,
            Piece::BlackKnight => 5,
            Piece::WhiteBishop => 6,
            Piece::BlackBishop => 7,
            Piece::WhiteQueen => 8,
            Piece::BlackQueen => 9,
            Piece::WhiteKing => 10,
            Piece::BlackKing => 11,
        }
    }

    /// The piece at the given place of the list, if the list is that long.
    pub fn from_index(index: usize) -> (p: Option<Piece>)
        ensures
            p == (if index < 12 { Some(Piece::at(index as int)) } else { None }),
    {
        match index {
            0 => Some(Piece::WhitePawn),
            1 => Some(Piece::BlackPawn),
            2 => Some(Piece::WhiteRook),
            3 => Some(Piece::BlackRook),
            4 => Some(Piece::WhiteKnight),
            5 => Some(Piece::BlackKnight),
            6 => Some(Piece::WhiteBishop),
            7 => Some(Piece::BlackBishop),
            8 => Some(Piece::WhiteQueen),
            9 => Some(Piece::BlackQueen),
            10 => Some(Piece::WhiteKing),
            11 => Some(Piece::BlackKing),
            _ => None,
        }
    }

    /// The piece's letter: upper case for White, lower case for Black.
    #[verifier::allow_in_spec]
    pub fn to_char(&self) -> char
        returns
            (match self {
                Piece::WhitePawn => 'P',
                Piece::BlackPawn => 'p',
                Piece::WhiteRook => 'R',
                Piece::BlackRook => 'r',
                Piece::WhiteKnight => 'N',
                Piece::BlackKnight => 'n',
                Piece::WhiteBishop => 'B',
                Piece::BlackBishop => 'b',
                Piece::WhiteQueen => 'Q',
                Piece::BlackQueen => 'q',
                Piece::WhiteKing => 'K',
                Piece::BlackKing => 'k',
            }),
    {
        match self {
            Piece::WhitePawn => 'P',
            Piece::BlackPawn => 'p',
            Piece::WhiteRook => 'R',
            Piece::BlackRook => 'r',
            Piece::WhiteKnight => 'N',
            Piece::BlackKnight => 'n',
            Piece::WhiteBishop => 'B',
            Piece::BlackBishop => 'b',
            Piece::WhiteQueen => 'Q',
            Piece::BlackQueen => 'q',
            Piece::WhiteKing => 'K',
            Piece::BlackKing => 'k',
        }
    }

    /// The piece's letter as notation writes it before a move: none for a
    /// pawn, the letter of `to_char` for every other piece.
    pub fn to_str(&self) -> (s: Option<&'static str>)
        ensures
            self.is_pawn() ==> s is None,
            !self.is_pawn() ==> s is Some && s->0@ == seq![self.to_char()],
    {
        match self {
            Piece::WhiteRook => {
                proof {
                    reveal_strlit("R");
                }
                assert("R"@ =~= seq!['R']);
                Some("R")
            },
            Piece::BlackRook => {
                proof {
                    reveal_strlit("r");
                }
                assert("r"@ =~= seq!['r']);
                Some("r")
            },
            Piece::WhiteKnight => {
                proof {
                    reveal_strlit("N");
                }
                assert("N"@ =~= seq!['N']);
                Some("N")
            },
            Piece::BlackKnight => {
                proof {
                    reveal_strlit("n");
                }
                assert("n"@ =~= seq!['n']);
                Some("n")
            },
            Piece::WhiteBishop => {
                proof {
                    reveal_strlit("B");
                }
                assert("B"@ =~= seq!['B']);
                Some("B")
            },
            Piece::BlackBishop => {
                proof {
                    reveal_strlit("b");
                }
                assert("b"@ =~= seq!['b']);
                Some("b")
            },
            Piece::WhiteQueen => {
                proof {
                    reveal_strlit("Q");
                }
                assert("Q"@ =~= seq!['Q']);
                Some("Q")
            },
            Piece::BlackQueen => {
                proof {
                    reveal_strlit("q");
                }
                assert("q"@ =~= seq!['q']);
                Some("q")
            },
            Piece::WhiteKing => {
                proof {
                    reveal_strlit("K");
                }
                assert("K"@ =~= seq!['K']);
                Some("K")
            },
            Piece::BlackKing => {
                proof {
                    reveal_strlit("k");
                }
                assert("k"@ =~= seq!['k']);
                Some("k")
            },
            _ => None,
        }
    }

    /// The piece's figurine.
    #[verifier::allow_in_spec]
    pub fn to_symbol(&self) -> char
        returns
            (match self {
                Piece::WhitePawn => '♟',
                Piece::BlackPawn => '♙',
                Piece::WhiteRook => '♜',
                Piece::BlackRook => '♖',
                Piece::WhiteKnight => '♞',
                Piece::BlackKnight => '♘',
                Piece::WhiteBishop => '♝',
                Piece::BlackBishop => '♗',
                Piece::WhiteQueen => '♛',
                Piece::BlackQueen => '♕',
                Piece::WhiteKing => '♚',
                Piece::BlackKing => '♔',
            }),
    {
        match self {
            Piece::WhitePawn => '♟',
            Piece::BlackPawn => '♙',
            Piece::WhiteRook => '♜',
            Piece::BlackRook => '♖',
            Piece::WhiteKnight => '♞',
            Piece::BlackKnight => '♘',
            Piece::WhiteBishop => '♝',
            Piece::BlackBishop => '♗',
            Piece::WhiteQueen => '♛',
            Piece::BlackQueen => '♕',
            Piece::WhiteKing => '♚',
            Piece::BlackKing => '♔',
        }
    }
}

impl Color {
    /// The other colour.
    #[verifier::allow_in_spec]
    pub fn toggle_color(&self) -> Color
        returns
            (match self {
                Color::White => Color::Black,
                Color::Black => Color::White,
            }),
    {
        match self {
            Color::White => Color::Black,
            Color::Black => Color::White,
        }
    }

    /// The colour's pawn.
    #[verifier::allow_in_spec]
    pub fn get_pawn(&self) -> Piece
        returns
            (match self {
                Color::White => Piece::WhitePawn,
                Color::Black => Piece::BlackPawn,
            }),
    {
        match self {
            Color::White => Piece::WhitePawn,
            Color::Black => Piece::BlackPawn,
        }
    }

    /// What a pawn's step adds to the number of its square, as a byte that
    /// wraps round: 248, which is 8 less, for White; 8 for Black.
    #[verifier::allow_in_spec]
    pub fn get_pawn_direction(&self) -> u8
        returns
            (match self {
                Color::White => 248u8,
                Color::Black => 8u8,
            }),
    {
        match self {
            Color::White => 248,
            Color::Black => 8,
        }
    }

    /// What a pawn's step adds to the number of its row, as a byte that
    /// wraps round: 255, which is 1 less, for White; 1 for Black.
    #[verifier::allow_in_spec]
    pub fn get_pawn_row_offset(&self) -> u8
        returns
            (match self {
                Color::White => 255u8,
                Color::Black => 1u8,
            }),
    {
        match self {
            Color::White => 255,
            Color::Black => 1,
        }
    }

    /// Whether the colour's pawns move towards higher row numbers: Black's do.
    #[verifier::allow_in_spec]
    pub fn is_pawn_ascending(&self) -> bool
        returns
            (*self == Color::Black),
    {
        match self {
            Color::White => false,
            Color::Black => true,
        }
    }

    /// The number of the row on which the colour's pieces start.
    #[verifier::allow_in_spec]
    pub fn get_back_rank_row(&self) -> u8
        returns
            (match self {
                Color::White => 7u8,
                Color::Black => 0u8,
            }),
    {
        match self {
            Color::White => 7,
            Color::Black => 0,
        }
    }

    /// The number of the row on which the colour's pawns start.
    #[verifier::allow_in_spec]
    pub fn get_pawn_starting_row(&self) -> u8
        returns
            (match self {
                Color::White => 6u8,
                Color::Black => 1u8,
            }),
    {
        match self {
            Color::White => 6,
            Color::Black => 1,
        }
    }

    /// The number of the row on which the colour's pawns are promoted.
    #[verifier::allow_in_spec]
    pub fn get_pawn_promotion_row(&self) -> u8
        returns
            (match self {
                Color::White => 0u8,
                Color::Black => 7u8,
            }),
    {
        match self {
            Color::White => 0,
            Color::Black => 7,
        }
    }

    /// The pieces to which the colour's pawns may be promoted, in the order
    /// in which moves are generated: queen, knight, bishop, rook.
    pub open spec fn promotion_pieces(self) -> Seq<Piece> {
        seq![self.get_queen(), self.get_knight(), self.get_bishop(), self.get_rook()]
    }

    /// The pieces to which the colour's pawns may be promoted.
    pub fn get_promotion_pieces(&self) -> (pieces: [Piece; 4])
        ensures
            pieces@ == self.promotion_pieces(),
    {
        let pieces = [self.get_queen(), self.get_knight(), self.get_bishop(), self.get_rook()];
        assert(pieces@ =~= self.promotion_pieces());
        pieces
    }

    /// The colour's rook.
    #[verifier::allow_in_spec]
    pub fn get_rook(&self) -> Piece
        returns
            (match self {
                Color::White => Piece::WhiteRook,
                Color::Black => Piece::BlackRook,
            }),
    {
        match self {
            Color::White => Piece::WhiteRook,
            Color::Black => Piece::BlackRook,
        }
    }

    /// The colour's knight.
    #[verifier::allow_in_spec]
    pub fn get_knight(&self) -> Piece
        returns
            (match self {
                Color::White => Piece::WhiteKnight,
                Color::Black => Piece::BlackKnight,
            }),
    {
        match self {
            Color::White => Piece::WhiteKnight,
            Color::Black => Piece::BlackKnight,
        }
    }

    /// The colour's bishop.
    #[verifier::allow_in_spec]
    pub fn get_bishop(&self) -> Piece
        returns
            (match self {
                Color::White => Piece::WhiteBishop,
                Color::Black => Piece::BlackBishop,
            }),
    {
        match self {
            Color::White => Piece::WhiteBishop,
            Color::Black => Piece::BlackBishop,
        }
    }

    /// The colour's queen.
    #[verifier::allow_in_spec]
    pub fn get_queen(&self) -> Piece
        returns
            (match self {
                Color::White => Piece::WhiteQueen,
                Color::Black => Piece::BlackQueen,
            }),
    {
        match self {
            Color::White => Piece::WhiteQueen,
            Color::Black => Piece::BlackQueen,
        }
    }

    /// The colour's king.
    #[verifier::allow_in_spec]
    pub fn get_king(&self) -> Piece
        returns
            (match self {
                Color::White => Piece::WhiteKing,
                Color::Black => Piece::BlackKing,
            }),
    {
        match self {
            Color::White => Piece::WhiteKing,
            Color::Black => Piece::BlackKing,
        }
    }

    /// The square on which the colour's king starts.
    #[verifier::allow_in_spec]
    pub fn king_starting_square(&self) -> Square
        returns
            (match self {
                Color::White => Square::E1,
                Color::Black => Square::E8,
            }),
    {
        match self {
            Color::White => Square::E1,
            Color::Black => Square::E8,
        }
    }

    /// The square on which the colour's king lands when it castles.
    #[verifier::allow_in_spec]
    pub fn king_castle_target(&self, castle_type: CastleType) -> Square
        returns
            (match (*self, castle_type) {
                (Color::White, CastleType::KingSide) => Square::G1,
                (Color::White, CastleType::QueenSide) => Square::C1,
                (Color::Black, CastleType::KingSide) => Square::G8,
                (Color::Black, CastleType::QueenSide) => Square::C8,
            }),
    {
        match (*self, castle_type) {
            (Color::White, CastleType::KingSide) => Square::G1,
            (Color::White, CastleType::QueenSide) => Square::C1,
            (Color::Black, CastleType::KingSide) => Square::G8,
            (Color::Black, CastleType::QueenSide) => Square::C8,
        }
    }

    /// The square on which the colour's rook of the given side starts.
    #[verifier::allow_in_spec]
    pub fn rook_starting_square(&self, castle_type: CastleType) -> Square
        returns
            (match (*self, castle_type) {
                (Color::White, CastleType::KingSide) => Square::H1,
                (Color::White, CastleType::QueenSide) => Square::A1,
                (Color::Black, CastleType::KingSide) => Square::H8,
                (Color::Black, CastleType::QueenSide) => Square::A8,
            }),
    {
        match (*self, castle_type) {
            (Color::White, CastleType::KingSide) => Square::H1,
            (Color::White, CastleType::QueenSide) => Square::A1,
            (Color::Black, CastleType::KingSide) => Square::H8,
            (Color::Black, CastleType::QueenSide) => Square::A8,
        }
    }

    /// The square on which the colour's rook lands when the king castles
    /// on the given side: the square that the king passes over.
    #[verifier::allow_in_spec]
    pub fn rook_castle_target(&self, castle_type: CastleType) -> Square
        returns
            (match (*self, castle_type) {
                (Color::White, CastleType::KingSide) => Square::F1,
                (Color::White, CastleType::QueenSide) => Square::D1,
                (Color::Black, CastleType::KingSide) => Square::F8,
                (Color::Black, CastleType::QueenSide) => Square::D8,
            }),
    {
        match (*self, castle_type) {
            (Color::White, CastleType::KingSide) => Square::F1,
            (Color::White, CastleType::QueenSide) => Square::D1,
            (Color::Black, CastleType::KingSide) => Square::F8,
            (Color::Black, CastleType::QueenSide) => Square::D8,
        }
    }

    /// The two colours, White first.
    pub fn iter(&self) -> (it: ColorIter)
        ensures
            it.upcoming() == seq![Color::White, Color::Black],
    {
        Color::iter_colors()
    }

    /// The two colours, White first.
    pub fn iter_colors() -> (it: ColorIter)
        ensures
            it.upcoming() == seq![Color::White, Color::Black],
    {
        let it = ColorIter { index: 0 };
        assert(it.upcoming() =~= seq![Color::White, Color::Black]);
        it
    }
}

/// Hands out the two colours, White first.
pub struct ColorIter {
    index: usize,
}

impl ColorIter {
    /// The colours still to come, in the order in which `next` hands them out.
    pub closed spec fn upcoming(self) -> Seq<Color> {
        if self.index == 0 {
            seq![Color::White, Color::Black]
        } else if self.index == 1 {
            seq![Color::Black]
        } else {
            Seq::empty()
        }
    }

    /// Hands out the next colour, or `None` after both.
    pub fn next(&mut self) -> (c: Option<Color>)
        ensures
            c == (if old(self).upcoming().len() > 0 {
                Some(old(self).upcoming()[0])
            } else {
                None
            }),
            final(self).upcoming() == crate::square::tail(old(self).upcoming()),
    {
        if self.index >= 2 {
            return None;
        }
        let out = if self.index == 0 {
            Color::White
        } else {
            Color::Black
        };
        self.index = self.index + 1;
        assert(self.upcoming() =~= crate::square::tail(old(self).upcoming()));
        Some(out)
    }
}

} // verus!
