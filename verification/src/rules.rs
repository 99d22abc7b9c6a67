//! The vocabulary of the rules: how a game stands, what kind a move is and
//! what it brings about.

use vstd::prelude::*;

verus! {

/// How a game stands.
#[derive(Clone, Copy, Debug, PartialEq, Eq, Structural)]
pub enum GameState {
    /// The game is in progress.
    Running,
    /// A player has been checkmated.
    Checkmate,
    /// The game has ended in a draw.
    Draw,
}

/// What a move brings about for the opponent.
#[derive(Clone, Copy, Debug, PartialEq, Eq, Structural)]
pub enum MoveResult {
    /// Nothing in particular.
    Quiet,
    /// The opponent's king is in check.
    Check,
    /// The opponent is checkmated.
    Checkmate,
    /// The opponent is stalemated.
    Stalemate,
}

/// The kinds of move that are applied to a board in different ways.
#[derive(Clone, Copy, Debug, PartialEq, Eq, Structural)]
pub enum MoveType {
    /// One piece moves, and may capture on the square where it lands.
    Regular,
    /// King and rook move together.
    Castling,
    /// A pawn reaches the last rank and is replaced.
    Promotion,
    /// A pawn captures the pawn that has just passed it.
    EnPassant,
}

/// The side of the board on which a king castles.
#[derive(Clone, Copy, Debug, PartialEq, Eq, Structural)]
pub enum CastleType {
    /// The short side, towards file h.
    KingSide,
    /// The long side, towards file a.
    QueenSide,
}

impl MoveResult {
    /// The sign that notation appends for the result: `+` for check, `#`
    /// for checkmate, `‡` for stalemate, none otherwise.
    #[verifier::allow_in_spec]
    pub fn to_char(&self) -> Option<char>
        returns
            (match self {
                MoveResult::Quiet => None,
                MoveResult::Check => Some('+'),
                MoveResult::Checkmate => Some('#'),
                MoveResult::Stalemate => Some('‡'),
            }),
    {
        match self {
            MoveResult::Quiet => None,
            MoveResult::Check => Some('+'),
            MoveResult::Checkmate => Some('#'),
            MoveResult::Stalemate => Some('‡'),
        }
    }
}

impl CastleType {
    /// The letters by which notation writes the castle.
    pub open spec fn notation(self) -> Seq<char> {
        match self {
            CastleType::KingSide => seq!['O', '-', 'O'],
            CastleType::QueenSide => seq!['O', '-', 'O', '-', 'O'],
        }
    }

    /// The castle as notation writes it: `O-O` or `O-O-O`.
    pub fn to_string(&self) -> (s: String)
        ensures
            s@ == self.notation(),
    {
        match self {
            CastleType::KingSide => {
                proof {
                    reveal_strlit("O-O");
                }
                assert("O-O"@ =~= seq!['O', '-', 'O']);
                String::from_str("O-O")
            },
            CastleType::QueenSide => {
                proof {
                    reveal_strlit("O-O-O");
                }
                assert("O-O-O"@ =~= seq!['O', '-', 'O', '-', 'O']);
                String::from_str("O-O-O")
            },
        }
    }
}

} // verus!
