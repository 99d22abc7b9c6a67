//! The tag of a move: its kind, whether it captures and what it brings
//! about, in one value; and the reasons for which a move cannot be made.

use vstd::prelude::*;
use crate::rules::{MoveResult, MoveType};

verus! {

/// What a move is, as one tag: its kind, whether it captures, and what it
/// brings about. The kinds are the plain move (`Normal`, or `Capture` where
/// it captures), castling, promotion (`CapturePromotion` where it
/// captures), the en-passant capture, and the pawn's double step, which
/// enables one.
#[derive(Clone, Copy, Debug, PartialEq, Eq, Structural)]
pub enum MoveData {
    Normal,
    NormalCheck,
    NormalCheckmate,
    NormalStalemate,
    Castling,
    CastlingCheck,
    CastlingCheckmate,
    CastlingStalemate,
    Promotion,
    PromotionCheck,
    PromotionCheckmate,
    PromotionStalemate,
    EnPassant,
    EnPassantCheck,
    EnPassantCheckmate,
    EnPassantStalemate,
    EnableEnPassant,
    EnableEnPassantCheck,
    EnableEnPassantCheckmate,
    EnableEnPassantStalemate,
    Capture,
    CaptureCheck,
    CaptureCheckmate,
    CaptureStalemate,
    CapturePromotion,
    CapturePromotionCheck,
    CapturePromotionCheckmate,
    CapturePromotionStalemate,
}

/// The kinds of move that the tag tells apart.
#[derive(Clone, Copy, Debug, PartialEq, Eq, Structural)]
pub enum SpecialMoveType {
    /// A plain move, with or without a capture.
    Regular,
    /// King and rook move together.
    Castling,
    /// A pawn reaches the last rank, with or without a capture.
    Promotion,
    /// A pawn captures the pawn that has just passed it.
    EnPassant,
    /// A pawn's double step.
    EnableEnPassant,
}

/// Why a move cannot be made.
#[derive(Clone, Copy, Debug, PartialEq, Eq, Structural)]
pub enum MoveError {
    /// A capture was asked for without the piece to capture.
    CapturedPieceNotProvided,
    /// The move would leave the mover's own king attacked.
    LeavesKingInCheck,
    /// No piece of the kind asked for stands where the move should start.
    PieceNotFound,
    /// The piece cannot move to the square asked for.
    ObstructedMove,
    /// More than one piece can make the move asked for.
    DisambiguousMove,
}

impl MoveData {
    /// The move's kind.
    #[verifier::allow_in_spec]
    pub fn kind(&self) -> SpecialMoveType
        returns
            (match self {
                MoveData::Normal | MoveData::NormalCheck | MoveData::NormalCheckmate | MoveData::NormalStalemate => SpecialMoveType::Regular,
                MoveData::Castling | MoveData::CastlingCheck | MoveData::CastlingCheckmate | MoveData::CastlingStalemate => SpecialMoveType::Castling,
                MoveData::Promotion | MoveData::PromotionCheck | MoveData::PromotionCheckmate | MoveData::PromotionStalemate => SpecialMoveType::Promotion,
                MoveData::EnPassant | MoveData::EnPassantCheck | MoveData::EnPassantCheckmate | MoveData::EnPassantStalemate => SpecialMoveType::EnPassant,
                MoveData::EnableEnPassant | MoveData::EnableEnPassantCheck | MoveData::EnableEnPassantCheckmate | MoveData::EnableEnPassantStalemate => SpecialMoveType::EnableEnPassant,
                MoveData::Capture | MoveData::CaptureCheck | MoveData::CaptureCheckmate | MoveData::CaptureStalemate => SpecialMoveType::Regular,
                MoveData::CapturePromotion | MoveData::CapturePromotionCheck | MoveData::CapturePromotionCheckmate | MoveData::CapturePromotionStalemate => SpecialMoveType::Promotion,
            }),
    {
        match self {
            MoveData::Normal | MoveData::NormalCheck | MoveData::NormalCheckmate | MoveData::NormalStalemate => SpecialMoveType::Regular,
            MoveData::Castling | MoveData::CastlingCheck | MoveData::CastlingCheckmate | MoveData::CastlingStalemate => SpecialMoveType::Castling,
            MoveData::Promotion | MoveData::PromotionCheck | MoveData::PromotionCheckmate | MoveData::PromotionStalemate => SpecialMoveType::Promotion,
            MoveData::EnPassant | MoveData::EnPassantCheck | MoveData::EnPassantCheckmate | MoveData::EnPassantStalemate => SpecialMoveType::EnPassant,
            MoveData::EnableEnPassant | MoveData::EnableEnPassantCheck | MoveData::EnableEnPassantCheckmate | MoveData::EnableEnPassantStalemate => SpecialMoveType::EnableEnPassant,
            MoveData::Capture | MoveData::CaptureCheck | MoveData::CaptureCheckmate | MoveData::CaptureStalemate => SpecialMoveType::Regular,
            MoveData::CapturePromotion | MoveData::CapturePromotionCheck | MoveData::CapturePromotionCheckmate | MoveData::CapturePromotionStalemate => SpecialMoveType::Promotion,
        }
    }

    /// The way in which the move is applied to a board. A pawn's double step is applied as a plain move.
    #[verifier::allow_in_spec]
    pub fn get_move_type(&self) -> MoveType
        returns
            (match self {
                MoveData::Normal | MoveData::NormalCheck | MoveData::NormalCheckmate | MoveData::NormalStalemate => MoveType::Regular,
                MoveData::Castling | MoveData::CastlingCheck | MoveData::CastlingCheckmate | MoveData::CastlingStalemate => MoveType::Castling,
                MoveData::Promotion | MoveData::PromotionCheck | MoveData::PromotionCheckmate | MoveData::PromotionStalemate => MoveType::Promotion,
                MoveData::EnPassant | MoveData::EnPassantCheck | MoveData::EnPassantCheckmate | MoveData::EnPassantStalemate => MoveType::EnPassant,
                MoveData::EnableEnPassant | MoveData::EnableEnPassantCheck | MoveData::EnableEnPassantCheckmate | MoveData::EnableEnPassantStalemate => MoveType::Regular,
                MoveData::Capture | MoveData::CaptureCheck | MoveData::CaptureCheckmate | MoveData::CaptureStalemate => MoveType::Regular,
                MoveData::CapturePromotion | MoveData::CapturePromotionCheck | MoveData::CapturePromotionCheckmate | MoveData::CapturePromotionStalemate => MoveType::Promotion,
            }),
    {
        match self {
            MoveData::Normal | MoveData::NormalCheck | MoveData::NormalCheckmate | MoveData::NormalStalemate => MoveType::Regular,
            MoveData::Castling | MoveData::CastlingCheck | MoveData::CastlingCheckmate | MoveData::CastlingStalemate => MoveType::Castling,
            MoveData::Promotion | MoveData::PromotionCheck | MoveData::PromotionCheckmate | MoveData::PromotionStalemate => MoveType::Promotion,
            MoveData::EnPassant | MoveData::EnPassantCheck | MoveData::EnPassantCheckmate | MoveData::EnPassantStalemate => MoveType::EnPassant,
            MoveData::EnableEnPassant | MoveData::EnableEnPassantCheck | MoveData::EnableEnPassantCheckmate | MoveData::EnableEnPassantStalemate => MoveType::Regular,
            MoveData::Capture | MoveData::CaptureCheck | MoveData::CaptureCheckmate | MoveData::CaptureStalemate => MoveType::Regular,
            MoveData::CapturePromotion | MoveData::CapturePromotionCheck | MoveData::CapturePromotionCheckmate | MoveData::CapturePromotionStalemate => MoveType::Promotion,
        }
    }

    /// What the move brings about.
    #[verifier::allow_in_spec]
    pub fn move_result(&self) -> MoveResult
        returns
            (match self {
                MoveData::Normal | MoveData::Castling | MoveData::Promotion | MoveData::EnPassant | MoveData::EnableEnPassant | MoveData::Capture | MoveData::CapturePromotion => MoveResult::Quiet,
                MoveData::NormalCheck | MoveData::CastlingCheck | MoveData::PromotionCheck | MoveData::EnPassantCheck | MoveData::EnableEnPassantCheck | MoveData::CaptureCheck | MoveData::CapturePromotionCheck => MoveResult::Check,
                MoveData::NormalCheckmate | MoveData::CastlingCheckmate | MoveData::PromotionCheckmate | MoveData::EnPassantCheckmate | MoveData::EnableEnPassantCheckmate | MoveData::CaptureCheckmate | MoveData::CapturePromotionCheckmate => MoveResult::Checkmate,
                MoveData::NormalStalemate | MoveData::CastlingStalemate | MoveData::PromotionStalemate | MoveData::EnPassantStalemate | MoveData::EnableEnPassantStalemate | MoveData::CaptureStalemate | MoveData::CapturePromotionStalemate => MoveResult::Stalemate,
            }),
    {
        match self {
            MoveData::Normal | MoveData::Castling | MoveData::Promotion | MoveData::EnPassant | MoveData::EnableEnPassant | MoveData::Capture | MoveData::CapturePromotion => MoveResult::Quiet,
            MoveData::NormalCheck | MoveData::CastlingCheck | MoveData::PromotionCheck | MoveData::EnPassantCheck | MoveData::EnableEnPassantCheck | MoveData::CaptureCheck | MoveData::CapturePromotionCheck => MoveResult::Check,
            MoveData::NormalCheckmate | MoveData::CastlingCheckmate | MoveData::PromotionCheckmate | MoveData::EnPassantCheckmate | MoveData::EnableEnPassantCheckmate | MoveData::CaptureCheckmate | MoveData::CapturePromotionCheckmate => MoveResult::Checkmate,
            MoveData::NormalStalemate | MoveData::CastlingStalemate | MoveData::PromotionStalemate | MoveData::EnPassantStalemate | MoveData::EnableEnPassantStalemate | MoveData::CaptureStalemate | MoveData::CapturePromotionStalemate => MoveResult::Stalemate,
        }
    }

    /// Whether the move is a castle.
    #[verifier::allow_in_spec]
    pub fn is_castle(&self) -> bool
        returns
            (match self {
                MoveData::Castling | MoveData::CastlingCheck | MoveData::CastlingCheckmate | MoveData::CastlingStalemate => true,
                _ => false,
            }),
    {
        match self {
            MoveData::Castling | MoveData::CastlingCheck | MoveData::CastlingCheckmate | MoveData::CastlingStalemate => true,
            _ => false,
        }
    }

    /// Whether the move promotes a pawn.
    #[verifier::allow_in_spec]
    pub fn is_promotion(&self) -> bool
        returns
            (match self {
                MoveData::Promotion | MoveData::PromotionCheck | MoveData::PromotionCheckmate | MoveData::PromotionStalemate | MoveData::CapturePromotion | MoveData::CapturePromotionCheck | MoveData::CapturePromotionCheckmate | MoveData::CapturePromotionStalemate => true,
                _ => false,
            }),
    {
        match self {
            MoveData::Promotion | MoveData::PromotionCheck | MoveData::PromotionCheckmate | MoveData::PromotionStalemate | MoveData::CapturePromotion | MoveData::CapturePromotionCheck | MoveData::CapturePromotionCheckmate | MoveData::CapturePromotionStalemate => true,
            _ => false,
        }
    }

    /// Whether the move captures: on the square where it lands, or en passant.
    #[verifier::allow_in_spec]
    pub fn is_capture(&self) -> bool
        returns
            (match self {
                MoveData::EnPassant | MoveData::EnPassantCheck | MoveData::EnPassantCheckmate | MoveData::EnPassantStalemate | MoveData::Capture | MoveData::CaptureCheck | MoveData::CaptureCheckmate | MoveData::CaptureStalemate | MoveData::CapturePromotion | MoveData::CapturePromotionCheck | MoveData::CapturePromotionCheckmate | MoveData::CapturePromotionStalemate => true,
                _ => false,
            }),
    {
        match self {
            MoveData::EnPassant | MoveData::EnPassantCheck | MoveData::EnPassantCheckmate | MoveData::EnPassantStalemate | MoveData::Capture | MoveData::CaptureCheck | MoveData::CaptureCheckmate | MoveData::CaptureStalemate | MoveData::CapturePromotion | MoveData::CapturePromotionCheck | MoveData::CapturePromotionCheckmate | MoveData::CapturePromotionStalemate => true,
            _ => false,
        }
    }

    /// Whether the move is an en-passant capture.
    #[verifier::allow_in_spec]
    pub fn is_en_passant(&self) -> bool
        returns
            (match self {
                MoveData::EnPassant | MoveData::EnPassantCheck | MoveData::EnPassantCheckmate | MoveData::EnPassantStalemate => true,
                _ => false,
            }),
    {
        match self {
            MoveData::EnPassant | MoveData::EnPassantCheck | MoveData::EnPassantCheckmate | MoveData::EnPassantStalemate => true,
            _ => false,
        }
    }

    /// Whether the move is a pawn's double step.
    #[verifier::allow_in_spec]
    pub fn is_enable_en_passant(&self) -> bool
        returns
            (match self {
                MoveData::EnableEnPassant | MoveData::EnableEnPassantCheck | MoveData::EnableEnPassantCheckmate | MoveData::EnableEnPassantStalemate => true,
                _ => false,
            }),
    {
        match self {
            MoveData::EnableEnPassant | MoveData::EnableEnPassantCheck | MoveData::EnableEnPassantCheckmate | MoveData::EnableEnPassantStalemate => true,
            _ => false,
        }
    }

    /// Whether the tag alone says that the move sets the half-move clock back: captures and promotions do.
    #[verifier::allow_in_spec]
    pub fn reset_halfmove(&self) -> bool
        returns
            (match self {
                MoveData::Promotion | MoveData::PromotionCheck | MoveData::PromotionCheckmate | MoveData::PromotionStalemate | MoveData::EnPassant | MoveData::EnPassantCheck | MoveData::EnPassantCheckmate | MoveData::EnPassantStalemate | MoveData::Capture | MoveData::CaptureCheck | MoveData::CaptureCheckmate | MoveData::CaptureStalemate | MoveData::CapturePromotion | MoveData::CapturePromotionCheck | MoveData::CapturePromotionCheckmate | MoveData::CapturePromotionStalemate => true,
                _ => false,
            }),
    {
        match self {
            MoveData::Promotion | MoveData::PromotionCheck | MoveData::PromotionCheckmate | MoveData::PromotionStalemate | MoveData::EnPassant | MoveData::EnPassantCheck | MoveData::EnPassantCheckmate | MoveData::EnPassantStalemate | MoveData::Capture | MoveData::CaptureCheck | MoveData::CaptureCheckmate | MoveData::CaptureStalemate | MoveData::CapturePromotion | MoveData::CapturePromotionCheck | MoveData::CapturePromotionCheckmate | MoveData::CapturePromotionStalemate => true,
            _ => false,
        }
    }

    /// Whether the move gives check.
    #[verifier::allow_in_spec]
    pub fn is_check(&self) -> bool
        returns
            (self.move_result() == MoveResult::Check),
    {
        match self.move_result() {
            MoveResult::Check => true,
            _ => false,
        }
    }

    /// Whether the move gives checkmate.
    #[verifier::allow_in_spec]
    pub fn is_checkmate(&self) -> bool
        returns
            (self.move_result() == MoveResult::Checkmate),
    {
        match self.move_result() {
            MoveResult::Checkmate => true,
            _ => false,
        }
    }

    /// Whether the move gives stalemate.
    #[verifier::allow_in_spec]
    pub fn is_stalemate(&self) -> bool
        returns
            (self.move_result() == MoveResult::Stalemate),
    {
        match self.move_result() {
            MoveResult::Stalemate => true,
            _ => false,
        }
    }

    /// The tag of the same kind and capture with the given result.
    pub fn with_result(self, result: MoveResult) -> (tag: MoveData)
        ensures
            tag.kind() == self.kind(),
            tag.is_capture() == self.is_capture(),
            tag.move_result() == result,
    {
        match result {
            MoveResult::Quiet => match self {
                MoveData::Normal | MoveData::NormalCheck | MoveData::NormalCheckmate | MoveData::NormalStalemate => MoveData::Normal,
                MoveData::Castling | MoveData::CastlingCheck | MoveData::CastlingCheckmate | MoveData::CastlingStalemate => MoveData::Castling,
                MoveData::Promotion | MoveData::PromotionCheck | MoveData::PromotionCheckmate | MoveData::PromotionStalemate => MoveData::Promotion,
                MoveData::EnPassant | MoveData::EnPassantCheck | MoveData::EnPassantCheckmate | MoveData::EnPassantStalemate => MoveData::EnPassant,
                MoveData::EnableEnPassant | MoveData::EnableEnPassantCheck | MoveData::EnableEnPassantCheckmate | MoveData::EnableEnPassantStalemate => MoveData::EnableEnPassant,
                MoveData::Capture | MoveData::CaptureCheck | MoveData::CaptureCheckmate | MoveData::CaptureStalemate => MoveData::Capture,
                MoveData::CapturePromotion | MoveData::CapturePromotionCheck | MoveData::CapturePromotionCheckmate | MoveData::CapturePromotionStalemate => MoveData::CapturePromotion,
            },
            MoveResult::Check => match self {
                MoveData::Normal | MoveData::NormalCheck | MoveData::NormalCheckmate | MoveData::NormalStalemate => MoveData::NormalCheck,
                MoveData::Castling | MoveData::CastlingCheck | MoveData::CastlingCheckmate | MoveData::CastlingStalemate => MoveData::CastlingCheck,
                MoveData::Promotion | MoveData::PromotionCheck | MoveData::PromotionCheckmate | MoveData::PromotionStalemate => MoveData::PromotionCheck,
                MoveData::EnPassant | MoveData::EnPassantCheck | MoveData::EnPassantCheckmate | MoveData::EnPassantStalemate => MoveData::EnPassantCheck,
                MoveData::EnableEnPassant | MoveData::EnableEnPassantCheck | MoveData::EnableEnPassantCheckmate | MoveData::EnableEnPassantStalemate => MoveData::EnableEnPassantCheck,
                MoveData::Capture | MoveData::CaptureCheck | MoveData::CaptureCheckmate | MoveData::CaptureStalemate => MoveData::CaptureCheck,
                MoveData::CapturePromotion | MoveData::CapturePromotionCheck | MoveData::CapturePromotionCheckmate | MoveData::CapturePromotionStalemate => MoveData::CapturePromotionCheck,
            },
            MoveResult::Checkmate => match self {
                MoveData::Normal | MoveData::NormalCheck | MoveData::NormalCheckmate | MoveData::NormalStalemate => MoveData::NormalCheckmate,
                MoveData::Castling | MoveData::CastlingCheck | MoveData::CastlingCheckmate | MoveData::CastlingStalemate => MoveData::CastlingCheckmate,
                MoveData::Promotion | MoveData::PromotionCheck | MoveData::PromotionCheckmate | MoveData::PromotionStalemate => MoveData::PromotionCheckmate,
                MoveData::EnPassant | MoveData::EnPassantCheck | MoveData::EnPassantCheckmate | MoveData::EnPassantStalemate => MoveData::EnPassantCheckmate,
                MoveData::EnableEnPassant | MoveData::EnableEnPassantCheck | MoveData::EnableEnPassantCheckmate | MoveData::EnableEnPassantStalemate => MoveData::EnableEnPassantCheckmate,
                MoveData::Capture | MoveData::CaptureCheck | MoveData::CaptureCheckmate | MoveData::CaptureStalemate => MoveData::CaptureCheckmate,
                MoveData::CapturePromotion | MoveData::CapturePromotionCheck | MoveData::CapturePromotionCheckmate | MoveData::CapturePromotionStalemate => MoveData::CapturePromotionCheckmate,
            },
            MoveResult::Stalemate => match self {
                MoveData::Normal | MoveData::NormalCheck | MoveData::NormalCheckmate | MoveData::NormalStalemate => MoveData::NormalStalemate,
                MoveData::Castling | MoveData::CastlingCheck | MoveData::CastlingCheckmate | MoveData::CastlingStalemate => MoveData::CastlingStalemate,
                MoveData::Promotion | MoveData::PromotionCheck | MoveData::PromotionCheckmate | MoveData::PromotionStalemate => MoveData::PromotionStalemate,
                MoveData::EnPassant | MoveData::EnPassantCheck | MoveData::EnPassantCheckmate | MoveData::EnPassantStalemate => MoveData::EnPassantStalemate,
                MoveData::EnableEnPassant | MoveData::EnableEnPassantCheck | MoveData::EnableEnPassantCheckmate | MoveData::EnableEnPassantStalemate => MoveData::EnableEnPassantStalemate,
                MoveData::Capture | MoveData::CaptureCheck | MoveData::CaptureCheckmate | MoveData::CaptureStalemate => MoveData::CaptureStalemate,
                MoveData::CapturePromotion | MoveData::CapturePromotionCheck | MoveData::CapturePromotionCheckmate | MoveData::CapturePromotionStalemate => MoveData::CapturePromotionStalemate,
            },
        }
    }

    /// The tag with check for its result.
    pub fn add_check(self) -> (tag: MoveData)
        ensures
            tag.kind() == self.kind(),
            tag.is_capture() == self.is_capture(),
            tag.move_result() == MoveResult::Check,
    {
        self.with_result(MoveResult::Check)
    }

    /// The tag with checkmate for its result.
    pub fn add_checkmate(self) -> (tag: MoveData)
        ensures
            tag.kind() == self.kind(),
            tag.is_capture() == self.is_capture(),
            tag.move_result() == MoveResult::Checkmate,
    {
        self.with_result(MoveResult::Checkmate)
    }

    /// The tag with stalemate for its result.
    pub fn add_stalemate(self) -> (tag: MoveData)
        ensures
            tag.kind() == self.kind(),
            tag.is_capture() == self.is_capture(),
            tag.move_result() == MoveResult::Stalemate,
    {
        self.with_result(MoveResult::Stalemate)
    }

    /// A tag is known by its kind, its capture and its result: two tags
    /// that agree in all three are the same tag.
    pub proof fn lemma_tag_determined(self, other: MoveData)
        requires
            self.kind() == other.kind(),
            self.is_capture() == other.is_capture(),
            self.move_result() == other.move_result(),
        ensures
            self == other,
    {
    }

    /// The tag's name.
    pub open spec fn name(self) -> Seq<char> {
        match self {
            MoveData::Normal => "Normal"@,
            MoveData::NormalCheck => "Check"@,
            MoveData::NormalCheckmate => "Checkmate"@,
            MoveData::NormalStalemate => "Stalemate"@,
            MoveData::Castling => "Castling"@,
            MoveData::CastlingCheck => "CastlingCheck"@,
            MoveData::CastlingCheckmate => "CastlingCheckmate"@,
            MoveData::CastlingStalemate => "CastlingStalemate"@,
            MoveData::Promotion => "Promotion"@,
            MoveData::PromotionCheck => "PromotionCheck"@,
            MoveData::PromotionCheckmate => "PromotionCheckmate"@,
            MoveData::PromotionStalemate => "PromotionStalemate"@,
            MoveData::EnPassant => "EnPassant"@,
            MoveData::EnPassantCheck => "EnPassantCheck"@,
            MoveData::EnPassantCheckmate => "EnPassantCheckmate"@,
            MoveData::EnPassantStalemate => "EnPassantStalemate"@,
            MoveData::EnableEnPassant => "EnableEnPassant"@,
            MoveData::EnableEnPassantCheck => "EnableEnPassantCheck"@,
            MoveData::EnableEnPassantCheckmate => "EnableEnPassantCheckmate"@,
            MoveData::EnableEnPassantStalemate => "EnableEnPassantStalemate"@,
            MoveData::Capture => "Capture"@,
            MoveData::CaptureCheck => "CaptureCheck"@,
            MoveData::CaptureCheckmate => "CaptureCheckmate"@,
            MoveData::CaptureStalemate => "CaptureStalemate"@,
            MoveData::CapturePromotion => "CapturePromotion"@,
            MoveData::CapturePromotionCheck => "CapturePromotionCheck"@,
            MoveData::CapturePromotionCheckmate => "CapturePromotionCheckmate"@,
            MoveData::CapturePromotionStalemate => "CapturePromotionStalemate"@,
        }
    }

    /// The tag's name. The plain move is called `Normal`; with a result it
    /// is called by the result alone. Every other tag is called as it is
    /// written.
    pub fn to_string(&self) -> (s: String)
        ensures
            s@ == self.name(),
    {
        match self {
            MoveData::Normal => String::from_str("Normal"),
            MoveData::NormalCheck => String::from_str("Check"),
            MoveData::NormalCheckmate => String::from_str("Checkmate"),
            MoveData::NormalStalemate => String::from_str("Stalemate"),
            MoveData::Castling => String::from_str("Castling"),
            MoveData::CastlingCheck => String::from_str("CastlingCheck"),
            MoveData::CastlingCheckmate => String::from_str("CastlingCheckmate"),
            MoveData::CastlingStalemate => String::from_str("CastlingStalemate"),
            MoveData::Promotion => String::from_str("Promotion"),
            MoveData::PromotionCheck => String::from_str("PromotionCheck"),
            MoveData::PromotionCheckmate => String::from_str("PromotionCheckmate"),
            MoveData::PromotionStalemate => String::from_str("PromotionStalemate"),
            MoveData::EnPassant => String::from_str("EnPassant"),
            MoveData::EnPassantCheck => String::from_str("EnPassantCheck"),
            MoveData::EnPassantCheckmate => String::from_str("EnPassantCheckmate"),
            MoveData::EnPassantStalemate => String::from_str("EnPassantStalemate"),
            MoveData::EnableEnPassant => String::from_str("EnableEnPassant"),
            MoveData::EnableEnPassantCheck => String::from_str("EnableEnPassantCheck"),
            MoveData::EnableEnPassantCheckmate => String::from_str("EnableEnPassantCheckmate"),
            MoveData::EnableEnPassantStalemate => String::from_str("EnableEnPassantStalemate"),
            MoveData::Capture => String::from_str("Capture"),
            MoveData::CaptureCheck => String::from_str("CaptureCheck"),
            MoveData::CaptureCheckmate => String::from_str("CaptureCheckmate"),
            MoveData::CaptureStalemate => String::from_str("CaptureStalemate"),
            MoveData::CapturePromotion => String::from_str("CapturePromotion"),
            MoveData::CapturePromotionCheck => String::from_str("CapturePromotionCheck"),
            MoveData::CapturePromotionCheckmate => String::from_str("CapturePromotionCheckmate"),
            MoveData::CapturePromotionStalemate => String::from_str("CapturePromotionStalemate"),
        }
    }
}

/// The tag of a move of the given kind and result. Whether it captures is
/// asked of plain moves and promotions only: castling and a double step
/// never capture, an en-passant capture always does.
pub fn special_move_builder(move_type: SpecialMoveType, result: MoveResult, captures: bool) -> (tag:
    MoveData)
    ensures
        tag.kind() == move_type,
        tag.move_result() == result,
        tag.is_capture() == (match move_type {
            SpecialMoveType::Regular | SpecialMoveType::Promotion => captures,
            SpecialMoveType::EnPassant => true,
            SpecialMoveType::Castling | SpecialMoveType::EnableEnPassant => false,
        }),
{
    match move_type {
        SpecialMoveType::Regular => build_none_or_promotion(
            MoveData::Normal,
            captures,
            MoveData::Capture,
            result,
        ),
        SpecialMoveType::Promotion => build_none_or_promotion(
            MoveData::Promotion,
            captures,
            MoveData::CapturePromotion,
            result,
        ),
        SpecialMoveType::Castling => build_move_type(MoveData::Castling, result),
        SpecialMoveType::EnPassant => build_move_type(MoveData::EnPassant, result),
        SpecialMoveType::EnableEnPassant => build_move_type(MoveData::EnableEnPassant, result),
    }
}

/// The tag for a plain move or a promotion: `capture_base` with the result
/// if the move captures, `base` with the result if not.
fn build_none_or_promotion(
    base: MoveData,
    captures: bool,
    capture_base: MoveData,
    result: MoveResult,
) -> (tag: MoveData)
    ensures
        tag.kind() == (if captures { capture_base.kind() } else { base.kind() }),
        tag.is_capture() == (if captures { capture_base.is_capture() } else { base.is_capture() }),
        tag.move_result() == result,
{
    if captures {
        capture_base.with_result(result)
    } else {
        base.with_result(result)
    }
}

/// The tag for a kind that has no variant with a capture: `base` with the result.
fn build_move_type(base: MoveData, result: MoveResult) -> (tag: MoveData)
    ensures
        tag.kind() == base.kind(),
        tag.is_capture() == base.is_capture(),
        tag.move_result() == result,
{
    base.with_result(result)
}

} // verus!
