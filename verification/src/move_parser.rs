//! Reading moves in algebraic notation.
//!
//! A move is read in three steps. The characters are turned into tokens,
//! after each has been looked up in a table that maps the many ways of
//! writing a piece to one letter. File and rank tokens are joined into
//! squares, and the sign of a promotion is joined with the piece that
//! follows it. The tokens are then read in the order piece, origin, capture
//! sign, target, promotion, result, into a description of the move. The
//! description is resolved against a board in a last step.

use vstd::prelude::*;
use crate::board::Board;
use crate::chess_moves::ChessMove;
use crate::move_data::MoveError;
use crate::move_selection::{castle_query, squares_query, Disambiguity, MoveQuery};
use crate::pieces::{Color, Piece};
use crate::position::Position;
use crate::rules::{CastleType, MoveResult, MoveType};
use crate::square::{Col, Row, Square};

verus! {

/// The steps in which the tokens of a move are read.
#[derive(Clone, Copy, Debug, PartialEq, Eq, Structural)]
pub enum AlgebraicParseStage {
    Piece,
    Disambiguation,
    Capture,
    Target,
    Promotion,
    MoveResult,
}

/// A token of notation.
#[derive(Clone, Copy, Debug, PartialEq, Eq, Structural)]
pub enum Token {
    /// A piece letter, such as `K` or `Q`.
    Piece(Piece),
    /// A rank digit, `1` to `8`.
    Rank(Row),
    /// A file letter, `a` to `h`.
    File(Col),
    /// A file letter and a rank digit, such as `e4`.
    Square(Square),
    /// The capture sign `x`.
    Capture,
    /// A separator, `-` or `>`.
    Separator,
    /// The check sign `+`.
    Check,
    /// The checkmate sign `#`.
    Checkmate,
    /// The stalemate sign `‡`.
    Stalemate,
    /// The promotion sign `=` with the piece that follows it.
    Promotion(Piece),
    /// A castle, such as `O-O` or `0-0-0`.
    Castle(CastleType),
}

/// Why notation could not be read, or why what was read is no move.
#[derive(Clone, Copy, Debug, PartialEq, Eq, Structural)]
pub enum ParseError {
    MissingPiece,
    MissingOriginError,
    MissingTargetError,
    MissingPromotionPiece,
    MissingCastleType,
    InvalidSquare(Square),
    UnknownCharacter,
    UnrecognizedCharInMap,
    TokenizationError,
    AlgebraicParseModeError(AlgebraicParseStage),
    DisambiguousMoveError(Disambiguity),
    IllegalMoveError(MoveError),
    MalformedCastle,
    MalformedExpression(Token),
}

/// A move as notation describes it.
#[derive(Clone, Copy, Debug, PartialEq, Eq, Structural)]
pub struct ProtoMove {
    pub piece: Option<Piece>,
    pub origin: Disambiguity,
    pub is_capture: Option<bool>,
    pub target: Option<Square>,
    pub move_type: MoveType,
    pub promotion_piece: Option<Piece>,
    pub castle_type: Option<CastleType>,
    pub move_result: MoveResult,
}

/// What one step of reading comes to: the description so far with the
/// step to go on with, and whether the token looked at has been used up; or
/// the end of the reading.
#[derive(Clone, Copy, Debug)]
pub enum Step {
    Next(ProtoMove, AlgebraicParseStage, bool),
    Finish(Result<ProtoMove, ParseError>),
}

impl AlgebraicParseStage {
    /// The step's place in the order of reading.
    #[verifier::allow_in_spec]
    pub fn rank(&self) -> u8
        returns
            (match self {
                AlgebraicParseStage::Piece => 0u8,
                AlgebraicParseStage::Disambiguation => 1u8,
                AlgebraicParseStage::Capture => 2u8,
                AlgebraicParseStage::Target => 3u8,
                AlgebraicParseStage::Promotion => 4u8,
                AlgebraicParseStage::MoveResult => 5u8,
            }),
    {
        match self {
            AlgebraicParseStage::Piece => 0u8,
            AlgebraicParseStage::Disambiguation => 1u8,
            AlgebraicParseStage::Capture => 2u8,
            AlgebraicParseStage::Target => 3u8,
            AlgebraicParseStage::Promotion => 4u8,
            AlgebraicParseStage::MoveResult => 5u8,
        }
    }
}

impl Token {
    /// Whether the token is one of the signs for check, checkmate and stalemate.
    #[verifier::allow_in_spec]
    pub fn is_result(&self) -> bool
        returns
            (match self {
                Token::Check | Token::Checkmate | Token::Stalemate => true,
                _ => false,
            }),
    {
        match self {
            Token::Check | Token::Checkmate | Token::Stalemate => true,
            _ => false,
        }
    }
}

/// The description from which reading starts: nothing is known, and the
/// move is taken to be a plain one.
#[verifier::allow_in_spec]
pub fn blank_move() -> ProtoMove
    returns
        (ProtoMove {
            piece: None,
            origin: Disambiguity::Unspecified,
            target: None,
            is_capture: None,
            move_type: MoveType::Regular,
            promotion_piece: None,
            castle_type: None,
            move_result: MoveResult::Quiet,
        }),
{
    ProtoMove {
        piece: None,
        origin: Disambiguity::Unspecified,
        target: None,
        is_capture: None,
        move_type: MoveType::Regular,
        promotion_piece: None,
        castle_type: None,
        move_result: MoveResult::Quiet,
    }
}

/// What a finished reading comes to: the description, if it is a castle or
/// names a target.
#[verifier::allow_in_spec]
pub fn finalize(proto_move: ProtoMove) -> Result<ProtoMove, ParseError>
    returns
        (match proto_move.move_type {
            MoveType::Castling => Ok(proto_move),
            _ => match proto_move.target {
                Some(_) => Ok(proto_move),
                None => Err(ParseError::MissingTargetError),
            },
        }),
{
    match proto_move.move_type {
        MoveType::Castling => Ok(proto_move),
        _ => match proto_move.target {
            Some(_) => Ok(proto_move),
            None => Err(ParseError::MissingTargetError),
        },
    }
}

/// The first step of reading the short notation: a castle, a piece letter,
/// or what a pawn move starts with.
#[verifier::allow_in_spec]
pub fn san_start(peek: Option<Token>, active_player: Color) -> Step
    returns
        (match peek {
            None => Step::Finish(Err(ParseError::TokenizationError)),
            Some(Token::Castle(castle_type)) => Step::Next(
                ProtoMove {
                    piece: Some(active_player.get_king()),
                    move_type: MoveType::Castling,
                    castle_type: Some(castle_type),
                    ..blank_move()
                },
                AlgebraicParseStage::MoveResult,
                true,
            ),
            Some(Token::Piece(piece)) => Step::Next(
                ProtoMove { piece: Some(piece), ..blank_move() },
                AlgebraicParseStage::Disambiguation,
                true,
            ),
            Some(Token::File(col)) => Step::Next(
                ProtoMove {
                    piece: Some(active_player.get_pawn()),
                    origin: Disambiguity::File(col),
                    ..blank_move()
                },
                AlgebraicParseStage::Capture,
                true,
            ),
            Some(Token::Square(square)) => Step::Next(
                ProtoMove {
                    piece: Some(active_player.get_pawn()),
                    target: Some(square),
                    ..blank_move()
                },
                AlgebraicParseStage::Capture,
                true,
            ),
            Some(Token::Capture) => Step::Next(
                ProtoMove {
                    piece: Some(active_player.get_pawn()),
                    is_capture: Some(true),
                    ..blank_move()
                },
                AlgebraicParseStage::Target,
                true,
            ),
            Some(_) => Step::Finish(Err(ParseError::MissingPiece)),
        }),
{
    match peek {
        None => Step::Finish(Err(ParseError::TokenizationError)),
        Some(Token::Castle(castle_type)) => Step::Next(
            ProtoMove {
                piece: Some(active_player.get_king()),
                move_type: MoveType::Castling,
                castle_type: Some(castle_type),
                ..blank_move()
            },
            AlgebraicParseStage::MoveResult,
            true,
        ),
        Some(Token::Piece(piece)) => Step::Next(
            ProtoMove { piece: Some(piece), ..blank_move() },
            AlgebraicParseStage::Disambiguation,
            true,
        ),
        Some(Token::File(col)) => Step::Next(
            ProtoMove {
                piece: Some(active_player.get_pawn()),
                origin: Disambiguity::File(col),
                ..blank_move()
            },
            AlgebraicParseStage::Capture,
            true,
        ),
        Some(Token::Square(square)) => Step::Next(
            ProtoMove {
                piece: Some(active_player.get_pawn()),
                target: Some(square),
                ..blank_move()
            },
            AlgebraicParseStage::Capture,
            true,
        ),
        Some(Token::Capture) => Step::Next(
            ProtoMove {
                piece: Some(active_player.get_pawn()),
                is_capture: Some(true),
                ..blank_move()
            },
            AlgebraicParseStage::Target,
            true,
        ),
        Some(_) => Step::Finish(Err(ParseError::MissingPiece)),
    }
}

/// The step after a piece letter in the short notation: what is said of
/// the origin. A square found here is taken for the target until another
/// follows.
#[verifier::allow_in_spec]
pub fn san_origin(peek: Option<Token>, proto: ProtoMove) -> Step
    returns
        (match peek {
            None => Step::Finish(Err(ParseError::MissingTargetError)),
            Some(Token::File(col)) => Step::Next(
                ProtoMove { origin: Disambiguity::File(col), ..proto },
                AlgebraicParseStage::Capture,
                true,
            ),
            Some(Token::Rank(row)) => Step::Next(
                ProtoMove { origin: Disambiguity::Rank(row), ..proto },
                AlgebraicParseStage::Capture,
                true,
            ),
            Some(Token::Square(square)) => Step::Next(
                ProtoMove { target: Some(square), ..proto },
                AlgebraicParseStage::Capture,
                true,
            ),
            Some(Token::Separator) | Some(Token::Capture) => Step::Next(
                ProtoMove { origin: Disambiguity::Unspecified, ..proto },
                AlgebraicParseStage::Capture,
                false,
            ),
            Some(token) => Step::Finish(Err(ParseError::MalformedExpression(token))),
        }),
{
    match peek {
        None => Step::Finish(Err(ParseError::MissingTargetError)),
        Some(Token::File(col)) => Step::Next(
            ProtoMove { origin: Disambiguity::File(col), ..proto },
            AlgebraicParseStage::Capture,
            true,
        ),
        Some(Token::Rank(row)) => Step::Next(
            ProtoMove { origin: Disambiguity::Rank(row), ..proto },
            AlgebraicParseStage::Capture,
            true,
        ),
        Some(Token::Square(square)) => Step::Next(
            ProtoMove { target: Some(square), ..proto },
            AlgebraicParseStage::Capture,
            true,
        ),
        Some(Token::Separator) | Some(Token::Capture) => Step::Next(
            ProtoMove { origin: Disambiguity::Unspecified, ..proto },
            AlgebraicParseStage::Capture,
            false,
        ),
        Some(token) => Step::Finish(Err(ParseError::MalformedExpression(token))),
    }
}

/// The step of the capture sign in the short notation.
#[verifier::allow_in_spec]
pub fn san_capture(peek: Option<Token>, proto: ProtoMove) -> Step
    returns
        (match peek {
            None => Step::Finish(finalize(proto)),
            Some(Token::Capture) => Step::Next(
                ProtoMove { is_capture: Some(true), ..proto },
                AlgebraicParseStage::Target,
                true,
            ),
            Some(Token::Separator) => Step::Next(
                ProtoMove { is_capture: Some(false), ..proto },
                AlgebraicParseStage::Target,
                true,
            ),
            Some(Token::Square(_)) => Step::Next(proto, AlgebraicParseStage::Target, false),
            Some(Token::Promotion(_)) => Step::Next(proto, AlgebraicParseStage::Promotion, false),
            Some(Token::Check) | Some(Token::Checkmate) | Some(Token::Stalemate) => Step::Next(
                proto,
                AlgebraicParseStage::MoveResult,
                false,
            ),
            Some(token) => Step::Finish(Err(ParseError::MalformedExpression(token))),
        }),
{
    match peek {
        None => Step::Finish(finalize(proto)),
        Some(Token::Capture) => Step::Next(
            ProtoMove { is_capture: Some(true), ..proto },
            AlgebraicParseStage::Target,
            true,
        ),
        Some(Token::Separator) => Step::Next(
            ProtoMove { is_capture: Some(false), ..proto },
            AlgebraicParseStage::Target,
            true,
        ),
        Some(Token::Square(_)) => Step::Next(proto, AlgebraicParseStage::Target, false),
        Some(Token::Promotion(_)) => Step::Next(proto, AlgebraicParseStage::Promotion, false),
        Some(Token::Check) | Some(Token::Checkmate) | Some(Token::Stalemate) => Step::Next(
            proto,
            AlgebraicParseStage::MoveResult,
            false,
        ),
        Some(token) => Step::Finish(Err(ParseError::MalformedExpression(token))),
    }
}

/// The step of the target in the short notation. Where a square has been
/// read before, that square was the origin.
#[verifier::allow_in_spec]
pub fn san_target(peek: Option<Token>, proto: ProtoMove) -> Step
    returns
        (match peek {
            None => Step::Finish(finalize(proto)),
            Some(Token::Square(square)) => Step::Next(
                match proto.target {
                    Some(old_square) => ProtoMove {
                        origin: Disambiguity::Square(old_square),
                        target: Some(square),
                        ..proto
                    },
                    None => ProtoMove { target: Some(square), ..proto },
                },
                AlgebraicParseStage::Promotion,
                true,
            ),
            Some(Token::Promotion(_)) => Step::Next(proto, AlgebraicParseStage::Promotion, false),
            Some(Token::Check) | Some(Token::Checkmate) | Some(Token::Stalemate) => Step::Next(
                proto,
                AlgebraicParseStage::MoveResult,
                false,
            ),
            Some(token) => Step::Finish(Err(ParseError::MalformedExpression(token))),
        }),
{
    match peek {
        None => Step::Finish(finalize(proto)),
        Some(Token::Square(square)) => Step::Next(
            match proto.target {
                Some(old_square) => ProtoMove {
                    origin: Disambiguity::Square(old_square),
                    target: Some(square),
                    ..proto
                },
                None => ProtoMove { target: Some(square), ..proto },
            },
            AlgebraicParseStage::Promotion,
            true,
        ),
        Some(Token::Promotion(_)) => Step::Next(proto, AlgebraicParseStage::Promotion, false),
        Some(Token::Check) | Some(Token::Checkmate) | Some(Token::Stalemate) => Step::Next(
            proto,
            AlgebraicParseStage::MoveResult,
            false,
        ),
        Some(token) => Step::Finish(Err(ParseError::MalformedExpression(token))),
    }
}

/// The step of the promotion in the short notation.
#[verifier::allow_in_spec]
pub fn san_promotion(peek: Option<Token>, proto: ProtoMove) -> Step
    returns
        (match peek {
            None => Step::Finish(finalize(proto)),
            Some(Token::Promotion(piece)) => Step::Next(
                ProtoMove { move_type: MoveType::Promotion, promotion_piece: Some(piece), ..proto },
                AlgebraicParseStage::MoveResult,
                true,
            ),
            Some(Token::Check) | Some(Token::Checkmate) | Some(Token::Stalemate) => Step::Next(
                proto,
                AlgebraicParseStage::MoveResult,
                false,
            ),
            Some(token) => Step::Finish(Err(ParseError::MalformedExpression(token))),
        }),
{
    match peek {
        None => Step::Finish(finalize(proto)),
        Some(Token::Promotion(piece)) => Step::Next(
            ProtoMove { move_type: MoveType::Promotion, promotion_piece: Some(piece), ..proto },
            AlgebraicParseStage::MoveResult,
            true,
        ),
        Some(Token::Check) | Some(Token::Checkmate) | Some(Token::Stalemate) => Step::Next(
            proto,
            AlgebraicParseStage::MoveResult,
            false,
        ),
        Some(token) => Step::Finish(Err(ParseError::MalformedExpression(token))),
    }
}

/// The last step of reading, in both notations: the sign of the result.
#[verifier::allow_in_spec]
pub fn read_result(peek: Option<Token>, proto: ProtoMove) -> Step
    returns
        (match peek {
            None => Step::Finish(finalize(proto)),
            Some(Token::Check) => Step::Next(
                ProtoMove { move_result: MoveResult::Check, ..proto },
                AlgebraicParseStage::MoveResult,
                true,
            ),
            Some(Token::Checkmate) => Step::Next(
                ProtoMove { move_result: MoveResult::Checkmate, ..proto },
                AlgebraicParseStage::MoveResult,
                true,
            ),
            Some(Token::Stalemate) => Step::Next(
                ProtoMove { move_result: MoveResult::Stalemate, ..proto },
                AlgebraicParseStage::MoveResult,
                true,
            ),
            Some(token) => Step::Finish(Err(ParseError::MalformedExpression(token))),
        }),
{
    match peek {
        None => Step::Finish(finalize(proto)),
        Some(Token::Check) => Step::Next(
            ProtoMove { move_result: MoveResult::Check, ..proto },
            AlgebraicParseStage::MoveResult,
            true,
        ),
        Some(Token::Checkmate) => Step::Next(
            ProtoMove { move_result: MoveResult::Checkmate, ..proto },
            AlgebraicParseStage::MoveResult,
            true,
        ),
        Some(Token::Stalemate) => Step::Next(
            ProtoMove { move_result: MoveResult::Stalemate, ..proto },
            AlgebraicParseStage::MoveResult,
            true,
        ),
        Some(token) => Step::Finish(Err(ParseError::MalformedExpression(token))),
    }
}

/// The first step of reading the long notation: a castle, a piece letter,
/// or the origin of a pawn move.
#[verifier::allow_in_spec]
pub fn lan_start(peek: Option<Token>, active_player: Color) -> Step
    returns
        (match peek {
            None => Step::Finish(Err(ParseError::TokenizationError)),
            Some(Token::Castle(castle_type)) => Step::Next(
                ProtoMove {
                    piece: Some(active_player.get_king()),
                    move_type: MoveType::Castling,
                    castle_type: Some(castle_type),
                    ..blank_move()
                },
                AlgebraicParseStage::MoveResult,
                true,
            ),
            Some(Token::Piece(piece)) => Step::Next(
                ProtoMove { piece: Some(piece), ..blank_move() },
                AlgebraicParseStage::Disambiguation,
                true,
            ),
            Some(Token::Square(square)) => Step::Next(
                ProtoMove {
                    piece: Some(active_player.get_pawn()),
                    origin: Disambiguity::Square(square),
                    ..blank_move()
                },
                AlgebraicParseStage::Capture,
                true,
            ),
            Some(Token::Capture) => Step::Finish(Err(ParseError::MissingOriginError)),
            Some(_) => Step::Finish(Err(ParseError::MissingPiece)),
        }),
{
    match peek {
        None => Step::Finish(Err(ParseError::TokenizationError)),
        Some(Token::Castle(castle_type)) => Step::Next(
            ProtoMove {
                piece: Some(active_player.get_king()),
                move_type: MoveType::Castling,
                castle_type: Some(castle_type),
                ..blank_move()
            },
            AlgebraicParseStage::MoveResult,
            true,
        ),
        Some(Token::Piece(piece)) => Step::Next(
            ProtoMove { piece: Some(piece), ..blank_move() },
            AlgebraicParseStage::Disambiguation,
            true,
        ),
        Some(Token::Square(square)) => Step::Next(
            ProtoMove {
                piece: Some(active_player.get_pawn()),
                origin: Disambiguity::Square(square),
                ..blank_move()
            },
            AlgebraicParseStage::Capture,
            true,
        ),
        Some(Token::Capture) => Step::Finish(Err(ParseError::MissingOriginError)),
        Some(_) => Step::Finish(Err(ParseError::MissingPiece)),
    }
}

/// The step after a piece letter in the long notation: the origin, which
/// has to be a square.
#[verifier::allow_in_spec]
pub fn lan_origin(peek: Option<Token>, proto: ProtoMove) -> Step
    returns
        (match peek {
            Some(Token::Square(square)) => Step::Next(
                ProtoMove { origin: Disambiguity::Square(square), ..proto },
                AlgebraicParseStage::Capture,
                true,
            ),
            _ => Step::Finish(Err(ParseError::MissingOriginError)),
        }),
{
    match peek {
        Some(Token::Square(square)) => Step::Next(
            ProtoMove { origin: Disambiguity::Square(square), ..proto },
            AlgebraicParseStage::Capture,
            true,
        ),
        _ => Step::Finish(Err(ParseError::MissingOriginError)),
    }
}

/// The step of the capture sign in the long notation. The sign may be left
/// out: a square found here is the target.
#[verifier::allow_in_spec]
pub fn lan_capture(peek: Option<Token>, proto: ProtoMove) -> Step
    returns
        (match peek {
            Some(Token::Capture) => Step::Next(
                ProtoMove { is_capture: Some(true), ..proto },
                AlgebraicParseStage::Target,
                true,
            ),
            Some(Token::Separator) => Step::Next(
                ProtoMove { is_capture: Some(false), ..proto },
                AlgebraicParseStage::Target,
                true,
            ),
            Some(Token::Square(square)) => Step::Next(
                ProtoMove { target: Some(square), ..proto },
                AlgebraicParseStage::Promotion,
                true,
            ),
            Some(token) => Step::Finish(Err(ParseError::MalformedExpression(token))),
            None => Step::Finish(Err(ParseError::MissingTargetError)),
        }),
{
    match peek {
        Some(Token::Capture) => Step::Next(
            ProtoMove { is_capture: Some(true), ..proto },
            AlgebraicParseStage::Target,
            true,
        ),
        Some(Token::Separator) => Step::Next(
            ProtoMove { is_capture: Some(false), ..proto },
            AlgebraicParseStage::Target,
            true,
        ),
        Some(Token::Square(square)) => Step::Next(
            ProtoMove { target: Some(square), ..proto },
            AlgebraicParseStage::Promotion,
            true,
        ),
        Some(token) => Step::Finish(Err(ParseError::MalformedExpression(token))),
        None => Step::Finish(Err(ParseError::MissingTargetError)),
    }
}

/// The step of the target in the long notation, which has to be a square.
#[verifier::allow_in_spec]
pub fn lan_target(peek: Option<Token>, proto: ProtoMove) -> Step
    returns
        (match peek {
            Some(Token::Square(square)) => Step::Next(
                ProtoMove { target: Some(square), ..proto },
                AlgebraicParseStage::Promotion,
                true,
            ),
            _ => Step::Finish(Err(ParseError::MissingTargetError)),
        }),
{
    match peek {
        Some(Token::Square(square)) => Step::Next(
            ProtoMove { target: Some(square), ..proto },
            AlgebraicParseStage::Promotion,
            true,
        ),
        _ => Step::Finish(Err(ParseError::MissingTargetError)),
    }
}

/// The step of the promotion in the long notation. The piece may stand
/// with or without the promotion sign.
#[verifier::allow_in_spec]
pub fn lan_promotion(peek: Option<Token>, proto: ProtoMove) -> Step
    returns
        (match peek {
            None => Step::Finish(finalize(proto)),
            Some(Token::Promotion(piece)) | Some(Token::Piece(piece)) => Step::Next(
                ProtoMove { move_type: MoveType::Promotion, promotion_piece: Some(piece), ..proto },
                AlgebraicParseStage::MoveResult,
                true,
            ),
            Some(Token::Check) | Some(Token::Checkmate) | Some(Token::Stalemate) => Step::Next(
                proto,
                AlgebraicParseStage::MoveResult,
                false,
            ),
            Some(token) => Step::Finish(Err(ParseError::MalformedExpression(token))),
        }),
{
    match peek {
        None => Step::Finish(finalize(proto)),
        Some(Token::Promotion(piece)) | Some(Token::Piece(piece)) => Step::Next(
            ProtoMove { move_type: MoveType::Promotion, promotion_piece: Some(piece), ..proto },
            AlgebraicParseStage::MoveResult,
            true,
        ),
        Some(Token::Check) | Some(Token::Checkmate) | Some(Token::Stalemate) => Step::Next(
            proto,
            AlgebraicParseStage::MoveResult,
            false,
        ),
        Some(token) => Step::Finish(Err(ParseError::MalformedExpression(token))),
    }
}

/// One step of reading: the step numbered `number`, of the long notation if
/// `long` and of the short one if not, applied where reading has not gone
/// past it. Step 1 reads the origin, 2 the capture sign, 3 the target, 4 the
/// promotion and 5 the result.
#[verifier::allow_in_spec]
pub fn read_step(long: bool, number: u8, peek: Option<Token>, proto: ProtoMove, stage: AlgebraicParseStage) -> Step
    returns
        (if stage.rank() > number {
            Step::Next(proto, stage, false)
        } else if number == 1 {
            if long {
                lan_origin(peek, proto)
            } else {
                san_origin(peek, proto)
            }
        } else if number == 2 {
            if long {
                lan_capture(peek, proto)
            } else {
                san_capture(peek, proto)
            }
        } else if number == 3 {
            if long {
                lan_target(peek, proto)
            } else {
                san_target(peek, proto)
            }
        } else if number == 4 {
            if long {
                lan_promotion(peek, proto)
            } else {
                san_promotion(peek, proto)
            }
        } else {
            read_result(peek, proto)
        }),
{
    if stage.rank() > number {
        Step::Next(proto, stage, false)
    } else if number == 1 {
        if long {
            lan_origin(peek, proto)
        } else {
            san_origin(peek, proto)
        }
    } else if number == 2 {
        if long {
            lan_capture(peek, proto)
        } else {
            san_capture(peek, proto)
        }
    } else if number == 3 {
        if long {
            lan_target(peek, proto)
        } else {
            san_target(peek, proto)
        }
    } else if number == 4 {
        if long {
            lan_promotion(peek, proto)
        } else {
            san_promotion(peek, proto)
        }
    } else {
        read_result(peek, proto)
    }
}

/// The token at place `i`, if there is one.
pub open spec fn peek_at(tokens: Seq<Token>, i: int) -> Option<Token> {
    if 0 <= i < tokens.len() {
        Some(tokens[i])
    } else {
        None
    }
}

/// Reading from step `number` on, after the step before it has come to
/// `step` with `i` tokens used up. When the last step is done, no token may
/// be left.
pub open spec fn read_from(long: bool, number: u8, tokens: Seq<Token>, i: int, step: Step) -> Result<
    ProtoMove,
    ParseError,
>
    decreases 6 - number,
{
    match step {
        Step::Finish(r) => r,
        Step::Next(proto, stage, taken) => {
            let j = if taken {
                i + 1
            } else {
                i
            };
            if number > 5 {
                match peek_at(tokens, j) {
                    Some(token) => Err(ParseError::MalformedExpression(token)),
                    None => finalize(proto),
                }
            } else {
                read_from(
                    long,
                    (number + 1) as u8,
                    tokens,
                    j,
                    read_step(long, number, peek_at(tokens, j), proto, stage),
                )
            }
        },
    }
}

/// The description that a list of tokens stands for, in the long notation
/// if `long` and in the short one if not.
pub open spec fn read_tokens(long: bool, tokens: Seq<Token>, active_player: Color) -> Result<
    ProtoMove,
    ParseError,
> {
    read_from(
        long,
        1,
        tokens,
        0,
        if long {
            lan_start(peek_at(tokens, 0), active_player)
        } else {
            san_start(peek_at(tokens, 0), active_player)
        },
    )
}

fn peek(tokens: &Vec<Token>, i: usize) -> (r: Option<Token>)
    ensures
        r == peek_at(tokens@, i as int),
{
    if i < tokens.len() {
        Some(tokens[i])
    } else {
        None
    }
}

/// Reads a list of tokens into the description of a move.
#[verifier::rlimit(30)]
pub fn parse_tokens(long: bool, tokens: &Vec<Token>, active_player: Color) -> (r: Result<
    ProtoMove,
    ParseError,
>)
    ensures
        r == read_tokens(long, tokens@, active_player),
{
    let mut step = if long {
        lan_start(peek(tokens, 0), active_player)
    } else {
        san_start(peek(tokens, 0), active_player)
    };
    let mut i: usize = 0;
    let mut number: u8 = 1;
    while number <= 5
        invariant
            1 <= number <= 6,
            i <= number - 1,
            read_tokens(long, tokens@, active_player) == read_from(
                long,
                number,
                tokens@,
                i as int,
                step,
            ),
        decreases 6 - number,
    {
        match step {
            Step::Finish(r) => {
                return r;
            },
            Step::Next(proto, stage, taken) => {
                if taken {
                    i = i + 1;
                }
                step = read_step(long, number, peek(tokens, i), proto, stage);
                number = number + 1;
            },
        }
    }
    match step {
        Step::Finish(r) => r,
        Step::Next(proto, stage, taken) => {
            if taken {
                i = i + 1;
            }
            match peek(tokens, i) {
                Some(token) => Err(ParseError::MalformedExpression(token)),
                None => finalize(proto),
            }
        },
    }
}

/// The characters that notation may hold, each with the character that it
/// stands for: the signs and the letters of files, ranks and pieces stand
/// for themselves, and the figurines and other ways of writing a piece
/// stand for the piece's letter. The table is in the order of the
/// characters.
pub open spec fn piece_map() -> Seq<(char, char)> {
    seq![
        ('#', '#'), ('+', '+'), ('-', '-'), ('0', '0'),
        ('1', '1'), ('2', '2'), ('3', '3'), ('4', '4'),
        ('5', '5'), ('6', '6'), ('7', '7'), ('8', '8'),
        ('=', '='), ('>', '>'), ('B', 'B'), ('K', 'K'),
        ('N', 'N'), ('O', 'O'), ('P', 'P'), ('Q', 'Q'),
        ('R', 'R'), ('a', 'a'), ('b', 'b'), ('c', 'c'),
        ('d', 'd'), ('e', 'e'), ('f', 'f'), ('g', 'g'),
        ('h', 'h'), ('x', 'x'), ('ᴋ', 'K'), ('ᴎ', 'N'),
        ('‡', '‡'), ('⒝', 'B'), ('⒦', 'K'), ('⒩', 'N'),
        ('⒫', 'P'), ('⒬', 'Q'), ('⒭', 'R'), ('Ⓚ', 'K'),
        ('Ⓝ', 'N'), ('Ⓟ', 'P'), ('Ⓠ', 'Q'), ('Ⓡ', 'R'),
        ('ⓑ', 'B'), ('♔', 'K'), ('♕', 'Q'), ('♖', 'R'),
        ('♗', 'B'), ('♘', 'N'), ('♙', 'P'), ('♚', 'K'),
        ('♛', 'Q'), ('♜', 'R'), ('♝', 'B'), ('♞', 'N'),
        ('♟', 'P'), ('㋛', 'Q'), ('㋜', 'R'), ('㋝', 'B'),
        ('㋞', 'K'), ('俥', 'R'), ('傌', 'N'), ('兵', 'P'),
        ('卒', 'P'), ('将', 'K'), ('帅', 'K'), ('桂', 'N'),
        ('歩', 'P'), ('王', 'K'), ('角', 'B'), ('象', 'B'),
        ('車', 'R'), ('飛', 'R'), ('馬', 'N'), ('🄌', 'Q'),
        ('🄍', 'R'), ('🄑', 'B'), ('🄚', 'K'), ('🄝', 'N'),
        ('🄟', 'P'), ('🄺', 'K'), ('🅀', 'Q'), ('🅁', 'R'),
        ('🅑', 'B'), ('🅚', 'K'), ('🅝', 'N'), ('🅟', 'P'),
        ('🅺', 'K'), ('🏃', 'P'), ('🏇', 'N'), ('🏯', 'R'),
        ('🏰', 'R'), ('🐴', 'N'), ('👑', 'K'), ('👑', 'Q'),
        ('👸', 'Q'), ('🚶', 'P'), ('🤴', 'K'), ('🦄', 'N'),
    ]
}

/// The table of the characters that notation may hold.
#[verifier::rlimit(30)]
pub fn sorted_piece_map() -> (map: Vec<(char, char)>)
    ensures
        map@ == piece_map(),
{
    let map = vec![
        ('#', '#'), ('+', '+'), ('-', '-'), ('0', '0'),
        ('1', '1'), ('2', '2'), ('3', '3'), ('4', '4'),
        ('5', '5'), ('6', '6'), ('7', '7'), ('8', '8'),
        ('=', '='), ('>', '>'), ('B', 'B'), ('K', 'K'),
        ('N', 'N'), ('O', 'O'), ('P', 'P'), ('Q', 'Q'),
        ('R', 'R'), ('a', 'a'), ('b', 'b'), ('c', 'c'),
        ('d', 'd'), ('e', 'e'), ('f', 'f'), ('g', 'g'),
        ('h', 'h'), ('x', 'x'), ('ᴋ', 'K'), ('ᴎ', 'N'),
        ('‡', '‡'), ('⒝', 'B'), ('⒦', 'K'), ('⒩', 'N'),
        ('⒫', 'P'), ('⒬', 'Q'), ('⒭', 'R'), ('Ⓚ', 'K'),
        ('Ⓝ', 'N'), ('Ⓟ', 'P'), ('Ⓠ', 'Q'), ('Ⓡ', 'R'),
        ('ⓑ', 'B'), ('♔', 'K'), ('♕', 'Q'), ('♖', 'R'),
        ('♗', 'B'), ('♘', 'N'), ('♙', 'P'), ('♚', 'K'),
        ('♛', 'Q'), ('♜', 'R'), ('♝', 'B'), ('♞', 'N'),
        ('♟', 'P'), ('㋛', 'Q'), ('㋜', 'R'), ('㋝', 'B'),
        ('㋞', 'K'), ('俥', 'R'), ('傌', 'N'), ('兵', 'P'),
        ('卒', 'P'), ('将', 'K'), ('帅', 'K'), ('桂', 'N'),
        ('歩', 'P'), ('王', 'K'), ('角', 'B'), ('象', 'B'),
        ('車', 'R'), ('飛', 'R'), ('馬', 'N'), ('🄌', 'Q'),
        ('🄍', 'R'), ('🄑', 'B'), ('🄚', 'K'), ('🄝', 'N'),
        ('🄟', 'P'), ('🄺', 'K'), ('🅀', 'Q'), ('🅁', 'R'),
        ('🅑', 'B'), ('🅚', 'K'), ('🅝', 'N'), ('🅟', 'P'),
        ('🅺', 'K'), ('🏃', 'P'), ('🏇', 'N'), ('🏯', 'R'),
        ('🏰', 'R'), ('🐴', 'N'), ('👑', 'K'), ('👑', 'Q'),
        ('👸', 'Q'), ('🚶', 'P'), ('🤴', 'K'), ('🦄', 'N'),
    ];
    assert(map@ =~= piece_map());
    map
}

/// What the table `map` makes of the character `c`, looking from entry
/// `i` on: the second part of the first entry whose first part is `c`.
pub open spec fn lookup_from(map: Seq<(char, char)>, c: char, i: int) -> Option<char>
    decreases map.len() - i,
{
    if i < 0 || i >= map.len() {
        None
    } else if map[i].0 == c {
        Some(map[i].1)
    } else {
        lookup_from(map, c, i + 1)
    }
}

/// What the table makes of the character.
pub fn lookup(map: &[(char, char)], c: char) -> (r: Option<char>)
    ensures
        r == lookup_from(map@, c, 0),
{
    let mut i: usize = 0;
    while i < map.len()
        invariant
            i <= map.len(),
            lookup_from(map@, c, 0) == lookup_from(map@, c, i as int),
        decreases map.len() - i,
    {
        if map[i].0 == c {
            return Some(map[i].1);
        }
        i = i + 1;
    }
    None
}

/// The token that a character of the table's second parts stands for by
/// itself: a piece of the given colour for a piece letter, a file for a
/// letter from `a` to `h` in either case, a rank for a digit from 1 to 8,
/// and the signs. The promotion sign stands with the pawn until the piece
/// that follows it is known. The characters `O` and `0` stand for nothing
/// by themselves: castles are made of them.
pub open spec fn token_of(c: char, color: Color) -> Option<Token> {
    if c == 'K' {
        Some(Token::Piece(color.get_king()))
    } else if c == 'Q' {
        Some(Token::Piece(color.get_queen()))
    } else if c == 'B' {
        Some(Token::Piece(color.get_bishop()))
    } else if c == 'N' {
        Some(Token::Piece(color.get_knight()))
    } else if c == 'R' {
        Some(Token::Piece(color.get_rook()))
    } else if c == 'P' {
        Some(Token::Piece(color.get_pawn()))
    } else if ('a' <= c <= 'h') || ('A' <= c <= 'H') {
        Some(Token::File(Col::at(Col::file_index(c))))
    } else if '1' <= c <= '8' {
        Some(Token::Rank(Row::at(8 - (c as u32 - '0' as u32))))
    } else if c == 'x' {
        Some(Token::Capture)
    } else if c == '-' || c == '>' {
        Some(Token::Separator)
    } else if c == '+' {
        Some(Token::Check)
    } else if c == '#' {
        Some(Token::Checkmate)
    } else if c == '‡' {
        Some(Token::Stalemate)
    } else if c == '=' {
        Some(Token::Promotion(color.get_pawn()))
    } else {
        None
    }
}

#[verifier::rlimit(30)]
fn single_token(c: char, color: Color) -> (r: Option<Token>)
    ensures
        r == token_of(c, color),
{
    let code: u32 = c as u32;
    if c == 'K' {
        Some(Token::Piece(color.get_king()))
    } else if c == 'Q' {
        Some(Token::Piece(color.get_queen()))
    } else if c == 'B' {
        Some(Token::Piece(color.get_bishop()))
    } else if c == 'N' {
        Some(Token::Piece(color.get_knight()))
    } else if c == 'R' {
        Some(Token::Piece(color.get_rook()))
    } else if c == 'P' {
        Some(Token::Piece(color.get_pawn()))
    } else if (97 <= code && code <= 104) || (65 <= code && code <= 72) {
        let col = Col::from_file(c);
        proof {
            col.lemma_index();
        }
        Some(Token::File(col))
    } else if 49 <= code && code <= 56 {
        let row = Row::from_rank((code - 48) as u8);
        proof {
            row.lemma_index();
        }
        Some(Token::Rank(row))
    } else if c == 'x' {
        Some(Token::Capture)
    } else if c == '-' || c == '>' {
        Some(Token::Separator)
    } else if c == '+' {
        Some(Token::Check)
    } else if c == '#' {
        Some(Token::Checkmate)
    } else if c == '‡' {
        Some(Token::Stalemate)
    } else if c == '=' {
        Some(Token::Promotion(color.get_pawn()))
    } else {
        None
    }
}

/// The character at place `i`, if there is one.
pub open spec fn char_at(chars: Seq<char>, i: int) -> Option<char> {
    if 0 <= i < chars.len() {
        Some(chars[i])
    } else {
        None
    }
}

/// The castle that starts at place `i` with the letter `letter`, which is
/// `O` or `0`, and the number of characters that it takes beyond the
/// first. The letter has to be followed by `-` and the same letter: that
/// is the short castle, unless `-` follows again, after which the letter
/// has to follow once more for the long castle. Neither `O` nor `0` may
/// follow the short castle directly.
pub open spec fn scan_castle(chars: Seq<char>, i: int, letter: char) -> Result<
    (CastleType, nat),
    ParseError,
> {
    if char_at(chars, i + 1) != Some('-') || char_at(chars, i + 2) != Some(letter) {
        Err(ParseError::MalformedCastle)
    } else if char_at(chars, i + 3) == Some('-') {
        if char_at(chars, i + 4) == Some(letter) {
            Ok((CastleType::QueenSide, 4nat))
        } else {
            Err(ParseError::MalformedCastle)
        }
    } else if char_at(chars, i + 3) == Some('O') || char_at(chars, i + 3) == Some('0') {
        Err(ParseError::MalformedCastle)
    } else {
        Ok((CastleType::KingSide, 2nat))
    }
}

/// The token that starts at place `i`, and the number of characters that
/// it takes beyond the first. A character that the table does not hold is
/// unknown; one that the table turns into a character that stands for no
/// token is unrecognized.
pub open spec fn scan_token(chars: Seq<char>, map: Seq<(char, char)>, color: Color, i: int) -> Result<
    (Token, nat),
    ParseError,
> {
    match lookup_from(map, chars[i], 0) {
        None => Err(ParseError::UnknownCharacter),
        Some(c) => if c == 'O' || c == '0' {
            match scan_castle(chars, i, c) {
                Ok((castle_type, extra)) => Ok((Token::Castle(castle_type), extra)),
                Err(e) => Err(e),
            }
        } else {
            match token_of(c, color) {
                Some(token) => Ok((token, 0nat)),
                None => Err(ParseError::UnrecognizedCharInMap),
            }
        },
    }
}

/// The tokens `first` followed by the tokens of `rest`, where `rest` has any.
pub open spec fn join(first: Seq<Token>, rest: Result<Seq<Token>, ParseError>) -> Result<
    Seq<Token>,
    ParseError,
> {
    match rest {
        Ok(tokens) => Ok(first + tokens),
        Err(e) => Err(e),
    }
}

/// The tokens of the characters from place `i` on.
pub open spec fn tokenized_from(chars: Seq<char>, map: Seq<(char, char)>, color: Color, i: int) -> Result<
    Seq<Token>,
    ParseError,
>
    decreases chars.len() - i,
{
    if i < 0 || i >= chars.len() {
        Ok(Seq::empty())
    } else {
        match scan_token(chars, map, color, i) {
            Ok((token, extra)) => join(
                seq![token],
                tokenized_from(chars, map, color, i + 1 + extra),
            ),
            Err(e) => Err(e),
        }
    }
}

/// The tokens of a string of characters.
pub open spec fn tokenized(chars: Seq<char>, map: Seq<(char, char)>, color: Color) -> Result<
    Seq<Token>,
    ParseError,
> {
    tokenized_from(chars, map, color, 0)
}

/// A list of tokens, or the error in its place, as a value of mathematics.
pub open spec fn tokens_view(r: Result<Vec<Token>, ParseError>) -> Result<Seq<Token>, ParseError> {
    match r {
        Ok(tokens) => Ok(tokens@),
        Err(e) => Err(e),
    }
}

fn char_of(chars: &Vec<char>, i: usize) -> (r: Option<char>)
    ensures
        r == char_at(chars@, i as int),
{
    if i < chars.len() {
        Some(chars[i])
    } else {
        None
    }
}

fn is_char(found: Option<char>, wanted: char) -> (r: bool)
    ensures
        r == (found == Some(wanted)),
{
    match found {
        Some(c) => c == wanted,
        None => false,
    }
}

#[verifier::rlimit(30)]
fn read_castle(chars: &Vec<char>, i: usize, letter: char) -> (r: Result<(CastleType, usize), ParseError>)
    requires
        i < chars.len(),
    ensures
        r matches Ok(found) ==> scan_castle(chars@, i as int, letter) == Ok::<
            (CastleType, nat),
            ParseError,
        >((found.0, found.1 as nat)) && i + found.1 < chars.len(),
        r matches Err(e) ==> scan_castle(chars@, i as int, letter) == Err::<
            (CastleType, nat),
            ParseError,
        >(e),
{
    let n = chars.len();
    if n - i < 3 {
        return Err(ParseError::MalformedCastle);
    }
    if chars[i + 1] != '-' || chars[i + 2] != letter {
        return Err(ParseError::MalformedCastle);
    }
    let after = if n - i > 3 {
        Some(chars[i + 3])
    } else {
        None
    };
    if is_char(after, '-') {
        let last = if n - i > 4 {
            Some(chars[i + 4])
        } else {
            None
        };
        if is_char(last, letter) {
            Ok((CastleType::QueenSide, 4))
        } else {
            Err(ParseError::MalformedCastle)
        }
    } else if is_char(after, 'O') || is_char(after, '0') {
        Err(ParseError::MalformedCastle)
    } else {
        Ok((CastleType::KingSide, 2))
    }
}

#[verifier::rlimit(30)]
fn read_token(chars: &Vec<char>, map: &[(char, char)], color: Color, i: usize) -> (r: Result<
    (Token, usize),
    ParseError,
>)
    requires
        i < chars.len(),
    ensures
        r matches Ok(found) ==> scan_token(chars@, map@, color, i as int) == Ok::<
            (Token, nat),
            ParseError,
        >((found.0, found.1 as nat)) && i + found.1 < chars.len(),
        r matches Err(e) ==> scan_token(chars@, map@, color, i as int) == Err::<
            (Token, nat),
            ParseError,
        >(e),
{
    match lookup(map, chars[i]) {
        None => Err(ParseError::UnknownCharacter),
        Some(c) => if c == 'O' || c == '0' {
            match read_castle(chars, i, c) {
                Ok((castle_type, extra)) => Ok((Token::Castle(castle_type), extra)),
                Err(e) => Err(e),
            }
        } else {
            match single_token(c, color) {
                Some(token) => Ok((token, 0)),
                None => Err(ParseError::UnrecognizedCharInMap),
            }
        },
    }
}

/// The characters of a string.
fn chars_of(string: &str) -> (chars: Vec<char>)
    ensures
        chars@ == string@,
{
    let n = string.unicode_len();
    let mut chars: Vec<char> = Vec::new();
    let mut i: usize = 0;
    while i < n
        invariant
            n == string@.len(),
            i <= n,
            chars@ == string@.take(i as int),
        decreases n - i,
    {
        chars.push(string.get_char(i));
        i = i + 1;
        assert(chars@ =~= string@.take(i as int));
    }
    assert(string@.take(n as int) =~= string@);
    chars
}

/// Turns a string of notation into tokens. Each character is looked up in
/// the table `map` first; the first entry for a character counts. Pieces
/// are those of the colour `color`.
#[verifier::rlimit(30)]
pub fn tokenize_string(string: &str, map: &[(char, char)], color: Color) -> (r: Result<
    Vec<Token>,
    ParseError,
>)
    ensures
        tokens_view(r) == tokenized(string@, map@, color),
{
    let chars = chars_of(string);
    let mut tokens: Vec<Token> = Vec::new();
    let mut i: usize = 0;
    while i < chars.len()
        invariant
            i <= chars.len(),
            chars@ == string@,
            tokenized(string@, map@, color) == join(
                tokens@,
                tokenized_from(chars@, map@, color, i as int),
            ),
        decreases chars.len() - i,
    {
        let ghost before = tokens@;
        match read_token(&chars, map, color, i) {
            Err(e) => {
                return Err(e);
            },
            Ok((token, extra)) => {
                tokens.push(token);
                i = i + 1 + extra;
                proof {
                    let rest = tokenized_from(chars@, map@, color, i as int);
                    match rest {
                        Ok(s) => {
                            assert(before + (seq![token] + s) =~= tokens@ + s);
                        },
                        Err(_) => {},
                    }
                }
            },
        }
    }
    proof {
        assert(tokens@ + Seq::<Token>::empty() =~= tokens@);
    }
    Ok(tokens)
}

/// The tokens from place `i` on, with files and ranks joined into squares
/// and promotion signs joined with the pieces that follow them. A
/// promotion sign that no piece follows is an error.
pub open spec fn processed_from(tokens: Seq<Token>, i: int) -> Result<Seq<Token>, ParseError>
    decreases tokens.len() - i,
{
    if i < 0 || i >= tokens.len() {
        Ok(Seq::empty())
    } else {
        match tokens[i] {
            Token::Promotion(_) => match peek_at(tokens, i + 1) {
                Some(Token::Piece(piece)) => join(
                    seq![Token::Promotion(piece)],
                    processed_from(tokens, i + 2),
                ),
                _ => Err(ParseError::MissingPromotionPiece),
            },
            Token::File(col) => match peek_at(tokens, i + 1) {
                Some(Token::Rank(row)) => join(
                    seq![Token::Square(Square::at(8 * row.index() + col.index()))],
                    processed_from(tokens, i + 2),
                ),
                _ => join(seq![Token::File(col)], processed_from(tokens, i + 1)),
            },
            token => join(seq![token], processed_from(tokens, i + 1)),
        }
    }
}

/// The tokens with files and ranks joined into squares and promotion
/// signs joined with the pieces that follow them.
pub open spec fn processed(tokens: Seq<Token>) -> Result<Seq<Token>, ParseError> {
    processed_from(tokens, 0)
}

/// Joins file and rank tokens into square tokens, and each promotion sign
/// with the piece that follows it.
#[verifier::rlimit(30)]
pub fn pre_process_tokens(tokens: &Vec<Token>) -> (r: Result<Vec<Token>, ParseError>)
    ensures
        tokens_view(r) == processed(tokens@),
{
    let mut processed_tokens: Vec<Token> = Vec::new();
    let mut i: usize = 0;
    while i < tokens.len()
        invariant
            i <= tokens.len(),
            processed(tokens@) == join(processed_tokens@, processed_from(tokens@, i as int)),
        decreases tokens.len() - i,
    {
        let ghost before = processed_tokens@;
        let token = tokens[i];
        let next = if tokens.len() - i > 1 {
            Some(tokens[i + 1])
        } else {
            None
        };
        assert(next == peek_at(tokens@, i + 1));
        let mut step: usize = 1;
        let out = match token {
            Token::Promotion(_) => match next {
                Some(Token::Piece(next_piece)) => {
                    step = 2;
                    Token::Promotion(next_piece)
                },
                _ => {
                    return Err(ParseError::MissingPromotionPiece);
                },
            },
            Token::File(col) => match next {
                Some(Token::Rank(row)) => {
                    step = 2;
                    let square = Square::new(row, col);
                    proof {
                        square.lemma_index();
                    }
                    Token::Square(square)
                },
                _ => Token::File(col),
            },
            other => other,
        };
        processed_tokens.push(out);
        i = i + step;
        proof {
            let rest = processed_from(tokens@, i as int);
            match rest {
                Ok(s) => {
                    assert(before + (seq![out] + s) =~= processed_tokens@ + s);
                },
                Err(_) => {},
            }
        }
    }
    proof {
        assert(processed_tokens@ + Seq::<Token>::empty() =~= processed_tokens@);
    }
    Ok(processed_tokens)
}

/// The description that a string of notation stands for: its characters
/// turned into tokens, the tokens joined, and the joined tokens read.
pub open spec fn read_notation(long: bool, chars: Seq<char>, active_player: Color) -> Result<
    ProtoMove,
    ParseError,
> {
    match tokenized(chars, piece_map(), active_player) {
        Err(e) => Err(e),
        Ok(tokens) => match processed(tokens) {
            Err(e) => Err(e),
            Ok(joined) => read_tokens(long, joined, active_player),
        },
    }
}

fn parse_notation(long: bool, string: &str, active_player: Color) -> (r: Result<
    ProtoMove,
    ParseError,
>)
    ensures
        r == read_notation(long, string@, active_player),
{
    let map = sorted_piece_map();
    match tokenize_string(string, map.as_slice(), active_player) {
        Err(e) => Err(e),
        Ok(tokens) => match pre_process_tokens(&tokens) {
            Err(e) => Err(e),
            Ok(joined) => parse_tokens(long, &joined, active_player),
        },
    }
}

/// Reads a move in the short notation, in which the origin is left out
/// or named only as far as needed: `Nf3`, `Nbd2`, `exd5`, `e8=Q`, `O-O`.
pub fn from_simplified_algebraic_notation(string: &str, active_player: Color) -> (r: Result<
    ProtoMove,
    ParseError,
>)
    ensures
        r == read_notation(false, string@, active_player),
{
    parse_notation(false, string, active_player)
}

/// Reads a move in the long notation, which names origin and target:
/// `e2-e4`, `Ng1-f3`, `e7-e8Q`, `a2xb1=N`.
pub fn from_long_algebraic_notation(string: &str, active_player: Color) -> (r: Result<
    ProtoMove,
    ParseError,
>)
    ensures
        r == read_notation(true, string@, active_player),
{
    parse_notation(true, string, active_player)
}

/// A move that is not legal, as an error of reading.
pub open spec fn illegal(r: Result<ChessMove, MoveError>) -> Result<ChessMove, ParseError> {
    match r {
        Ok(m) => Ok(m),
        Err(e) => Err(ParseError::IllegalMoveError(e)),
    }
}

fn as_illegal(r: Result<ChessMove, MoveError>) -> (out: Result<ChessMove, ParseError>)
    ensures
        out == illegal(r),
{
    match r {
        Ok(m) => Ok(m),
        Err(e) => Err(ParseError::IllegalMoveError(e)),
    }
}

/// The move that a description stands for on a position. A castle needs
/// its side. Every other move needs a piece or the square of its origin,
/// and a target. A description with a promotion piece stands for the
/// promotion to that piece; one without stands for the move of its piece,
/// or of the piece on its origin where it names no piece.
pub open spec fn proto_resolved(pos: Position, proto: ProtoMove) -> Result<ChessMove, ParseError> {
    if proto.move_type == MoveType::Castling {
        match proto.castle_type {
            Some(castle_type) => illegal(
                castle_query(pos.active_player, castle_type).resolved(pos),
            ),
            None => Err(ParseError::MissingCastleType),
        }
    } else if proto.piece is None && proto.origin == Disambiguity::Unspecified {
        Err(ParseError::MissingPiece)
    } else {
        match proto.target {
            None => Err(ParseError::MissingTargetError),
            Some(target) => match proto.promotion_piece {
                Some(promotion_piece) => illegal(
                    (MoveQuery {
                        piece: promotion_piece,
                        origin: proto.origin,
                        target,
                        promotes: true,
                        castles: false,
                    }).resolved(pos),
                ),
                None => match proto.piece {
                    Some(piece) => illegal(
                        (MoveQuery {
                            piece,
                            origin: proto.origin,
                            target,
                            promotes: false,
                            castles: false,
                        }).resolved(pos),
                    ),
                    None => match proto.origin {
                        Disambiguity::Square(origin) => illegal(
                            match pos.piece_at(origin) {
                                Some(standing) => squares_query(
                                    standing,
                                    origin,
                                    target,
                                    false,
                                ).resolved(pos),
                                None => Err(MoveError::PieceNotFound),
                            },
                        ),
                        _ => Err(ParseError::MissingPiece),
                    },
                },
            },
        }
    }
}

impl ChessMove {
    /// The move that a description stands for on the board, or the reason
    /// why it stands for none. The board is left as it was.
    #[verifier::rlimit(30)]
    pub fn new_from_proto(board: &mut Board, proto_move: ProtoMove) -> (r: Result<
        ChessMove,
        ParseError,
    >)
        requires
            old(board).wf(),
        ensures
            *final(board) == *old(board),
            r == proto_resolved(old(board)@, proto_move),
    {
        match proto_move.move_type {
            MoveType::Castling => {
                return match proto_move.castle_type {
                    Some(castle_type) => as_illegal(ChessMove::new_castle(board, castle_type)),
                    None => Err(ParseError::MissingCastleType),
                };
            },
            MoveType::Regular | MoveType::Promotion | MoveType::EnPassant => {},
        }
        let unspecified = match proto_move.origin {
            Disambiguity::Unspecified => true,
            _ => false,
        };
        if proto_move.piece.is_none() && unspecified {
            return Err(ParseError::MissingPiece);
        }
        let target_square = match proto_move.target {
            Some(target) => target,
            None => {
                return Err(ParseError::MissingTargetError);
            },
        };
        match proto_move.promotion_piece {
            Some(promotion_piece) => {
                return as_illegal(
                    match proto_move.origin {
                        Disambiguity::Square(origin_square) => ChessMove::valid_new(
                            board,
                            promotion_piece,
                            origin_square,
                            target_square,
                            true,
                        ),
                        origin => ChessMove::new_with_disambiguation(
                            board,
                            promotion_piece,
                            origin,
                            target_square,
                            true,
                        ),
                    },
                );
            },
            None => {},
        }
        match proto_move.piece {
            Some(piece) => as_illegal(
                ChessMove::new_with_disambiguation(
                    board,
                    piece,
                    proto_move.origin,
                    target_square,
                    false,
                ),
            ),
            None => match proto_move.origin {
                Disambiguity::Square(origin_square) => as_illegal(
                    ChessMove::new_from_squares(board, origin_square, target_square, false),
                ),
                _ => Err(ParseError::MissingPiece),
            },
        }
    }
}

} // verus!
