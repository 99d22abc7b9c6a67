use rusty_chess::pieces::{Color, Piece};
use rusty_chess::rules::{CastleType, MoveResult};
use rusty_chess::square::Square;

#[test]
fn pieces_are_listed_in_pairs() {
    let all = Piece::iter();
    assert_eq!(all.len(), 12);
    for (i, p) in all.iter().enumerate() {
        assert_eq!(p.to_index(), i);
        assert_eq!(Piece::from_index(i), Some(*p));
        assert_eq!(p.get_color(), if i % 2 == 0 { Color::White } else { Color::Black });
        assert_eq!(p.get_opponent_color(), p.get_color().toggle_color());
    }
    assert_eq!(all[0], Piece::WhitePawn);
    assert_eq!(all[3], Piece::BlackRook);
    assert_eq!(all[11], Piece::BlackKing);
    assert_eq!(Piece::from_index(12), None);
    let with_color = Piece::iter_with_color();
    assert_eq!(with_color.len(), 12);
    for (p, c) in with_color {
        assert_eq!(p.get_color(), c);
    }
    assert_eq!(
        Piece::iter_white_pieces(),
        vec![
            Piece::WhitePawn, Piece::WhiteRook, Piece::WhiteKnight,
            Piece::WhiteBishop, Piece::WhiteQueen, Piece::WhiteKing
        ]
    );
    assert_eq!(
        Piece::iter_black_pieces(),
        vec![
            Piece::BlackPawn, Piece::BlackRook, Piece::BlackKnight,
            Piece::BlackBishop, Piece::BlackQueen, Piece::BlackKing
        ]
    );
    assert_eq!(Piece::iter_color_pieces(&Color::White), Piece::iter_white_pieces());
    assert_eq!(Piece::iter_color_pieces(&Color::Black), Piece::iter_black_pieces());
}

#[test]
fn pieces_know_their_kind() {
    for p in Piece::iter() {
        let kinds = [
            p.is_pawn(), p.is_rook(), p.is_knight(), p.is_bishop(), p.is_queen(), p.is_king(),
        ];
        assert_eq!(kinds.iter().filter(|k| **k).count(), 1);
        assert_eq!(p.moves_diagonally(), p.is_bishop() || p.is_queen() || p.is_king());
        assert_eq!(
            p.captures_diagonally(),
            p.is_bishop() || p.is_queen() || p.is_king() || p.is_pawn()
        );
        assert_eq!(p.moves_n_captures_straight(), p.is_rook() || p.is_queen() || p.is_king());
        assert_eq!(p.is_promotion_candidate(), !p.is_pawn() && !p.is_king());
    }
    assert!(Piece::WhitePawn.is_pawn());
    assert!(Piece::BlackRook.is_rook());
    assert!(Piece::WhiteKnight.is_knight());
    assert!(Piece::BlackBishop.is_bishop());
    assert!(Piece::WhiteQueen.is_queen());
    assert!(Piece::BlackKing.is_king());
}

#[test]
fn pieces_have_letters_and_figurines() {
    let letters: String = Piece::iter().iter().map(|p| p.to_char()).collect();
    assert_eq!(letters, "PpRrNnBbQqKk");
    let figurines: String = Piece::iter().iter().map(|p| p.to_symbol()).collect();
    assert_eq!(figurines, "♟♙♜♖♞♘♝♗♛♕♚♔");
    assert_eq!(Piece::WhitePawn.to_str(), None);
    assert_eq!(Piece::BlackPawn.to_str(), None);
    assert_eq!(Piece::WhiteKnight.to_str(), Some("N"));
    assert_eq!(Piece::BlackQueen.to_str(), Some("q"));
    for p in Piece::iter() {
        if !p.is_pawn() {
            assert_eq!(p.to_str().unwrap(), p.to_char().to_string());
        }
    }
}

#[test]
fn colours_know_their_pieces_and_rows() {
    assert_eq!(Color::White.toggle_color(), Color::Black);
    assert_eq!(Color::Black.toggle_color(), Color::White);
    assert_eq!(Color::White.get_pawn(), Piece::WhitePawn);
    assert_eq!(Color::Black.get_pawn(), Piece::BlackPawn);
    assert_eq!(Color::White.get_rook(), Piece::WhiteRook);
    assert_eq!(Color::Black.get_knight(), Piece::BlackKnight);
    assert_eq!(Color::White.get_bishop(), Piece::WhiteBishop);
    assert_eq!(Color::Black.get_queen(), Piece::BlackQueen);
    assert_eq!(Color::White.get_king(), Piece::WhiteKing);
    assert_eq!(Color::Black.get_king(), Piece::BlackKing);
    assert_eq!(Color::White.get_pawn_direction(), 248);
    assert_eq!(Color::Black.get_pawn_direction(), 8);
    assert_eq!(Color::White.get_pawn_row_offset(), 255);
    assert_eq!(Color::Black.get_pawn_row_offset(), 1);
    assert!(!Color::White.is_pawn_ascending());
    assert!(Color::Black.is_pawn_ascending());
    assert_eq!(Color::White.get_back_rank_row(), 7);
    assert_eq!(Color::Black.get_back_rank_row(), 0);
    assert_eq!(Color::White.get_pawn_starting_row(), 6);
    assert_eq!(Color::Black.get_pawn_starting_row(), 1);
    assert_eq!(Color::White.get_pawn_promotion_row(), 0);
    assert_eq!(Color::Black.get_pawn_promotion_row(), 7);
    assert_eq!(
        Color::White.get_promotion_pieces(),
        [Piece::WhiteQueen, Piece::WhiteKnight, Piece::WhiteBishop, Piece::WhiteRook]
    );
    assert_eq!(
        Color::Black.get_promotion_pieces(),
        [Piece::BlackQueen, Piece::BlackKnight, Piece::BlackBishop, Piece::BlackRook]
    );
}

#[test]
fn colours_know_their_castling_squares() {
    assert_eq!(Color::White.king_starting_square(), Square::E1);
    assert_eq!(Color::Black.king_starting_square(), Square::E8);
    assert_eq!(Color::White.king_castle_target(CastleType::KingSide), Square::G1);
    assert_eq!(Color::White.king_castle_target(CastleType::QueenSide), Square::C1);
    assert_eq!(Color::Black.king_castle_target(CastleType::KingSide), Square::G8);
    assert_eq!(Color::Black.king_castle_target(CastleType::QueenSide), Square::C8);
    assert_eq!(Color::White.rook_starting_square(CastleType::KingSide), Square::H1);
    assert_eq!(Color::White.rook_starting_square(CastleType::QueenSide), Square::A1);
    assert_eq!(Color::Black.rook_starting_square(CastleType::KingSide), Square::H8);
    assert_eq!(Color::Black.rook_starting_square(CastleType::QueenSide), Square::A8);
    assert_eq!(Color::White.rook_castle_target(CastleType::KingSide), Square::F1);
    assert_eq!(Color::White.rook_castle_target(CastleType::QueenSide), Square::D1);
    assert_eq!(Color::Black.rook_castle_target(CastleType::KingSide), Square::F8);
    assert_eq!(Color::Black.rook_castle_target(CastleType::QueenSide), Square::D8);
}

#[test]
fn colours_come_white_first() {
    let mut it = Color::iter_colors();
    assert_eq!(it.next(), Some(Color::White));
    assert_eq!(it.next(), Some(Color::Black));
    assert_eq!(it.next(), None);
    assert_eq!(it.next(), None);
    let mut it = Color::Black.iter();
    assert_eq!(it.next(), Some(Color::White));
    assert_eq!(it.next(), Some(Color::Black));
    assert_eq!(it.next(), None);
}

#[test]
fn results_and_castles_are_written() {
    assert_eq!(MoveResult::Quiet.to_char(), None);
    assert_eq!(MoveResult::Check.to_char(), Some('+'));
    assert_eq!(MoveResult::Checkmate.to_char(), Some('#'));
    assert_eq!(MoveResult::Stalemate.to_char(), Some('‡'));
    assert_eq!(CastleType::KingSide.to_string(), "O-O");
    assert_eq!(CastleType::QueenSide.to_string(), "O-O-O");
}
