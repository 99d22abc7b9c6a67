use rusty_chess::bitboard::{Bitboard, BitboardExt};
use rusty_chess::board::{Board, BoardError};
use rusty_chess::pieces::{Color, Piece};
use rusty_chess::square::Square;

fn set(squares: &[Square]) -> Bitboard {
    let mut bb: Bitboard = 0;
    for s in squares {
        bb.add_square(*s);
    }
    bb
}

/// The set of occupied squares is the union of the twelve sets, and no
/// two of the twelve share a square.
fn assert_invariant(board: &Board) {
    let mut union: Bitboard = 0;
    let pieces = Piece::iter();
    for (i, p) in pieces.iter().enumerate() {
        union |= board.get_bitboard(*p);
        for q in &pieces[i + 1..] {
            assert_eq!(board.get_bitboard(*p) & board.get_bitboard(*q), 0);
        }
    }
    assert_eq!(board.get_occupancy(), union);
    assert_eq!(board.get_piece_count() as u32, union.count_ones());
}

fn with_pieces(pieces: &[(Square, Piece)]) -> Board {
    let mut board = Board::empty_new();
    for (s, p) in pieces {
        assert!(board.add_piece_at(*s, *p).is_ok());
    }
    assert_invariant(&board);
    board
}

#[test]
fn the_standard_board() {
    let board = Board::std_new();
    assert_invariant(&board);
    assert_eq!(board.active_player(), Color::White);
    assert_eq!(board.castling_rights(), 0b1111);
    assert_eq!(board.en_passant_square(), None);
    assert_eq!(board.half_move_clock(), 0);
    assert_eq!(board.full_move_number(), 1);
    assert_eq!(board.get_piece_count(), 32);
    assert_eq!(board.get_occupancy(), 0xFFFF_0000_0000_FFFF);
    assert_eq!(board.get_bitboard(Piece::WhitePawn), 0x00FF_0000_0000_0000);
    assert_eq!(board.get_bitboard(Piece::BlackPawn), 0x0000_0000_0000_FF00);
    assert_eq!(board.get_bitboard(Piece::WhiteRook), 0x8100_0000_0000_0000);
    assert_eq!(board.get_bitboard(Piece::BlackKing), 0x0000_0000_0000_0010);
    assert_eq!(board.get_piece_at(Square::E1), Some(Piece::WhiteKing));
    assert_eq!(board.get_piece_at(Square::D1), Some(Piece::WhiteQueen));
    assert_eq!(board.get_piece_at(Square::E8), Some(Piece::BlackKing));
    assert_eq!(board.get_piece_at(Square::D8), Some(Piece::BlackQueen));
    assert_eq!(board.get_piece_at(Square::A1), Some(Piece::WhiteRook));
    assert_eq!(board.get_piece_at(Square::H8), Some(Piece::BlackRook));
    assert_eq!(board.get_piece_at(Square::B1), Some(Piece::WhiteKnight));
    assert_eq!(board.get_piece_at(Square::G8), Some(Piece::BlackKnight));
    assert_eq!(board.get_piece_at(Square::C1), Some(Piece::WhiteBishop));
    assert_eq!(board.get_piece_at(Square::F8), Some(Piece::BlackBishop));
    assert_eq!(board.get_piece_at(Square::E2), Some(Piece::WhitePawn));
    assert_eq!(board.get_piece_at(Square::E7), Some(Piece::BlackPawn));
    assert_eq!(board.get_piece_at(Square::E4), None);
    assert_eq!(board.get_piece_color_at(Square::E2), Some(Color::White));
    assert_eq!(board.get_piece_color_at(Square::E7), Some(Color::Black));
    assert_eq!(board.get_piece_color_at(Square::E5), None);
    assert!(board.is_square_occupied(Square::A8));
    assert!(!board.is_square_occupied(Square::A6));
    assert!(board.is_piece_at(Square::G1, Piece::WhiteKnight));
    assert!(!board.is_piece_at(Square::G1, Piece::BlackKnight));
    assert!(!board.is_piece_at(Square::G3, Piece::WhiteKnight));
    assert_eq!(board.get_colored_piece_at(Square::G1, Color::White), Some(Piece::WhiteKnight));
    assert_eq!(board.get_colored_piece_at(Square::G1, Color::Black), None);
    assert_eq!(board.get_colored_piece_at(Square::G4, Color::White), None);
    assert_eq!(board.king_square(), Some(Square::E1));
    assert_eq!(board.king_square_by_color(Color::White), Some(Square::E1));
    assert_eq!(board.king_square_by_color(Color::Black), Some(Square::E8));
    assert!(!board.is_in_check(Color::White));
    assert!(!board.is_in_check(Color::Black));
    assert_eq!(board.get_char_at(Square::E1), 'K');
    assert_eq!(board.get_char_at(Square::E8), 'k');
    assert_eq!(board.get_char_at(Square::E4), ' ');
    assert_eq!(board.get_symbol_at(Square::E1), '♚');
    assert_eq!(board.get_symbol_at(Square::E8), '♔');
    assert_eq!(board.get_symbol_at(Square::E4), '-');
    assert_eq!(board.clone(), board);
}

#[test]
fn the_empty_board() {
    let board = Board::empty_new();
    assert_invariant(&board);
    assert_eq!(board.get_piece_count(), 0);
    assert_eq!(board.get_occupancy(), 0);
    assert_eq!(board.castling_rights(), 0);
    assert_eq!(board.active_player(), Color::White);
    assert_eq!(board.en_passant_square(), None);
    assert_eq!(board.half_move_clock(), 0);
    assert_eq!(board.full_move_number(), 1);
    assert_eq!(board.king_square(), None);
    assert!(!board.is_in_check(Color::White));
    for s in Square::iter_squares() {
        assert_eq!(board.get_piece_at(s), None);
        assert!(!board.is_threatened(s));
    }
    assert_eq!(board.get_active_pieces(), vec![]);
}

#[test]
fn the_board_is_drawn() {
    let drawn = Board::std_new().to_string();
    let expected = "┌╌╌╌┲╍╍╍╍╍╍╍╍╍╍╍╍╍╍╍╍╍┓\n\
╎ 8 ╏ ♖ ♘ ♗ ♕ ♔ ♗ ♘ ♖ ╏\n\
╎ 7 ╏ ♙ ♙ ♙ ♙ ♙ ♙ ♙ ♙ ╏\n\
╎ 6 ╏ - - - - - - - - ╏\n\
╎ 5 ╏ - - - - - - - - ╏\n\
╎ 4 ╏ - - - - - - - - ╏\n\
╎ 3 ╏ - - - - - - - - ╏\n\
╎ 2 ╏ ♟ ♟ ♟ ♟ ♟ ♟ ♟ ♟ ╏\n\
╎ 1 ╏ ♜ ♞ ♝ ♛ ♚ ♝ ♞ ♜ ╏\n\
└╌╌╌╄╍╍╍╍╍╍╍╍╍╍╍╍╍╍╍╍╍┩\n";
    let expected = format!(
        "{}{}{}",
        expected, "    ╎ a b c d e f g h ╎\n", "    └╌╌╌╌╌╌╌╌╌╌╌╌╌╌╌╌╌┘"
    );
    assert_eq!(drawn, expected);
    let empty = Board::empty_new().to_string();
    assert_eq!(empty.lines().count(), 12);
    assert_eq!(empty.lines().nth(1), Some("╎ 8 ╏ - - - - - - - - ╏"));
    assert_eq!(empty.lines().nth(8), Some("╎ 1 ╏ - - - - - - - - ╏"));
}

#[test]
fn pieces_are_put_on_and_taken_off() {
    let mut board = Board::empty_new();
    assert_eq!(board.add_piece_at(Square::E4, Piece::WhiteQueen), Ok(()));
    assert_invariant(&board);
    assert_eq!(board.get_piece_at(Square::E4), Some(Piece::WhiteQueen));
    assert_eq!(board.get_piece_count(), 1);
    // an occupied square takes no second piece, of whatever kind
    let before = board.clone();
    assert_eq!(board.add_piece_at(Square::E4, Piece::WhiteQueen), Err(BoardError::SquareOccupied));
    assert_eq!(board.add_piece_at(Square::E4, Piece::BlackPawn), Err(BoardError::SquareOccupied));
    assert_eq!(board, before);
    // only the piece that stands on a square can be taken off it
    assert_eq!(board.remove_piece_at(Square::E4, Piece::BlackQueen), Err(BoardError::PieceNotFound));
    assert_eq!(board.remove_piece_at(Square::E5, Piece::WhiteQueen), Err(BoardError::PieceNotFound));
    assert_eq!(board, before);
    assert_eq!(board.remove_piece_at(Square::E4, Piece::WhiteQueen), Ok(()));
    assert_invariant(&board);
    assert_eq!(board, Board::empty_new());
}

#[test]
fn occupancy_follows_every_change() {
    let mut board = Board::std_new();
    for (i, s) in Square::iter_squares().into_iter().enumerate() {
        let piece = Piece::from_index(i % 12).unwrap();
        let _ = board.remove_piece_at(s, piece);
        assert_invariant(&board);
        let _ = board.add_piece_at(s, piece);
        assert_invariant(&board);
        assert!(board.is_square_occupied(s));
    }
    assert_eq!(board.get_piece_count(), 64);
    assert_eq!(board.get_occupancy(), u64::MAX);
}

#[test]
fn a_set_of_squares_is_given_to_a_piece() {
    let mut board = Board::empty_new();
    board.set_bitboard(Piece::WhitePawn, 0x00FF_0000_0000_0000);
    board.set_bitboard(Piece::WhiteRook, 0x0000_0080_0000_0000);
    board.set_bitboard(Piece::BlackRook, 0x0000_0002_0000_0000);
    board.set_bitboard(Piece::WhiteKing, 0x0100_0000_0000_0000);
    assert_invariant(&board);
    assert_eq!(board.get_piece_count(), 11);
    assert_eq!(board.get_occupancy(), 0x01FF_0082_0000_0000);
    assert_eq!(board.get_piece_at(Square::H4), Some(Piece::WhiteRook));
    assert_eq!(board.get_piece_at(Square::B4), Some(Piece::BlackRook));
    assert_eq!(board.get_piece_at(Square::A1), Some(Piece::WhiteKing));
    // the pawns are moved: what they leave is free, what they had stays theirs
    board.set_bitboard(Piece::WhitePawn, 0x000F_0F00_0000_0000);
    assert_invariant(&board);
    assert_eq!(board.get_bitboard(Piece::WhitePawn), 0x000F_0F00_0000_0000);
    assert_eq!(board.get_occupancy(), 0x010F_0F82_0000_0000);
    assert_eq!(board.get_piece_at(Square::E2), None);
    assert_eq!(board.get_piece_at(Square::A3), Some(Piece::WhitePawn));
    board.set_bitboard(Piece::WhitePawn, 0);
    assert_invariant(&board);
    assert_eq!(board.get_piece_count(), 3);
}

#[test]
fn a_rook_threatens_along_its_file_only() {
    let mut board = with_pieces(&[(Square::A1, Piece::WhiteRook), (Square::A8, Piece::BlackKing)]);
    assert!(board.is_threatened(Square::A8));
    assert!(board.is_in_check(Color::Black));
    assert!(board.is_attacked_by(Square::A8, Color::White));
    assert!(!board.is_attacked_by(Square::A8, Color::Black));
    // the king attacks nothing so far away
    assert!(!board.is_threatened(Square::A1));
    assert_eq!(board.remove_piece_at(Square::A1, Piece::WhiteRook), Ok(()));
    assert_eq!(board.add_piece_at(Square::B1, Piece::WhiteRook), Ok(()));
    assert!(!board.is_threatened(Square::A8));
    assert!(!board.is_in_check(Color::Black));
}

#[test]
fn only_the_first_piece_of_a_line_threatens() {
    let mut board = with_pieces(&[
        (Square::E1, Piece::WhiteKing),
        (Square::E8, Piece::BlackQueen),
        (Square::E4, Piece::WhitePawn),
    ]);
    assert!(!board.is_threatened(Square::E1));
    assert!(board.is_threatened(Square::E4));
    assert_eq!(board.remove_piece_at(Square::E4, Piece::WhitePawn), Ok(()));
    assert!(board.is_threatened(Square::E1));
    // a piece of the attacker's own colour blocks as well
    assert_eq!(board.add_piece_at(Square::E5, Piece::BlackKnight), Ok(()));
    assert!(!board.is_threatened(Square::E1));
}

#[test]
fn each_kind_threatens_by_its_rule() {
    // on its own, each black piece at its place attacks the white king on e4 or does not
    let cases: [(Square, Piece, bool); 24] = [
        (Square::E8, Piece::BlackRook, true),
        (Square::A4, Piece::BlackRook, true),
        (Square::H1, Piece::BlackRook, false),
        (Square::A8, Piece::BlackBishop, true),
        (Square::H1, Piece::BlackBishop, true),
        (Square::E8, Piece::BlackBishop, false),
        (Square::E1, Piece::BlackQueen, true),
        (Square::B7, Piece::BlackQueen, true),
        (Square::H4, Piece::BlackQueen, true),
        (Square::F6, Piece::BlackQueen, false),
        (Square::F6, Piece::BlackKnight, true),
        (Square::C3, Piece::BlackKnight, true),
        (Square::D2, Piece::BlackKnight, true),
        (Square::E6, Piece::BlackKnight, false),
        (Square::E5, Piece::BlackKing, true),
        (Square::D3, Piece::BlackKing, true),
        (Square::E6, Piece::BlackKing, false),
        (Square::C6, Piece::BlackKing, false),
        // black pawns capture towards rank 1
        (Square::D5, Piece::BlackPawn, true),
        (Square::F5, Piece::BlackPawn, true),
        (Square::E5, Piece::BlackPawn, false),
        (Square::D3, Piece::BlackPawn, false),
        (Square::F3, Piece::BlackPawn, false),
        (Square::C6, Piece::BlackPawn, false),
    ];
    for (square, piece, threatens) in cases {
        let board = with_pieces(&[(Square::E4, Piece::WhiteKing), (square, piece)]);
        assert_eq!(board.is_threatened(Square::E4), threatens, "{:?} on {:?}", piece, square);
        assert_eq!(board.is_in_check(Color::White), threatens);
        // a piece of the king's own colour never threatens it
        let own = Piece::from_index(piece.to_index() - 1).unwrap();
        let board = with_pieces(&[(Square::E4, Piece::WhiteKing), (square, own)]);
        assert!(!board.is_threatened(Square::E4));
    }
    // white pawns capture towards rank 8
    for (square, threatens) in [
        (Square::D3, true),
        (Square::F3, true),
        (Square::D5, false),
        (Square::F5, false),
        (Square::E3, false),
        (Square::C2, false),
    ] {
        let board = with_pieces(&[(Square::E4, Piece::BlackKing), (square, Piece::WhitePawn)]);
        assert_eq!(board.is_threatened(Square::E4), threatens, "pawn on {:?}", square);
    }
}

#[test]
fn vision_stops_at_the_first_piece() {
    let board = Board::std_new();
    assert_eq!(board.sees_down_file(Square::E4, true), set(&[Square::E3, Square::E2]));
    assert_eq!(
        board.sees_down_file(Square::E4, false),
        set(&[Square::E5, Square::E6, Square::E7])
    );
    assert_eq!(
        board.sees_down_rank(Square::E4, true),
        set(&[Square::F4, Square::G4, Square::H4])
    );
    assert_eq!(
        board.sees_down_rank(Square::E4, false),
        set(&[Square::D4, Square::C4, Square::B4, Square::A4])
    );
    assert_eq!(board.sees_down_rank(Square::E1, true), set(&[Square::F1]));
    assert_eq!(board.sees_down_rank(Square::H1, true), 0);
    assert_eq!(board.sees_down_diagonal(Square::E4, true, true), set(&[Square::F3, Square::G2]));
    assert_eq!(
        board.sees_down_diagonal(Square::E4, false, false),
        set(&[Square::D5, Square::C6, Square::B7])
    );
    assert_eq!(
        board.sees_down_diagonal(Square::E4, false, true),
        set(&[Square::F5, Square::G6, Square::H7])
    );
    assert_eq!(board.sees_down_diagonal(Square::E4, true, false), set(&[Square::D3, Square::C2]));
    assert_eq!(
        board.sees_like_knight(Square::E4),
        set(&[
            Square::D6, Square::F6, Square::C5, Square::G5,
            Square::C3, Square::G3, Square::D2, Square::F2
        ])
    );
    assert_eq!(board.sees_like_knight(Square::A8), set(&[Square::C7, Square::B6]));
    let empty = Board::empty_new();
    assert_eq!(
        empty.sees_down_file(Square::E4, true),
        set(&[Square::E3, Square::E2, Square::E1])
    );
    assert_eq!(empty.sees_down_diagonal(Square::A1, false, true).count_ones(), 7);
}

#[test]
fn sliders_reach_empty_squares_and_capture_the_first_opponent() {
    let board = Board::std_new();
    assert_eq!(
        board.clear_n_capture_down_file(Square::E4, true, Color::Black),
        (set(&[Square::E3]), None)
    );
    assert_eq!(
        board.clear_n_capture_down_file(Square::E4, true, Color::White),
        (set(&[Square::E3]), Some(Square::E2))
    );
    assert_eq!(
        board.clear_n_capture_down_file(Square::E4, false, Color::Black),
        (set(&[Square::E5, Square::E6]), Some(Square::E7))
    );
    assert_eq!(
        board.clear_n_capture_down_rank(Square::E4, true, Color::Black),
        (set(&[Square::F4, Square::G4, Square::H4]), None)
    );
    assert_eq!(board.clear_n_capture_down_rank(Square::A1, true, Color::Black), (0, None));
    assert_eq!(
        board.clear_n_capture_down_rank(Square::A1, true, Color::White),
        (0, Some(Square::B1))
    );
    assert_eq!(board.clear_n_capture_down_rank(Square::A1, false, Color::White), (0, None));
    assert_eq!(
        board.clear_n_capture_down_diagonal(Square::E4, false, false, Color::Black),
        (set(&[Square::D5, Square::C6]), Some(Square::B7))
    );
    assert_eq!(
        board.clear_n_capture_down_diagonal(Square::E4, true, true, Color::Black),
        (set(&[Square::F3]), None)
    );
    assert_eq!(
        board.clear_n_capture_down_diagonal(Square::E4, true, false, Color::White),
        (set(&[Square::D3]), Some(Square::C2))
    );
}

#[test]
fn pieces_are_listed() {
    let board = Board::std_new();
    assert_eq!(
        board.find_piece_positions(Piece::WhiteKnight),
        vec![Square::B1, Square::G1]
    );
    assert_eq!(board.find_piece_positions(Piece::BlackKing), vec![Square::E8]);
    assert_eq!(board.find_piece_positions(Piece::BlackPawn).len(), 8);
    assert_eq!(
        board.get_pieces_at_bitboard(set(&[Square::E1, Square::E4, Square::A8])),
        vec![(Piece::BlackRook, Square::A8), (Piece::WhiteKing, Square::E1)]
    );
    assert_eq!(board.get_pieces_at_bitboard(0), vec![]);
    assert_eq!(board.get_pieces_at_bitboard(u64::MAX).len(), 32);
    assert_eq!(
        board.get_piece_squares_from_bitboard(Piece::WhitePawn, 0x0F0F_0F0F_0F0F_0F0F),
        vec![Square::A2, Square::B2, Square::C2, Square::D2]
    );
    assert_eq!(board.get_piece_squares_from_bitboard(Piece::WhitePawn, 0xFFFF), vec![]);
    let active = board.get_active_pieces();
    assert_eq!(active.len(), 16);
    assert_eq!(active[0], (Piece::WhitePawn, Square::A2));
    assert_eq!(active[7], (Piece::WhitePawn, Square::H2));
    assert_eq!(active[8], (Piece::WhiteRook, Square::A1));
    assert_eq!(active[9], (Piece::WhiteRook, Square::H1));
    assert_eq!(active[10], (Piece::WhiteKnight, Square::B1));
    assert_eq!(active[12], (Piece::WhiteBishop, Square::C1));
    assert_eq!(active[14], (Piece::WhiteQueen, Square::D1));
    assert_eq!(active[15], (Piece::WhiteKing, Square::E1));
    let mut board = board;
    board.set_active_player(Color::Black);
    let active = board.get_active_pieces();
    assert_eq!(active.len(), 16);
    assert_eq!(active[0], (Piece::BlackPawn, Square::A7));
    assert_eq!(active[15], (Piece::BlackKing, Square::E8));
    assert_eq!(board.king_square(), Some(Square::E8));
}

#[test]
fn the_state_beside_the_pieces_is_set() {
    let mut board = Board::std_new();
    let pieces = board.get_occupancy();
    board.set_active_player(Color::Black);
    board.set_castling_rights(0b0110);
    board.set_en_passant_square(Some(Square::E3));
    board.set_half_move_clock(17);
    board.set_full_move_number(42);
    assert_eq!(board.active_player(), Color::Black);
    assert_eq!(board.castling_rights(), 0b0110);
    assert_eq!(board.en_passant_square(), Some(Square::E3));
    assert_eq!(board.half_move_clock(), 17);
    assert_eq!(board.full_move_number(), 42);
    assert_eq!(board.get_occupancy(), pieces);
    assert_invariant(&board);
}
