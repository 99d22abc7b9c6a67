use rusty_chess::bitboard::Bitboard;
use rusty_chess::board::Board;
use rusty_chess::chess_moves::{ChessMove, MoveRecord};
use rusty_chess::move_data::{special_move_builder, MoveData, MoveError, SpecialMoveType};
use rusty_chess::move_selection::{Disambiguity, MoveQuery};
use rusty_chess::pieces::{Color, Piece};
use rusty_chess::rules::{CastleType, GameState, MoveResult, MoveType};
use rusty_chess::square::{Col, Row, Square};

fn mv(piece: Piece, origin: Square, target: Square, tag: MoveData) -> ChessMove {
    ChessMove::new(piece, origin, target, tag)
}

fn position(pieces: &[(Square, Piece)], active: Color, rights: u8) -> Board {
    let mut board = Board::empty_new();
    for (s, p) in pieces {
        assert!(board.add_piece_at(*s, *p).is_ok());
    }
    board.set_active_player(active);
    board.set_castling_rights(rights);
    board
}

fn play(board: &mut Board, origin: Square, target: Square) -> ChessMove {
    let m = ChessMove::new_from_squares(board, origin, target, false).unwrap();
    m.make_move(board);
    m
}

fn assert_invariant(board: &Board) {
    let mut union: Bitboard = 0;
    let pieces = Piece::iter();
    for (i, p) in pieces.iter().enumerate() {
        union |= board.get_bitboard(*p);
        for q in &pieces[i + 1..] {
            assert_eq!(board.get_bitboard(*p) & board.get_bitboard(*q), 0);
        }
    }
    assert_eq!(board.get_occupancy(), union);
}

/// Plays every pseudo-legal move of the board and takes it back, and
/// expects the board to be as it was each time.
fn assert_round_trips(board: &Board) -> usize {
    let before = board.clone();
    let moves = ChessMove::get_possible_moves(board);
    for m in &moves {
        let mut scratch = before.clone();
        let record = m.make_reversible_move(&mut scratch);
        assert_invariant(&scratch);
        assert_ne!(scratch, before, "{} changed nothing", m.debug_string());
        assert_eq!(scratch.active_player(), before.active_player().toggle_color());
        assert_eq!(record.en_passant_square, before.en_passant_square());
        assert_eq!(record.half_move_clock, before.half_move_clock());
        assert_eq!(record.full_move_number, before.full_move_number());
        assert_eq!(record.castling_rights, before.castling_rights());
        m.undo_move(&mut scratch, record);
        assert_eq!(scratch, before, "{} was not taken back", m.debug_string());
        let mut scratch = before.clone();
        let _ = m.leaves_king_in_check(&mut scratch);
        assert_eq!(scratch, before);
    }
    let mut scratch = before.clone();
    let legal = ChessMove::get_valid_moves(&mut scratch);
    assert_eq!(scratch, before);
    assert!(legal.len() <= moves.len());
    moves.len()
}

#[test]
fn the_standard_position_has_twenty_moves() {
    let mut board = Board::std_new();
    let moves = ChessMove::get_valid_moves(&mut board);
    assert_eq!(moves.len(), 20);
    assert_eq!(board, Board::std_new());
    let pawn_moves: Vec<&ChessMove> = moves.iter().filter(|m| m.piece().is_pawn()).collect();
    let knight_moves: Vec<&ChessMove> = moves.iter().filter(|m| m.piece().is_knight()).collect();
    assert_eq!(pawn_moves.len(), 16);
    assert_eq!(knight_moves.len(), 4);
    assert_eq!(moves.iter().filter(|m| m.meta_data() == MoveData::Normal).count(), 12);
    assert_eq!(moves.iter().filter(|m| m.meta_data() == MoveData::EnableEnPassant).count(), 8);
    // in the order in which they are found
    assert_eq!(moves[0], mv(Piece::WhitePawn, Square::A2, Square::A3, MoveData::Normal));
    assert_eq!(moves[1], mv(Piece::WhitePawn, Square::A2, Square::A4, MoveData::EnableEnPassant));
    assert_eq!(moves[14], mv(Piece::WhitePawn, Square::H2, Square::H3, MoveData::Normal));
    assert_eq!(moves[15], mv(Piece::WhitePawn, Square::H2, Square::H4, MoveData::EnableEnPassant));
    assert_eq!(moves[16], mv(Piece::WhiteKnight, Square::B1, Square::A3, MoveData::Normal));
    assert_eq!(moves[17], mv(Piece::WhiteKnight, Square::B1, Square::C3, MoveData::Normal));
    assert_eq!(moves[18], mv(Piece::WhiteKnight, Square::G1, Square::F3, MoveData::Normal));
    assert_eq!(moves[19], mv(Piece::WhiteKnight, Square::G1, Square::H3, MoveData::Normal));
    // none leaves the mover's king in check
    for m in &moves {
        assert!(!m.leaves_king_in_check(&mut board));
        let mut after = board.clone();
        m.make_move(&mut after);
        assert!(!after.is_in_check(Color::White));
    }
    assert_eq!(ChessMove::get_possible_moves(&board), moves);
    // the same for Black
    board.set_active_player(Color::Black);
    let moves = ChessMove::get_valid_moves(&mut board);
    assert_eq!(moves.len(), 20);
    assert_eq!(moves[0], mv(Piece::BlackPawn, Square::A7, Square::A6, MoveData::Normal));
    assert_eq!(moves[1], mv(Piece::BlackPawn, Square::A7, Square::A5, MoveData::EnableEnPassant));
}

#[test]
fn moves_are_found_piece_by_piece() {
    let board = Board::std_new();
    let mut moves = Vec::new();
    ChessMove::add_pawn_moves(&board, &mut moves);
    assert_eq!(moves.len(), 16);
    ChessMove::add_rook_moves(&board, &mut moves);
    assert_eq!(moves.len(), 16);
    ChessMove::add_knight_moves(&board, &mut moves);
    assert_eq!(moves.len(), 20);
    ChessMove::add_bishop_moves(&board, &mut moves);
    ChessMove::add_queen_moves(&board, &mut moves);
    ChessMove::add_king_moves(&board, &mut moves);
    assert_eq!(moves.len(), 20);
    assert_eq!(moves, ChessMove::get_possible_moves(&board));
}

#[test]
fn every_move_is_taken_back_exactly() {
    let mut board = Board::std_new();
    let mut seen = assert_round_trips(&board);
    // a game with captures, checks, castling on both sides and an en-passant capture
    let game = [
        (Square::E2, Square::E4), (Square::D7, Square::D5),
        (Square::E4, Square::D5), (Square::D8, Square::D5),
        (Square::B1, Square::C3), (Square::D5, Square::E5),
        (Square::F1, Square::E2), (Square::C8, Square::G4),
        (Square::G1, Square::F3), (Square::B8, Square::C6),
        (Square::E1, Square::G1), (Square::E8, Square::C8),
        (Square::D2, Square::D4), (Square::E5, Square::H5),
        (Square::D4, Square::D5), (Square::E7, Square::E5),
        (Square::D5, Square::E6), (Square::G4, Square::F3),
        (Square::E6, Square::F7), (Square::F3, Square::E2),
        (Square::F7, Square::G8),
    ];
    for (origin, target) in game {
        let promotes = origin == Square::F7 && target == Square::G8;
        let m = ChessMove::new_from_squares(&mut board, origin, target, promotes).unwrap();
        m.make_move(&mut board);
        assert_invariant(&board);
        seen += assert_round_trips(&board);
    }
    assert!(seen > 500);
    // the pawn was promoted to a queen with a capture
    assert_eq!(board.get_piece_at(Square::G8), Some(Piece::WhiteQueen));
    assert_eq!(board.get_piece_count(), 25);
    assert_eq!(board.full_move_number(), 11);
    assert_eq!(board.active_player(), Color::Black);
}

#[test]
fn counters_and_turn_follow_each_move() {
    let mut board = Board::std_new();
    play(&mut board, Square::G1, Square::F3);
    assert_eq!(board.active_player(), Color::Black);
    assert_eq!((board.half_move_clock(), board.full_move_number()), (1, 1));
    play(&mut board, Square::G8, Square::F6);
    assert_eq!(board.active_player(), Color::White);
    assert_eq!((board.half_move_clock(), board.full_move_number()), (2, 2));
    play(&mut board, Square::F3, Square::E5);
    assert_eq!((board.half_move_clock(), board.full_move_number()), (3, 2));
    // a pawn move sets the clock back
    play(&mut board, Square::D7, Square::D6);
    assert_eq!((board.half_move_clock(), board.full_move_number()), (0, 3));
    play(&mut board, Square::B1, Square::C3);
    assert_eq!((board.half_move_clock(), board.full_move_number()), (1, 3));
    // and so does a capture
    let capture = play(&mut board, Square::D6, Square::E5);
    assert_eq!(capture.meta_data(), MoveData::Capture);
    assert_eq!((board.half_move_clock(), board.full_move_number()), (0, 4));
    let capture = play(&mut board, Square::C3, Square::D5);
    assert_eq!(capture.meta_data(), MoveData::Normal);
    play(&mut board, Square::F6, Square::D5);
    assert_eq!((board.half_move_clock(), board.full_move_number()), (0, 5));
    assert_eq!(board.get_piece_count(), 30);
}

#[test]
fn counters_stop_at_their_limit() {
    let mut board = Board::std_new();
    board.set_half_move_clock(254);
    board.set_full_move_number(254);
    play(&mut board, Square::G1, Square::F3);
    assert_eq!((board.half_move_clock(), board.full_move_number()), (255, 254));
    play(&mut board, Square::G8, Square::F6);
    assert_eq!((board.half_move_clock(), board.full_move_number()), (255, 255));
    play(&mut board, Square::F3, Square::G1);
    play(&mut board, Square::F6, Square::G8);
    assert_eq!((board.half_move_clock(), board.full_move_number()), (255, 255));
    // taking a move back restores the counters even at the limit
    let before = board.clone();
    let m = mv(Piece::WhiteKnight, Square::G1, Square::F3, MoveData::Normal);
    let record = m.make_reversible_move(&mut board);
    m.undo_move(&mut board, record);
    assert_eq!(board, before);
    play(&mut board, Square::E2, Square::E3);
    assert_eq!((board.half_move_clock(), board.full_move_number()), (0, 255));
}

#[test]
fn the_en_passant_square_lives_for_one_move() {
    let mut board = Board::std_new();
    let m = play(&mut board, Square::E2, Square::E4);
    assert_eq!(m.meta_data(), MoveData::EnableEnPassant);
    assert_eq!(board.en_passant_square(), Some(Square::E3));
    play(&mut board, Square::G8, Square::F6);
    assert_eq!(board.en_passant_square(), None);
    play(&mut board, Square::E4, Square::E5);
    assert_eq!(board.en_passant_square(), None);
    // a double step of the other side sets its own square
    play(&mut board, Square::D7, Square::D5);
    assert_eq!(board.en_passant_square(), Some(Square::D6));
    // the capture en passant takes the pawn beside the mover
    let moves = ChessMove::get_valid_moves(&mut board);
    let capture = mv(Piece::WhitePawn, Square::E5, Square::D6, MoveData::EnPassant);
    assert!(moves.contains(&capture));
    assert_eq!(moves.iter().filter(|m| m.meta_data().is_en_passant()).count(), 1);
    let before = board.clone();
    let record = capture.make_reversible_move(&mut board);
    assert_eq!(record.captured_piece, Some(Piece::BlackPawn));
    assert_eq!(board.get_piece_at(Square::D6), Some(Piece::WhitePawn));
    assert_eq!(board.get_piece_at(Square::D5), None);
    assert_eq!(board.get_piece_at(Square::E5), None);
    assert_eq!(board.en_passant_square(), None);
    assert_eq!(board.half_move_clock(), 0);
    assert_eq!(board.get_piece_count(), 31);
    capture.undo_move(&mut board, record);
    assert_eq!(board, before);
    // the chance is gone after another move
    play(&mut board, Square::B1, Square::C3);
    play(&mut board, Square::A7, Square::A6);
    let moves = ChessMove::get_valid_moves(&mut board);
    assert_eq!(moves.iter().filter(|m| m.meta_data().is_en_passant()).count(), 0);
}

#[test]
fn en_passant_needs_the_pawn_beside_the_mover() {
    // the square is set, but no pawn has passed it
    let mut board = position(
        &[(Square::E5, Piece::WhitePawn), (Square::E1, Piece::WhiteKing), (Square::E8, Piece::BlackKing)],
        Color::White,
        0,
    );
    board.set_en_passant_square(Some(Square::D6));
    let moves = ChessMove::get_possible_moves(&board);
    assert_eq!(moves.iter().filter(|m| m.meta_data().is_en_passant()).count(), 0);
    assert!(board.add_piece_at(Square::D5, Piece::BlackPawn).is_ok());
    let moves = ChessMove::get_possible_moves(&board);
    assert_eq!(moves.iter().filter(|m| m.meta_data().is_en_passant()).count(), 1);
    // Black's side of the same rule
    let mut board = position(
        &[
            (Square::D4, Piece::BlackPawn),
            (Square::E4, Piece::WhitePawn),
            (Square::C4, Piece::WhitePawn),
            (Square::E1, Piece::WhiteKing),
            (Square::E8, Piece::BlackKing),
        ],
        Color::Black,
        0,
    );
    board.set_en_passant_square(Some(Square::E3));
    let moves = ChessMove::get_possible_moves(&board);
    let pawn_moves: Vec<ChessMove> = moves.into_iter().filter(|m| m.piece().is_pawn()).collect();
    assert_eq!(
        pawn_moves,
        vec![
            mv(Piece::BlackPawn, Square::D4, Square::D3, MoveData::Normal),
            mv(Piece::BlackPawn, Square::D4, Square::E3, MoveData::EnPassant),
        ]
    );
}

#[test]
fn a_pawn_on_the_seventh_rank_has_four_promotions() {
    let mut board = position(
        &[(Square::E7, Piece::WhitePawn), (Square::A1, Piece::WhiteKing), (Square::H1, Piece::BlackKing)],
        Color::White,
        0,
    );
    let moves = ChessMove::get_possible_moves(&board);
    let pawn_moves: Vec<ChessMove> = moves.into_iter().filter(|m| m.origin() == Square::E7).collect();
    assert_eq!(
        pawn_moves,
        vec![
            mv(Piece::WhiteQueen, Square::E7, Square::E8, MoveData::Promotion),
            mv(Piece::WhiteKnight, Square::E7, Square::E8, MoveData::Promotion),
            mv(Piece::WhiteBishop, Square::E7, Square::E8, MoveData::Promotion),
            mv(Piece::WhiteRook, Square::E7, Square::E8, MoveData::Promotion),
        ]
    );
    for (i, a) in pawn_moves.iter().enumerate() {
        for b in &pawn_moves[i + 1..] {
            assert_ne!(a, b);
            assert_ne!(a.piece(), b.piece());
            assert_eq!(a.origin(), b.origin());
            assert_eq!(a.target(), b.target());
        }
    }
    // each puts its piece on the last row in place of the pawn, and is taken back
    for m in &pawn_moves {
        let before = board.clone();
        let record = m.make_reversible_move(&mut board);
        assert_eq!(record.captured_piece, None);
        assert_eq!(board.get_piece_at(Square::E8), Some(m.piece()));
        assert_eq!(board.get_piece_at(Square::E7), None);
        assert_eq!(board.get_bitboard(Piece::WhitePawn), 0);
        assert_eq!(board.half_move_clock(), 0);
        m.undo_move(&mut board, record);
        assert_eq!(board, before);
    }
    // with pieces to capture on both sides there are twelve
    assert!(board.add_piece_at(Square::D8, Piece::BlackRook).is_ok());
    assert!(board.add_piece_at(Square::F8, Piece::BlackKnight).is_ok());
    let moves = ChessMove::get_possible_moves(&board);
    let pawn_moves: Vec<ChessMove> = moves.into_iter().filter(|m| m.origin() == Square::E7).collect();
    assert_eq!(pawn_moves.len(), 12);
    assert_eq!(pawn_moves[4], mv(Piece::WhiteQueen, Square::E7, Square::D8, MoveData::CapturePromotion));
    assert_eq!(pawn_moves[11], mv(Piece::WhiteRook, Square::E7, Square::F8, MoveData::CapturePromotion));
    let m = pawn_moves[5];
    let before = board.clone();
    let record = m.make_reversible_move(&mut board);
    assert_eq!(record.captured_piece, Some(Piece::BlackRook));
    assert_eq!(board.get_piece_at(Square::D8), Some(Piece::WhiteKnight));
    assert_eq!(board.get_piece_count(), 4);
    m.undo_move(&mut board, record);
    assert_eq!(board, before);
    // a blocked pawn does not move, and a pawn on the last row has no move
    assert!(board.add_piece_at(Square::E8, Piece::BlackBishop).is_ok());
    let moves = ChessMove::get_possible_moves(&board);
    assert_eq!(moves.iter().filter(|m| m.origin() == Square::E7).count(), 8);
    let board = position(
        &[(Square::E8, Piece::WhitePawn), (Square::A1, Piece::WhiteKing), (Square::H1, Piece::BlackKing)],
        Color::White,
        0,
    );
    let moves = ChessMove::get_possible_moves(&board);
    assert_eq!(moves.iter().filter(|m| m.origin() == Square::E8).count(), 0);
    // Black promotes on the first rank
    let board = position(
        &[(Square::B2, Piece::BlackPawn), (Square::A8, Piece::WhiteKing), (Square::H8, Piece::BlackKing)],
        Color::Black,
        0,
    );
    let moves = ChessMove::get_possible_moves(&board);
    assert_eq!(moves[0], mv(Piece::BlackQueen, Square::B2, Square::B1, MoveData::Promotion));
    assert_eq!(moves[3], mv(Piece::BlackRook, Square::B2, Square::B1, MoveData::Promotion));
}

#[test]
fn pawns_step_capture_and_are_blocked() {
    let board = position(
        &[
            (Square::E2, Piece::WhitePawn),
            (Square::A2, Piece::WhitePawn),
            (Square::A3, Piece::BlackKnight),
            (Square::H2, Piece::WhitePawn),
            (Square::H4, Piece::BlackKnight),
            (Square::C4, Piece::WhitePawn),
            (Square::B5, Piece::BlackPawn),
            (Square::D5, Piece::WhitePawn),
            (Square::E1, Piece::WhiteKing),
            (Square::E8, Piece::BlackKing),
        ],
        Color::White,
        0,
    );
    let moves = ChessMove::get_possible_moves(&board);
    let pawn_moves: Vec<ChessMove> = moves.into_iter().filter(|m| m.piece().is_pawn()).collect();
    assert_eq!(
        pawn_moves,
        vec![
            // pawn by pawn in the order of their squares, d5 first
            mv(Piece::WhitePawn, Square::D5, Square::D6, MoveData::Normal),
            // c4: a step and a capture to the left; its own pawn on d5 is not captured
            mv(Piece::WhitePawn, Square::C4, Square::C5, MoveData::Normal),
            mv(Piece::WhitePawn, Square::C4, Square::B5, MoveData::Capture),
            // a2 is blocked
            // e2: single and double step
            mv(Piece::WhitePawn, Square::E2, Square::E3, MoveData::Normal),
            mv(Piece::WhitePawn, Square::E2, Square::E4, MoveData::EnableEnPassant),
            // h2: the double step is blocked
            mv(Piece::WhitePawn, Square::H2, Square::H3, MoveData::Normal),
        ]
    );
}

#[test]
fn sliders_and_leapers_move_by_their_rules() {
    let board = position(
        &[
            (Square::D4, Piece::WhiteRook),
            (Square::D6, Piece::BlackPawn),
            (Square::F4, Piece::WhitePawn),
            (Square::A1, Piece::WhiteKing),
            (Square::H8, Piece::BlackKing),
        ],
        Color::White,
        0,
    );
    let mut moves = Vec::new();
    ChessMove::add_rook_moves(&board, &mut moves);
    assert_eq!(
        moves,
        vec![
            // down the file, then to the right, then up the file, then to the left
            mv(Piece::WhiteRook, Square::D4, Square::D3, MoveData::Normal),
            mv(Piece::WhiteRook, Square::D4, Square::D2, MoveData::Normal),
            mv(Piece::WhiteRook, Square::D4, Square::D1, MoveData::Normal),
            mv(Piece::WhiteRook, Square::D4, Square::E4, MoveData::Normal),
            mv(Piece::WhiteRook, Square::D4, Square::D5, MoveData::Normal),
            mv(Piece::WhiteRook, Square::D4, Square::D6, MoveData::Capture),
            mv(Piece::WhiteRook, Square::D4, Square::A4, MoveData::Normal),
            mv(Piece::WhiteRook, Square::D4, Square::B4, MoveData::Normal),
            mv(Piece::WhiteRook, Square::D4, Square::C4, MoveData::Normal),
        ]
    );
    let board = position(
        &[
            (Square::C1, Piece::BlackBishop),
            (Square::E3, Piece::WhiteKnight),
            (Square::A3, Piece::BlackPawn),
            (Square::A1, Piece::WhiteKing),
            (Square::H8, Piece::BlackKing),
        ],
        Color::Black,
        0,
    );
    let mut moves = Vec::new();
    ChessMove::add_bishop_moves(&board, &mut moves);
    assert_eq!(
        moves,
        vec![
            mv(Piece::BlackBishop, Square::C1, Square::D2, MoveData::Normal),
            mv(Piece::BlackBishop, Square::C1, Square::E3, MoveData::Capture),
            mv(Piece::BlackBishop, Square::C1, Square::B2, MoveData::Normal),
        ]
    );
    let board = position(&[(Square::D4, Piece::WhiteQueen)], Color::White, 0);
    let mut moves = Vec::new();
    ChessMove::add_queen_moves(&board, &mut moves);
    assert_eq!(moves.len(), 27);
    assert!(moves.iter().all(|m| m.meta_data() == MoveData::Normal));
    let board = position(
        &[
            (Square::A1, Piece::WhiteKnight),
            (Square::B3, Piece::WhitePawn),
            (Square::C2, Piece::BlackQueen),
        ],
        Color::White,
        0,
    );
    let mut moves = Vec::new();
    ChessMove::add_knight_moves(&board, &mut moves);
    assert_eq!(moves, vec![mv(Piece::WhiteKnight, Square::A1, Square::C2, MoveData::Capture)]);
    let board = position(
        &[
            (Square::A8, Piece::BlackKing),
            (Square::A7, Piece::BlackPawn),
            (Square::B8, Piece::WhiteRook),
        ],
        Color::Black,
        0,
    );
    let mut moves = Vec::new();
    ChessMove::add_king_moves(&board, &mut moves);
    assert_eq!(
        moves,
        vec![
            mv(Piece::BlackKing, Square::A8, Square::B8, MoveData::Capture),
            mv(Piece::BlackKing, Square::A8, Square::B7, MoveData::Normal),
        ]
    );
}

fn castle_position(extra: &[(Square, Piece)], active: Color) -> Board {
    let mut pieces = vec![
        (Square::E1, Piece::WhiteKing),
        (Square::A1, Piece::WhiteRook),
        (Square::H1, Piece::WhiteRook),
        (Square::E8, Piece::BlackKing),
        (Square::A8, Piece::BlackRook),
        (Square::H8, Piece::BlackRook),
    ];
    pieces.extend_from_slice(extra);
    position(&pieces, active, 0b1111)
}

fn castles(board: &Board) -> Vec<ChessMove> {
    ChessMove::get_possible_moves(board)
        .into_iter()
        .filter(|m| m.meta_data().is_castle())
        .collect()
}

#[test]
fn castling_moves_king_and_rook() {
    let mut board = castle_position(&[], Color::White);
    let short = mv(Piece::WhiteKing, Square::E1, Square::G1, MoveData::Castling);
    let long = mv(Piece::WhiteKing, Square::E1, Square::C1, MoveData::Castling);
    assert_eq!(castles(&board), vec![short, long]);
    assert_eq!(ChessMove::new_castle(&mut board, CastleType::KingSide), Ok(short));
    assert_eq!(ChessMove::new_castle(&mut board, CastleType::QueenSide), Ok(long));
    assert_eq!(ChessMove::new_from_squares(&mut board, Square::E1, Square::G1, false), Ok(short));
    assert_eq!(ChessMove::new_from_squares(&mut board, Square::E1, Square::C1, false), Ok(long));
    let before = board.clone();
    let record = short.make_reversible_move(&mut board);
    assert_eq!(board.get_piece_at(Square::G1), Some(Piece::WhiteKing));
    assert_eq!(board.get_piece_at(Square::F1), Some(Piece::WhiteRook));
    assert_eq!(board.get_piece_at(Square::E1), None);
    assert_eq!(board.get_piece_at(Square::H1), None);
    assert_eq!(board.get_piece_at(Square::A1), Some(Piece::WhiteRook));
    assert_eq!(board.castling_rights(), 0b1100);
    assert_eq!(board.half_move_clock(), 1);
    short.undo_move(&mut board, record);
    assert_eq!(board, before);
    let record = long.make_reversible_move(&mut board);
    assert_eq!(board.get_piece_at(Square::C1), Some(Piece::WhiteKing));
    assert_eq!(board.get_piece_at(Square::D1), Some(Piece::WhiteRook));
    assert_eq!(board.get_piece_at(Square::A1), None);
    assert_eq!(board.get_piece_at(Square::H1), Some(Piece::WhiteRook));
    assert_eq!(board.castling_rights(), 0b1100);
    long.undo_move(&mut board, record);
    assert_eq!(board, before);

    let mut board = castle_position(&[], Color::Black);
    let short = mv(Piece::BlackKing, Square::E8, Square::G8, MoveData::Castling);
    let long = mv(Piece::BlackKing, Square::E8, Square::C8, MoveData::Castling);
    assert_eq!(castles(&board), vec![short, long]);
    long.make_move(&mut board);
    assert_eq!(board.get_piece_at(Square::C8), Some(Piece::BlackKing));
    assert_eq!(board.get_piece_at(Square::D8), Some(Piece::BlackRook));
    assert_eq!(board.get_piece_at(Square::A8), None);
    assert_eq!(board.castling_rights(), 0b0011);
    assert_eq!(board.full_move_number(), 2);
}

#[test]
fn castling_needs_right_rook_room_and_safety() {
    let short = mv(Piece::WhiteKing, Square::E1, Square::G1, MoveData::Castling);
    let long = mv(Piece::WhiteKing, Square::E1, Square::C1, MoveData::Castling);
    // the right
    let mut board = castle_position(&[], Color::White);
    board.set_castling_rights(0b1110);
    assert_eq!(castles(&board), vec![long]);
    board.set_castling_rights(0b1101);
    assert_eq!(castles(&board), vec![short]);
    board.set_castling_rights(0b1100);
    assert_eq!(castles(&board), vec![]);
    assert_eq!(
        ChessMove::new_castle(&mut board, CastleType::KingSide),
        Err(MoveError::ObstructedMove)
    );
    // the rook
    let mut board = castle_position(&[], Color::White);
    assert!(board.remove_piece_at(Square::H1, Piece::WhiteRook).is_ok());
    assert_eq!(castles(&board), vec![long]);
    assert!(board.add_piece_at(Square::H1, Piece::BlackKnight).is_ok());
    assert_eq!(castles(&board), vec![long]);
    // room between king and rook
    let board = castle_position(&[(Square::B1, Piece::WhiteKnight)], Color::White);
    assert_eq!(castles(&board), vec![short]);
    let board = castle_position(&[(Square::G1, Piece::BlackKnight)], Color::White);
    assert_eq!(castles(&board), vec![long]);
    // the king is in check
    let board = castle_position(&[(Square::E5, Piece::BlackRook)], Color::White);
    assert_eq!(castles(&board), vec![]);
    // the king would pass over an attacked square
    let board = castle_position(&[(Square::F5, Piece::BlackRook)], Color::White);
    assert_eq!(castles(&board), vec![long]);
    let board = castle_position(&[(Square::D5, Piece::BlackRook)], Color::White);
    assert_eq!(castles(&board), vec![short]);
    // the king would land on an attacked square
    let board = castle_position(&[(Square::G5, Piece::BlackRook)], Color::White);
    assert_eq!(castles(&board), vec![long]);
    let board = castle_position(&[(Square::C5, Piece::BlackRook)], Color::White);
    assert_eq!(castles(&board), vec![short]);
    // an attack on the rook or on b1 does not matter; a queen on b5 or h5
    // would attack f1 or d1 as well, a rook does not
    let board = castle_position(&[(Square::B5, Piece::BlackRook)], Color::White);
    assert_eq!(castles(&board), vec![short, long]);
    let board = castle_position(&[(Square::H5, Piece::BlackRook)], Color::White);
    assert_eq!(castles(&board), vec![short, long]);
    let board = castle_position(&[(Square::B5, Piece::BlackQueen)], Color::White);
    assert_eq!(castles(&board), vec![long]);
    let board = castle_position(&[(Square::H5, Piece::BlackQueen)], Color::White);
    assert_eq!(castles(&board), vec![short]);
    let board = castle_position(&[(Square::G5, Piece::BlackQueen)], Color::White);
    assert_eq!(castles(&board), vec![]);
    // a king away from its square does not castle
    let mut board = castle_position(&[], Color::White);
    assert!(board.remove_piece_at(Square::E1, Piece::WhiteKing).is_ok());
    assert!(board.add_piece_at(Square::E2, Piece::WhiteKing).is_ok());
    assert_eq!(castles(&board), vec![]);
}

#[test]
fn rights_are_lost_by_moving_and_by_capture() {
    let mut board = castle_position(&[], Color::White);
    play(&mut board, Square::H1, Square::H2);
    assert_eq!(board.castling_rights(), 0b1110);
    play(&mut board, Square::A8, Square::A2);
    assert_eq!(board.castling_rights(), 0b0110);
    // the rook returns, the right does not
    play(&mut board, Square::H2, Square::H1);
    assert_eq!(board.castling_rights(), 0b0110);
    // a capture on the square where a rook started takes that side's right
    let capture = play(&mut board, Square::A2, Square::A1);
    assert_eq!(capture.meta_data(), MoveData::Capture);
    assert_eq!(board.castling_rights(), 0b0100);
    play(&mut board, Square::E1, Square::E2);
    assert_eq!(board.castling_rights(), 0b0100);
    play(&mut board, Square::E8, Square::E7);
    assert_eq!(board.castling_rights(), 0b0000);
    // taking a move back gives the rights back
    let mut board = castle_position(&[], Color::White);
    let m = mv(Piece::WhiteKing, Square::E1, Square::E2, MoveData::Normal);
    let record = m.make_reversible_move(&mut board);
    assert_eq!(board.castling_rights(), 0b1100);
    m.undo_move(&mut board, record);
    assert_eq!(board.castling_rights(), 0b1111);
}

#[test]
fn moves_that_expose_the_king_are_not_legal() {
    // the rook on e2 is pinned to its king
    let mut board = position(
        &[
            (Square::E1, Piece::WhiteKing),
            (Square::E2, Piece::WhiteRook),
            (Square::E8, Piece::BlackRook),
            (Square::A8, Piece::BlackKing),
        ],
        Color::White,
        0,
    );
    let possible = ChessMove::get_possible_moves(&board);
    let legal = ChessMove::get_valid_moves(&mut board);
    let rook_possible = possible.iter().filter(|m| m.piece().is_rook()).count();
    let rook_legal: Vec<&ChessMove> = legal.iter().filter(|m| m.piece().is_rook()).collect();
    assert_eq!(rook_possible, 13);
    assert_eq!(rook_legal.len(), 6);
    assert!(rook_legal.iter().all(|m| m.target().get_col() == Col::FileE));
    let sideways = mv(Piece::WhiteRook, Square::E2, Square::D2, MoveData::Normal);
    assert!(sideways.leaves_king_in_check(&mut board));
    let along = mv(Piece::WhiteRook, Square::E2, Square::E8, MoveData::Capture);
    assert!(!along.leaves_king_in_check(&mut board));
    assert_eq!(
        ChessMove::validate_moves(vec![sideways, along], &mut board),
        vec![along]
    );
    assert_eq!(
        ChessMove::new_from_squares(&mut board, Square::E2, Square::D2, false),
        Err(MoveError::LeavesKingInCheck)
    );
    // the king does not step onto an attacked square
    assert_eq!(
        ChessMove::new_from_squares(&mut board, Square::E1, Square::D1, false),
        Ok(mv(Piece::WhiteKing, Square::E1, Square::D1, MoveData::Normal))
    );
    let mut board = position(
        &[(Square::E1, Piece::WhiteKing), (Square::D8, Piece::BlackRook), (Square::A8, Piece::BlackKing)],
        Color::White,
        0,
    );
    assert_eq!(
        ChessMove::new_from_squares(&mut board, Square::E1, Square::D1, false),
        Err(MoveError::LeavesKingInCheck)
    );
    assert_eq!(ChessMove::get_valid_moves(&mut board).len(), 3);
}

#[test]
fn descriptions_stand_for_one_move_or_fail() {
    let mut board = Board::std_new();
    play(&mut board, Square::E2, Square::E4);
    play(&mut board, Square::D7, Square::D5);
    play(&mut board, Square::B1, Square::C3);
    play(&mut board, Square::F7, Square::F5);
    let before = board.clone();
    let to_e2 = |origin: Disambiguity| MoveQuery {
        piece: Piece::WhiteKnight,
        origin,
        target: Square::E2,
        promotes: false,
        castles: false,
    };
    assert_eq!(to_e2(Disambiguity::Unspecified).resolve(&mut board), Err(MoveError::DisambiguousMove));
    assert_eq!(
        to_e2(Disambiguity::Rank(Row::Rank3)).resolve(&mut board),
        Ok(mv(Piece::WhiteKnight, Square::C3, Square::E2, MoveData::Normal))
    );
    assert_eq!(
        to_e2(Disambiguity::File(Col::FileG)).resolve(&mut board),
        Ok(mv(Piece::WhiteKnight, Square::G1, Square::E2, MoveData::Normal))
    );
    assert_eq!(
        to_e2(Disambiguity::Square(Square::G1)).resolve(&mut board),
        Ok(mv(Piece::WhiteKnight, Square::G1, Square::E2, MoveData::Normal))
    );
    assert_eq!(
        to_e2(Disambiguity::File(Col::FileA)).resolve(&mut board),
        Err(MoveError::PieceNotFound)
    );
    assert_eq!(
        ChessMove::new_with_disambiguation(
            &mut board,
            Piece::WhiteKnight,
            Disambiguity::Unspecified,
            Square::E2,
            false
        ),
        Err(MoveError::DisambiguousMove)
    );
    assert_eq!(
        ChessMove::new_with_disambiguation(
            &mut board,
            Piece::WhiteRook,
            Disambiguity::Unspecified,
            Square::A3,
            false
        ),
        Err(MoveError::ObstructedMove)
    );
    assert_eq!(
        ChessMove::valid_new(&mut board, Piece::WhitePawn, Square::E4, Square::D5, false),
        Ok(mv(Piece::WhitePawn, Square::E4, Square::D5, MoveData::Capture))
    );
    assert_eq!(
        ChessMove::valid_new(&mut board, Piece::WhitePawn, Square::E4, Square::D5, true),
        Err(MoveError::ObstructedMove)
    );
    assert_eq!(
        ChessMove::valid_new(&mut board, Piece::WhiteQueen, Square::E4, Square::E5, true),
        Err(MoveError::ObstructedMove)
    );
    assert_eq!(
        ChessMove::new_from_squares(&mut board, Square::E3, Square::E4, false),
        Err(MoveError::PieceNotFound)
    );
    // a piece of the player who is not to move
    assert_eq!(
        ChessMove::new_from_squares(&mut board, Square::E7, Square::E5, false),
        Err(MoveError::ObstructedMove)
    );
    assert_eq!(board, before);
    // without a queen there is no queen move
    let mut board = position(
        &[(Square::E1, Piece::WhiteKing), (Square::E8, Piece::BlackKing)],
        Color::White,
        0,
    );
    assert_eq!(
        ChessMove::new_with_disambiguation(
            &mut board,
            Piece::WhiteQueen,
            Disambiguity::Unspecified,
            Square::D4,
            false
        ),
        Err(MoveError::PieceNotFound)
    );
    // a promotion by squares is a promotion to a queen
    let mut board = position(
        &[(Square::E7, Piece::WhitePawn), (Square::A1, Piece::WhiteKing), (Square::H1, Piece::BlackKing)],
        Color::White,
        0,
    );
    assert_eq!(
        ChessMove::new_from_squares(&mut board, Square::E7, Square::E8, true),
        Ok(mv(Piece::WhiteQueen, Square::E7, Square::E8, MoveData::Promotion))
    );
    assert_eq!(
        ChessMove::new_from_squares(&mut board, Square::E7, Square::E8, false),
        Err(MoveError::ObstructedMove)
    );
    assert_eq!(
        ChessMove::valid_new(&mut board, Piece::WhiteKnight, Square::E7, Square::E8, true),
        Ok(mv(Piece::WhiteKnight, Square::E7, Square::E8, MoveData::Promotion))
    );
}

#[test]
fn the_game_ends_without_a_legal_move() {
    let mut board = Board::std_new();
    assert_eq!(ChessMove::game_state(&mut board), GameState::Running);
    play(&mut board, Square::F2, Square::F3);
    play(&mut board, Square::E7, Square::E5);
    play(&mut board, Square::G2, Square::G4);
    assert_eq!(ChessMove::game_state(&mut board), GameState::Running);
    play(&mut board, Square::D8, Square::H4);
    assert!(board.is_in_check(Color::White));
    assert_eq!(ChessMove::get_valid_moves(&mut board), vec![]);
    let before = board.clone();
    assert_eq!(ChessMove::game_state(&mut board), GameState::Checkmate);
    assert_eq!(board, before);
    // no move and no check
    let mut board = position(
        &[(Square::H8, Piece::BlackKing), (Square::F7, Piece::WhiteKing), (Square::G6, Piece::WhiteQueen)],
        Color::Black,
        0,
    );
    assert!(!board.is_in_check(Color::Black));
    assert_eq!(ChessMove::get_possible_moves(&board).len(), 3);
    assert_eq!(ChessMove::get_valid_moves(&mut board), vec![]);
    assert_eq!(ChessMove::game_state(&mut board), GameState::Draw);
    board.set_active_player(Color::White);
    assert_eq!(ChessMove::game_state(&mut board), GameState::Running);
}

#[test]
fn moves_are_written_in_long_notation() {
    let cases = [
        (mv(Piece::WhiteKnight, Square::G1, Square::F3, MoveData::Normal), "Ng1-f3", "Normal"),
        (mv(Piece::WhiteKnight, Square::G1, Square::F3, MoveData::NormalCheck), "Ng1-f3+", "Check"),
        (mv(Piece::WhitePawn, Square::E2, Square::E4, MoveData::EnableEnPassant), "e2-e4", "EnableEnPassant"),
        (mv(Piece::BlackPawn, Square::D5, Square::E4, MoveData::Capture), "d5xe4", "Capture"),
        (mv(Piece::BlackQueen, Square::D8, Square::H4, MoveData::NormalCheckmate), "qd8-h4#", "Checkmate"),
        (mv(Piece::WhiteRook, Square::A1, Square::A8, MoveData::CaptureStalemate), "Ra1xa8‡", "CaptureStalemate"),
        (mv(Piece::WhitePawn, Square::E5, Square::D6, MoveData::EnPassant), "e5xd6", "EnPassant"),
        (mv(Piece::WhiteKing, Square::E1, Square::G1, MoveData::Castling), "O-O", "Castling"),
        (mv(Piece::WhiteKing, Square::E1, Square::C1, MoveData::Castling), "O-O-O", "Castling"),
        (mv(Piece::BlackKing, Square::E8, Square::G8, MoveData::CastlingCheck), "O-O+", "CastlingCheck"),
        (mv(Piece::BlackKing, Square::E8, Square::C8, MoveData::CastlingCheckmate), "O-O-O#", "CastlingCheckmate"),
        (mv(Piece::WhiteQueen, Square::E7, Square::E8, MoveData::Promotion), "e7-e8=Q", "Promotion"),
        (mv(Piece::BlackKnight, Square::A2, Square::B1, MoveData::CapturePromotionCheck), "a2xb1=n+", "CapturePromotionCheck"),
        (mv(Piece::BlackKing, Square::A8, Square::B8, MoveData::NormalStalemate), "ka8-b8‡", "Stalemate"),
    ];
    for (m, notation, name) in cases {
        assert_eq!(m.to_long_algebraic(), notation);
        assert_eq!(m.to_simplified(), notation);
        assert_eq!(m.meta_data().to_string(), name);
        assert_eq!(m.debug_string(), format!("{} {}", notation, name));
    }
}

const TAGS: [(MoveData, SpecialMoveType, MoveType, bool, MoveResult); 28] = [
    (MoveData::Normal, SpecialMoveType::Regular, MoveType::Regular, false, MoveResult::Quiet),
    (MoveData::NormalCheck, SpecialMoveType::Regular, MoveType::Regular, false, MoveResult::Check),
    (MoveData::NormalCheckmate, SpecialMoveType::Regular, MoveType::Regular, false, MoveResult::Checkmate),
    (MoveData::NormalStalemate, SpecialMoveType::Regular, MoveType::Regular, false, MoveResult::Stalemate),
    (MoveData::Castling, SpecialMoveType::Castling, MoveType::Castling, false, MoveResult::Quiet),
    (MoveData::CastlingCheck, SpecialMoveType::Castling, MoveType::Castling, false, MoveResult::Check),
    (MoveData::CastlingCheckmate, SpecialMoveType::Castling, MoveType::Castling, false, MoveResult::Checkmate),
    (MoveData::CastlingStalemate, SpecialMoveType::Castling, MoveType::Castling, false, MoveResult::Stalemate),
    (MoveData::Promotion, SpecialMoveType::Promotion, MoveType::Promotion, false, MoveResult::Quiet),
    (MoveData::PromotionCheck, SpecialMoveType::Promotion, MoveType::Promotion, false, MoveResult::Check),
    (MoveData::PromotionCheckmate, SpecialMoveType::Promotion, MoveType::Promotion, false, MoveResult::Checkmate),
    (MoveData::PromotionStalemate, SpecialMoveType::Promotion, MoveType::Promotion, false, MoveResult::Stalemate),
    (MoveData::EnPassant, SpecialMoveType::EnPassant, MoveType::EnPassant, true, MoveResult::Quiet),
    (MoveData::EnPassantCheck, SpecialMoveType::EnPassant, MoveType::EnPassant, true, MoveResult::Check),
    (MoveData::EnPassantCheckmate, SpecialMoveType::EnPassant, MoveType::EnPassant, true, MoveResult::Checkmate),
    (MoveData::EnPassantStalemate, SpecialMoveType::EnPassant, MoveType::EnPassant, true, MoveResult::Stalemate),
    (MoveData::EnableEnPassant, SpecialMoveType::EnableEnPassant, MoveType::Regular, false, MoveResult::Quiet),
    (MoveData::EnableEnPassantCheck, SpecialMoveType::EnableEnPassant, MoveType::Regular, false, MoveResult::Check),
    (MoveData::EnableEnPassantCheckmate, SpecialMoveType::EnableEnPassant, MoveType::Regular, false, MoveResult::Checkmate),
    (MoveData::EnableEnPassantStalemate, SpecialMoveType::EnableEnPassant, MoveType::Regular, false, MoveResult::Stalemate),
    (MoveData::Capture, SpecialMoveType::Regular, MoveType::Regular, true, MoveResult::Quiet),
    (MoveData::CaptureCheck, SpecialMoveType::Regular, MoveType::Regular, true, MoveResult::Check),
    (MoveData::CaptureCheckmate, SpecialMoveType::Regular, MoveType::Regular, true, MoveResult::Checkmate),
    (MoveData::CaptureStalemate, SpecialMoveType::Regular, MoveType::Regular, true, MoveResult::Stalemate),
    (MoveData::CapturePromotion, SpecialMoveType::Promotion, MoveType::Promotion, true, MoveResult::Quiet),
    (MoveData::CapturePromotionCheck, SpecialMoveType::Promotion, MoveType::Promotion, true, MoveResult::Check),
    (MoveData::CapturePromotionCheckmate, SpecialMoveType::Promotion, MoveType::Promotion, true, MoveResult::Checkmate),
    (MoveData::CapturePromotionStalemate, SpecialMoveType::Promotion, MoveType::Promotion, true, MoveResult::Stalemate),
];

#[test]
fn tags_are_taken_apart_and_put_together() {
    for (tag, kind, move_type, captures, result) in TAGS {
        assert_eq!(tag.kind(), kind);
        assert_eq!(tag.get_move_type(), move_type);
        assert_eq!(tag.is_capture(), captures);
        assert_eq!(tag.move_result(), result);
        assert_eq!(tag.is_castle(), kind == SpecialMoveType::Castling);
        assert_eq!(tag.is_promotion(), kind == SpecialMoveType::Promotion);
        assert_eq!(tag.is_en_passant(), kind == SpecialMoveType::EnPassant);
        assert_eq!(tag.is_enable_en_passant(), kind == SpecialMoveType::EnableEnPassant);
        assert_eq!(tag.is_check(), result == MoveResult::Check);
        assert_eq!(tag.is_checkmate(), result == MoveResult::Checkmate);
        assert_eq!(tag.is_stalemate(), result == MoveResult::Stalemate);
        assert_eq!(tag.reset_halfmove(), captures || kind == SpecialMoveType::Promotion);
        assert_eq!(special_move_builder(kind, result, captures), tag);
        assert_eq!(tag.with_result(result), tag);
        assert_eq!(tag.add_check().move_result(), MoveResult::Check);
        assert_eq!(tag.add_checkmate().move_result(), MoveResult::Checkmate);
        assert_eq!(tag.add_stalemate().move_result(), MoveResult::Stalemate);
        assert_eq!(tag.add_check().kind(), kind);
        assert_eq!(tag.add_check().is_capture(), captures);
        assert_eq!(tag.add_check().with_result(result), tag);
        let enables = kind == SpecialMoveType::EnableEnPassant;
        assert_eq!(ChessMove::assemble_special_move(move_type, captures, enables, result), tag);
    }
    // what cannot capture is built without a capture, whatever is asked
    assert_eq!(
        special_move_builder(SpecialMoveType::Castling, MoveResult::Check, true),
        MoveData::CastlingCheck
    );
    assert_eq!(
        special_move_builder(SpecialMoveType::EnableEnPassant, MoveResult::Quiet, true),
        MoveData::EnableEnPassant
    );
    assert_eq!(
        special_move_builder(SpecialMoveType::EnPassant, MoveResult::Quiet, false),
        MoveData::EnPassant
    );
    assert_eq!(MoveData::Capture.add_check(), MoveData::CaptureCheck);
    assert_eq!(MoveData::Capture.add_checkmate(), MoveData::CaptureCheckmate);
    assert_eq!(MoveData::Capture.add_stalemate(), MoveData::CaptureStalemate);
    assert_eq!(
        ChessMove::assemble_special_move(MoveType::Castling, true, true, MoveResult::Check),
        MoveData::EnableEnPassantCheck
    );
}

#[test]
fn a_move_keeps_what_it_was_made_of() {
    let m = ChessMove::new(Piece::BlackBishop, Square::C8, Square::G4, MoveData::CaptureCheck);
    assert_eq!(m.piece(), Piece::BlackBishop);
    assert_eq!(m.origin(), Square::C8);
    assert_eq!(m.target(), Square::G4);
    assert_eq!(m.meta_data(), MoveData::CaptureCheck);
    let record = MoveRecord {
        captured_piece: Some(Piece::WhiteKnight),
        en_passant_square: Some(Square::E3),
        half_move_clock: 3,
        full_move_number: 9,
        castling_rights: 0b0101,
    };
    let mut board = position(&[(Square::G4, Piece::BlackBishop)], Color::White, 0);
    m.undo_move(&mut board, record);
    assert_eq!(board.get_piece_at(Square::C8), Some(Piece::BlackBishop));
    assert_eq!(board.get_piece_at(Square::G4), Some(Piece::WhiteKnight));
    assert_eq!(board.active_player(), Color::Black);
    assert_eq!(board.en_passant_square(), Some(Square::E3));
    assert_eq!(board.half_move_clock(), 3);
    assert_eq!(board.full_move_number(), 9);
    assert_eq!(board.castling_rights(), 0b0101);
}

#[test]
fn a_move_is_playable_where_the_board_allows_it() {
    let board = Board::std_new();
    for m in ChessMove::get_possible_moves(&board) {
        assert!(m.is_playable(&board), "{}", m.debug_string());
    }
    let unplayable = [
        // nothing moves
        mv(Piece::WhitePawn, Square::E2, Square::E2, MoveData::Normal),
        // no such piece on the origin
        mv(Piece::WhitePawn, Square::E3, Square::E4, MoveData::Normal),
        mv(Piece::WhiteKnight, Square::E2, Square::E4, MoveData::Normal),
        // the target is held
        mv(Piece::WhiteRook, Square::A1, Square::A2, MoveData::Normal),
        mv(Piece::WhiteRook, Square::A1, Square::A2, MoveData::Capture),
        // nothing to capture
        mv(Piece::WhitePawn, Square::E2, Square::D3, MoveData::Capture),
        mv(Piece::WhitePawn, Square::E2, Square::D3, MoveData::EnPassant),
        // not a double step
        mv(Piece::WhitePawn, Square::E2, Square::E3, MoveData::EnableEnPassant),
        mv(Piece::WhiteKnight, Square::G1, Square::G3, MoveData::EnableEnPassant),
        // a promotion needs a pawn on the origin and a piece to become
        mv(Piece::WhiteQueen, Square::D1, Square::D3, MoveData::Promotion),
        mv(Piece::WhiteKing, Square::E2, Square::E3, MoveData::Promotion),
        // castling needs room
        mv(Piece::WhiteKing, Square::E1, Square::G1, MoveData::Castling),
        mv(Piece::WhiteKing, Square::E1, Square::C1, MoveData::Castling),
    ];
    for m in unplayable {
        assert!(!m.is_playable(&board), "{}", m.debug_string());
    }
    // what a board allows, another may not
    let other = castle_position(&[], Color::White);
    assert!(mv(Piece::WhiteKing, Square::E1, Square::G1, MoveData::Castling).is_playable(&other));
    assert!(mv(Piece::WhiteKing, Square::E1, Square::C1, MoveData::Castling).is_playable(&other));
    assert!(!mv(Piece::WhiteKing, Square::E1, Square::B1, MoveData::Castling).is_playable(&other));
    assert!(mv(Piece::WhiteRook, Square::A1, Square::A8, MoveData::Capture).is_playable(&other));
    assert!(!mv(Piece::WhiteRook, Square::A1, Square::A8, MoveData::Normal).is_playable(&other));
    assert!(!mv(Piece::WhitePawn, Square::E2, Square::E4, MoveData::EnableEnPassant).is_playable(&other));
}
