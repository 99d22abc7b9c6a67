use rusty_chess::board::Board;
use rusty_chess::chess_moves::ChessMove;
use rusty_chess::pieces::{Color, Piece};
use rusty_chess::square::Square;

/// Sets up a position from its description: the rows from rank 8 to rank
/// 1, the player to move, the castling rights and the en-passant square.
fn position(description: &str) -> Board {
    let mut fields = description.split(' ');
    let mut board = Board::empty_new();
    let mut index: u8 = 0;
    for c in fields.next().unwrap().chars() {
        match c {
            '/' => {}
            '1'..='8' => index += c as u8 - b'0',
            _ => {
                let piece = match c {
                    'P' => Piece::WhitePawn,
                    'p' => Piece::BlackPawn,
                    'R' => Piece::WhiteRook,
                    'r' => Piece::BlackRook,
                    'N' => Piece::WhiteKnight,
                    'n' => Piece::BlackKnight,
                    'B' => Piece::WhiteBishop,
                    'b' => Piece::BlackBishop,
                    'Q' => Piece::WhiteQueen,
                    'q' => Piece::BlackQueen,
                    'K' => Piece::WhiteKing,
                    'k' => Piece::BlackKing,
                    _ => panic!("no piece is written {}", c),
                };
                assert_eq!(piece.to_char(), c);
                assert!(board.add_piece_at(Square::from_inner(index), piece).is_ok());
                index += 1;
            }
        }
    }
    assert_eq!(index, 64);
    board.set_active_player(match fields.next().unwrap() {
        "w" => Color::White,
        _ => Color::Black,
    });
    let mut rights = 0u8;
    for c in fields.next().unwrap().chars() {
        rights |= match c {
            'K' => 1,
            'Q' => 2,
            'k' => 4,
            'q' => 8,
            _ => 0,
        };
    }
    board.set_castling_rights(rights);
    let square = fields.next().unwrap();
    if square != "-" {
        let found = Square::iter_squares().into_iter().find(|s| s.to_square_str() == square);
        board.set_en_passant_square(Some(found.unwrap()));
    }
    board
}

/// The number of ways to play `depth` legal moves in a row.
fn count(board: &mut Board, depth: u32) -> u64 {
    let moves = ChessMove::get_valid_moves(board);
    if depth == 1 {
        return moves.len() as u64;
    }
    let mut total = 0;
    for m in moves {
        let record = m.make_reversible_move(board);
        total += count(board, depth - 1);
        m.undo_move(board, record);
    }
    total
}

fn assert_counts(description: &str, expected: &[u64]) {
    let mut board = position(description);
    let before = board.clone();
    for (i, n) in expected.iter().enumerate() {
        assert_eq!(count(&mut board, i as u32 + 1), *n, "{} at depth {}", description, i + 1);
        assert_eq!(board, before);
    }
}

#[test]
fn the_description_of_the_standard_position_is_the_standard_board() {
    let board = position("rnbqkbnr/pppppppp/8/8/8/8/PPPPPPPP/RNBQKBNR w KQkq -");
    assert_eq!(board, Board::std_new());
}

#[test]
fn move_counts_from_the_standard_position() {
    assert_counts(
        "rnbqkbnr/pppppppp/8/8/8/8/PPPPPPPP/RNBQKBNR w KQkq -",
        &[20, 400, 8902, 197_281],
    );
}

#[test]
fn move_counts_with_castles_pins_and_captures() {
    assert_counts(
        "r3k2r/p1ppqpb1/bn2pnp1/3PN3/1p2P3/2N2Q1p/PPPBBPPP/R3K2R w KQkq -",
        &[48, 2039, 97_862],
    );
}

#[test]
fn move_counts_with_en_passant_and_discovered_checks() {
    assert_counts("8/2p5/3p4/KP5r/1R3p1k/8/4P1P1/8 w - -", &[14, 191, 2812, 43_238]);
}

#[test]
fn move_counts_with_promotions() {
    assert_counts(
        "r3k2r/Pppp1ppp/1b3nbN/nP6/BBP1P3/q4N2/Pp1P2PP/R2Q1RK1 w kq -",
        &[6, 264, 9467],
    );
    assert_counts(
        "r2q1rk1/pP1p2pp/Q4n2/bbp1p3/Np6/1B3NBn/pPPP1PPP/R3K2R b KQ -",
        &[6, 264, 9467],
    );
}

#[test]
fn move_counts_in_a_middle_game() {
    assert_counts(
        "rnbq1k1r/pp1Pbppp/2p5/8/2B5/8/PPP1NnPP/RNBQK2R w KQ -",
        &[44, 1486, 62_379],
    );
    assert_counts(
        "r4rk1/1pp1qppp/p1np1n2/2b1p1B1/2B1P1b1/P1NP1N2/1PP1QPPP/R4RK1 w - -",
        &[46, 2079, 89_890],
    );
}
