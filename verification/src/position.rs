//! The mathematical model of a board.
//!
//! A [`Position`] says which piece stands on each of the 64 squares and
//! holds the rest of the game state. Everything that the library computes
//! from a board is stated over this model: what lies along a line, what a
//! line's first piece is, who attacks a square.

use vstd::prelude::*;
use crate::castling_rights::CastlingRights;
use crate::pieces::{Color, Piece};
use crate::square::Square;

verus! {

/// A board as a value of mathematics.
pub struct Position {
    /// The piece on each square, in the order of the squares' numbers.
    pub squares: Seq<Option<Piece>>,
    /// The castling rights that are still held.
    pub castling_rights: CastlingRights,
    /// The square that a pawn has just passed over in a double step.
    pub en_passant_square: Option<Square>,
    /// The number of moves since the last capture or pawn move.
    pub half_move_clock: u8,
    /// The number of the move that is being played; it grows after Black's moves.
    pub full_move_number: u8,
    /// The player whose turn it is.
    pub active_player: Color,
}

/// The piece that starts on column `col` of a back rank.
pub open spec fn back_rank_piece(color: Color, col: int) -> Piece {
    if col == 0 || col == 7 {
        color.get_rook()
    } else if col == 1 || col == 6 {
        color.get_knight()
    } else if col == 2 || col == 5 {
        color.get_bishop()
    } else if col == 3 {
        color.get_queen()
    } else {
        color.get_king()
    }
}

/// The piece that starts on square number `i`.
pub open spec fn starting_piece(i: int) -> Option<Piece> {
    if i / 8 == 0 {
        Some(back_rank_piece(Color::Black, i % 8))
    } else if i / 8 == 1 {
        Some(Piece::BlackPawn)
    } else if i / 8 == 6 {
        Some(Piece::WhitePawn)
    } else if i / 8 == 7 {
        Some(back_rank_piece(Color::White, i % 8))
    } else {
        None
    }
}

/// `s` is one of the first `n` squares of `line`.
pub open spec fn in_prefix(line: Seq<Square>, n: int, s: Square) -> bool {
    exists|k: int| 0 <= k < n && k < line.len() && line[k] == s
}

/// A prefix that is one longer holds one square more.
pub proof fn lemma_in_prefix_step(line: Seq<Square>, n: int, s: Square)
    requires
        0 <= n < line.len(),
    ensures
        in_prefix(line, n + 1, s) == (in_prefix(line, n, s) || line[n] == s),
        !in_prefix(line, 0, s),
{
    if in_prefix(line, n + 1, s) {
        let k = choose|k: int| 0 <= k < n + 1 && k < line.len() && line[k] == s;
        if k < n {
            assert(in_prefix(line, n, s));
        }
    }
    if in_prefix(line, n, s) {
        let k = choose|k: int| 0 <= k < n && k < line.len() && line[k] == s;
        assert(0 <= k < n + 1 && k < line.len() && line[k] == s);
    }
    if line[n] == s {
        assert(0 <= n < n + 1 && n < line.len() && line[n] == s);
    }
}

impl Position {
    /// The model has a place for each of the 64 squares.
    pub open spec fn wf(self) -> bool {
        self.squares.len() == 64
    }

    /// The starting position of a game.
    pub open spec fn standard() -> Position {
        Position {
            squares: Seq::new(64, |i: int| starting_piece(i)),
            castling_rights: 15,
            en_passant_square: None,
            half_move_clock: 0,
            full_move_number: 1,
            active_player: Color::White,
        }
    }

    /// The position without any piece and without castling rights.
    pub open spec fn empty() -> Position {
        Position {
            squares: Seq::new(64, |i: int| None),
            castling_rights: 0,
            en_passant_square: None,
            half_move_clock: 0,
            full_move_number: 1,
            active_player: Color::White,
        }
    }

    /// The piece on a square, if there is one.
    pub open spec fn piece_at(self, square: Square) -> Option<Piece> {
        self.squares[square.index()]
    }

    /// A piece stands on the square.
    pub open spec fn occupied(self, square: Square) -> bool {
        self.piece_at(square) is Some
    }

    /// A piece of the given colour stands on the square.
    pub open spec fn holds_color(self, square: Square, color: Color) -> bool {
        self.piece_at(square) matches Some(p) && p.get_color() == color
    }

    /// The piece on the square, if it has the given colour.
    pub open spec fn colored_piece_at(self, square: Square, color: Color) -> Option<Piece> {
        if self.holds_color(square, color) {
            self.piece_at(square)
        } else {
            None
        }
    }

    /// The position with `content` on the square and all else unchanged.
    pub open spec fn with_square(self, square: Square, content: Option<Piece>) -> Position {
        Position { squares: self.squares.update(square.index(), content), ..self }
    }

    /// The letter of the piece on the square, a blank for an empty square.
    pub open spec fn char_at(self, square: Square) -> char {
        match self.piece_at(square) {
            Some(p) => p.to_char(),
            None => ' ',
        }
    }

    /// The figurine of the piece on the square, a dash for an empty square.
    pub open spec fn symbol_at(self, square: Square) -> char {
        match self.piece_at(square) {
            Some(p) => p.to_symbol(),
            None => '-',
        }
    }

    /// The first `n` cells of row `row` as they are drawn: a blank and the
    /// figurine of each.
    pub open spec fn drawn_cells(self, row: int, n: int) -> Seq<char>
        decreases n,
    {
        if n <= 0 {
            Seq::empty()
        } else {
            self.drawn_cells(row, n - 1) + seq![' ', self.symbol_at(Square::at(8 * row + n - 1))]
        }
    }

    /// Row `row` as it is drawn: its rank number between bars, its eight
    /// cells, and a bar at the end of the line.
    pub open spec fn drawn_row(self, row: int) -> Seq<char> {
        "╎ "@ + seq![crate::square::rank_char(row)] + " ╏"@ + self.drawn_cells(row, 8) + " ╏\n"@
    }

    /// The first `n` rows as they are drawn.
    pub open spec fn drawn_rows(self, n: int) -> Seq<char>
        decreases n,
    {
        if n <= 0 {
            Seq::empty()
        } else {
            self.drawn_rows(n - 1) + self.drawn_row(n - 1)
        }
    }

    /// The board as it is drawn: a frame, the eight rows from rank 8 down
    /// to rank 1, and the file letters below them.
    pub open spec fn drawn(self) -> Seq<char> {
        "┌╌╌╌┲╍╍╍╍╍╍╍╍╍╍╍╍╍╍╍╍╍┓\n"@ + self.drawn_rows(8) + "└╌╌╌╄╍╍╍╍╍╍╍╍╍╍╍╍╍╍╍╍╍┩\n"@
            + "    ╎ a b c d e f g h ╎\n"@ + "    └╌╌╌╌╌╌╌╌╌╌╌╌╌╌╌╌╌┘"@
    }

    /// The number of occupied squares among those numbered below `n`.
    pub open spec fn count_below(self, n: int) -> nat
        decreases n,
    {
        if n <= 0 {
            0
        } else {
            self.count_below(n - 1) + if self.squares[n - 1] is Some {
                1nat
            } else {
                0nat
            }
        }
    }

    /// The number of pieces on the board.
    pub open spec fn piece_count(self) -> nat {
        self.count_below(64)
    }

    /// The squares numbered `i` or more on which `piece` stands, in
    /// ascending order.
    pub open spec fn places_from(self, piece: Piece, i: int) -> Seq<Square>
        decreases 64 - i,
    {
        if i < 0 || i >= 64 {
            Seq::empty()
        } else if self.squares[i] == Some(piece) {
            seq![Square::at(i)] + self.places_from(piece, i + 1)
        } else {
            self.places_from(piece, i + 1)
        }
    }

    /// The squares on which `piece` stands, in ascending order.
    pub open spec fn places(self, piece: Piece) -> Seq<Square> {
        self.places_from(piece, 0)
    }

    /// The square of the colour's king: the lowest one, should there be several.
    pub open spec fn king_square(self, color: Color) -> Option<Square> {
        if self.places(color.get_king()).len() > 0 {
            Some(self.places(color.get_king())[0])
        } else {
            None
        }
    }

    /// The place in `line`, at `k` or later, of the first occupied square;
    /// the length of `line` if there is none.
    pub open spec fn first_blocker(self, line: Seq<Square>, k: int) -> int
        decreases line.len() - k,
    {
        if k < 0 || k >= line.len() {
            line.len() as int
        } else if self.occupied(line[k]) {
            k
        } else {
            self.first_blocker(line, k + 1)
        }
    }

    /// The first occupied square of `line`, if there is one.
    pub open spec fn blocker(self, line: Seq<Square>) -> Option<Square> {
        if self.clear_run(line) < line.len() {
            Some(line[self.clear_run(line)])
        } else {
            None
        }
    }

    /// The pieces on the squares of `squares`, each with its square, in
    /// the order of `squares`. Empty squares are passed over.
    pub open spec fn pieces_on(self, squares: Seq<Square>) -> Seq<(Piece, Square)>
        decreases squares.len(),
    {
        if squares.len() == 0 {
            Seq::empty()
        } else {
            match self.piece_at(squares.last()) {
                Some(p) => self.pieces_on(squares.drop_last()).push((p, squares.last())),
                None => self.pieces_on(squares.drop_last()),
            }
        }
    }

    /// The squares of `squares` on which `piece` stands, in the order of `squares`.
    pub open spec fn squares_holding(self, piece: Piece, squares: Seq<Square>) -> Seq<Square>
        decreases squares.len(),
    {
        if squares.len() == 0 {
            Seq::empty()
        } else if self.piece_at(squares.last()) == Some(piece) {
            self.squares_holding(piece, squares.drop_last()).push(squares.last())
        } else {
            self.squares_holding(piece, squares.drop_last())
        }
    }

    /// For each piece of `pieces` in turn, the squares on which it stands
    /// in ascending order, each with the piece.
    pub open spec fn pieces_listed(self, pieces: Seq<Piece>) -> Seq<(Piece, Square)>
        decreases pieces.len(),
    {
        if pieces.len() == 0 {
            Seq::empty()
        } else {
            self.pieces_listed(pieces.drop_last()) + self.pieces_on(self.places(pieces.last()))
        }
    }

    /// The pieces of the player to move, each with its square: kind by
    /// kind in the order pawn, rook, knight, bishop, queen, king, and
    /// within a kind by ascending square.
    pub open spec fn active_pieces(self) -> Seq<(Piece, Square)> {
        self.pieces_listed(Piece::of_color(self.active_player))
    }

    /// The first occupied square of a line is found within the line, or
    /// the whole line is empty: from `k` on, the search stays between `k`
    /// and the line's length, and passes over empty squares only.
    pub proof fn lemma_clear_run(self, line: Seq<Square>, k: int)
        requires
            0 <= k <= line.len(),
        ensures
            k <= self.first_blocker(line, k) <= line.len(),
            self.first_blocker(line, k) < line.len() ==> self.occupied(
                line[self.first_blocker(line, k)],
            ),
            forall|j: int| k <= j < self.first_blocker(line, k) ==> !self.occupied(line[j]),
        decreases line.len() - k,
    {
        if k < line.len() && !self.occupied(line[k]) {
            self.lemma_clear_run(line, k + 1);
        }
    }

    /// The number of empty squares at the start of `line`: the place of
    /// its first occupied square.
    pub open spec fn clear_run(self, line: Seq<Square>) -> int {
        self.first_blocker(line, 0)
    }

    /// `s` is one of the empty squares of `line` that come before its first piece.
    pub open spec fn reaches(self, line: Seq<Square>, s: Square) -> bool {
        in_prefix(line, self.clear_run(line), s)
    }

    /// The empty squares of `line` before its first piece whose numbers
    /// are `i` or more, in ascending order of their numbers.
    pub open spec fn reached_from(self, line: Seq<Square>, i: int) -> Seq<Square>
        decreases 64 - i,
    {
        if i < 0 || i >= 64 {
            Seq::empty()
        } else if self.reaches(line, Square::at(i)) {
            seq![Square::at(i)] + self.reached_from(line, i + 1)
        } else {
            self.reached_from(line, i + 1)
        }
    }

    /// The empty squares of `line` before its first piece, in ascending
    /// order of their numbers.
    pub open spec fn reached(self, line: Seq<Square>) -> Seq<Square> {
        self.reached_from(line, 0)
    }

    /// Every square of the list of reached squares is reached.
    pub proof fn lemma_reached(self, line: Seq<Square>, i: int, k: int)
        requires
            0 <= i <= 64,
            0 <= k < self.reached_from(line, i).len(),
        ensures
            self.reaches(line, self.reached_from(line, i)[k]),
        decreases 64 - i,
    {
        if i < 64 {
            if self.reaches(line, Square::at(i)) {
                if k > 0 {
                    self.lemma_reached(line, i + 1, k - 1);
                }
            } else {
                self.lemma_reached(line, i + 1, k);
            }
        }
    }

    /// A square that is reached along a line is empty.
    pub proof fn lemma_reaches_empty(self, line: Seq<Square>, s: Square)
        requires
            self.reaches(line, s),
        ensures
            !self.occupied(s),
    {
        self.lemma_clear_run(line, 0);
        let k = choose|k: int| 0 <= k < self.clear_run(line) && k < line.len() && line[k] == s;
        assert(!self.occupied(line[k]));
    }

    /// The square on which a line allows a capture holds a piece of the
    /// colour asked for.
    pub proof fn lemma_capture_on(self, line: Seq<Square>, color: Color)
        ensures
            self.capture_on(line, color) matches Some(t) ==> self.holds_color(t, color),
    {
    }

    /// Every listed place of a piece holds the piece.
    pub proof fn lemma_places_hold(self, piece: Piece, i: int, k: int)
        requires
            self.wf(),
            0 <= i <= 64,
            0 <= k < self.places_from(piece, i).len(),
        ensures
            self.piece_at(self.places_from(piece, i)[k]) == Some(piece),
        decreases 64 - i,
    {
        if i < 64 {
            if self.squares[i] == Some(piece) {
                Square::lemma_at(i);
                if k > 0 {
                    self.lemma_places_hold(piece, i + 1, k - 1);
                }
            } else {
                self.lemma_places_hold(piece, i + 1, k);
            }
        }
    }

    /// `s` is one of the squares of `line` up to and including its first piece.
    pub open spec fn sees(self, line: Seq<Square>, s: Square) -> bool {
        in_prefix(line, self.clear_run(line) + 1, s)
    }

    /// The square of the first piece of `line`, if that piece has the given colour.
    pub open spec fn capture_on(self, line: Seq<Square>, color: Color) -> Option<Square> {
        let b = self.clear_run(line);
        if b < line.len() && self.holds_color(line[b], color) {
            Some(line[b])
        } else {
            None
        }
    }

    /// A piece of colour `attacker` that stands as the first piece of `line`
    /// attacks the square from which `line` sets out. A queen does so from
    /// any distance, a rook along ranks and files, a bishop along diagonals,
    /// a king from the next square, and a pawn from the next square of a
    /// diagonal that leads away from the attacker's side of the board:
    /// `pawn_side` says that the line does.
    pub open spec fn line_threat(
        self,
        line: Seq<Square>,
        attacker: Color,
        diagonal: bool,
        pawn_side: bool,
    ) -> bool {
        let b = self.clear_run(line);
        b < line.len() && match self.piece_at(line[b]) {
            Some(p) => p.get_color() == attacker && (p.is_queen() || (diagonal && p.is_bishop())
                || (!diagonal && p.is_rook()) || (b == 0 && p.is_king()) || (b == 0 && diagonal
                && pawn_side && p.is_pawn())),
            None => false,
        }
    }

    /// The row direction in which a pawn of the given colour is found from
    /// a square that it attacks: White's pawns stand one row below (a
    /// higher row number), Black's one row above.
    pub open spec fn pawn_row_dir(attacker: Color) -> int {
        match attacker {
            Color::White => 1,
            Color::Black => -1,
        }
    }

    /// A knight of colour `attacker` stands a knight's jump from the square.
    pub open spec fn knight_threat(self, square: Square, attacker: Color) -> bool {
        exists|k: int|
            0 <= k < square.knight_targets().len() && self.piece_at(
                #[trigger] square.knight_targets()[k],
            ) == Some(attacker.get_knight())
    }

    /// A piece of colour `attacker` attacks the square.
    #[verifier::opaque]
    pub open spec fn attacked_by(self, square: Square, attacker: Color) -> bool {
        ||| self.line_threat(square.ray(-1, 0), attacker, false, false)
        ||| self.line_threat(square.ray(1, 0), attacker, false, false)
        ||| self.line_threat(square.ray(0, -1), attacker, false, false)
        ||| self.line_threat(square.ray(0, 1), attacker, false, false)
        ||| self.line_threat(
            square.ray(-1, -1),
            attacker,
            true,
            Position::pawn_row_dir(attacker) == -1,
        )
        ||| self.line_threat(
            square.ray(-1, 1),
            attacker,
            true,
            Position::pawn_row_dir(attacker) == -1,
        )
        ||| self.line_threat(square.ray(1, -1), attacker, true, Position::pawn_row_dir(attacker) == 1)
        ||| self.line_threat(square.ray(1, 1), attacker, true, Position::pawn_row_dir(attacker) == 1)
        ||| self.knight_threat(square, attacker)
    }

    /// The piece on the square is attacked by a piece of the other colour.
    /// An empty square is not threatened.
    pub open spec fn threatened(self, square: Square) -> bool {
        self.piece_at(square) matches Some(p) && self.attacked_by(square, p.get_opponent_color())
    }

    /// The colour's king is attacked. A colour without a king is not in check.
    pub open spec fn in_check(self, color: Color) -> bool {
        self.king_square(color) matches Some(k) && self.attacked_by(k, color.toggle_color())
    }
}

} // verus!
