//! Board coordinates.
//!
//! A square is one of the 64 cells of the board, numbered from 0 (file a,
//! rank 8, the top-left corner as White sees the board) to 63 (file h,
//! rank 1), left to right and then top to bottom. A row is the square's
//! number divided by 8, a column the remainder. None of these types has a
//! value that lies off the board.

use vstd::prelude::*;

verus! {

/// A row of the board, counted from the top: row 0 is rank 8, row 7 is rank 1.
#[derive(Clone, Copy, Debug, PartialEq, Eq, Hash, Structural)]
pub enum Row {
    Rank8,
    Rank7,
    Rank6,
    Rank5,
    Rank4,
    Rank3,
    Rank2,
    Rank1,
}

/// A column of the board, counted from the left: column 0 is file a.
#[derive(Clone, Copy, Debug, PartialEq, Eq, Hash, Structural)]
pub enum Col {
    FileA,
    FileB,
    FileC,
    FileD,
    FileE,
    FileF,
    FileG,
    FileH,
}

/// A square of the board, named by file and rank.
#[derive(Clone, Copy, Debug, PartialEq, Eq, Hash, Structural)]
pub enum Square {
    A8, B8, C8, D8, E8, F8, G8, H8,
    A7, B7, C7, D7, E7, F7, G7, H7,
    A6, B6, C6, D6, E6, F6, G6, H6,
    A5, B5, C5, D5, E5, F5, G5, H5,
    A4, B4, C4, D4, E4, F4, G4, H4,
    A3, B3, C3, D3, E3, F3, G3, H3,
    A2, B2, C2, D2, E2, F2, G2, H2,
    A1, B1, C1, D1, E1, F1, G1, H1,
}

/// `0 <= i < 64`: `i` numbers a square.
pub open spec fn on_board(i: int) -> bool {
    0 <= i < 64
}

impl Row {
    /// The number of the bottom row.
    pub const MAX_ROW: u8 = 7;

    /// The number of the top row.
    pub const MIN_ROW: u8 = 0;

    /// The row's number, 0 for rank 8 and 7 for rank 1.
    pub open spec fn index(self) -> int {
        match self {
            Row::Rank8 => 0,
            Row::Rank7 => 1,
            Row::Rank6 => 2,
            Row::Rank5 => 3,
            Row::Rank4 => 4,
            Row::Rank3 => 5,
            Row::Rank2 => 6,
            Row::Rank1 => 7,
        }
    }

    /// The row numbered `i`; rank 1 for every `i` above 6.
    pub open spec fn at(i: int) -> Row {
        if i <= 0 {
            Row::Rank8
        } else if i == 1 {
            Row::Rank7
        } else if i == 2 {
            Row::Rank6
        } else if i == 3 {
            Row::Rank5
        } else if i == 4 {
            Row::Rank4
        } else if i == 5 {
            Row::Rank3
        } else if i == 6 {
            Row::Rank2
        } else {
            Row::Rank1
        }
    }

    /// Every row has a number in `0..8`, and `at` undoes `index`.
    pub proof fn lemma_index(self)
        ensures
            0 <= self.index() < 8,
            Row::at(self.index()) == self,
    {
    }

    /// `index` undoes `at` on `0..8`.
    pub proof fn lemma_at(i: int)
        requires
            0 <= i < 8,
        ensures
            Row::at(i).index() == i,
    {
    }

    /// The row with the given number, if there is one.
    pub fn new_row(row: u8) -> (r: Option<Row>)
        ensures
            r == (if row <= 7 { Some(Row::at(row as int)) } else { None }),
    {
        match row {
            0 => Some(Row::Rank8),
            1 => Some(Row::Rank7),
            2 => Some(Row::Rank6),
            3 => Some(Row::Rank5),
            4 => Some(Row::Rank4),
            5 => Some(Row::Rank3),
            6 => Some(Row::Rank2),
            7 => Some(Row::Rank1),
            _ => None,
        }
    }

    /// The row's number.
    pub fn as_u8(self) -> (r: u8)
        ensures
            r == self.index(),
    {
        match self {
            Row::Rank8 => 0,
            Row::Rank7 => 1,
            Row::Rank6 => 2,
            Row::Rank5 => 3,
            Row::Rank4 => 4,
            Row::Rank3 => 5,
            Row::Rank2 => 6,
            Row::Rank1 => 7,
        }
    }

    /// The neighbouring row: the one below (a higher number) if `ascending`,
    /// the one above if not; `None` at the edge of the board.
    pub fn get_next_row(self, ascending: bool) -> (r: Option<Row>)
        ensures
            r == (if ascending {
                if self.index() < 7 { Some(Row::at(self.index() + 1)) } else { None }
            } else {
                if self.index() > 0 { Some(Row::at(self.index() - 1)) } else { None }
            }),
    {
        let i = self.as_u8();
        if ascending {
            Row::new_row(i + 1)
        } else if i > 0 {
            Row::new_row(i - 1)
        } else {
            None
        }
    }

    /// How many rows lie beyond this one in the given direction.
    pub fn get_next_rows(self, ascending: bool) -> (n: u8)
        ensures
            n == (if ascending { 7 - self.index() } else { self.index() }),
    {
        if ascending {
            7 - self.as_u8()
        } else {
            self.as_u8()
        }
    }

    /// The distance between two rows.
    pub fn abs_diff(self, other_row: Row) -> (d: u8)
        ensures
            d == vstd::math::abs(self.index() - other_row.index()),
    {
        let a = self.as_u8();
        let b = other_row.as_u8();
        if a >= b {
            a - b
        } else {
            b - a
        }
    }

    /// The row of a rank number. Ranks are taken modulo 8, so that 8 and 0
    /// both name the top row; rank 1 is the bottom row.
    pub fn from_rank(rank: u8) -> (r: Row)
        ensures
            r.index() == (8 - (rank as int) % 8) % 8,
    {
        let m = rank % 8;
        if m == 0 {
            Row::Rank8
        } else {
            proof {
                Row::lemma_at(8 - m as int);
            }
            Row::of(8 - m)
        }
    }

    /// The row's rank number, 8 for the top row and 1 for the bottom row.
    pub fn to_rank(self) -> (rank: u8)
        ensures
            rank == 8 - self.index(),
    {
        8 - self.as_u8()
    }

    /// The rows from top to bottom.
    pub fn iter_rows() -> (rows: Vec<Row>)
        ensures
            rows@ == Seq::new(8, |i: int| Row::at(i)),
    {
        let rows = vec![
            Row::Rank8,
            Row::Rank7,
            Row::Rank6,
            Row::Rank5,
            Row::Rank4,
            Row::Rank3,
            Row::Rank2,
            Row::Rank1,
        ];
        assert(rows@ =~= Seq::new(8, |i: int| Row::at(i)));
        rows
    }

    /// The rank numbers from the top row to the bottom row: 8 down to 1.
    pub fn iter_ranks() -> (ranks: Vec<u8>)
        ensures
            ranks@ == Seq::new(8, |i: int| (8 - i) as u8),
    {
        let ranks: Vec<u8> = vec![8, 7, 6, 5, 4, 3, 2, 1];
        assert(ranks@ =~= Seq::new(8, |i: int| (8 - i) as u8));
        ranks
    }

    /// The row numbered `i`, for `i` known to be in range.
    pub(crate) fn of(i: u8) -> (r: Row)
        requires
            i < 8,
        ensures
            r == Row::at(i as int),
            r.index() == i,
    {
        match i {
            0 => Row::Rank8,
            1 => Row::Rank7,
            2 => Row::Rank6,
            3 => Row::Rank5,
            4 => Row::Rank4,
            5 => Row::Rank3,
            6 => Row::Rank2,
            _ => Row::Rank1,
        }
    }
}

impl Col {
    /// The number of the rightmost column.
    pub const MAX_COL: u8 = 7;

    /// The number of the leftmost column.
    pub const MIN_COL: u8 = 0;

    /// The column's number, 0 for file a and 7 for file h.
    pub open spec fn index(self) -> int {
        match self {
            Col::FileA => 0,
            Col::FileB => 1,
            Col::FileC => 2,
            Col::FileD => 3,
            Col::FileE => 4,
            Col::FileF => 5,
            Col::FileG => 6,
            Col::FileH => 7,
        }
    }

    /// The column numbered `i`; file h for every `i` above 6.
    pub open spec fn at(i: int) -> Col {
        if i <= 0 {
            Col::FileA
        } else if i == 1 {
            Col::FileB
        } else if i == 2 {
            Col::FileC
        } else if i == 3 {
            Col::FileD
        } else if i == 4 {
            Col::FileE
        } else if i == 5 {
            Col::FileF
        } else if i == 6 {
            Col::FileG
        } else {
            Col::FileH
        }
    }

    /// Every column has a number in `0..8`, and `at` undoes `index`.
    pub proof fn lemma_index(self)
        ensures
            0 <= self.index() < 8,
            Col::at(self.index()) == self,
    {
    }

    /// `index` undoes `at` on `0..8`.
    pub proof fn lemma_at(i: int)
        requires
            0 <= i < 8,
        ensures
            Col::at(i).index() == i,
    {
    }

    /// The column with the given number, if there is one.
    pub fn new_col(col: u8) -> (c: Option<Col>)
        ensures
            c == (if col <= 7 { Some(Col::at(col as int)) } else { None }),
    {
        match col {
            0 => Some(Col::FileA),
            1 => Some(Col::FileB),
            2 => Some(Col::FileC),
            3 => Some(Col::FileD),
            4 => Some(Col::FileE),
            5 => Some(Col::FileF),
            6 => Some(Col::FileG),
            7 => Some(Col::FileH),
            _ => None,
        }
    }

    /// The column's number.
    pub fn as_u8(self) -> (c: u8)
        ensures
            c == self.index(),
    {
        match self {
            Col::FileA => 0,
            Col::FileB => 1,
            Col::FileC => 2,
            Col::FileD => 3,
            Col::FileE => 4,
            Col::FileF => 5,
            Col::FileG => 6,
            Col::FileH => 7,
        }
    }

    /// The neighbouring column: the one to the right if `ascending`, the one
    /// to the left if not; `None` at the edge of the board.
    pub fn get_next_col(self, ascending: bool) -> (c: Option<Col>)
        ensures
            c == (if ascending {
                if self.index() < 7 { Some(Col::at(self.index() + 1)) } else { None }
            } else {
                if self.index() > 0 { Some(Col::at(self.index() - 1)) } else { None }
            }),
    {
        let i = self.as_u8();
        if ascending {
            Col::new_col(i + 1)
        } else if i > 0 {
            Col::new_col(i - 1)
        } else {
            None
        }
    }

    /// How many columns lie beyond this one in the given direction.
    pub fn get_next_cols(self, ascending: bool) -> (n: u8)
        ensures
            n == (if ascending { 7 - self.index() } else { self.index() }),
    {
        if ascending {
            7 - self.as_u8()
        } else {
            self.as_u8()
        }
    }

    /// The distance between two columns.
    pub fn abs_diff(self, other_col: Col) -> (d: u8)
        ensures
            d == vstd::math::abs(self.index() - other_col.index()),
    {
        let a = self.as_u8();
        let b = other_col.as_u8();
        if a >= b {
            a - b
        } else {
            b - a
        }
    }

    /// The column that a file letter would name if the alphabet went round
    /// in eights: the letter's distance from `a` (for `a` and every later
    /// character) or from `A` (for every earlier one), modulo 8.
    pub open spec fn file_index(file: char) -> int {
        if file as u32 >= 97 {
            (file as u32 - 97) % 8
        } else {
            (file as u32 + 7) % 8
        }
    }

    /// The column of a file letter: `a` to `h`, or `A` to `H`, is column 0
    /// to 7. Any other character is placed as `file_index` says.
    #[verifier::rlimit(30)]
    pub fn from_file(file: char) -> (c: Col)
        ensures
            c.index() == Col::file_index(file),
            'a' <= file <= 'h' ==> c.index() == file as u32 - 'a' as u32,
            'A' <= file <= 'H' ==> c.index() == file as u32 - 'A' as u32,
    {
        let code: u32 = file as u32;
        let m: u32 = if code >= 97 {
            (code - 97) % 8
        } else {
            (code + 7) % 8
        };
        Col::of(m as u8)
    }

    /// The column's file letter, `a` to `h`.
    pub fn to_file(self) -> (file: char)
        ensures
            file as u32 == 'a' as u32 + self.index(),
            'a' <= file <= 'h',
    {
        match self {
            Col::FileA => 'a',
            Col::FileB => 'b',
            Col::FileC => 'c',
            Col::FileD => 'd',
            Col::FileE => 'e',
            Col::FileF => 'f',
            Col::FileG => 'g',
            Col::FileH => 'h',
        }
    }

    /// The columns from left to right.
    pub fn iter_cols() -> (cols: Vec<Col>)
        ensures
            cols@ == Seq::new(8, |i: int| Col::at(i)),
    {
        let cols = vec![
            Col::FileA,
            Col::FileB,
            Col::FileC,
            Col::FileD,
            Col::FileE,
            Col::FileF,
            Col::FileG,
            Col::FileH,
        ];
        assert(cols@ =~= Seq::new(8, |i: int| Col::at(i)));
        cols
    }

    /// The file letters from left to right: `a` to `h`.
    pub fn iter_files() -> (files: Vec<char>)
        ensures
            files@ == seq!['a', 'b', 'c', 'd', 'e', 'f', 'g', 'h'],
    {
        let files = vec!['a', 'b', 'c', 'd', 'e', 'f', 'g', 'h'];
        assert(files@ =~= seq!['a', 'b', 'c', 'd', 'e', 'f', 'g', 'h']);
        files
    }

    /// The column numbered `i`, for `i` known to be in range.
    pub(crate) fn of(i: u8) -> (c: Col)
        requires
            i < 8,
        ensures
            c == Col::at(i as int),
            c.index() == i,
    {
        match i {
            0 => Col::FileA,
            1 => Col::FileB,
            2 => Col::FileC,
            3 => Col::FileD,
            4 => Col::FileE,
            5 => Col::FileF,
            6 => Col::FileG,
            _ => Col::FileH,
        }
    }
}

impl Square {
    /// The number of squares.
    pub const MAX_SQUARES: u8 = 64;

    /// The number of rows.
    pub const ROWS: u8 = 8;

    /// The number of columns.
    pub const COLS: u8 = 8;

    /// The square's number: 0 for a8, 7 for h8, 56 for a1, 63 for h1.
    pub open spec fn index(self) -> int {
        match self {
            Square::A8 => 0, Square::B8 => 1, Square::C8 => 2, Square::D8 => 3, Square::E8 => 4, Square::F8 => 5, Square::G8 => 6, Square::H8 => 7,
            Square::A7 => 8, Square::B7 => 9, Square::C7 => 10, Square::D7 => 11, Square::E7 => 12, Square::F7 => 13, Square::G7 => 14, Square::H7 => 15,
            Square::A6 => 16, Square::B6 => 17, Square::C6 => 18, Square::D6 => 19, Square::E6 => 20, Square::F6 => 21, Square::G6 => 22, Square::H6 => 23,
            Square::A5 => 24, Square::B5 => 25, Square::C5 => 26, Square::D5 => 27, Square::E5 => 28, Square::F5 => 29, Square::G5 => 30, Square::H5 => 31,
            Square::A4 => 32, Square::B4 => 33, Square::C4 => 34, Square::D4 => 35, Square::E4 => 36, Square::F4 => 37, Square::G4 => 38, Square::H4 => 39,
            Square::A3 => 40, Square::B3 => 41, Square::C3 => 42, Square::D3 => 43, Square::E3 => 44, Square::F3 => 45, Square::G3 => 46, Square::H3 => 47,
            Square::A2 => 48, Square::B2 => 49, Square::C2 => 50, Square::D2 => 51, Square::E2 => 52, Square::F2 => 53, Square::G2 => 54, Square::H2 => 55,
            Square::A1 => 56, Square::B1 => 57, Square::C1 => 58, Square::D1 => 59, Square::E1 => 60, Square::F1 => 61, Square::G1 => 62, Square::H1 => 63,
        }
    }

    /// The square numbered `i`; h1 for every `i` outside `0..63`.
    pub open spec fn at(i: int) -> Square {
        if i == 0 { Square::A8 } else if i == 1 { Square::B8 } else if i == 2 { Square::C8 } else if i == 3 { Square::D8 } else if i == 4 { Square::E8 } else if i == 5 { Square::F8 } else if i == 6 { Square::G8 } else if i == 7 { Square::H8 } else
        if i == 8 { Square::A7 } else if i == 9 { Square::B7 } else if i == 10 { Square::C7 } else if i == 11 { Square::D7 } else if i == 12 { Square::E7 } else if i == 13 { Square::F7 } else if i == 14 { Square::G7 } else if i == 15 { Square::H7 } else
        if i == 16 { Square::A6 } else if i == 17 { Square::B6 } else if i == 18 { Square::C6 } else if i == 19 { Square::D6 } else if i == 20 { Square::E6 } else if i == 21 { Square::F6 } else if i == 22 { Square::G6 } else if i == 23 { Square::H6 } else
        if i == 24 { Square::A5 } else if i == 25 { Square::B5 } else if i == 26 { Square::C5 } else if i == 27 { Square::D5 } else if i == 28 { Square::E5 } else if i == 29 { Square::F5 } else if i == 30 { Square::G5 } else if i == 31 { Square::H5 } else
        if i == 32 { Square::A4 } else if i == 33 { Square::B4 } else if i == 34 { Square::C4 } else if i == 35 { Square::D4 } else if i == 36 { Square::E4 } else if i == 37 { Square::F4 } else if i == 38 { Square::G4 } else if i == 39 { Square::H4 } else
        if i == 40 { Square::A3 } else if i == 41 { Square::B3 } else if i == 42 { Square::C3 } else if i == 43 { Square::D3 } else if i == 44 { Square::E3 } else if i == 45 { Square::F3 } else if i == 46 { Square::G3 } else if i == 47 { Square::H3 } else
        if i == 48 { Square::A2 } else if i == 49 { Square::B2 } else if i == 50 { Square::C2 } else if i == 51 { Square::D2 } else if i == 52 { Square::E2 } else if i == 53 { Square::F2 } else if i == 54 { Square::G2 } else if i == 55 { Square::H2 } else
        if i == 56 { Square::A1 } else if i == 57 { Square::B1 } else if i == 58 { Square::C1 } else if i == 59 { Square::D1 } else if i == 60 { Square::E1 } else if i == 61 { Square::F1 } else if i == 62 { Square::G1 } else { Square::H1 }
    }

    /// The number of the square's row.
    pub open spec fn row(self) -> int {
        self.index() / 8
    }

    /// The number of the square's column.
    pub open spec fn col(self) -> int {
        self.index() % 8
    }

    /// Every square has a number in `0..64`, and `at` undoes `index`.
    pub proof fn lemma_index(self)
        ensures
            0 <= self.index() < 64,
            Square::at(self.index()) == self,
            0 <= self.row() < 8,
            0 <= self.col() < 8,
    {
    }

    /// `index` undoes `at` on `0..64`.
    pub proof fn lemma_at(i: int)
        requires
            0 <= i < 64,
        ensures
            Square::at(i).index() == i,
    {
    }

    /// The square's number.
    pub fn inner(self) -> (i: u8)
        ensures
            i == self.index(),
            i < 64,
    {
        match self {
            Square::A8 => 0, Square::B8 => 1, Square::C8 => 2, Square::D8 => 3, Square::E8 => 4, Square::F8 => 5, Square::G8 => 6, Square::H8 => 7,
            Square::A7 => 8, Square::B7 => 9, Square::C7 => 10, Square::D7 => 11, Square::E7 => 12, Square::F7 => 13, Square::G7 => 14, Square::H7 => 15,
            Square::A6 => 16, Square::B6 => 17, Square::C6 => 18, Square::D6 => 19, Square::E6 => 20, Square::F6 => 21, Square::G6 => 22, Square::H6 => 23,
            Square::A5 => 24, Square::B5 => 25, Square::C5 => 26, Square::D5 => 27, Square::E5 => 28, Square::F5 => 29, Square::G5 => 30, Square::H5 => 31,
            Square::A4 => 32, Square::B4 => 33, Square::C4 => 34, Square::D4 => 35, Square::E4 => 36, Square::F4 => 37, Square::G4 => 38, Square::H4 => 39,
            Square::A3 => 40, Square::B3 => 41, Square::C3 => 42, Square::D3 => 43, Square::E3 => 44, Square::F3 => 45, Square::G3 => 46, Square::H3 => 47,
            Square::A2 => 48, Square::B2 => 49, Square::C2 => 50, Square::D2 => 51, Square::E2 => 52, Square::F2 => 53, Square::G2 => 54, Square::H2 => 55,
            Square::A1 => 56, Square::B1 => 57, Square::C1 => 58, Square::D1 => 59, Square::E1 => 60, Square::F1 => 61, Square::G1 => 62, Square::H1 => 63,
        }
    }

    /// The square with the given number, if there is one.
    pub fn from_index(i: u8) -> (s: Option<Square>)
        ensures
            s == (if i < 64 { Some(Square::at(i as int)) } else { None }),
    {
        match i {
            0 => Some(Square::A8), 1 => Some(Square::B8), 2 => Some(Square::C8), 3 => Some(Square::D8), 4 => Some(Square::E8), 5 => Some(Square::F8), 6 => Some(Square::G8), 7 => Some(Square::H8),
            8 => Some(Square::A7), 9 => Some(Square::B7), 10 => Some(Square::C7), 11 => Some(Square::D7), 12 => Some(Square::E7), 13 => Some(Square::F7), 14 => Some(Square::G7), 15 => Some(Square::H7),
            16 => Some(Square::A6), 17 => Some(Square::B6), 18 => Some(Square::C6), 19 => Some(Square::D6), 20 => Some(Square::E6), 21 => Some(Square::F6), 22 => Some(Square::G6), 23 => Some(Square::H6),
            24 => Some(Square::A5), 25 => Some(Square::B5), 26 => Some(Square::C5), 27 => Some(Square::D5), 28 => Some(Square::E5), 29 => Some(Square::F5), 30 => Some(Square::G5), 31 => Some(Square::H5),
            32 => Some(Square::A4), 33 => Some(Square::B4), 34 => Some(Square::C4), 35 => Some(Square::D4), 36 => Some(Square::E4), 37 => Some(Square::F4), 38 => Some(Square::G4), 39 => Some(Square::H4),
            40 => Some(Square::A3), 41 => Some(Square::B3), 42 => Some(Square::C3), 43 => Some(Square::D3), 44 => Some(Square::E3), 45 => Some(Square::F3), 46 => Some(Square::G3), 47 => Some(Square::H3),
            48 => Some(Square::A2), 49 => Some(Square::B2), 50 => Some(Square::C2), 51 => Some(Square::D2), 52 => Some(Square::E2), 53 => Some(Square::F2), 54 => Some(Square::G2), 55 => Some(Square::H2),
            56 => Some(Square::A1), 57 => Some(Square::B1), 58 => Some(Square::C1), 59 => Some(Square::D1), 60 => Some(Square::E1), 61 => Some(Square::F1), 62 => Some(Square::G1), 63 => Some(Square::H1),
            _ => None,
        }
    }

    /// The square with the given number, which must be below 64.
    pub fn from_inner(i: u8) -> (s: Square)
        requires
            i < 64,
        ensures
            s == Square::at(i as int),
            s.index() == i,
    {
        match i {
            0 => Square::A8, 1 => Square::B8, 2 => Square::C8, 3 => Square::D8, 4 => Square::E8, 5 => Square::F8, 6 => Square::G8, 7 => Square::H8,
            8 => Square::A7, 9 => Square::B7, 10 => Square::C7, 11 => Square::D7, 12 => Square::E7, 13 => Square::F7, 14 => Square::G7, 15 => Square::H7,
            16 => Square::A6, 17 => Square::B6, 18 => Square::C6, 19 => Square::D6, 20 => Square::E6, 21 => Square::F6, 22 => Square::G6, 23 => Square::H6,
            24 => Square::A5, 25 => Square::B5, 26 => Square::C5, 27 => Square::D5, 28 => Square::E5, 29 => Square::F5, 30 => Square::G5, 31 => Square::H5,
            32 => Square::A4, 33 => Square::B4, 34 => Square::C4, 35 => Square::D4, 36 => Square::E4, 37 => Square::F4, 38 => Square::G4, 39 => Square::H4,
            40 => Square::A3, 41 => Square::B3, 42 => Square::C3, 43 => Square::D3, 44 => Square::E3, 45 => Square::F3, 46 => Square::G3, 47 => Square::H3,
            48 => Square::A2, 49 => Square::B2, 50 => Square::C2, 51 => Square::D2, 52 => Square::E2, 53 => Square::F2, 54 => Square::G2, 55 => Square::H2,
            56 => Square::A1, 57 => Square::B1, 58 => Square::C1, 59 => Square::D1, 60 => Square::E1, 61 => Square::F1, 62 => Square::G1,
            _ => Square::H1,
        }
    }

    /// The square's number, as an index.
    pub fn get_index(&self) -> (i: usize)
        ensures
            i == self.index(),
            i < 64,
    {
        self.inner() as usize
    }

    /// The square's row.
    pub fn get_row(self) -> (r: Row)
        ensures
            r.index() == self.row(),
    {
        Row::of(self.inner() / 8)
    }

    /// The square's column.
    pub fn get_col(self) -> (c: Col)
        ensures
            c.index() == self.col(),
    {
        Col::of(self.inner() % 8)
    }

    /// The square's row and column.
    pub fn get_pos_pair(&self) -> (p: (Row, Col))
        ensures
            p.0.index() == self.row(),
            p.1.index() == self.col(),
    {
        (self.get_row(), self.get_col())
    }

    /// The square's file letter, `a` to `h`.
    pub fn get_file(self) -> (file: char)
        ensures
            file as u32 == 'a' as u32 + self.col(),
    {
        self.get_col().to_file()
    }

    /// The square's rank number, 1 to 8.
    pub fn get_rank(&self) -> (rank: u8)
        ensures
            rank == 8 - self.row(),
    {
        self.get_row().to_rank()
    }

    /// The square in the given row and column.
    pub fn new(row: Row, col: Col) -> (s: Square)
        ensures
            s.index() == row.index() * 8 + col.index(),
            s.row() == row.index(),
            s.col() == col.index(),
    {
        Square::from_inner(row.as_u8() * 8 + col.as_u8())
    }

    /// The square in the row and column with the given numbers. A number
    /// above 7 gives no square.
    pub fn valid_new(row: u8, col: u8) -> (s: Option<Square>)
        ensures
            s == (if row <= 7 && col <= 7 {
                Some(Square::at(row * 8 + col))
            } else {
                None
            }),
    {
        if row <= Row::MAX_ROW && col <= Col::MAX_COL {
            Some(Square::from_inner(row * 8 + col))
        } else {
            None
        }
    }

    /// The distance between the rows of two squares.
    pub fn row_diff(self, other_square: Square) -> (d: u8)
        ensures
            d == vstd::math::abs(self.row() - other_square.row()),
    {
        self.get_row().abs_diff(other_square.get_row())
    }

    /// The distance between the columns of two squares.
    pub fn col_diff(self, other_square: Square) -> (d: u8)
        ensures
            d == vstd::math::abs(self.col() - other_square.col()),
    {
        self.get_col().abs_diff(other_square.get_col())
    }

    /// The file letters from left to right.
    pub fn iter_files() -> (files: Vec<char>)
        ensures
            files@ == seq!['a', 'b', 'c', 'd', 'e', 'f', 'g', 'h'],
    {
        Col::iter_files()
    }

    /// The rank numbers from the top row to the bottom row.
    pub fn iter_ranks() -> (ranks: Vec<u8>)
        ensures
            ranks@ == Seq::new(8, |i: int| (8 - i) as u8),
    {
        Row::iter_ranks()
    }

    /// All squares in the order of their numbers.
    pub fn iter_squares() -> (squares: Vec<Square>)
        ensures
            squares@ == Seq::new(64, |i: int| Square::at(i)),
    {
        let mut squares: Vec<Square> = Vec::new();
        let mut i: u8 = 0;
        while i < 64
            invariant
                i <= 64,
                squares@ == Seq::new(i as nat, |k: int| Square::at(k)),
            decreases 64 - i,
        {
            squares.push(Square::from_inner(i));
            i = i + 1;
            assert(squares@ =~= Seq::new(i as nat, |k: int| Square::at(k)));
        }
        squares
    }
}

/// A signed number of rows: positive towards rank 1.
#[derive(Clone, Copy, Debug, PartialEq, Eq, Hash, Structural)]
pub struct OffsetRow {
    delta: i8,
}

/// A signed number of columns: positive towards file h.
#[derive(Clone, Copy, Debug, PartialEq, Eq, Hash, Structural)]
pub struct OffsetCol {
    delta: i8,
}

/// A signed difference between the numbers of two squares.
#[derive(Clone, Copy, Debug, PartialEq, Eq, Hash, Structural)]
pub struct OffsetSquare {
    delta: i16,
}

/// The remainder of `d` by 8 that has the sign of `d`: in `-7..=7`.
pub open spec fn signed_rem8(d: int) -> int {
    if d >= 0 {
        d % 8
    } else {
        -((-d) % 8)
    }
}

fn rem8(d: i8) -> (r: i8)
    ensures
        r == signed_rem8(d as int),
        -7 <= r <= 7,
{
    if d >= 0 {
        d % 8
    } else {
        let m: i16 = (-(d as i16)) % 8;
        (-m) as i8
    }
}

impl OffsetRow {
    /// The number of rows that the offset stands for.
    pub closed spec fn delta(self) -> int {
        self.delta as int
    }

    /// One row down, towards rank 1.
    pub fn pos_one() -> (o: OffsetRow)
        ensures
            o.delta() == 1,
    {
        OffsetRow { delta: 1 }
    }

    /// One row up, towards rank 8.
    pub fn neg_one() -> (o: OffsetRow)
        ensures
            o.delta() == -1,
    {
        OffsetRow { delta: -1 }
    }

    /// The offset by `row_diff` rows, reduced to less than a board's
    /// height: the remainder of `row_diff` by 8, with the sign of `row_diff`.
    pub fn new(row_diff: i8) -> (o: OffsetRow)
        ensures
            o.delta() == signed_rem8(row_diff as int),
    {
        OffsetRow { delta: rem8(row_diff) }
    }

    /// One row in the given direction: down if `ascending_row`, up if not.
    pub fn from_ascending(ascending_row: bool) -> (o: OffsetRow)
        ensures
            o.delta() == (if ascending_row { 1int } else { -1int }),
    {
        if ascending_row {
            OffsetRow::pos_one()
        } else {
            OffsetRow::neg_one()
        }
    }
}

impl OffsetCol {
    /// The number of columns that the offset stands for.
    pub closed spec fn delta(self) -> int {
        self.delta as int
    }

    /// One column to the right, towards file h.
    pub fn pos_one() -> (o: OffsetCol)
        ensures
            o.delta() == 1,
    {
        OffsetCol { delta: 1 }
    }

    /// One column to the left, towards file a.
    pub fn neg_one() -> (o: OffsetCol)
        ensures
            o.delta() == -1,
    {
        OffsetCol { delta: -1 }
    }

    /// The offset by `col_diff` columns, reduced to less than a board's
    /// width: the remainder of `col_diff` by 8, with the sign of `col_diff`.
    pub fn new(col_diff: i8) -> (o: OffsetCol)
        ensures
            o.delta() == signed_rem8(col_diff as int),
    {
        OffsetCol { delta: rem8(col_diff) }
    }

    /// One column in the given direction: right if `ascending_col`, left if not.
    pub fn from_ascending(ascending_col: bool) -> (o: OffsetCol)
        ensures
            o.delta() == (if ascending_col { 1int } else { -1int }),
    {
        if ascending_col {
            OffsetCol::pos_one()
        } else {
            OffsetCol::neg_one()
        }
    }
}

impl OffsetSquare {
    /// The difference of square numbers that the offset stands for.
    pub closed spec fn delta(self) -> int {
        self.delta as int
    }

    /// The offset that moves by whole rows: 8 per row.
    pub fn from_row(row: OffsetRow) -> (o: OffsetSquare)
        ensures
            o.delta() == 8 * row.delta(),
    {
        OffsetSquare { delta: 8 * (row.delta as i16) }
    }

    /// The offset that moves within a row: 1 per column.
    pub fn from_col(col: OffsetCol) -> (o: OffsetSquare)
        ensures
            o.delta() == col.delta(),
    {
        OffsetSquare { delta: col.delta as i16 }
    }

    /// The offset that moves by `row` rows and `col` columns.
    pub fn new(row: OffsetRow, col: OffsetCol) -> (o: OffsetSquare)
        ensures
            o.delta() == 8 * row.delta() + col.delta(),
    {
        OffsetSquare { delta: 8 * (row.delta as i16) + (col.delta as i16) }
    }

    /// The sum of two offsets, wrapping round at the ends of the 16-bit range.
    pub fn plus(self, rhs: OffsetSquare) -> (o: OffsetSquare)
        ensures
            o.delta() == vstd::wrapping::i16_specs::wrapping_add(
                self.delta() as i16,
                rhs.delta() as i16,
            ),
            -32768 <= self.delta() + rhs.delta() <= 32767 ==> o.delta() == self.delta()
                + rhs.delta(),
    {
        OffsetSquare { delta: self.delta.wrapping_add(rhs.delta) }
    }
}

impl Row {
    /// The row `rhs` rows away, if it is on the board.
    pub open spec fn plus_spec(self, delta: int) -> Option<Row> {
        if 0 <= self.index() + delta < 8 {
            Some(Row::at(self.index() + delta))
        } else {
            None
        }
    }

    /// The row `rhs` rows away; `None` where that leaves the board.
    pub fn plus(self, rhs: OffsetRow) -> (r: Option<Row>)
        ensures
            r == self.plus_spec(rhs.delta()),
    {
        let t: i16 = self.as_u8() as i16 + rhs.delta as i16;
        if 0 <= t && t < 8 {
            Some(Row::of(t as u8))
        } else {
            None
        }
    }

    /// The signed number of rows from `rhs` to `self`.
    pub fn minus(self, rhs: Row) -> (o: OffsetRow)
        ensures
            o.delta() == self.index() - rhs.index(),
    {
        OffsetRow { delta: self.as_u8() as i8 - rhs.as_u8() as i8 }
    }
}

impl Col {
    /// The column `delta` columns away, if it is on the board.
    pub open spec fn plus_spec(self, delta: int) -> Option<Col> {
        if 0 <= self.index() + delta < 8 {
            Some(Col::at(self.index() + delta))
        } else {
            None
        }
    }

    /// The column `rhs` columns away; `None` where that leaves the board.
    pub fn plus(self, rhs: OffsetCol) -> (c: Option<Col>)
        ensures
            c == self.plus_spec(rhs.delta()),
    {
        let t: i16 = self.as_u8() as i16 + rhs.delta as i16;
        if 0 <= t && t < 8 {
            Some(Col::of(t as u8))
        } else {
            None
        }
    }

    /// The signed number of columns from `rhs` to `self`.
    pub fn minus(self, rhs: Col) -> (o: OffsetCol)
        ensures
            o.delta() == self.index() - rhs.index(),
    {
        OffsetCol { delta: self.as_u8() as i8 - rhs.as_u8() as i8 }
    }
}

/// The room on the board beyond coordinate `coord` in direction `d`:
/// the number of steps of `d` that keep the coordinate in `0..8`. A
/// direction of 0 never leaves, and counts as the whole width.
pub open spec fn room(coord: int, d: int) -> int {
    if d > 0 {
        7 - coord
    } else if d < 0 {
        coord
    } else {
        7
    }
}

/// The number of squares that lie beyond square number `from` in the
/// direction of `dr` rows and `dc` columns per step.
pub open spec fn ray_len(from: int, dr: int, dc: int) -> int {
    if room(from / 8, dr) <= room(from % 8, dc) {
        room(from / 8, dr)
    } else {
        room(from % 8, dc)
    }
}

/// `d` is one of -1, 0 and 1.
pub open spec fn unit(d: int) -> bool {
    -1 <= d <= 1
}

/// The squares met when walking from square number `from` in steps of
/// `step`, for at most `n` steps and as long as the number stays in `0..64`.
/// The starting square is not among them.
pub open spec fn walk(from: int, step: int, n: int) -> Seq<Square>
    decreases n,
{
    if n <= 0 || !on_board(from + step) {
        Seq::empty()
    } else {
        seq![Square::at(from + step)] + walk(from + step, step, n - 1)
    }
}

/// One step along a ray stays on the board, moves by `dr` rows and `dc`
/// columns, and leaves a ray shorter by one.
pub proof fn lemma_ray_step(from: int, dr: int, dc: int)
    requires
        on_board(from),
        unit(dr),
        unit(dc),
        dr != 0 || dc != 0,
        ray_len(from, dr, dc) >= 1,
    ensures
        on_board(from + 8 * dr + dc),
        (from + 8 * dr + dc) / 8 == from / 8 + dr,
        (from + 8 * dr + dc) % 8 == from % 8 + dc,
        ray_len(from + 8 * dr + dc, dr, dc) == ray_len(from, dr, dc) - 1,
{
}

/// A walk of a ray's length in a ray's direction meets exactly that many
/// squares: it is not cut short by the edge of the numbering.
pub proof fn lemma_walk_len(from: int, dr: int, dc: int, n: int)
    requires
        on_board(from),
        unit(dr),
        unit(dc),
        dr != 0 || dc != 0,
        0 <= n <= ray_len(from, dr, dc),
    ensures
        walk(from, 8 * dr + dc, n).len() == n,
    decreases n,
{
    if n > 0 {
        lemma_ray_step(from, dr, dc);
        lemma_walk_len(from + 8 * dr + dc, dr, dc, n - 1);
    }
}

/// The square at place `k` of a walk along a ray lies `k + 1` steps from
/// the start: `k + 1` times `dr` rows and `k + 1` times `dc` columns away.
#[verifier::rlimit(30)]
pub proof fn lemma_walk_place(from: int, dr: int, dc: int, n: int, k: int)
    requires
        on_board(from),
        unit(dr),
        unit(dc),
        dr != 0 || dc != 0,
        0 <= k < n <= ray_len(from, dr, dc),
    ensures
        walk(from, 8 * dr + dc, n).len() == n,
        walk(from, 8 * dr + dc, n)[k].row() == from / 8 + (k + 1) * dr,
        walk(from, 8 * dr + dc, n)[k].col() == from % 8 + (k + 1) * dc,
        walk(from, 8 * dr + dc, n)[k].index() == from + (k + 1) * (8 * dr + dc),
    decreases n,
{
    lemma_walk_len(from, dr, dc, n);
    lemma_ray_step(from, dr, dc);
    let step = 8 * dr + dc;
    Square::lemma_at(from + step);
    if k > 0 {
        lemma_walk_place(from + step, dr, dc, n - 1, k - 1);
        assert(walk(from, step, n)[k] == walk(from + step, step, n - 1)[k - 1]);
        assert((k + 1) * dr == k * dr + dr) by (nonlinear_arith);
        assert((k + 1) * dc == k * dc + dc) by (nonlinear_arith);
        assert((k + 1) * step == k * step + step) by (nonlinear_arith);
    } else {
        assert(walk(from, step, n)[0] == Square::at(from + step));
        assert((k + 1) * dr == dr) by (nonlinear_arith)
            requires
                k == 0,
        ;
        assert((k + 1) * dc == dc) by (nonlinear_arith)
            requires
                k == 0,
        ;
        assert((k + 1) * step == step) by (nonlinear_arith)
            requires
                k == 0,
        ;
    }
}

impl Square {
    /// The squares beyond `self` in the direction of `dr` rows and `dc`
    /// columns per step, nearest first, up to the edge of the board.
    pub open spec fn ray(self, dr: int, dc: int) -> Seq<Square> {
        walk(self.index(), 8 * dr + dc, ray_len(self.index(), dr, dc))
    }

    /// The square whose number is `delta` more, if there is one.
    pub open spec fn plus_spec(self, delta: int) -> Option<Square> {
        if on_board(self.index() + delta) {
            Some(Square::at(self.index() + delta))
        } else {
            None
        }
    }

    /// The square `dr` rows and `dc` columns away, if it is on the board.
    pub open spec fn leap(self, dr: int, dc: int) -> Option<Square> {
        if 0 <= self.row() + dr < 8 && 0 <= self.col() + dc < 8 {
            Some(Square::at(8 * (self.row() + dr) + self.col() + dc))
        } else {
            None
        }
    }

    /// The square whose number is `rhs` more; `None` where there is none.
    pub fn plus(self, rhs: OffsetSquare) -> (s: Option<Square>)
        ensures
            s == self.plus_spec(rhs.delta()),
    {
        let t: i32 = self.inner() as i32 + rhs.delta as i32;
        if 0 <= t && t < 64 {
            Some(Square::from_inner(t as u8))
        } else {
            None
        }
    }

    /// The square `rhs` rows away in the same column; `None` where that
    /// leaves the board.
    pub fn plus_row(self, rhs: OffsetRow) -> (s: Option<Square>)
        ensures
            s == self.leap(rhs.delta(), 0),
    {
        match self.get_row().plus(rhs) {
            Some(row) => {
                proof {
                    Row::lemma_at(self.row() + rhs.delta());
                }
                Some(Square::new(row, self.get_col()))
            },
            None => None,
        }
    }

    /// The square `rhs` columns away in the same row; `None` where that
    /// leaves the board.
    pub fn plus_col(self, rhs: OffsetCol) -> (s: Option<Square>)
        ensures
            s == self.leap(0, rhs.delta()),
    {
        match self.get_col().plus(rhs) {
            Some(col) => {
                proof {
                    Col::lemma_at(self.col() + rhs.delta());
                }
                Some(Square::new(self.get_row(), col))
            },
            None => None,
        }
    }

    /// The square `dr` rows and `dc` columns away; `None` where that
    /// leaves the board.
    pub fn leap_by(self, dr: i8, dc: i8) -> (s: Option<Square>)
        ensures
            s == self.leap(dr as int, dc as int),
            s matches Some(t) ==> t.row() == self.row() + dr && t.col() == self.col() + dc,
    {
        let r: i16 = self.get_row().as_u8() as i16 + dr as i16;
        let c: i16 = self.get_col().as_u8() as i16 + dc as i16;
        if 0 <= r && r < 8 && 0 <= c && c < 8 {
            proof {
                Square::lemma_at(8 * r + c);
            }
            Some(Square::from_inner((r * 8 + c) as u8))
        } else {
            None
        }
    }

    /// The difference between the numbers of `self` and `rhs`.
    pub fn minus(self, rhs: Square) -> (o: OffsetSquare)
        ensures
            o.delta() == self.index() - rhs.index(),
    {
        OffsetSquare { delta: self.inner() as i16 - rhs.inner() as i16 }
    }

    /// The offset of one diagonal step in the given directions.
    pub fn get_diagonal_offset(self, ascending_row: bool, ascending_col: bool) -> (o: OffsetSquare)
        ensures
            o.delta() == 8 * dir(ascending_row) + dir(ascending_col),
    {
        OffsetSquare::new(
            OffsetRow::from_ascending(ascending_row),
            OffsetCol::from_ascending(ascending_col),
        )
    }
}

/// The unit step of a direction flag: 1 if ascending, -1 if not.
pub open spec fn dir(ascending: bool) -> int {
    if ascending {
        1
    } else {
        -1
    }
}

/// A sequence without its first element; an empty sequence stays empty.
pub open spec fn tail<T>(s: Seq<T>) -> Seq<T> {
    if s.len() > 0 {
        s.skip(1)
    } else {
        s
    }
}

/// The file letter of column number `col`: `a` for 0, `h` for 7 and above.
pub open spec fn file_char(col: int) -> char {
    if col <= 0 {
        'a'
    } else if col == 1 {
        'b'
    } else if col == 2 {
        'c'
    } else if col == 3 {
        'd'
    } else if col == 4 {
        'e'
    } else if col == 5 {
        'f'
    } else if col == 6 {
        'g'
    } else {
        'h'
    }
}

/// The rank digit of row number `row`: `8` for 0, `1` for 7 and above.
pub open spec fn rank_char(row: int) -> char {
    if row <= 0 {
        '8'
    } else if row == 1 {
        '7'
    } else if row == 2 {
        '6'
    } else if row == 3 {
        '5'
    } else if row == 4 {
        '4'
    } else if row == 5 {
        '3'
    } else if row == 6 {
        '2'
    } else {
        '1'
    }
}

/// The rows beyond row number `row` in the given direction, nearest first.
pub open spec fn rows_beyond(row: int, ascending: bool) -> Seq<Row>
    decreases
        (if ascending {
            7 - row
        } else {
            row
        }),
{
    if ascending {
        if 0 <= row < 7 {
            seq![Row::at(row + 1)] + rows_beyond(row + 1, ascending)
        } else {
            Seq::empty()
        }
    } else {
        if 0 < row <= 7 {
            seq![Row::at(row - 1)] + rows_beyond(row - 1, ascending)
        } else {
            Seq::empty()
        }
    }
}

/// The columns beyond column number `col` in the given direction, nearest first.
pub open spec fn cols_beyond(col: int, ascending: bool) -> Seq<Col>
    decreases
        (if ascending {
            7 - col
        } else {
            col
        }),
{
    if ascending {
        if 0 <= col < 7 {
            seq![Col::at(col + 1)] + cols_beyond(col + 1, ascending)
        } else {
            Seq::empty()
        }
    } else {
        if 0 < col <= 7 {
            seq![Col::at(col - 1)] + cols_beyond(col - 1, ascending)
        } else {
            Seq::empty()
        }
    }
}

/// Entry `k` of the table of a leaper's jumps, as rows and columns: the
/// knight's eight jumps if `knight`, the king's eight steps if not.
pub open spec fn leap_delta(knight: bool, k: int) -> (int, int) {
    if knight {
        if k == 0 {
            (-2, -1)
        } else if k == 1 {
            (-2, 1)
        } else if k == 2 {
            (-1, -2)
        } else if k == 3 {
            (-1, 2)
        } else if k == 4 {
            (1, -2)
        } else if k == 5 {
            (1, 2)
        } else if k == 6 {
            (2, -1)
        } else {
            (2, 1)
        }
    } else {
        if k == 0 {
            (-1, -1)
        } else if k == 1 {
            (-1, 0)
        } else if k == 2 {
            (-1, 1)
        } else if k == 3 {
            (0, -1)
        } else if k == 4 {
            (0, 1)
        } else if k == 5 {
            (1, -1)
        } else if k == 6 {
            (1, 0)
        } else {
            (1, 1)
        }
    }
}

/// The square `d.0` rows and `d.1` columns from row `row`, column `col`,
/// if it is on the board.
pub open spec fn leap_from(row: int, col: int, d: (int, int)) -> Option<Square> {
    if 0 <= row + d.0 < 8 && 0 <= col + d.1 < 8 {
        Some(Square::at(8 * (row + d.0) + col + d.1))
    } else {
        None
    }
}

/// The squares that a leaper on row `row`, column `col` reaches by the
/// entries of its table from entry `k` on, in the table's order. Jumps that
/// leave the board are passed over.
pub open spec fn leap_targets(knight: bool, row: int, col: int, k: int) -> Seq<Square>
    decreases 8 - k,
{
    if k < 0 || k >= 8 {
        Seq::empty()
    } else {
        match leap_from(row, col, leap_delta(knight, k)) {
            Some(s) => seq![s] + leap_targets(knight, row, col, k + 1),
            None => leap_targets(knight, row, col, k + 1),
        }
    }
}

fn leap_offset(knight: bool, index: usize) -> (o: (OffsetRow, OffsetCol))
    requires
        index < 8,
    ensures
        (o.0.delta(), o.1.delta()) == leap_delta(knight, index as int),
{
    let (dr, dc): (i8, i8) = if knight {
        match index {
            0 => (-2, -1),
            1 => (-2, 1),
            2 => (-1, -2),
            3 => (-1, 2),
            4 => (1, -2),
            5 => (1, 2),
            6 => (2, -1),
            _ => (2, 1),
        }
    } else {
        match index {
            0 => (-1, -1),
            1 => (-1, 0),
            2 => (-1, 1),
            3 => (0, -1),
            4 => (0, 1),
            5 => (1, -1),
            6 => (1, 0),
            _ => (1, 1),
        }
    };
    (OffsetRow::new(dr), OffsetCol::new(dc))
}

#[verifier::rlimit(30)]
fn next_leap(knight: bool, row: Row, col: Col, index: &mut usize) -> (r: Option<Square>)
    ensures
        r == (if leap_targets(knight, row.index(), col.index(), *old(index) as int).len() > 0 {
            Some(leap_targets(knight, row.index(), col.index(), *old(index) as int)[0])
        } else {
            None
        }),
        leap_targets(knight, row.index(), col.index(), *final(index) as int) == tail(
            leap_targets(knight, row.index(), col.index(), *old(index) as int),
        ),
{
    let ghost start = leap_targets(knight, row.index(), col.index(), *index as int);
    while *index < 8
        invariant
            leap_targets(knight, row.index(), col.index(), *index as int) == start,
            leap_targets(knight, row.index(), col.index(), *old(index) as int) == start,
        decreases 8 - *index,
    {
        let (row_offset, col_offset) = leap_offset(knight, *index);
        *index = *index + 1;
        match (row.plus(row_offset), col.plus(col_offset)) {
            (Some(r), Some(c)) => {
                proof {
                    Row::lemma_at(row.index() + row_offset.delta());
                    Col::lemma_at(col.index() + col_offset.delta());
                    let rest = leap_targets(knight, row.index(), col.index(), *index as int);
                    assert(start == seq![start[0]] + rest);
                    assert(tail(start) =~= rest);
                }
                let s = Square::new(r, c);
                proof {
                    s.lemma_index();
                }
                return Some(s);
            },
            _ => {},
        }
    }
    assert(tail(start) =~= start);
    None
}

/// The squares that lie ahead on a line of the board, nearest first.
pub struct SquareIterator {
    square: Square,
    next_square_offset: OffsetSquare,
    squares_remaining: u8,
}

/// The squares that lie ahead on a diagonal of the board, nearest first.
pub struct DiagonalSquareIterator {
    square: Square,
    diagonal_offset: OffsetSquare,
    squares_remaining: u8,
}

/// The rows that lie beyond a row in one direction, nearest first.
pub struct RowIterator {
    row: Row,
    ascending: bool,
}

/// The columns that lie beyond a column in one direction, nearest first.
pub struct ColIterator {
    col: Col,
    ascending: bool,
}

/// The squares a knight's jump away from a square.
pub struct KnightIterator {
    row: Row,
    col: Col,
    index: usize,
}

/// The squares a king's step away from a square.
pub struct KingIterator {
    row: Row,
    col: Col,
    index: usize,
}

#[verifier::rlimit(30)]
fn next_on_line(square: &mut Square, offset: OffsetSquare, remaining: &mut u8) -> (r: Option<
    Square,
>)
    ensures
        r == (if walk(old(square).index(), offset.delta(), *old(remaining) as int).len() > 0 {
            Some(walk(old(square).index(), offset.delta(), *old(remaining) as int)[0])
        } else {
            None
        }),
        walk(final(square).index(), offset.delta(), *final(remaining) as int) == tail(
            walk(old(square).index(), offset.delta(), *old(remaining) as int),
        ),
{
    let ghost before = walk(square.index(), offset.delta(), *remaining as int);
    if *remaining == 0 {
        assert(tail(before) =~= before);
        return None;
    }
    let next_square = square.plus(offset);
    match next_square {
        Some(s) => {
            proof {
                Square::lemma_at(square.index() + offset.delta());
                let rest = walk(s.index(), offset.delta(), *remaining as int - 1);
                assert(before == seq![s] + rest);
                assert(tail(before) =~= rest);
            }
            *square = s;
            *remaining = *remaining - 1;
        },
        None => {
            assert(tail(before) =~= before);
        },
    }
    next_square
}

impl SquareIterator {
    /// The squares still to come, in the order in which `next` hands them out.
    pub closed spec fn upcoming(self) -> Seq<Square> {
        walk(self.square.index(), self.next_square_offset.delta(), self.squares_remaining as int)
    }

    /// Hands out the next square, or `None` when the line has ended.
    pub fn next(&mut self) -> (r: Option<Square>)
        ensures
            r == (if old(self).upcoming().len() > 0 {
                Some(old(self).upcoming()[0])
            } else {
                None
            }),
            final(self).upcoming() == tail(old(self).upcoming()),
    {
        next_on_line(&mut self.square, self.next_square_offset, &mut self.squares_remaining)
    }
}

impl DiagonalSquareIterator {
    /// The squares still to come, in the order in which `next` hands them out.
    pub closed spec fn upcoming(self) -> Seq<Square> {
        walk(self.square.index(), self.diagonal_offset.delta(), self.squares_remaining as int)
    }

    /// Hands out the next square, or `None` when the diagonal has ended.
    pub fn next(&mut self) -> (r: Option<Square>)
        ensures
            r == (if old(self).upcoming().len() > 0 {
                Some(old(self).upcoming()[0])
            } else {
                None
            }),
            final(self).upcoming() == tail(old(self).upcoming()),
    {
        next_on_line(&mut self.square, self.diagonal_offset, &mut self.squares_remaining)
    }
}

impl DiagonalSquareIterator {
    /// The same walk as a walk along a line.
    pub fn into_square_iterator(self) -> (it: SquareIterator)
        ensures
            it.upcoming() == self.upcoming(),
    {
        SquareIterator {
            square: self.square,
            next_square_offset: self.diagonal_offset,
            squares_remaining: self.squares_remaining,
        }
    }
}

impl RowIterator {
    /// The rows still to come, in the order in which `next` hands them out.
    pub closed spec fn upcoming(self) -> Seq<Row> {
        rows_beyond(self.row.index(), self.ascending)
    }

    /// Hands out the next row, or `None` at the edge of the board.
    pub fn next(&mut self) -> (r: Option<Row>)
        ensures
            r == (if old(self).upcoming().len() > 0 {
                Some(old(self).upcoming()[0])
            } else {
                None
            }),
            final(self).upcoming() == tail(old(self).upcoming()),
    {
        let ghost before = self.upcoming();
        let next = self.row.get_next_row(self.ascending);
        match next {
            Some(row) => {
                proof {
                    self.row.lemma_index();
                    Row::lemma_at(row.index());
                    if self.ascending {
                        Row::lemma_at(self.row.index() + 1);
                    } else {
                        Row::lemma_at(self.row.index() - 1);
                    }
                    let rest = rows_beyond(row.index(), self.ascending);
                    assert(before == seq![row] + rest);
                    assert(tail(before) =~= rest);
                }
                self.row = row;
            },
            None => {
                proof {
                    self.row.lemma_index();
                    assert(tail(before) =~= before);
                }
            },
        }
        next
    }
}

impl ColIterator {
    /// The columns still to come, in the order in which `next` hands them out.
    pub closed spec fn upcoming(self) -> Seq<Col> {
        cols_beyond(self.col.index(), self.ascending)
    }

    /// Hands out the next column, or `None` at the edge of the board.
    pub fn next(&mut self) -> (r: Option<Col>)
        ensures
            r == (if old(self).upcoming().len() > 0 {
                Some(old(self).upcoming()[0])
            } else {
                None
            }),
            final(self).upcoming() == tail(old(self).upcoming()),
    {
        let ghost before = self.upcoming();
        let next = self.col.get_next_col(self.ascending);
        match next {
            Some(col) => {
                proof {
                    self.col.lemma_index();
                    if self.ascending {
                        Col::lemma_at(self.col.index() + 1);
                    } else {
                        Col::lemma_at(self.col.index() - 1);
                    }
                    let rest = cols_beyond(col.index(), self.ascending);
                    assert(before == seq![col] + rest);
                    assert(tail(before) =~= rest);
                }
                self.col = col;
            },
            None => {
                proof {
                    self.col.lemma_index();
                    assert(tail(before) =~= before);
                }
            },
        }
        next
    }
}

impl KnightIterator {
    /// The squares still to come, in the order in which `next` hands them out.
    pub closed spec fn upcoming(self) -> Seq<Square> {
        leap_targets(true, self.row.index(), self.col.index(), self.index as int)
    }

    /// Hands out the next square a knight's jump away, or `None` when the
    /// eight jumps have been tried.
    pub fn next(&mut self) -> (r: Option<Square>)
        ensures
            r == (if old(self).upcoming().len() > 0 {
                Some(old(self).upcoming()[0])
            } else {
                None
            }),
            final(self).upcoming() == tail(old(self).upcoming()),
    {
        next_leap(true, self.row, self.col, &mut self.index)
    }
}

impl KingIterator {
    /// The squares still to come, in the order in which `next` hands them out.
    pub closed spec fn upcoming(self) -> Seq<Square> {
        leap_targets(false, self.row.index(), self.col.index(), self.index as int)
    }

    /// Hands out the next square a king's step away, or `None` when the
    /// eight steps have been tried.
    pub fn next(&mut self) -> (r: Option<Square>)
        ensures
            r == (if old(self).upcoming().len() > 0 {
                Some(old(self).upcoming()[0])
            } else {
                None
            }),
            final(self).upcoming() == tail(old(self).upcoming()),
    {
        next_leap(false, self.row, self.col, &mut self.index)
    }
}

impl Square {
    /// The squares a knight's jump away from `self`, in the order of the
    /// knight's table.
    pub open spec fn knight_targets(self) -> Seq<Square> {
        leap_targets(true, self.row(), self.col(), 0)
    }

    /// The squares a king's step away from `self`, in the order of the
    /// king's table.
    pub open spec fn king_targets(self) -> Seq<Square> {
        leap_targets(false, self.row(), self.col(), 0)
    }

    /// The square's name: its file letter and its rank digit.
    pub open spec fn name_of(self) -> Seq<char> {
        seq![file_char(self.col()), rank_char(self.row())]
    }

    /// The rows beyond the square's row: those below it if `ascending`,
    /// those above it if not, nearest first.
    pub fn get_rows(&self, ascending: bool) -> (it: RowIterator)
        ensures
            it.upcoming() == rows_beyond(self.row(), ascending),
    {
        RowIterator { row: self.get_row(), ascending }
    }

    /// The columns beyond the square's column: those to its right if
    /// `ascending`, those to its left if not, nearest first.
    pub fn get_cols(self, ascending: bool) -> (it: ColIterator)
        ensures
            it.upcoming() == cols_beyond(self.col(), ascending),
    {
        ColIterator { col: self.get_col(), ascending }
    }

    /// The squares of the square's file beyond it, row by row: downwards
    /// (towards rank 1) if `ascending`, upwards if not. The square itself is
    /// left out; the last one lies on the edge of the board.
    pub fn get_row_squares(self, ascending: bool) -> (it: SquareIterator)
        ensures
            it.upcoming() == self.ray(dir(ascending), 0),
    {
        SquareIterator {
            square: self,
            next_square_offset: OffsetSquare::from_row(OffsetRow::from_ascending(ascending)),
            squares_remaining: self.get_row().get_next_rows(ascending),
        }
    }

    /// The squares of the square's rank beyond it, column by column: to the
    /// right (towards file h) if `ascending`, to the left if not. The square
    /// itself is left out; the last one lies on the edge of the board.
    pub fn get_col_squares(self, ascending: bool) -> (it: SquareIterator)
        ensures
            it.upcoming() == self.ray(0, dir(ascending)),
    {
        SquareIterator {
            square: self,
            next_square_offset: OffsetSquare::from_col(OffsetCol::from_ascending(ascending)),
            squares_remaining: self.get_col().get_next_cols(ascending),
        }
    }

    /// The squares of a diagonal beyond the square, one row and one column
    /// at a time in the given directions, up to the edge of the board.
    pub fn iter_diagonal(self, ascending_row: bool, ascending_col: bool) -> (it:
        DiagonalSquareIterator)
        ensures
            it.upcoming() == self.ray(dir(ascending_row), dir(ascending_col)),
    {
        let rows = self.get_row().get_next_rows(ascending_row);
        let cols = self.get_col().get_next_cols(ascending_col);
        let squares_remaining = if rows <= cols {
            rows
        } else {
            cols
        };
        DiagonalSquareIterator {
            square: self,
            squares_remaining,
            diagonal_offset: self.get_diagonal_offset(ascending_row, ascending_col),
        }
    }

    /// The squares a knight's jump away from the square.
    pub fn iter_knight_offsets(&self) -> (it: KnightIterator)
        ensures
            it.upcoming() == self.knight_targets(),
    {
        KnightIterator { row: self.get_row(), col: self.get_col(), index: 0 }
    }

    /// The squares a king's step away from the square.
    pub fn iter_king_offsets(&self) -> (it: KingIterator)
        ensures
            it.upcoming() == self.king_targets(),
    {
        KingIterator { row: self.get_row(), col: self.get_col(), index: 0 }
    }

    /// The square's name: its file letter and its rank digit, as in `e4`.
    #[verifier::rlimit(30)]
    pub fn to_square_str(&self) -> (name: &'static str)
        ensures
            name@ == self.name_of(),
    {
        match self {
            Square::A8 => {
                proof {
                    reveal_strlit("a8");
                }
                "a8"
            },
            Square::B8 => {
                proof {
                    reveal_strlit("b8");
                }
                "b8"
            },
            Square::C8 => {
                proof {
                    reveal_strlit("c8");
                }
                "c8"
            },
            Square::D8 => {
                proof {
                    reveal_strlit("d8");
                }
                "d8"
            },
            Square::E8 => {
                proof {
                    reveal_strlit("e8");
                }
                "e8"
            },
            Square::F8 => {
                proof {
                    reveal_strlit("f8");
                }
                "f8"
            },
            Square::G8 => {
                proof {
                    reveal_strlit("g8");
                }
                "g8"
            },
            Square::H8 => {
                proof {
                    reveal_strlit("h8");
                }
                "h8"
            },
            Square::A7 => {
                proof {
                    reveal_strlit("a7");
                }
                "a7"
            },
            Square::B7 => {
                proof {
                    reveal_strlit("b7");
                }
                "b7"
            },
            Square::C7 => {
                proof {
                    reveal_strlit("c7");
                }
                "c7"
            },
            Square::D7 => {
                proof {
                    reveal_strlit("d7");
                }
                "d7"
            },
            Square::E7 => {
                proof {
                    reveal_strlit("e7");
                }
                "e7"
            },
            Square::F7 => {
                proof {
                    reveal_strlit("f7");
                }
                "f7"
            },
            Square::G7 => {
                proof {
                    reveal_strlit("g7");
                }
                "g7"
            },
            Square::H7 => {
                proof {
                    reveal_strlit("h7");
                }
                "h7"
            },
            Square::A6 => {
                proof {
                    reveal_strlit("a6");
                }
                "a6"
            },
            Square::B6 => {
                proof {
                    reveal_strlit("b6");
                }
                "b6"
            },
            Square::C6 => {
                proof {
                    reveal_strlit("c6");
                }
                "c6"
            },
            Square::D6 => {
                proof {
                    reveal_strlit("d6");
                }
                "d6"
            },
            Square::E6 => {
                proof {
                    reveal_strlit("e6");
                }
                "e6"
            },
            Square::F6 => {
                proof {
                    reveal_strlit("f6");
                }
                "f6"
            },
            Square::G6 => {
                proof {
                    reveal_strlit("g6");
                }
                "g6"
            },
            Square::H6 => {
                proof {
                    reveal_strlit("h6");
                }
                "h6"
            },
            Square::A5 => {
                proof {
                    reveal_strlit("a5");
                }
                "a5"
            },
            Square::B5 => {
                proof {
                    reveal_strlit("b5");
                }
                "b5"
            },
            Square::C5 => {
                proof {
                    reveal_strlit("c5");
                }
                "c5"
            },
            Square::D5 => {
                proof {
                    reveal_strlit("d5");
                }
                "d5"
            },
            Square::E5 => {
                proof {
                    reveal_strlit("e5");
                }
                "e5"
            },
            Square::F5 => {
                proof {
                    reveal_strlit("f5");
                }
                "f5"
            },
            Square::G5 => {
                proof {
                    reveal_strlit("g5");
                }
                "g5"
            },
            Square::H5 => {
                proof {
                    reveal_strlit("h5");
                }
                "h5"
            },
            Square::A4 => {
                proof {
                    reveal_strlit("a4");
                }
                "a4"
            },
            Square::B4 => {
                proof {
                    reveal_strlit("b4");
                }
                "b4"
            },
            Square::C4 => {
                proof {
                    reveal_strlit("c4");
                }
                "c4"
            },
            Square::D4 => {
                proof {
                    reveal_strlit("d4");
                }
                "d4"
            },
            Square::E4 => {
                proof {
                    reveal_strlit("e4");
                }
                "e4"
            },
            Square::F4 => {
                proof {
                    reveal_strlit("f4");
                }
                "f4"
            },
            Square::G4 => {
                proof {
                    reveal_strlit("g4");
                }
                "g4"
            },
            Square::H4 => {
                proof {
                    reveal_strlit("h4");
                }
                "h4"
            },
            Square::A3 => {
                proof {
                    reveal_strlit("a3");
                }
                "a3"
            },
            Square::B3 => {
                proof {
                    reveal_strlit("b3");
                }
                "b3"
            },
            Square::C3 => {
                proof {
                    reveal_strlit("c3");
                }
                "c3"
            },
            Square::D3 => {
                proof {
                    reveal_strlit("d3");
                }
                "d3"
            },
            Square::E3 => {
                proof {
                    reveal_strlit("e3");
                }
                "e3"
            },
            Square::F3 => {
                proof {
                    reveal_strlit("f3");
                }
                "f3"
            },
            Square::G3 => {
                proof {
                    reveal_strlit("g3");
                }
                "g3"
            },
            Square::H3 => {
                proof {
                    reveal_strlit("h3");
                }
                "h3"
            },
            Square::A2 => {
                proof {
                    reveal_strlit("a2");
                }
                "a2"
            },
            Square::B2 => {
                proof {
                    reveal_strlit("b2");
                }
                "b2"
            },
            Square::C2 => {
                proof {
                    reveal_strlit("c2");
                }
                "c2"
            },
            Square::D2 => {
                proof {
                    reveal_strlit("d2");
                }
                "d2"
            },
            Square::E2 => {
                proof {
                    reveal_strlit("e2");
                }
                "e2"
            },
            Square::F2 => {
                proof {
                    reveal_strlit("f2");
                }
                "f2"
            },
            Square::G2 => {
                proof {
                    reveal_strlit("g2");
                }
                "g2"
            },
            Square::H2 => {
                proof {
                    reveal_strlit("h2");
                }
                "h2"
            },
            Square::A1 => {
                proof {
                    reveal_strlit("a1");
                }
                "a1"
            },
            Square::B1 => {
                proof {
                    reveal_strlit("b1");
                }
                "b1"
            },
            Square::C1 => {
                proof {
                    reveal_strlit("c1");
                }
                "c1"
            },
            Square::D1 => {
                proof {
                    reveal_strlit("d1");
                }
                "d1"
            },
            Square::E1 => {
                proof {
                    reveal_strlit("e1");
                }
                "e1"
            },
            Square::F1 => {
                proof {
                    reveal_strlit("f1");
                }
                "f1"
            },
            Square::G1 => {
                proof {
                    reveal_strlit("g1");
                }
                "g1"
            },
            Square::H1 => {
                proof {
                    reveal_strlit("h1");
                }
                "h1"
            },
        }
    }

    /// The square's name as an owned string.
    pub fn to_square_string(&self) -> (name: String)
        ensures
            name@ == self.name_of(),
    {
        String::from_str(self.to_square_str())
    }
}

} // verus!
