use rusty_chess::bitboard::{Bitboard, BitboardExt};
use rusty_chess::square::Square;

fn square(i: u8) -> Square {
    Square::from_inner(i)
}

#[test]
fn test_new_bitboard_is_empty() {
    let bb = Bitboard::new_bitboard();
    assert_eq!(bb.count_ones(), 0);
}

#[test]
fn test_add_and_remove_square() {
    let mut bb = Bitboard::new_bitboard();
    let sq = square(36); // e4
    bb.add_square(sq);
    assert!(bb.square_in_bitboard(sq));
    assert_eq!(bb.count_ones(), 1);

    bb.remove_square(sq);
    assert!(!bb.square_in_bitboard(sq));
    assert_eq!(bb.count_ones(), 0);
}

#[test]
fn test_not_in_bitboard() {
    let mut bb = Bitboard::new_bitboard();
    let sq = square(10);
    assert!(bb.not_in_bitboard(sq));
    bb.add_square(sq);
    assert!(!bb.not_in_bitboard(sq));
}

#[test]
fn test_bitboard_iteration() {
    let mut bb = Bitboard::new_bitboard();
    bb.add_square(square(0));
    bb.add_square(square(7));
    bb.add_square(square(63));

    let squares: Vec<_> = bb.squares().collect();
    assert_eq!(squares, vec![square(0), square(7), square(63)]);
}

#[test]
fn test_bitwise_ops() {
    let mut a = Bitboard::new_bitboard();
    let mut b = Bitboard::new_bitboard();
    a.add_square(square(0));
    b.add_square(square(0));
    b.add_square(square(1));

    let and_bb = a & b;
    assert!(and_bb.square_in_bitboard(square(0)));
    assert!(!and_bb.square_in_bitboard(square(1)));

    let or_bb = a | b;
    assert!(or_bb.square_in_bitboard(square(0)));
    assert!(or_bb.square_in_bitboard(square(1)));

    let xor_bb = a ^ b;
    assert!(!xor_bb.square_in_bitboard(square(0)));
    assert!(xor_bb.square_in_bitboard(square(1)));
}

// ---- further cases ----

use rusty_chess::square::{Col, Row};

#[test]
fn popping_takes_the_extreme_member() {
    let mut bb: Bitboard = 0;
    assert_eq!(bb.pop_lowest_set_bit(), None);
    assert_eq!(bb.pop_highest_set_bit(), None);
    assert_eq!(bb.bit_scan_forward(), None);
    assert_eq!(bb, 0);
    bb.add_square(Square::C6);
    bb.add_square(Square::E4);
    bb.add_square(Square::H1);
    assert_eq!(bb, (1u64 << 18) | (1u64 << 36) | (1u64 << 63));
    assert_eq!(bb.bit_scan_forward(), Some(Square::C6));
    assert_eq!(bb.count(), 3);
    assert_eq!(bb.pop_lowest_set_bit(), Some(Square::C6));
    assert_eq!(bb, (1u64 << 36) | (1u64 << 63));
    assert_eq!(bb.pop_highest_set_bit(), Some(Square::H1));
    assert_eq!(bb, 1u64 << 36);
    assert_eq!(bb.pop_highest_set_bit(), Some(Square::E4));
    assert_eq!(bb, 0);
    let mut full: Bitboard = u64::MAX;
    assert_eq!(full.count(), 64);
    assert_eq!(full.pop_lowest_set_bit(), Some(Square::A8));
    assert_eq!(full.pop_highest_set_bit(), Some(Square::H1));
    assert_eq!(full.count(), 62);
    assert_eq!(full, u64::MAX & !1 & !(1 << 63));
}

#[test]
fn a_set_of_one_square_is_that_square() {
    let mut bb: Bitboard = 0;
    assert!(!bb.bitboard_is_square(Square::A8));
    bb.add_square(Square::A8);
    assert!(bb.bitboard_is_square(Square::A8));
    assert!(!bb.bitboard_is_square(Square::B8));
    bb.add_square(Square::B8);
    assert!(!bb.bitboard_is_square(Square::A8));
    assert!(!bb.bitboard_is_square(Square::B8));
    // adding twice and removing what is not there change nothing
    let before = bb;
    bb.add_square(Square::B8);
    assert_eq!(bb, before);
    bb.remove_square(Square::H1);
    assert_eq!(bb, before);
}

#[test]
fn rows_and_columns_as_sets() {
    assert_eq!(Bitboard::get_bitboard_from_row(Row::Rank8), 0x0000_0000_0000_00FF);
    assert_eq!(Bitboard::get_bitboard_from_row(Row::Rank1), 0xFF00_0000_0000_0000);
    assert_eq!(Bitboard::get_bitboard_from_row(Row::Rank4), 0x0000_00FF_0000_0000);
    assert_eq!(Bitboard::get_bitboard_from_col(Col::FileA), 0x0101_0101_0101_0101);
    assert_eq!(Bitboard::get_bitboard_from_col(Col::FileH), 0x8080_8080_8080_8080);
    for i in 0..64u8 {
        let s = Square::from_inner(i);
        assert!(Bitboard::get_bitboard_from_row(s.get_row()).square_in_bitboard(s));
        assert!(Bitboard::get_bitboard_from_col(s.get_col()).square_in_bitboard(s));
        assert!(
            (Bitboard::get_bitboard_from_row(s.get_row())
                & Bitboard::get_bitboard_from_col(s.get_col()))
            .bitboard_is_square(s)
        );
    }
}

#[test]
fn members_come_in_ascending_order() {
    let bb: Bitboard = 0x8100_0000_0000_0081;
    let mut it = bb.squares();
    assert_eq!(it.next(), Some(Square::A8));
    assert_eq!(it.next(), Some(Square::H8));
    assert_eq!(it.next(), Some(Square::A1));
    assert_eq!(it.next(), Some(Square::H1));
    assert_eq!(it.next(), None);
    assert_eq!(it.next(), None);
    assert_eq!(u64::MAX.squares().collect().len(), 64);
    assert_eq!(0u64.squares().collect(), vec![]);
    for k in [0u64, 1, 0xFF00, 0xDEAD_BEEF_0BAD_F00D, u64::MAX] {
        assert_eq!(k.count() as u32, k.count_ones());
        assert_eq!(k.squares().collect().len() as u32, k.count_ones());
    }
}
