//! Sets of squares as 64-bit masks.
//!
//! Bit `i` of a bitboard is set exactly if the square numbered `i` belongs
//! to the set. The contracts speak of membership ([`holds`]) and of the
//! members in ascending order ([`members`]).

use vstd::prelude::*;
use crate::bits::{
    count_below,
    has_bit,
    lemma_mask_test,
    lemma_set_bit,
    lemma_clear_bit,
    lemma_single,
    lemma_ext,
    lemma_zero,
    lemma_row_mask,
    lemma_col_mask,
    lemma_lowest,
    lemma_highest,
    popcount,
};
use crate::square::{Col, Row, Square, tail};

verus! {

/// A set of squares, one bit per square.
pub type Bitboard = u64;

/// The square `square` belongs to the set `bb`.
pub open spec fn holds(bb: Bitboard, square: Square) -> bool {
    has_bit(bb, square.index())
}

/// The members of `bb` whose numbers are `i` or more, in ascending order.
pub open spec fn members_from(bb: Bitboard, i: int) -> Seq<Square>
    decreases 64 - i,
{
    if i < 0 || i >= 64 {
        Seq::empty()
    } else if has_bit(bb, i) {
        seq![Square::at(i)] + members_from(bb, i + 1)
    } else {
        members_from(bb, i + 1)
    }
}

/// The members of `bb` in ascending order of their numbers.
pub open spec fn members(bb: Bitboard) -> Seq<Square> {
    members_from(bb, 0)
}

/// Positions without members do not matter to the list of members.
pub proof fn lemma_members_skip(bb: Bitboard, i: int, t: int)
    requires
        0 <= i <= t <= 64,
        forall|j: int| i <= j < t ==> !has_bit(bb, j),
    ensures
        members_from(bb, i) == members_from(bb, t),
    decreases t - i,
{
    if i < t {
        lemma_members_skip(bb, i + 1, t);
    }
}

/// Two sets that agree from position `i` on have the same members from `i` on.
pub proof fn lemma_members_agree(a: Bitboard, b: Bitboard, i: int)
    requires
        0 <= i <= 64,
        forall|j: int| i <= j < 64 ==> has_bit(a, j) == has_bit(b, j),
    ensures
        members_from(a, i) == members_from(b, i),
    decreases 64 - i,
{
    if i < 64 {
        lemma_members_agree(a, b, i + 1);
    }
}

/// Taking the lowest member out of a set takes the first from its list.
proof fn lemma_pop_lowest(bb: Bitboard, t: int, rest: Bitboard)
    requires
        0 <= t < 64,
        has_bit(bb, t),
        forall|j: int| 0 <= j < t ==> !has_bit(bb, j),
        forall|j: int| has_bit(rest, j) == (j != t && has_bit(bb, j)),
    ensures
        members(bb).len() > 0,
        members(bb)[0] == Square::at(t),
        members(rest) == tail(members(bb)),
{
    lemma_members_skip(bb, 0, t);
    lemma_members_skip(rest, 0, t + 1);
    lemma_members_agree(bb, rest, t + 1);
    let after = members_from(bb, t + 1);
    assert(members(bb) == seq![Square::at(t)] + after);
    assert(tail(members(bb)) =~= after);
}

/// An empty set, and no other, has an empty list of members.
pub proof fn lemma_members_empty(bb: Bitboard)
    ensures
        (members(bb).len() == 0) == (bb == 0),
{
    if bb == 0 {
        lemma_zero();
        lemma_members_skip(bb, 0, 64);
    } else {
        lemma_lowest(bb);
        let t = vstd::std_specs::bits::u64_trailing_zeros(bb) as int;
        lemma_members_skip(bb, 0, t);
    }
}

/// Queries and changes of a set of squares.
pub trait BitboardExt: Sized {
    /// The empty set.
    fn new_bitboard() -> Self;

    /// The squares of one row.
    fn get_bitboard_from_row(row: Row) -> Self;

    /// The squares of one column.
    fn get_bitboard_from_col(col: Col) -> Self;

    /// Whether the square belongs to the set.
    fn square_in_bitboard(self, square: Square) -> bool;

    /// Whether the square does not belong to the set.
    fn not_in_bitboard(self, square: Square) -> bool;

    /// Whether the square is the set's only member.
    fn bitboard_is_square(self, square: Square) -> bool;

    /// The members in ascending order, one at a time.
    fn squares(self) -> BitboardIter;

    /// Takes the square out of the set.
    fn remove_square(&mut self, square: Square);

    /// Puts the square into the set.
    fn add_square(&mut self, square: Square);

    /// Takes out the member with the highest number and returns it.
    fn pop_highest_set_bit(&mut self) -> Option<Square>;

    /// Takes out the member with the lowest number and returns it.
    fn pop_lowest_set_bit(&mut self) -> Option<Square>;

    /// The member with the lowest number.
    fn bit_scan_forward(self) -> Option<Square>;

    /// The number of members.
    fn count(self) -> u8;
}

impl BitboardExt for Bitboard {
    fn new_bitboard() -> (bb: Bitboard)
        ensures
            bb == 0,
            forall|s: Square| !holds(bb, s),
    {
        proof {
            lemma_zero();
        }
        0
    }

    fn get_bitboard_from_row(row: Row) -> (bb: Bitboard)
        ensures
            forall|s: Square| holds(bb, s) == (s.row() == row.index()),
    {
        let shift: u64 = 8 * (row.as_u8() as u64);
        proof {
            lemma_row_mask(row.index());
            assert forall|s: Square| holds(0xFFu64 << shift, s) == (s.row() == row.index()) by {
                s.lemma_index();
            }
        }
        0xFFu64 << shift
    }

    fn get_bitboard_from_col(col: Col) -> (bb: Bitboard)
        ensures
            forall|s: Square| holds(bb, s) == (s.col() == col.index()),
    {
        let shift: u64 = col.as_u8() as u64;
        proof {
            lemma_col_mask(col.index());
            assert forall|s: Square|
                holds(0x0101010101010101u64 << shift, s) == (s.col() == col.index()) by {
                s.lemma_index();
            }
        }
        0x0101010101010101u64 << shift
    }

    fn square_in_bitboard(self, square: Square) -> (r: bool)
        ensures
            r == holds(self, square),
    {
        let i = square.inner();
        proof {
            lemma_mask_test(self, i as int);
        }
        (self & (1u64 << (i as u64))) != 0
    }

    fn not_in_bitboard(self, square: Square) -> (r: bool)
        ensures
            r == !holds(self, square),
    {
        !self.square_in_bitboard(square)
    }

    #[verifier::rlimit(30)]
    fn bitboard_is_square(self, square: Square) -> (r: bool)
        ensures
            r == (forall|s: Square| holds(self, s) == (s == square)),
    {
        let i = square.inner();
        let one = 1u64 << (i as u64);
        proof {
            lemma_single(i as int);
            if self == one {
                assert forall|s: Square| holds(self, s) == (s == square) by {
                    s.lemma_index();
                    square.lemma_index();
                }
            } else {
                if forall|s: Square| holds(self, s) == (s == square) {
                    assert forall|j: int| 0 <= j < 64 implies has_bit(self, j) == has_bit(
                        one,
                        j,
                    ) by {
                        Square::lemma_at(j);
                        assert(holds(self, Square::at(j)) == (Square::at(j) == square));
                        square.lemma_index();
                    }
                    lemma_ext(self, one);
                }
            }
        }
        self == one
    }

    fn squares(self) -> (it: BitboardIter)
        ensures
            it.upcoming() == members(self),
    {
        BitboardIter { bitboard: self }
    }

    fn remove_square(&mut self, square: Square)
        ensures
            forall|s: Square| holds(*final(self), s) == (holds(*old(self), s) && s != square),
            forall|j: int| has_bit(*final(self), j) == (has_bit(*old(self), j) && j != square.index()),
    {
        let i = square.inner();
        proof {
            lemma_clear_bit(*self, i as int);
            assert forall|s: Square|
                holds(*self & !(1u64 << (i as u64)), s) == (holds(*self, s) && s != square) by {
                s.lemma_index();
                square.lemma_index();
            }
        }
        *self = *self & !(1u64 << (i as u64));
    }

    fn add_square(&mut self, square: Square)
        ensures
            forall|s: Square| holds(*final(self), s) == (holds(*old(self), s) || s == square),
            forall|j: int| has_bit(*final(self), j) == (has_bit(*old(self), j) || j == square.index()),
    {
        let i = square.inner();
        proof {
            lemma_set_bit(*self, i as int);
            assert forall|s: Square|
                holds(*self | (1u64 << (i as u64)), s) == (holds(*self, s) || s == square) by {
                s.lemma_index();
                square.lemma_index();
            }
        }
        *self = *self | (1u64 << (i as u64));
    }

    #[verifier::rlimit(30)]
    fn pop_highest_set_bit(&mut self) -> (r: Option<Square>)
        ensures
            r is None == (*old(self) == 0),
            r is None ==> *final(self) == 0,
            r matches Some(top) ==> {
                &&& holds(*old(self), top)
                &&& forall|s: Square| holds(*old(self), s) ==> s.index() <= top.index()
                &&& forall|s: Square| holds(*final(self), s) == (holds(*old(self), s) && s != top)
                &&& forall|j: int| has_bit(*final(self), j) == (has_bit(*old(self), j) && j != top.index())
            },
    {
        if *self == 0 {
            return None;
        }
        let zeros = self.leading_zeros();
        proof {
            lemma_highest(*self);
        }
        let i: u8 = (63 - zeros) as u8;
        let top = Square::from_inner(i);
        let ghost before = *self;
        proof {
            lemma_clear_bit(*self, i as int);
            assert forall|s: Square| holds(before, s) implies s.index() <= top.index() by {
                s.lemma_index();
            }
            assert forall|s: Square|
                holds(before & !(1u64 << (i as u64)), s) == (holds(before, s) && s != top) by {
                s.lemma_index();
                top.lemma_index();
            }
        }
        *self = *self & !(1u64 << (i as u64));
        Some(top)
    }

    #[verifier::rlimit(30)]
    fn pop_lowest_set_bit(&mut self) -> (r: Option<Square>)
        ensures
            r is None == (*old(self) == 0),
            r is None ==> *final(self) == 0,
            r == (if members(*old(self)).len() > 0 {
                Some(members(*old(self))[0])
            } else {
                None
            }),
            members(*final(self)) == tail(members(*old(self))),
            r matches Some(low) ==> {
                &&& holds(*old(self), low)
                &&& forall|s: Square| holds(*old(self), s) ==> low.index() <= s.index()
                &&& forall|s: Square| holds(*final(self), s) == (holds(*old(self), s) && s != low)
                &&& forall|j: int| has_bit(*final(self), j) == (has_bit(*old(self), j) && j != low.index())
            },
    {
        proof {
            lemma_members_empty(*self);
        }
        if *self == 0 {
            return None;
        }
        let zeros = self.trailing_zeros();
        proof {
            lemma_lowest(*self);
        }
        let i: u8 = zeros as u8;
        let low = Square::from_inner(i);
        let ghost before = *self;
        proof {
            lemma_clear_bit(before, i as int);
            lemma_pop_lowest(before, i as int, before & !(1u64 << (i as u64)));
            assert forall|s: Square| holds(before, s) implies low.index() <= s.index() by {
                s.lemma_index();
            }
            assert forall|s: Square|
                holds(before & !(1u64 << (i as u64)), s) == (holds(before, s) && s != low) by {
                s.lemma_index();
                low.lemma_index();
            }
        }
        *self = *self & !(1u64 << (i as u64));
        Some(low)
    }

    fn bit_scan_forward(self) -> (r: Option<Square>)
        ensures
            r == (if members(self).len() > 0 {
                Some(members(self)[0])
            } else {
                None
            }),
            r is None == (self == 0),
            r matches Some(low) ==> holds(self, low) && forall|s: Square|
                holds(self, s) ==> low.index() <= s.index(),
    {
        let mut copy = self;
        copy.pop_lowest_set_bit()
    }

    fn count(self) -> (n: u8)
        ensures
            n == popcount(self),
    {
        let mut n: u8 = 0;
        let mut i: u8 = 0;
        while i < 64
            invariant
                i <= 64,
                n == count_below(self, i as int),
                n <= i,
            decreases 64 - i,
        {
            proof {
                lemma_mask_test(self, i as int);
            }
            if (self & (1u64 << (i as u64))) != 0 {
                n = n + 1;
            }
            i = i + 1;
        }
        n
    }
}

/// Hands out the members of a set in ascending order, taking each out of
/// its own copy of the set.
pub struct BitboardIter {
    bitboard: Bitboard,
}

impl BitboardIter {
    /// The squares still to come, in the order in which `next` hands them out.
    pub closed spec fn upcoming(self) -> Seq<Square> {
        members(self.bitboard)
    }

    /// Hands out the next member, or `None` when none is left.
    pub fn next(&mut self) -> (r: Option<Square>)
        ensures
            r == (if old(self).upcoming().len() > 0 {
                Some(old(self).upcoming()[0])
            } else {
                None
            }),
            final(self).upcoming() == tail(old(self).upcoming()),
    {
        self.bitboard.pop_lowest_set_bit()
    }

    /// The members that are left, in ascending order.
    pub fn collect(self) -> (v: Vec<Square>)
        ensures
            v@ == self.upcoming(),
    {
        let mut v: Vec<Square> = Vec::new();
        let mut it = self;
        loop
            invariant
                v@ + it.upcoming() == self.upcoming(),
            ensures
                v@ == self.upcoming(),
            decreases it.upcoming().len(),
        {
            let ghost before = it.upcoming();
            match it.next() {
                Some(s) => {
                    v.push(s);
                    assert(v@ + it.upcoming() =~= (v@.drop_last() + before));
                },
                None => {
                    assert(v@ + before =~= v@);
                    break ;
                },
            }
        }
        v
    }
}

} // verus!
