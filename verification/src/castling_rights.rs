//! Castling rights.
//!
//! The four rights (each colour on each side) are the four low bits of a
//! byte. A right is lost when the king or the rook concerned moves, and is
//! never won back: the two operations that change a set of rights only
//! clear bits.

use vstd::prelude::*;
use crate::pieces::Color;
use crate::rules::CastleType;

verus! {

/// Castling rights for both players, one bit each:
/// `0b0001` White on the king's side, `0b0010` White on the queen's side,
/// `0b0100` Black on the king's side, `0b1000` Black on the queen's side.
pub type CastlingRights = u8;

/// The bit of one right.
pub open spec fn right_bit(color: Color, castle_type: CastleType) -> u8 {
    match (color, castle_type) {
        (Color::White, CastleType::KingSide) => 1u8,
        (Color::White, CastleType::QueenSide) => 2u8,
        (Color::Black, CastleType::KingSide) => 4u8,
        (Color::Black, CastleType::QueenSide) => 8u8,
    }
}

/// The rights `rights` hold the right of `color` to castle on the side
/// `castle_type`.
pub open spec fn has_right(rights: CastlingRights, color: Color, castle_type: CastleType) -> bool {
    rights & right_bit(color, castle_type) != 0
}

/// The side that a flag names: the king's side if set.
pub open spec fn side_of(kingside: bool) -> CastleType {
    if kingside {
        CastleType::KingSide
    } else {
        CastleType::QueenSide
    }
}

/// A change to a set of rights: the king of a colour has moved, or one of
/// its rooks has.
pub enum RightsChange {
    KingMoved(Color),
    RookMoved(Color, bool),
}

/// The rights that are left after one change.
pub open spec fn after_change(rights: CastlingRights, change: RightsChange) -> CastlingRights {
    match change {
        RightsChange::KingMoved(color) => rights & !(right_bit(color, CastleType::KingSide)
            | right_bit(color, CastleType::QueenSide)),
        RightsChange::RookMoved(color, kingside) => rights & !right_bit(color, side_of(kingside)),
    }
}

/// The rights that are left after a series of changes, made in order.
pub open spec fn after_changes(rights: CastlingRights, changes: Seq<RightsChange>) -> CastlingRights
    decreases changes.len(),
{
    if changes.len() == 0 {
        rights
    } else {
        after_changes(after_change(rights, changes[0]), changes.skip(1))
    }
}

proof fn bv_masks()
    by (bit_vector)
    ensures
        1u8 | 2u8 == 3u8,
        4u8 | 8u8 == 12u8,
        5u8 & 3u8 == 1u8,
        10u8 & 3u8 == 2u8,
        5u8 & 12u8 == 4u8,
        10u8 & 12u8 == 8u8,
        forall|r: u8| #![auto] r & 5u8 & 3u8 == r & 1u8,
        forall|r: u8| #![auto] r & 10u8 & 3u8 == r & 2u8,
        forall|r: u8| #![auto] r & 5u8 & 12u8 == r & 4u8,
        forall|r: u8| #![auto] r & 10u8 & 12u8 == r & 8u8,
        forall|r: u8| #![auto] r & 3u8 & 5u8 == r & 1u8,
        forall|r: u8| #![auto] r & 3u8 & 10u8 == r & 2u8,
        forall|r: u8| #![auto] r & 12u8 & 5u8 == r & 4u8,
        forall|r: u8| #![auto] r & 12u8 & 10u8 == r & 8u8,
{
}

proof fn bv_clear(r: u8, m: u8, b: u8)
    by (bit_vector)
    requires
        b == 1 || b == 2 || b == 4 || b == 8,
    ensures
        ((r & !m) & b != 0) == ((r & b != 0) && (m & b == 0)),
{
}

proof fn bv_bits()
    by (bit_vector)
    ensures
        3u8 & 1u8 != 0,
        3u8 & 2u8 != 0,
        3u8 & 4u8 == 0,
        3u8 & 8u8 == 0,
        12u8 & 1u8 == 0,
        12u8 & 2u8 == 0,
        12u8 & 4u8 != 0,
        12u8 & 8u8 != 0,
        1u8 & 1u8 != 0,
        1u8 & 2u8 == 0,
        1u8 & 4u8 == 0,
        1u8 & 8u8 == 0,
        2u8 & 1u8 == 0,
        2u8 & 2u8 != 0,
        2u8 & 4u8 == 0,
        2u8 & 8u8 == 0,
        4u8 & 1u8 == 0,
        4u8 & 2u8 == 0,
        4u8 & 4u8 != 0,
        4u8 & 8u8 == 0,
        8u8 & 1u8 == 0,
        8u8 & 2u8 == 0,
        8u8 & 4u8 == 0,
        8u8 & 8u8 != 0,
        15u8 & 1u8 != 0,
        15u8 & 2u8 != 0,
        15u8 & 4u8 != 0,
        15u8 & 8u8 != 0,
        0u8 & 1u8 == 0,
        0u8 & 2u8 == 0,
        0u8 & 4u8 == 0,
        0u8 & 8u8 == 0,
{
}

/// One change leaves a right in place exactly if the right was held before
/// and the change does not concern it.
#[verifier::rlimit(30)]
pub proof fn lemma_after_change(
    rights: CastlingRights,
    change: RightsChange,
    color: Color,
    castle_type: CastleType,
)
    ensures
        has_right(after_change(rights, change), color, castle_type) == (has_right(
            rights,
            color,
            castle_type,
        ) && match change {
            RightsChange::KingMoved(c) => c != color,
            RightsChange::RookMoved(c, kingside) => !(c == color && side_of(kingside)
                == castle_type),
        }),
{
    bv_masks();
    bv_bits();
    let b = right_bit(color, castle_type);
    match change {
        RightsChange::KingMoved(c) => {
            let m = right_bit(c, CastleType::KingSide) | right_bit(c, CastleType::QueenSide);
            bv_clear(rights, m, b);
        },
        RightsChange::RookMoved(c, kingside) => {
            let m = right_bit(c, side_of(kingside));
            bv_clear(rights, m, b);
        },
    }
}

/// Rights are only ever lost: a right that is not held is not held after
/// any series of changes either.
pub proof fn lemma_rights_never_return(
    rights: CastlingRights,
    changes: Seq<RightsChange>,
    color: Color,
    castle_type: CastleType,
)
    requires
        !has_right(rights, color, castle_type),
    ensures
        !has_right(after_changes(rights, changes), color, castle_type),
    decreases changes.len(),
{
    if changes.len() > 0 {
        lemma_after_change(rights, changes[0], color, castle_type);
        lemma_rights_never_return(
            after_change(rights, changes[0]),
            changes.skip(1),
            color,
            castle_type,
        );
    }
}

/// A right that a series of changes leaves in place was held all along:
/// it is held before the series and after each of its beginnings.
pub proof fn lemma_rights_monotone(
    rights: CastlingRights,
    changes: Seq<RightsChange>,
    n: int,
    color: Color,
    castle_type: CastleType,
)
    requires
        0 <= n <= changes.len(),
        has_right(after_changes(rights, changes), color, castle_type),
    ensures
        has_right(after_changes(rights, changes.take(n)), color, castle_type),
    decreases n,
{
    if n == 0 {
        assert(changes.take(0).len() == 0);
        if !has_right(rights, color, castle_type) {
            lemma_rights_never_return(rights, changes, color, castle_type);
        }
    } else {
        let first = changes[0];
        let rest = changes.skip(1);
        lemma_rights_monotone(after_change(rights, first), rest, n - 1, color, castle_type);
        assert(changes.take(n)[0] == first);
        assert(changes.take(n).skip(1) =~= rest.take(n - 1));
    }
}

/// Queries and changes of a set of castling rights.
pub trait CastlingRightsExt: Sized {
    /// No player can castle.
    const NONE_CAN_CASTLE: CastlingRights;

    /// Both players can castle on both sides.
    const ALL_CAN_CASTLE: CastlingRights;

    /// The two rights on the king's side.
    const KINGSIDE_MASK: CastlingRights;

    /// The two rights on the queen's side.
    const QUEENSIDE_MASK: CastlingRights;

    /// White's two rights.
    const WHITE_KING_MASK: CastlingRights;

    /// Black's two rights.
    const BLACK_KING_MASK: CastlingRights;

    /// Whether the given colour holds the right to castle on the given side.
    fn can_castle(self, color: Color, castle_type: CastleType) -> bool;

    /// Whether White holds the right to castle on the king's side.
    fn can_castle_white_king_side(self) -> bool;

    /// Whether White holds the right to castle on the queen's side.
    fn can_castle_white_queen_side(self) -> bool;

    /// Whether Black holds the right to castle on the king's side.
    fn can_castle_black_king_side(self) -> bool;

    /// Whether Black holds the right to castle on the queen's side.
    fn can_castle_black_queen_side(self) -> bool;

    /// Takes both rights from the colour whose king has moved.
    fn king_moved(&mut self, king_color: Color);

    /// Takes from the colour whose rook has moved the right on that rook's
    /// side: the king's side if `kingside`, the queen's side if not.
    fn rook_moved(&mut self, rook_color: Color, kingside: bool);
}

impl CastlingRightsExt for CastlingRights {
    const NONE_CAN_CASTLE: CastlingRights = 0;

    const ALL_CAN_CASTLE: CastlingRights = 0b0000_1111;

    const KINGSIDE_MASK: CastlingRights = 0b0000_0101;

    const QUEENSIDE_MASK: CastlingRights = 0b0000_1010;

    const WHITE_KING_MASK: CastlingRights = 0b0000_0011;

    const BLACK_KING_MASK: CastlingRights = 0b0000_1100;

    fn can_castle(self, color: Color, castle_type: CastleType) -> (r: bool)
        ensures
            r == has_right(self, color, castle_type),
    {
        let mask: u8 = match castle_type {
            CastleType::KingSide => 0b0000_0101,
            CastleType::QueenSide => 0b0000_1010,
        };
        proof {
            bv_masks();
        }
        match color {
            Color::White => (self & mask & 0b0000_0011) != 0,
            Color::Black => (self & mask & 0b0000_1100) != 0,
        }
    }

    fn can_castle_white_king_side(self) -> (r: bool)
        ensures
            r == has_right(self, Color::White, CastleType::KingSide),
    {
        proof {
            bv_masks();
        }
        self & 0b0000_0011 & 0b0000_0101 != 0
    }

    fn can_castle_white_queen_side(self) -> (r: bool)
        ensures
            r == has_right(self, Color::White, CastleType::QueenSide),
    {
        proof {
            bv_masks();
        }
        self & 0b0000_0011 & 0b0000_1010 != 0
    }

    fn can_castle_black_king_side(self) -> (r: bool)
        ensures
            r == has_right(self, Color::Black, CastleType::KingSide),
    {
        proof {
            bv_masks();
        }
        self & 0b0000_1100 & 0b0000_0101 != 0
    }

    fn can_castle_black_queen_side(self) -> (r: bool)
        ensures
            r == has_right(self, Color::Black, CastleType::QueenSide),
    {
        proof {
            bv_masks();
        }
        self & 0b0000_1100 & 0b0000_1010 != 0
    }

    fn king_moved(&mut self, king_color: Color)
        ensures
            *final(self) == after_change(*old(self), RightsChange::KingMoved(king_color)),
            forall|c: Color, t: CastleType|
                has_right(*final(self), c, t) == (has_right(*old(self), c, t) && c != king_color),
    {
        proof {
            bv_masks();
        }
        match king_color {
            Color::White => {
                *self = *self & !0b0000_0011u8;
            },
            Color::Black => {
                *self = *self & !0b0000_1100u8;
            },
        }
        proof {
            let change = RightsChange::KingMoved(king_color);
            assert(*self == after_change(*old(self), change));
            assert forall|c: Color, t: CastleType|
                has_right(*self, c, t) == (has_right(*old(self), c, t) && c != king_color) by {
                lemma_after_change(*old(self), change, c, t);
            }
        }
    }

    fn rook_moved(&mut self, rook_color: Color, kingside: bool)
        ensures
            *final(self) == after_change(*old(self), RightsChange::RookMoved(rook_color, kingside)),
            forall|c: Color, t: CastleType|
                has_right(*final(self), c, t) == (has_right(*old(self), c, t) && !(c == rook_color
                    && t == side_of(kingside))),
    {
        proof {
            bv_masks();
        }
        let mask: u8 = if kingside {
            0b0000_0101
        } else {
            0b0000_1010
        };
        match rook_color {
            Color::White => {
                *self = *self & !(mask & 0b0000_0011u8);
            },
            Color::Black => {
                *self = *self & !(mask & 0b0000_1100u8);
            },
        }
        proof {
            let change = RightsChange::RookMoved(rook_color, kingside);
            assert(*self == after_change(*old(self), change));
            assert forall|c: Color, t: CastleType|
                has_right(*self, c, t) == (has_right(*old(self), c, t) && !(c == rook_color && t
                    == side_of(kingside))) by {
                lemma_after_change(*old(self), change, c, t);
            }
        }
    }
}

} // verus!
