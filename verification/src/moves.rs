//! Fully disambiguated moves and their wire renderings.
//!
//! A `ResolvedMove` is only ever produced by resolving move text against a
//! position's legal-move set, never from text alone. Its coordinate
//! rendering is the engine-facing wire form (`e2e4`, `e7e8q`); the
//! algebraic rendering is the human-facing form with the origin written in
//! full (`Ng1f3`, `e2e4`, `e7xd8=Q`, `O-O`).

use vstd::prelude::*;
use crate::board::{PieceRole, Square};
use crate::text::{char_of_file, char_of_rank, lower_char_of_role, upper_char_of_role, lower_byte_of_role};

verus! {

#[derive(Clone, Copy, PartialEq, Eq, Structural, Debug)]
pub enum CastleSide {
    KingSide,
    QueenSide,
}

/// A move fully disambiguated against one position's legal-move set:
/// role moved, origin, destination, capture flag, optional promotion role
/// and optional castling side. For a castling move the origin and
/// destination are the king's, the role is King, and the capture flag is
/// false.
#[derive(Clone, Copy, PartialEq, Eq, Structural, Debug)]
pub struct ResolvedMove {
    pub role: PieceRole,
    pub from: Square,
    pub to: Square,
    pub capture: bool,
    pub promotion: Option<PieceRole>,
    pub castle: Option<CastleSide>,
}

impl ResolvedMove {
    pub open spec fn wf(self) -> bool {
        self.from.wf() && self.to.wf()
    }
}

/// Coordinate-notation rendering: origin square, destination square and,
/// for a promotion, the promoted role's lower-case letter.
pub open spec fn coord_chars(m: ResolvedMove) -> Seq<char> {
    let base = seq![
        char_of_file(m.from.file),
        char_of_rank(m.from.rank),
        char_of_file(m.to.file),
        char_of_rank(m.to.rank),
    ];
    match m.promotion {
        Some(r) => base.push(lower_char_of_role(r)),
        None => base,
    }
}

/// Algebraic-notation rendering with the origin written in full: the two
/// castling tokens, or piece letter (none for a pawn), origin square,
/// capture marker, destination square and promotion suffix.
pub open spec fn algebraic_chars(m: ResolvedMove) -> Seq<char> {
    match m.castle {
        Some(CastleSide::KingSide) => seq!['O', '-', 'O'],
        Some(CastleSide::QueenSide) => seq!['O', '-', 'O', '-', 'O'],
        None => {
            let role_part: Seq<char> = if m.role == PieceRole::Pawn {
                seq![]
            } else {
                seq![upper_char_of_role(m.role)]
            };
            let capture_part: Seq<char> = if m.capture {
                seq!['x']
            } else {
                seq![]
            };
            let promo_part: Seq<char> = match m.promotion {
                Some(r) => seq!['=', upper_char_of_role(r)],
                None => seq![],
            };
            role_part + seq![char_of_file(m.from.file), char_of_rank(m.from.rank)] + capture_part
                + seq![char_of_file(m.to.file), char_of_rank(m.to.rank)] + promo_part
        },
    }
}

/// The coordinate form of `m`, as appended to the session history and as
/// the engine protocol writes moves.
pub fn coordinate_text(m: &ResolvedMove) -> (r: String)
    requires
        m.wf(),
    ensures
        r@ == coord_chars(*m),
{
    let mut bytes: Vec<u8> = Vec::new();
    bytes.push(97 + m.from.file);
    bytes.push(49 + m.from.rank);
    bytes.push(97 + m.to.file);
    bytes.push(49 + m.to.rank);
    match m.promotion {
        Some(p) => {
            let b = lower_byte_of_role(p);
            bytes.push(b);
        },
        None => {},
    }
    let r = crate::text::ascii_string(bytes);
    proof {
        assert(r@ =~= coord_chars(*m));
    }
    r
}

} // verus!
