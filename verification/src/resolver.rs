//! Resolution of move text against a position's legal-move set.
//!
//! A move token is inherently ambiguous until resolved against the exact
//! legal-move set of the position it was written for. The resolver infers
//! the surface syntax from the token shape (a coordinate token is exactly
//! `<file><rank><file><rank>` with an optional promotion letter; anything
//! else is treated as algebraic), builds a candidate-move shape, and looks
//! it up in the legal-move set. Both syntaxes go through the same lookup,
//! so only legal moves are ever produced.
//!
//! The legal-move set is carried as the coordinate tokens of the legal
//! moves, exactly as the rules engine reports them; the move value for an
//! entry is derived from the token and the current occupancy, which is
//! adequate precisely because resolution always happens against the
//! position the text was meant for.

use vstd::prelude::*;
use crate::board::{occupant, occupant_at, Piece, PieceRole, Square};
use crate::moves::{coord_chars, CastleSide, ResolvedMove};
use crate::text::{
    chars_of, file_from_char, file_of_char, promo_from_lower, promo_from_upper, promo_of_lower,
    promo_of_upper, rank_from_char, rank_of_char, role_from_upper, role_of_upper, subvec,
};

verus! {

#[derive(Clone, Copy, PartialEq, Eq, Structural, Debug)]
pub enum ResolutionError {
    /// The text matches neither recognized grammar.
    ParseError,
    /// A coordinate token names an empty origin square.
    NoPieceAtOrigin,
    /// The text is grammatically valid but names no unique member of the
    /// legal-move set.
    IllegalMove,
}

/// The candidate-move shape a token parses to, before the legal-move-set
/// lookup: either a castling side, or a role with destination and whatever
/// origin information the token carries.
#[derive(Clone, Copy, PartialEq, Eq, Structural, Debug)]
pub struct Candidate {
    pub castle: Option<CastleSide>,
    pub role: PieceRole,
    pub from_file: Option<u8>,
    pub from_rank: Option<u8>,
    pub capture: bool,
    pub to: Option<Square>,
    pub promotion: Option<PieceRole>,
}

/// Whether legal move `m` is an exact match for candidate shape `c`: every
/// piece of information the token carried must agree with `m`. A capture
/// marker demands a capture; a token without one accepts either.
pub open spec fn candidate_matches(c: Candidate, m: ResolvedMove) -> bool {
    &&& match c.castle {
        Some(s) => m.castle == Some(s),
        None => m.castle is None && m.role == c.role && m.promotion == c.promotion && (c.capture
            ==> m.capture),
    }
    &&& match c.to {
        Some(t) => m.to == t,
        None => true,
    }
    &&& match c.from_file {
        Some(f) => m.from.file == f,
        None => true,
    }
    &&& match c.from_rank {
        Some(r) => m.from.rank == r,
        None => true,
    }
}

/// Coordinate token: origin square, destination square, optional
/// lower-case promotion letter; exactly 4 or 5 characters.
pub open spec fn parse_coordinate(s: Seq<char>) -> Option<(Square, Square, Option<PieceRole>)> {
    if s.len() == 4 || s.len() == 5 {
        match (file_of_char(s[0]), rank_of_char(s[1]), file_of_char(s[2]), rank_of_char(s[3])) {
            (Some(ff), Some(fr), Some(tf), Some(tr)) => {
                let from = Square { file: ff, rank: fr };
                let to = Square { file: tf, rank: tr };
                if s.len() == 5 {
                    match promo_of_lower(s[4]) {
                        Some(p) => Some((from, to, Some(p))),
                        None => None,
                    }
                } else {
                    Some((from, to, None))
                }
            },
            _ => None,
        }
    } else {
        None
    }
}

/// Coordinate notation has no castling marker; a king moving two files is
/// the only way a castle appears there. King-side if the destination file
/// is the greater one.
pub open spec fn file_delta_is_two(from: Square, to: Square) -> bool {
    from.file as int - to.file as int == 2 || to.file as int - from.file as int == 2
}

pub open spec fn castle_side_of(from: Square, to: Square) -> CastleSide {
    if to.file > from.file {
        CastleSide::KingSide
    } else {
        CastleSide::QueenSide
    }
}

/// The move value a coordinate token stands for on `board`: the role is
/// read off the origin square (`None` when that square is empty), the
/// capture flag off the destination square's occupancy, and a king moving
/// two files becomes the corresponding castle.
pub open spec fn derived_move(
    board: Seq<Option<Piece>>,
    from: Square,
    to: Square,
    promo: Option<PieceRole>,
) -> Option<ResolvedMove> {
    match occupant(board, from) {
        None => None,
        Some(p) => {
            if p.role == PieceRole::King && file_delta_is_two(from, to) {
                Some(
                    ResolvedMove {
                        role: PieceRole::King,
                        from,
                        to,
                        capture: false,
                        promotion: None,
                        castle: Some(castle_side_of(from, to)),
                    },
                )
            } else {
                Some(
                    ResolvedMove {
                        role: p.role,
                        from,
                        to,
                        capture: occupant(board, to) is Some,
                        promotion: promo,
                        castle: None,
                    },
                )
            }
        },
    }
}

/// The move value of one legal-move-set entry.
pub open spec fn move_of_entry(board: Seq<Option<Piece>>, u: Seq<char>) -> Option<ResolvedMove> {
    match parse_coordinate(u) {
        Some((from, to, promo)) => derived_move(board, from, to, promo),
        None => None,
    }
}

/// The entry names a move on `board` and is that move's own coordinate
/// rendering: the origin square is occupied, and re-rendering the derived
/// move reproduces the token exactly. The rules engine's legal-move tokens
/// have this shape: a legal move starts from an occupied square, and its
/// token is the lower-case origin, destination and promotion letters.
pub open spec fn entry_canonical(board: Seq<Option<Piece>>, u: Seq<char>) -> bool {
    match move_of_entry(board, u) {
        Some(m) => coord_chars(m) == u,
        None => false,
    }
}

pub open spec fn entry_matches(c: Candidate, board: Seq<Option<Piece>>, u: Seq<char>) -> bool {
    match move_of_entry(board, u) {
        Some(m) => candidate_matches(c, m),
        None => false,
    }
}

/// The outcome of looking candidate `c` up in the legal-move set: the
/// matched move when all matching entries agree on one move, and
/// `IllegalMove` when none matches or the token is ambiguous.
pub open spec fn match_result(
    c: Candidate,
    board: Seq<Option<Piece>>,
    legal: Seq<Seq<char>>,
) -> Result<ResolvedMove, ResolutionError> {
    if exists|i: int| 0 <= i < legal.len() && #[trigger] entry_matches(c, board, legal[i]) {
        let i0 = choose|i: int| 0 <= i < legal.len() && #[trigger] entry_matches(c, board, legal[i]);
        if forall|j: int|
            0 <= j < legal.len() && #[trigger] entry_matches(c, board, legal[j]) ==> move_of_entry(
                board,
                legal[j],
            ) == move_of_entry(board, legal[i0]) {
            Ok(move_of_entry(board, legal[i0]).unwrap())
        } else {
            Err(ResolutionError::IllegalMove)
        }
    } else {
        Err(ResolutionError::IllegalMove)
    }
}

/// The candidate a coordinate token builds once the origin's piece is
/// known.
pub open spec fn coordinate_candidate(
    p: Piece,
    board: Seq<Option<Piece>>,
    from: Square,
    to: Square,
    promo: Option<PieceRole>,
) -> Candidate {
    if p.role == PieceRole::King && file_delta_is_two(from, to) {
        Candidate {
            castle: Some(castle_side_of(from, to)),
            role: PieceRole::King,
            from_file: Some(from.file),
            from_rank: Some(from.rank),
            capture: false,
            to: Some(to),
            promotion: None,
        }
    } else {
        Candidate {
            castle: None,
            role: p.role,
            from_file: Some(from.file),
            from_rank: Some(from.rank),
            capture: occupant(board, to) is Some,
            to: Some(to),
            promotion: promo,
        }
    }
}

pub open spec fn castle_king_token() -> Seq<char> {
    seq!['O', '-', 'O']
}

pub open spec fn castle_queen_token() -> Seq<char> {
    seq!['O', '-', 'O', '-', 'O']
}

pub open spec fn castle_candidate(side: CastleSide) -> Candidate {
    Candidate {
        castle: Some(side),
        role: PieceRole::King,
        from_file: None,
        from_rank: None,
        capture: false,
        to: None,
        promotion: None,
    }
}

/// Splits a trailing `=<role>` promotion suffix off an algebraic token.
pub open spec fn split_promotion(s: Seq<char>) -> Option<(Seq<char>, Option<PieceRole>)> {
    if s.len() >= 2 && s[s.len() - 2] == '=' {
        match promo_of_upper(s[s.len() - 1]) {
            Some(r) => Some((s.take(s.len() - 2), Some(r))),
            None => None,
        }
    } else {
        Some((s, None))
    }
}

/// Splits a leading piece letter off an algebraic token; no letter means a
/// pawn move.
pub open spec fn split_role(s: Seq<char>) -> (PieceRole, Seq<char>) {
    if s.len() >= 1 && role_of_upper(s[0]) is Some {
        (role_of_upper(s[0]).unwrap(), s.skip(1))
    } else {
        (PieceRole::Pawn, s)
    }
}

/// Splits the destination square and an optional capture marker off the
/// end of an algebraic token.
pub open spec fn split_destination(s: Seq<char>) -> Option<(Seq<char>, bool, Square)> {
    if s.len() >= 2 && file_of_char(s[s.len() - 2]) is Some && rank_of_char(s[s.len() - 1])
        is Some {
        let dest = Square {
            file: file_of_char(s[s.len() - 2]).unwrap(),
            rank: rank_of_char(s[s.len() - 1]).unwrap(),
        };
        let pre = s.take(s.len() - 2);
        if pre.len() >= 1 && pre[pre.len() - 1] == 'x' {
            Some((pre.take(pre.len() - 1), true, dest))
        } else {
            Some((pre, false, dest))
        }
    } else {
        None
    }
}

/// The optional disambiguating origin file and rank between piece letter
/// and destination.
pub open spec fn parse_disambiguation(s: Seq<char>) -> Option<(Option<u8>, Option<u8>)> {
    if s.len() == 0 {
        Some((None, None))
    } else if s.len() == 1 {
        if file_of_char(s[0]) is Some {
            Some((Some(file_of_char(s[0]).unwrap()), None))
        } else if rank_of_char(s[0]) is Some {
            Some((None, Some(rank_of_char(s[0]).unwrap())))
        } else {
            None
        }
    } else if s.len() == 2 {
        match (file_of_char(s[0]), rank_of_char(s[1])) {
            (Some(f), Some(r)) => Some((Some(f), Some(r))),
            _ => None,
        }
    } else {
        None
    }
}

/// The standard algebraic grammar: a castling token, or piece letter,
/// optional disambiguating file and rank, optional capture marker,
/// destination square and optional promotion suffix.
pub open spec fn parse_algebraic(s: Seq<char>) -> Option<Candidate> {
    if s == castle_king_token() {
        Some(castle_candidate(CastleSide::KingSide))
    } else if s == castle_queen_token() {
        Some(castle_candidate(CastleSide::QueenSide))
    } else {
        match split_promotion(s) {
            None => None,
            Some((core, promo)) => {
                let (role, rest) = split_role(core);
                match split_destination(rest) {
                    None => None,
                    Some((pre, capture, dest)) => match parse_disambiguation(pre) {
                        None => None,
                        Some((ff, fr)) => Some(
                            Candidate {
                                castle: None,
                                role,
                                from_file: ff,
                                from_rank: fr,
                                capture,
                                to: Some(dest),
                                promotion: promo,
                            },
                        ),
                    },
                }
            },
        }
    }
}

/// The character views of the legal-move-set entries.
pub open spec fn entry_views(legal: Seq<String>) -> Seq<Seq<char>> {
    legal.map_values(|s: String| s@)
}

/// What resolution returns for any token, board and legal-move set:
/// a coordinate-shaped token reads its origin (failing with
/// `NoPieceAtOrigin` on an empty square) and looks its candidate up; any
/// other token must parse as algebraic (else `ParseError`) and looks its
/// candidate up; the lookup yields the unique matching legal move or
/// `IllegalMove`.
pub open spec fn resolve_spec(
    s: Seq<char>,
    board: Seq<Option<Piece>>,
    legal: Seq<Seq<char>>,
) -> Result<ResolvedMove, ResolutionError> {
    match parse_coordinate(s) {
        Some((from, to, promo)) => match occupant(board, from) {
            None => Err(ResolutionError::NoPieceAtOrigin),
            Some(p) => match_result(coordinate_candidate(p, board, from, to, promo), board, legal),
        },
        None => match parse_algebraic(s) {
            None => Err(ResolutionError::ParseError),
            Some(c) => match_result(c, board, legal),
        },
    }
}

pub fn parse_coordinate_exec(v: &Vec<char>) -> (r: Option<(Square, Square, Option<PieceRole>)>)
    ensures
        r == parse_coordinate(v@),
        r matches Some(t) ==> t.0.wf() && t.1.wf(),
{
    let n = v.len();
    if n != 4 && n != 5 {
        return None;
    }
    let ff = file_from_char(v[0]);
    let fr = rank_from_char(v[1]);
    let tf = file_from_char(v[2]);
    let tr = rank_from_char(v[3]);
    match (ff, fr, tf, tr) {
        (Some(ff), Some(fr), Some(tf), Some(tr)) => {
            let from = Square { file: ff, rank: fr };
            let to = Square { file: tf, rank: tr };
            if n == 5 {
                match promo_from_lower(v[4]) {
                    Some(p) => Some((from, to, Some(p))),
                    None => None,
                }
            } else {
                Some((from, to, None))
            }
        },
        _ => None,
    }
}

pub fn derived_move_exec(
    board: &Vec<Option<Piece>>,
    from: Square,
    to: Square,
    promo: Option<PieceRole>,
) -> (r: Option<ResolvedMove>)
    requires
        board@.len() == 64,
        from.wf(),
        to.wf(),
    ensures
        r == derived_move(board@, from, to, promo),
        r matches Some(m) ==> m.wf(),
{
    match occupant_at(board, from) {
        None => None,
        Some(p) => {
            let delta_two = (from.file > to.file && from.file - to.file == 2) || (to.file
                > from.file && to.file - from.file == 2);
            if p.role == PieceRole::King && delta_two {
                let side = if to.file > from.file {
                    CastleSide::KingSide
                } else {
                    CastleSide::QueenSide
                };
                Some(
                    ResolvedMove {
                        role: PieceRole::King,
                        from,
                        to,
                        capture: false,
                        promotion: None,
                        castle: Some(side),
                    },
                )
            } else {
                let capture = match occupant_at(board, to) {
                    Some(_) => true,
                    None => false,
                };
                Some(
                    ResolvedMove { role: p.role, from, to, capture, promotion: promo, castle: None },
                )
            }
        },
    }
}

fn entry_move(board: &Vec<Option<Piece>>, u: &String) -> (r: Option<ResolvedMove>)
    requires
        board@.len() == 64,
    ensures
        r == move_of_entry(board@, u@),
        r matches Some(m) ==> m.wf(),
{
    let cs = chars_of(u.as_str());
    match parse_coordinate_exec(&cs) {
        None => None,
        Some((from, to, promo)) => derived_move_exec(board, from, to, promo),
    }
}

pub fn candidate_matches_exec(c: &Candidate, m: &ResolvedMove) -> (r: bool)
    ensures
        r == candidate_matches(*c, *m),
{
    let castle_ok = match c.castle {
        Some(s) => match m.castle {
            Some(ms) => s == ms,
            None => false,
        },
        None => {
            let promo_ok = match (c.promotion, m.promotion) {
                (None, None) => true,
                (Some(a), Some(b)) => a == b,
                _ => false,
            };
            m.castle.is_none() && m.role == c.role && promo_ok && (!c.capture || m.capture)
        },
    };
    let to_ok = match c.to {
        Some(t) => m.to == t,
        None => true,
    };
    let ff_ok = match c.from_file {
        Some(f) => m.from.file == f,
        None => true,
    };
    let fr_ok = match c.from_rank {
        Some(r) => m.from.rank == r,
        None => true,
    };
    castle_ok && to_ok && ff_ok && fr_ok
}

/// Scans the legal-move set for entries matching `c`: the unique matching
/// move, or `IllegalMove` when none matches or two matching entries name
/// different moves.
fn find_match(c: &Candidate, board: &Vec<Option<Piece>>, legal: &Vec<String>) -> (r: Result<
    ResolvedMove,
    ResolutionError,
>)
    requires
        board@.len() == 64,
    ensures
        r == match_result(*c, board@, entry_views(legal@)),
        r matches Ok(m) ==> m.wf(),
{
    let ghost lv = entry_views(legal@);
    let mut found: Option<ResolvedMove> = None;
    let mut ambiguous = false;
    let ghost mut wit: int = 0;
    let ghost mut amb_a: int = 0;
    let ghost mut amb_b: int = 0;
    let n = legal.len();
    let mut i: usize = 0;
    while i < n
        invariant
            board@.len() == 64,
            n == legal@.len(),
            i <= n,
            lv == entry_views(legal@),
            found is None ==> !ambiguous && forall|j: int|
                0 <= j < i ==> !#[trigger] entry_matches(*c, board@, lv[j]),
            found matches Some(m) ==> m.wf() && 0 <= wit < i && entry_matches(*c, board@, lv[wit])
                && move_of_entry(board@, lv[wit]) == Some(m),
            found matches Some(m) ==> (!ambiguous ==> forall|j: int|
                0 <= j < i && #[trigger] entry_matches(*c, board@, lv[j]) ==> move_of_entry(
                    board@,
                    lv[j],
                ) == Some(m)),
            ambiguous ==> 0 <= amb_a < i && 0 <= amb_b < i && entry_matches(*c, board@, lv[amb_a])
                && entry_matches(*c, board@, lv[amb_b]) && move_of_entry(board@, lv[amb_a])
                != move_of_entry(board@, lv[amb_b]),
        decreases n - i,
    {
        proof {
            assert(lv[i as int] == legal@[i as int]@);
        }
        let em = entry_move(board, &legal[i]);
        match em {
            None => {},
            Some(m) => {
                if candidate_matches_exec(c, &m) {
                    match found {
                        None => {
                            found = Some(m);
                            proof {
                                wit = i as int;
                            }
                        },
                        Some(m0) => {
                            if m != m0 {
                                if !ambiguous {
                                    proof {
                                        amb_a = wit;
                                        amb_b = i as int;
                                    }
                                }
                                ambiguous = true;
                            }
                        },
                    }
                }
            },
        }
        i = i + 1;
    }
    match found {
        None => {
            proof {
                assert(!exists|i: int|
                    0 <= i < lv.len() && #[trigger] entry_matches(*c, board@, lv[i]));
            }
            Err(ResolutionError::IllegalMove)
        },
        Some(m) => {
            if ambiguous {
                proof {
                    let i0 = choose|i: int|
                        0 <= i < lv.len() && #[trigger] entry_matches(*c, board@, lv[i]);
                    if move_of_entry(board@, lv[amb_a]) == move_of_entry(board@, lv[i0]) {
                        assert(entry_matches(*c, board@, lv[amb_b]) && move_of_entry(board@, lv[amb_b])
                            != move_of_entry(board@, lv[i0]));
                    } else {
                        assert(entry_matches(*c, board@, lv[amb_a]) && move_of_entry(board@, lv[amb_a])
                            != move_of_entry(board@, lv[i0]));
                    }
                }
                Err(ResolutionError::IllegalMove)
            } else {
                proof {
                    assert(0 <= wit < lv.len() && entry_matches(*c, board@, lv[wit]));
                    let i0 = choose|i: int|
                        0 <= i < lv.len() && #[trigger] entry_matches(*c, board@, lv[i]);
                    assert(move_of_entry(board@, lv[i0]) == Some(m));
                }
                Ok(m)
            }
        },
    }
}

#[verifier::rlimit(100)]
pub fn parse_algebraic_exec(v: &Vec<char>) -> (r: Option<Candidate>)
    ensures
        r == parse_algebraic(v@),
{
    let n = v.len();
    if n == 3 && v[0] == 'O' && v[1] == '-' && v[2] == 'O' {
        proof {
            assert(v@ =~= castle_king_token());
        }
        return Some(castle_candidate_exec(CastleSide::KingSide));
    }
    if n == 5 && v[0] == 'O' && v[1] == '-' && v[2] == 'O' && v[3] == '-' && v[4] == 'O' {
        proof {
            assert(v@ =~= castle_queen_token());
        }
        return Some(castle_candidate_exec(CastleSide::QueenSide));
    }
    proof {
        assert(v@ != castle_king_token() && v@ != castle_queen_token()) by {
            if v@ == castle_king_token() {
                assert(v@.len() == 3 && v@[0] == 'O' && v@[1] == '-' && v@[2] == 'O');
            }
            if v@ == castle_queen_token() {
                assert(v@.len() == 5 && v@[0] == 'O' && v@[1] == '-' && v@[2] == 'O' && v@[3] == '-'
                    && v@[4] == 'O');
            }
        }
    }
    let (hi, promo): (usize, Option<PieceRole>) = if n >= 2 && v[n - 2] == '=' {
        match promo_from_upper(v[n - 1]) {
            Some(r) => (n - 2, Some(r)),
            None => {
                return None;
            },
        }
    } else {
        (n, None)
    };
    let core = subvec(v, 0, hi);
    proof {
        assert(split_promotion(v@) == Some((core@, promo)));
    }
    let (lo, role): (usize, PieceRole) = if core.len() >= 1 {
        match role_from_upper(core[0]) {
            Some(r) => (1, r),
            None => (0, PieceRole::Pawn),
        }
    } else {
        (0, PieceRole::Pawn)
    };
    let rest = subvec(&core, lo, core.len());
    proof {
        assert(split_role(core@) == (role, rest@));
    }
    let rn = rest.len();
    if rn < 2 {
        return None;
    }
    let (df, dr) = match (file_from_char(rest[rn - 2]), rank_from_char(rest[rn - 1])) {
        (Some(a), Some(b)) => (a, b),
        _ => {
            return None;
        },
    };
    let dest = Square { file: df, rank: dr };
    let pre0 = subvec(&rest, 0, rn - 2);
    let (pre, capture): (Vec<char>, bool) = if pre0.len() >= 1 && pre0[pre0.len() - 1] == 'x' {
        let p = subvec(&pre0, 0, pre0.len() - 1);
        (p, true)
    } else {
        (pre0, false)
    };
    proof {
        assert(split_destination(rest@) == Some((pre@, capture, dest)));
    }
    let pl = pre.len();
    let (ff, fr): (Option<u8>, Option<u8>) = if pl == 0 {
        (None, None)
    } else if pl == 1 {
        match file_from_char(pre[0]) {
            Some(f) => (Some(f), None),
            None => match rank_from_char(pre[0]) {
                Some(r) => (None, Some(r)),
                None => {
                    return None;
                },
            },
        }
    } else if pl == 2 {
        match (file_from_char(pre[0]), rank_from_char(pre[1])) {
            (Some(f), Some(r)) => (Some(f), Some(r)),
            _ => {
                return None;
            },
        }
    } else {
        return None;
    };
    Some(
        Candidate {
            castle: None,
            role,
            from_file: ff,
            from_rank: fr,
            capture,
            to: Some(dest),
            promotion: promo,
        },
    )
}

fn castle_candidate_exec(side: CastleSide) -> (r: Candidate)
    ensures
        r == castle_candidate(side),
{
    Candidate {
        castle: Some(side),
        role: PieceRole::King,
        from_file: None,
        from_rank: None,
        capture: false,
        to: None,
        promotion: None,
    }
}

/// Resolves one move token against the current occupancy and legal-move
/// set. Pure: same inputs, same outcome.
pub fn resolve(text: &str, board: &Vec<Option<Piece>>, legal: &Vec<String>) -> (r: Result<
    ResolvedMove,
    ResolutionError,
>)
    requires
        board@.len() == 64,
    ensures
        r == resolve_spec(text@, board@, entry_views(legal@)),
        r matches Ok(m) ==> m.wf(),
{
    let cs = chars_of(text);
    match parse_coordinate_exec(&cs) {
        Some((from, to, promo)) => match occupant_at(board, from) {
            None => Err(ResolutionError::NoPieceAtOrigin),
            Some(p) => {
                let delta_two = (from.file > to.file && from.file - to.file == 2) || (to.file
                    > from.file && to.file - from.file == 2);
                let c = if p.role == PieceRole::King && delta_two {
                    let side = if to.file > from.file {
                        CastleSide::KingSide
                    } else {
                        CastleSide::QueenSide
                    };
                    Candidate {
                        castle: Some(side),
                        role: PieceRole::King,
                        from_file: Some(from.file),
                        from_rank: Some(from.rank),
                        capture: false,
                        to: Some(to),
                        promotion: None,
                    }
                } else {
                    let capture = match occupant_at(board, to) {
                        Some(_) => true,
                        None => false,
                    };
                    Candidate {
                        castle: None,
                        role: p.role,
                        from_file: Some(from.file),
                        from_rank: Some(from.rank),
                        capture,
                        to: Some(to),
                        promotion: promo,
                    }
                };
                proof {
                    assert(c == coordinate_candidate(p, board@, from, to, promo));
                }
                find_match(&c, board, legal)
            },
        },
        None => match parse_algebraic_exec(&cs) {
            None => Err(ResolutionError::ParseError),
            Some(c) => find_match(&c, board, legal),
        },
    }
}

} // verus!
