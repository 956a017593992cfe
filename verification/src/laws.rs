//! Resolution laws: what holds of resolving rendered moves and bad tokens
//! against any position, stated over the occupancy and legal-move-token
//! list that a position presents (in particular the ones a `GameSession`
//! holds).

use vstd::prelude::*;
use crate::board::{occupant, Piece, PieceRole};
use crate::moves::{algebraic_chars, coord_chars, CastleSide, ResolvedMove};
use crate::resolver::{
    candidate_matches, castle_candidate, castle_king_token, castle_queen_token,
    coordinate_candidate, derived_move, entry_canonical, entry_matches, file_delta_is_two,
    match_result, move_of_entry, parse_algebraic, parse_coordinate, resolve_spec, Candidate,
    ResolutionError,
};
use crate::text::{
    char_of_file, char_of_rank, file_of_char, lower_char_of_role, promo_of_lower, promo_of_upper,
    rank_of_char, role_of_upper, upper_char_of_role,
};

verus! {

pub proof fn lemma_file_char_inverts(f: u8)
    requires
        f < 8,
    ensures
        file_of_char(char_of_file(f)) == Some(f),
{
}

pub proof fn lemma_rank_char_inverts(r: u8)
    requires
        r < 8,
    ensures
        rank_of_char(char_of_rank(r)) == Some(r),
{
}

/// The legal-move set holds at most one castle per side, as every
/// reachable chess position's does (one king each). Stated over the
/// abstract token list because an arbitrary occupancy could derive two
/// same-side castles from different squares.
pub open spec fn castles_unambiguous(board: Seq<Option<Piece>>, legal: Seq<Seq<char>>) -> bool {
    forall|i: int, j: int|
        0 <= i < legal.len() && 0 <= j < legal.len() ==> match (
            #[trigger] move_of_entry(board, legal[i]),
            #[trigger] move_of_entry(board, legal[j]),
        ) {
            (Some(mi), Some(mj)) => (mi.castle is Some && mi.castle == mj.castle) ==> mi == mj,
            _ => true,
        }
}

/// The candidate shape a token builds against `board`, when it has one:
/// what both resolution paths hand to the legal-move-set lookup.
pub open spec fn token_candidate(s: Seq<char>, board: Seq<Option<Piece>>) -> Option<Candidate> {
    match parse_coordinate(s) {
        Some((from, to, promo)) => match occupant(board, from) {
            Some(p) => Some(coordinate_candidate(p, board, from, to, promo)),
            None => None,
        },
        None => parse_algebraic(s),
    }
}

/// When one entry matches and every matching entry names move `m`, the
/// lookup returns exactly `m`.
pub proof fn lemma_match_unique(
    c: Candidate,
    board: Seq<Option<Piece>>,
    legal: Seq<Seq<char>>,
    k: int,
    m: ResolvedMove,
)
    requires
        0 <= k < legal.len(),
        entry_matches(c, board, legal[k]),
        forall|j: int|
            0 <= j < legal.len() && #[trigger] entry_matches(c, board, legal[j])
                ==> move_of_entry(board, legal[j]) == Some(m),
    ensures
        match_result(c, board, legal) == Ok::<ResolvedMove, ResolutionError>(m),
{
    assert(exists|i: int| 0 <= i < legal.len() && #[trigger] entry_matches(c, board, legal[i]));
    let i0 = choose|i: int| 0 <= i < legal.len() && #[trigger] entry_matches(c, board, legal[i]);
    assert(move_of_entry(board, legal[i0]) == Some(m));
}

/// A candidate carrying the full origin and destination of a non-castle
/// move `m` is matched only by entries naming `m`: the entry's own origin
/// and destination pin the derivation down.
pub proof fn lemma_full_origin_agreement(
    c: Candidate,
    board: Seq<Option<Piece>>,
    legal: Seq<Seq<char>>,
    m: ResolvedMove,
)
    requires
        c.castle is None,
        c.to == Some(m.to),
        c.from_file == Some(m.from.file),
        c.from_rank == Some(m.from.rank),
        c.promotion == m.promotion,
        derived_move(board, m.from, m.to, m.promotion) == Some(m),
    ensures
        forall|j: int|
            0 <= j < legal.len() && #[trigger] entry_matches(c, board, legal[j])
                ==> move_of_entry(board, legal[j]) == Some(m),
{
    assert forall|j: int|
        0 <= j < legal.len() && #[trigger] entry_matches(c, board, legal[j]) implies move_of_entry(
        board,
        legal[j],
    ) == Some(m) by {
        let uj = legal[j];
        let tj = parse_coordinate(uj).unwrap();
        let mj = move_of_entry(board, uj).unwrap();
        assert(mj.from == tj.0 && mj.to == tj.1);
        assert(mj.from == m.from && mj.to == m.to);
        assert(mj.castle is None && mj.promotion == m.promotion);
        assert(mj == m);
    }
}

/// A candidate carrying the full origin and destination of a castle `m`
/// is matched only by entries naming `m`: any entry with the same origin
/// and destination derives the same castle.
pub proof fn lemma_full_origin_castle_agreement(
    c: Candidate,
    board: Seq<Option<Piece>>,
    legal: Seq<Seq<char>>,
    m: ResolvedMove,
)
    requires
        c.castle == m.castle,
        m.castle is Some,
        c.to == Some(m.to),
        c.from_file == Some(m.from.file),
        c.from_rank == Some(m.from.rank),
        derived_move(board, m.from, m.to, None) == Some(m),
    ensures
        forall|j: int|
            0 <= j < legal.len() && #[trigger] entry_matches(c, board, legal[j])
                ==> move_of_entry(board, legal[j]) == Some(m),
{
    assert forall|j: int|
        0 <= j < legal.len() && #[trigger] entry_matches(c, board, legal[j]) implies move_of_entry(
        board,
        legal[j],
    ) == Some(m) by {
        let uj = legal[j];
        let tj = parse_coordinate(uj).unwrap();
        let mj = move_of_entry(board, uj).unwrap();
        assert(mj.from == tj.0 && mj.to == tj.1);
        assert(mj.from == m.from && mj.to == m.to);
        assert(mj == m);
    }
}

/// A successfully resolved move's coordinate rendering is itself an entry
/// of the legal-move-token list it was resolved against, provided every
/// entry is canonical (as the rules engine's tokens are): resolution only
/// ever returns a member of the legal-move set.
pub proof fn lemma_resolution_yields_legal_token(
    s: Seq<char>,
    board: Seq<Option<Piece>>,
    legal: Seq<Seq<char>>,
    m: ResolvedMove,
)
    requires
        resolve_spec(s, board, legal) == Ok::<ResolvedMove, ResolutionError>(m),
        forall|i: int| 0 <= i < legal.len() ==> entry_canonical(board, #[trigger] legal[i]),
    ensures
        exists|i: int| 0 <= i < legal.len() && #[trigger] legal[i] == coord_chars(m),
{
    let c: Candidate = match parse_coordinate(s) {
        Some((from, to, promo)) => coordinate_candidate(
            occupant(board, from).unwrap(),
            board,
            from,
            to,
            promo,
        ),
        None => parse_algebraic(s).unwrap(),
    };
    assert(match_result(c, board, legal) == Ok::<ResolvedMove, ResolutionError>(m));
    assert(exists|i: int| 0 <= i < legal.len() && #[trigger] entry_matches(c, board, legal[i]));
    let i0 = choose|i: int| 0 <= i < legal.len() && #[trigger] entry_matches(c, board, legal[i]);
    assert(move_of_entry(board, legal[i0]) == Some(m));
    assert(entry_canonical(board, legal[i0]));
    assert(legal[i0] == coord_chars(m));
}

/// Resolving the coordinate-notation rendering of any member of the
/// legal-move set returns exactly that move.
pub proof fn lemma_coordinate_round_trip(
    board: Seq<Option<Piece>>,
    legal: Seq<Seq<char>>,
    k: int,
)
    requires
        0 <= k < legal.len(),
        move_of_entry(board, legal[k]) is Some,
    ensures
        ({
            let m = move_of_entry(board, legal[k]).unwrap();
            resolve_spec(coord_chars(m), board, legal) == Ok::<ResolvedMove, ResolutionError>(m)
        }),
{
    let u = legal[k];
    let t = parse_coordinate(u).unwrap();
    let from = t.0;
    let to = t.1;
    let p = occupant(board, from).unwrap();
    let m = move_of_entry(board, u).unwrap();
    let s = coord_chars(m);
    lemma_file_char_inverts(m.from.file);
    lemma_rank_char_inverts(m.from.rank);
    lemma_file_char_inverts(m.to.file);
    lemma_rank_char_inverts(m.to.rank);
    assert(m.from == from && m.to == to);
    match m.promotion {
        Some(r) => {
            assert(u.len() == 5 && promo_of_lower(u[4]) == Some(r));
            assert(r == PieceRole::Queen || r == PieceRole::Rook || r == PieceRole::Bishop || r
                == PieceRole::Knight);
            assert(promo_of_lower(lower_char_of_role(r)) == Some(r));
            assert(s.len() == 5);
            assert(parse_coordinate(s) == Some((m.from, m.to, m.promotion)));
        },
        None => {
            assert(s.len() == 4);
            assert(parse_coordinate(s) == Some((m.from, m.to, None::<PieceRole>)));
        },
    }
    assert(occupant(board, m.from) == Some(p));
    let c = coordinate_candidate(p, board, m.from, m.to, m.promotion);
    assert(candidate_matches(c, m));
    assert(entry_matches(c, board, legal[k]));
    if p.role == PieceRole::King && file_delta_is_two(m.from, m.to) {
        assert(derived_move(board, m.from, m.to, None) == Some(m));
        lemma_full_origin_castle_agreement(c, board, legal, m);
    } else {
        assert(derived_move(board, m.from, m.to, m.promotion) == Some(m));
        lemma_full_origin_agreement(c, board, legal, m);
    }
    lemma_match_unique(c, board, legal, k, m);
}

/// Resolving the algebraic-notation rendering of any member of the
/// legal-move set returns exactly that move, castling and promotion forms
/// included. For a castle, the bare castling token carries no origin, so
/// the legal-move set must hold at most one castle per side, as every
/// chess position's does.
pub proof fn lemma_algebraic_round_trip(board: Seq<Option<Piece>>, legal: Seq<Seq<char>>, k: int)
    requires
        0 <= k < legal.len(),
        move_of_entry(board, legal[k]) is Some,
        move_of_entry(board, legal[k]).unwrap().castle is Some ==> castles_unambiguous(
            board,
            legal,
        ),
    ensures
        ({
            let m = move_of_entry(board, legal[k]).unwrap();
            resolve_spec(algebraic_chars(m), board, legal) == Ok::<ResolvedMove, ResolutionError>(
                m,
            )
        }),
{
    let u = legal[k];
    let t = parse_coordinate(u).unwrap();
    let from = t.0;
    let to = t.1;
    let m = move_of_entry(board, u).unwrap();
    let s = algebraic_chars(m);
    lemma_file_char_inverts(m.from.file);
    lemma_rank_char_inverts(m.from.rank);
    lemma_file_char_inverts(m.to.file);
    lemma_rank_char_inverts(m.to.rank);
    assert(m.from == from && m.to == to);
    match m.castle {
        Some(side) => {
            if side == CastleSide::KingSide {
                assert(s == castle_king_token());
                assert(parse_coordinate(s) is None);
            } else {
                assert(s == castle_queen_token());
                assert(file_of_char(s[0]) is None);
                assert(parse_coordinate(s) is None);
            }
            let c = castle_candidate(side);
            assert(candidate_matches(c, m));
            assert(entry_matches(c, board, legal[k]));
            assert forall|j: int|
                0 <= j < legal.len() && #[trigger] entry_matches(c, board, legal[j])
                    implies move_of_entry(board, legal[j]) == Some(m) by {
                let mj = move_of_entry(board, legal[j]).unwrap();
                assert(mj.castle == Some(side));
                assert(match (move_of_entry(board, legal[k]), move_of_entry(board, legal[j])) {
                    (Some(mi), Some(mjj)) => (mi.castle is Some && mi.castle == mjj.castle)
                        ==> mi == mjj,
                    _ => true,
                });
                assert(mj == m);
            }
            lemma_match_unique(c, board, legal, k, m);
        },
        None => {
            let role_part: Seq<char> = if m.role == PieceRole::Pawn {
                seq![]
            } else {
                seq![upper_char_of_role(m.role)]
            };
            let origin: Seq<char> = seq![char_of_file(m.from.file), char_of_rank(m.from.rank)];
            let cap: Seq<char> = if m.capture {
                seq!['x']
            } else {
                seq![]
            };
            let dest: Seq<char> = seq![char_of_file(m.to.file), char_of_rank(m.to.rank)];
            let promo_part: Seq<char> = match m.promotion {
                Some(r) => seq!['=', upper_char_of_role(r)],
                None => seq![],
            };
            assert(s == role_part + origin + cap + dest + promo_part);
            match m.promotion {
                Some(r) => {
                    assert(u.len() == 5 && promo_of_lower(u[4]) == Some(r));
                    assert(r == PieceRole::Queen || r == PieceRole::Rook || r == PieceRole::Bishop
                        || r == PieceRole::Knight);
                    assert(promo_of_upper(upper_char_of_role(r)) == Some(r));
                },
                None => {},
            }
            if m.role == PieceRole::Pawn && !m.capture && m.promotion is None {
                assert(s =~= coord_chars(m));
                lemma_coordinate_round_trip(board, legal, k);
            } else {
                let n = s.len() as int;
                // not coordinate-shaped: a piece letter, a capture marker
                // or a promotion suffix is present
                if n == 4 || n == 5 {
                    if m.role != PieceRole::Pawn {
                        assert(s[0] == upper_char_of_role(m.role));
                        assert(file_of_char(s[0]) is None);
                    } else if m.capture {
                        assert(n == 5 && s[2] == 'x');
                        assert(file_of_char(s[2]) is None);
                    }
                    assert(parse_coordinate(s) is None);
                } else {
                    assert(parse_coordinate(s) is None);
                }
                assert(s[0] == (role_part + origin)[0]);
                assert(s[0] != 'O');
                assert(s != castle_king_token() && s != castle_queen_token()) by {
                    if s == castle_king_token() {
                        assert(s[0] == 'O');
                    }
                    if s == castle_queen_token() {
                        assert(s[0] == 'O');
                    }
                }
                // promotion suffix
                let core = role_part + origin + cap + dest;
                match m.promotion {
                    Some(r) => {
                        assert(s[n - 2] == '=' && s[n - 1] == upper_char_of_role(r));
                        assert(s.take(n - 2) =~= core);
                        assert(crate::resolver::split_promotion(s) == Some(
                            (core, Some(r)),
                        ));
                    },
                    None => {
                        assert(s[n - 2] == char_of_file(m.to.file));
                        assert(s[n - 2] != '=');
                        assert(crate::resolver::split_promotion(s) == Some(
                            (s, None::<PieceRole>),
                        ));
                        assert(s =~= core);
                    },
                }
                // piece letter
                let rest = origin + cap + dest;
                if m.role == PieceRole::Pawn {
                    assert(core[0] == char_of_file(m.from.file));
                    assert(role_of_upper(core[0]) is None);
                    assert(crate::resolver::split_role(core) == (PieceRole::Pawn, core));
                    assert(core =~= rest);
                } else {
                    assert(core[0] == upper_char_of_role(m.role));
                    assert(role_of_upper(core[0]) == Some(m.role));
                    assert(core.skip(1) =~= rest);
                    assert(crate::resolver::split_role(core) == (m.role, core.skip(1)));
                }
                // destination and capture marker
                let rn = rest.len() as int;
                assert(rest[rn - 2] == char_of_file(m.to.file) && rest[rn - 1] == char_of_rank(
                    m.to.rank,
                ));
                assert(rest.take(rn - 2) =~= origin + cap);
                let pre = origin + cap;
                if m.capture {
                    assert(pre[pre.len() - 1] == 'x');
                    assert(pre.take(pre.len() - 1) =~= origin);
                    assert(crate::resolver::split_destination(rest) == Some(
                        (origin, true, m.to),
                    ));
                } else {
                    assert(pre =~= origin);
                    assert(pre[pre.len() - 1] == char_of_rank(m.from.rank));
                    assert(pre[pre.len() - 1] != 'x');
                    assert(crate::resolver::split_destination(rest) == Some(
                        (origin, false, m.to),
                    ));
                }
                // disambiguation
                assert(crate::resolver::parse_disambiguation(origin) == Some(
                    (Some(m.from.file), Some(m.from.rank)),
                ));
                let c = Candidate {
                    castle: None,
                    role: m.role,
                    from_file: Some(m.from.file),
                    from_rank: Some(m.from.rank),
                    capture: m.capture,
                    to: Some(m.to),
                    promotion: m.promotion,
                };
                assert(parse_algebraic(s) == Some(c));
                assert(candidate_matches(c, m));
                assert(entry_matches(c, board, legal[k]));
                assert(derived_move(board, m.from, m.to, m.promotion) == Some(m));
                lemma_full_origin_agreement(c, board, legal, m);
                lemma_match_unique(c, board, legal, k, m);
            }
        },
    }
}

/// Resolving any coordinate token naming an empty origin square fails
/// with `NoPieceAtOrigin` -- and, the resolver being verified, never with
/// a panic.
pub proof fn lemma_empty_origin(s: Seq<char>, board: Seq<Option<Piece>>, legal: Seq<Seq<char>>)
    requires
        parse_coordinate(s) is Some,
        occupant(board, parse_coordinate(s).unwrap().0) is None,
    ensures
        resolve_spec(s, board, legal) == Err::<ResolvedMove, ResolutionError>(
            ResolutionError::NoPieceAtOrigin,
        ),
{
}

/// A grammatically valid token that matches no member of the legal-move
/// set -- a pinned piece's move, a castle after the king has moved, a
/// missing mandatory promotion -- fails with `IllegalMove`.
pub proof fn lemma_unmatched_is_illegal(
    s: Seq<char>,
    board: Seq<Option<Piece>>,
    legal: Seq<Seq<char>>,
)
    requires
        token_candidate(s, board) is Some,
        forall|j: int|
            0 <= j < legal.len() ==> !#[trigger] entry_matches(
                token_candidate(s, board).unwrap(),
                board,
                legal[j],
            ),
    ensures
        resolve_spec(s, board, legal) == Err::<ResolvedMove, ResolutionError>(
            ResolutionError::IllegalMove,
        ),
{
    let c = token_candidate(s, board).unwrap();
    assert(!exists|i: int| 0 <= i < legal.len() && #[trigger] entry_matches(c, board, legal[i]));
}

} // verus!
