//! The trusted interface to the external rules engine (`shakmaty`).
//!
//! A position is an opaque value owned by the rules engine; the library
//! reads it only through the wrappers below, whose contracts name what a
//! position holds: its occupancy, its side to move, the coordinate tokens
//! of its legal moves and its FEN encoding. Everything downstream of these
//! names is verified; the names themselves are facts about `shakmaty`
//! taken on trust.

use vstd::prelude::*;
use crate::board::{starting_board, Piece, PieceColor, PieceRole};
use crate::resolver::entry_canonical;
use shakmaty::Position;

verus! {

#[verifier::external_type_specification]
#[verifier::external_body]
pub struct ExChess(shakmaty::Chess);

/// The occupancy of position `p`: 64 squares, `rank * 8 + file` order.
pub uninterp spec fn board_of(p: shakmaty::Chess) -> Seq<Option<Piece>>;

/// The coordinate tokens of the legal moves of position `p`.
pub uninterp spec fn legal_ucis_of(p: shakmaty::Chess) -> Set<Seq<char>>;

/// The side to move in position `p`.
pub uninterp spec fn turn_of(p: shakmaty::Chess) -> PieceColor;

/// The FEN encoding of position `p`.
pub uninterp spec fn fen_of(p: shakmaty::Chess) -> Seq<char>;

/// The successor of position `p` under the move named by coordinate token
/// `u`, or nothing when `u` names no legal move: what interpreting and
/// playing the token through the rules engine yields, a function of the
/// position and the token alone.
pub uninterp spec fn play_of(p: shakmaty::Chess, u: Seq<char>) -> Option<shakmaty::Chess>;

/// Relies on `shakmaty::Chess::default`: the standard starting position,
/// with White to move.
#[verifier::external_body]
pub(crate) fn starting_position() -> (r: shakmaty::Chess)
    ensures
        board_of(r) == starting_board(),
        turn_of(r) == PieceColor::White,
{
    shakmaty::Chess::default()
}

/// Relies on `shakmaty::Board::piece_at`, reading the 64 squares in
/// `shakmaty`'s square order (a1 is 0, h8 is 63).
#[verifier::external_body]
pub(crate) fn board_squares(p: &shakmaty::Chess) -> (r: Vec<Option<Piece>>)
    ensures
        r@ == board_of(*p),
        r@.len() == 64,
{
    let mut v: Vec<Option<Piece>> = Vec::with_capacity(64);
    for i in 0..64u32 {
        v.push(p.board().piece_at(shakmaty::Square::new(i)).map(|pc| {
            let color = if pc.color.is_white() { PieceColor::White } else { PieceColor::Black };
            let role = match pc.role {
                shakmaty::Role::Pawn => PieceRole::Pawn, shakmaty::Role::Knight => PieceRole::Knight,
                shakmaty::Role::Bishop => PieceRole::Bishop, shakmaty::Role::Rook => PieceRole::Rook,
                shakmaty::Role::Queen => PieceRole::Queen, shakmaty::Role::King => PieceRole::King,
            };
            Piece { color, role }
        }));
    }
    v
}

/// Relies on `shakmaty::Position::legal_moves` and
/// `shakmaty::uci::UciMove::from_standard`: one coordinate token per legal
/// move, castling written as the king's two-file move. Every token is
/// canonical for the position's occupancy: a legal move starts from an
/// occupied square, its token is the lower-case
/// `<file><rank><file><rank>[<promotion>]` rendering with a promotion
/// letter (from q r b n) exactly on pawn promotions, and a castle token is
/// the king's own two-file move, so deriving a move from the token and
/// re-rendering it reproduces the token.
#[verifier::external_body]
pub(crate) fn legal_ucis(p: &shakmaty::Chess) -> (r: Vec<String>)
    ensures
        r@.map_values(|s: String| s@).to_set() == legal_ucis_of(*p),
        forall|i: int| 0 <= i < r@.len() ==> entry_canonical(board_of(*p), r@[i]@),
{
    let mut v: Vec<String> = Vec::new();
    for m in p.legal_moves() {
        v.push(shakmaty::uci::UciMove::from_standard(m).to_string());
    }
    v
}

/// Relies on `shakmaty::Position::turn`.
#[verifier::external_body]
pub(crate) fn turn_color(p: &shakmaty::Chess) -> (r: PieceColor)
    ensures
        r == turn_of(*p),
{
    match p.turn() {
        shakmaty::Color::White => PieceColor::White,
        shakmaty::Color::Black => PieceColor::Black,
    }
}

/// Relies on `shakmaty::fen::Fen::from_position` with en-passant squares
/// always written.
#[verifier::external_body]
pub(crate) fn fen_text(p: &shakmaty::Chess) -> (r: String)
    ensures
        r@ == fen_of(*p),
{
    shakmaty::fen::Fen::from_position(p, shakmaty::EnPassantMode::Always).to_string()
}

/// Relies on `shakmaty::uci::UciMove::to_move` and
/// `shakmaty::Position::play`: the coordinate token is interpreted against
/// `p` and played if it names a legal move, else nothing is returned. The
/// outcome is a function of the position and the token alone; a token of
/// the position's own legal-move set always converts back to its legal
/// move and plays; and the side to move of the successor is the opposite
/// of `p`'s, since playing any move hands the turn over.
#[verifier::external_body]
pub(crate) fn play_uci(p: &shakmaty::Chess, text: &str) -> (r: Option<shakmaty::Chess>)
    ensures
        r == play_of(*p, text@),
        legal_ucis_of(*p).contains(text@) ==> r is Some,
        r matches Some(q) ==> turn_of(q) != turn_of(*p),
{
    match shakmaty::uci::UciMove::from_ascii(text.as_bytes()) {
        Err(_) => None,
        Ok(u) => match u.to_move(p) {
            Err(_) => None,
            Ok(m) => match p.clone().play(m) {
                Ok(next) => Some(next),
                Err(_) => None,
            },
        },
    }
}

} // verus!
