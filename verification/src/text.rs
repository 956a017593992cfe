//! Character-level notation tables and small text utilities.
//!
//! Move text uses lower-case file letters `a..h`, rank digits `1..8`,
//! lower-case promotion letters `q r b n` in coordinate notation, and
//! upper-case piece letters `K Q R B N` in algebraic notation.

use vstd::prelude::*;
use crate::board::PieceRole;

verus! {

/// File index named by a letter: `a..h` stand for 0..7.
pub open spec fn file_of_char(c: char) -> Option<u8> {
    if 'a' as int <= c as int <= 'h' as int {
        Some((c as int - 'a' as int) as u8)
    } else {
        None
    }
}

/// Rank index named by a digit: `1..8` stand for 0..7.
pub open spec fn rank_of_char(c: char) -> Option<u8> {
    if '1' as int <= c as int <= '8' as int {
        Some((c as int - '1' as int) as u8)
    } else {
        None
    }
}

/// The letter that names file `f` in move text.
pub open spec fn char_of_file(f: u8) -> char {
    ((('a' as int) + f as int) as u8) as char
}

/// The digit that names rank `r` in move text.
pub open spec fn char_of_rank(r: u8) -> char {
    ((('1' as int) + r as int) as u8) as char
}

/// Promotion role named by a lower-case letter in coordinate notation.
pub open spec fn promo_of_lower(c: char) -> Option<PieceRole> {
    match c {
        'q' => Some(PieceRole::Queen),
        'r' => Some(PieceRole::Rook),
        'b' => Some(PieceRole::Bishop),
        'n' => Some(PieceRole::Knight),
        _ => None,
    }
}

/// Promotion role named by an upper-case letter after `=` in algebraic
/// notation.
pub open spec fn promo_of_upper(c: char) -> Option<PieceRole> {
    match c {
        'Q' => Some(PieceRole::Queen),
        'R' => Some(PieceRole::Rook),
        'B' => Some(PieceRole::Bishop),
        'N' => Some(PieceRole::Knight),
        _ => None,
    }
}

/// Piece letter opening an algebraic token; pawns have no letter.
pub open spec fn role_of_upper(c: char) -> Option<PieceRole> {
    match c {
        'K' => Some(PieceRole::King),
        'Q' => Some(PieceRole::Queen),
        'R' => Some(PieceRole::Rook),
        'B' => Some(PieceRole::Bishop),
        'N' => Some(PieceRole::Knight),
        _ => None,
    }
}

/// Lower-case letter for a role, as coordinate notation writes promotions.
pub open spec fn lower_char_of_role(r: PieceRole) -> char {
    match r {
        PieceRole::Pawn => 'p',
        PieceRole::Knight => 'n',
        PieceRole::Bishop => 'b',
        PieceRole::Rook => 'r',
        PieceRole::Queen => 'q',
        PieceRole::King => 'k',
    }
}

/// Upper-case letter for a role, as algebraic notation writes pieces.
pub open spec fn upper_char_of_role(r: PieceRole) -> char {
    match r {
        PieceRole::Pawn => 'P',
        PieceRole::Knight => 'N',
        PieceRole::Bishop => 'B',
        PieceRole::Rook => 'R',
        PieceRole::Queen => 'Q',
        PieceRole::King => 'K',
    }
}

pub fn file_from_char(c: char) -> (r: Option<u8>)
    ensures
        r == file_of_char(c),
{
    match c {
        'a' => Some(0),
        'b' => Some(1),
        'c' => Some(2),
        'd' => Some(3),
        'e' => Some(4),
        'f' => Some(5),
        'g' => Some(6),
        'h' => Some(7),
        _ => None,
    }
}

pub fn rank_from_char(c: char) -> (r: Option<u8>)
    ensures
        r == rank_of_char(c),
{
    match c {
        '1' => Some(0),
        '2' => Some(1),
        '3' => Some(2),
        '4' => Some(3),
        '5' => Some(4),
        '6' => Some(5),
        '7' => Some(6),
        '8' => Some(7),
        _ => None,
    }
}

pub fn promo_from_lower(c: char) -> (r: Option<PieceRole>)
    ensures
        r == promo_of_lower(c),
{
    match c {
        'q' => Some(PieceRole::Queen),
        'r' => Some(PieceRole::Rook),
        'b' => Some(PieceRole::Bishop),
        'n' => Some(PieceRole::Knight),
        _ => None,
    }
}

pub fn promo_from_upper(c: char) -> (r: Option<PieceRole>)
    ensures
        r == promo_of_upper(c),
{
    match c {
        'Q' => Some(PieceRole::Queen),
        'R' => Some(PieceRole::Rook),
        'B' => Some(PieceRole::Bishop),
        'N' => Some(PieceRole::Knight),
        _ => None,
    }
}

pub fn role_from_upper(c: char) -> (r: Option<PieceRole>)
    ensures
        r == role_of_upper(c),
{
    match c {
        'K' => Some(PieceRole::King),
        'Q' => Some(PieceRole::Queen),
        'R' => Some(PieceRole::Rook),
        'B' => Some(PieceRole::Bishop),
        'N' => Some(PieceRole::Knight),
        _ => None,
    }
}

pub fn lower_byte_of_role(r: PieceRole) -> (b: u8)
    ensures
        b < 128,
        b as char == lower_char_of_role(r),
{
    match r {
        PieceRole::Pawn => 112,
        PieceRole::Knight => 110,
        PieceRole::Bishop => 98,
        PieceRole::Rook => 114,
        PieceRole::Queen => 113,
        PieceRole::King => 107,
    }
}

/// The characters of `s`, materialized for index-based parsing.
pub fn chars_of(s: &str) -> (r: Vec<char>)
    ensures
        r@ == s@,
{
    let n = s.unicode_len();
    let mut v: Vec<char> = Vec::new();
    let mut i: usize = 0;
    while i < n
        invariant
            i <= n,
            n == s@.len(),
            v@ == s@.take(i as int),
        decreases n - i,
    {
        let c = s.get_char(i);
        v.push(c);
        proof {
            assert(s@.take(i as int).push(s@[i as int]) =~= s@.take(i + 1 as int));
        }
        i = i + 1;
    }
    proof {
        assert(s@.take(n as int) =~= s@);
    }
    v
}

/// A copy of `v[lo..hi]`.
pub fn subvec(v: &Vec<char>, lo: usize, hi: usize) -> (r: Vec<char>)
    requires
        lo <= hi <= v@.len(),
    ensures
        r@ == v@.subrange(lo as int, hi as int),
{
    let mut r: Vec<char> = Vec::new();
    let mut i: usize = lo;
    while i < hi
        invariant
            lo <= i <= hi <= v@.len(),
            r@ == v@.subrange(lo as int, i as int),
        decreases hi - i,
    {
        let c = v[i];
        r.push(c);
        proof {
            assert(v@.subrange(lo as int, i as int).push(v@[i as int]) =~= v@.subrange(
                lo as int,
                i + 1 as int,
            ));
        }
        i = i + 1;
    }
    r
}

/// Relies on `String::from_utf8`: a vector of ASCII bytes is valid UTF-8
/// and decodes to one character per byte, each the character with that
/// byte's value.
#[verifier::external_body]
pub(crate) fn ascii_string(bytes: Vec<u8>) -> (r: String)
    requires
        forall|i: int| 0 <= i < bytes@.len() ==> bytes@[i] < 128,
    ensures
        r@ == bytes@.map_values(|b: u8| b as char),
{
    match String::from_utf8(bytes) {
        Ok(s) => s,
        Err(_) => String::new(),
    }
}

} // verus!
