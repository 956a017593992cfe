//! Squares, pieces and the 8x8 occupancy model.
//!
//! A position's occupancy is modelled as a sequence of 64 optional pieces,
//! indexed by `rank * 8 + file` (a1 first, h8 last), matching the square
//! numbering of the rules engine so that no transposition can occur between
//! the authoritative state and what is displayed.

use vstd::prelude::*;

verus! {

#[derive(Clone, Copy, PartialEq, Eq, Structural, Debug)]
pub enum PieceColor {
    White,
    Black,
}

#[derive(Clone, Copy, PartialEq, Eq, Structural, Debug)]
pub enum PieceRole {
    Pawn,
    Knight,
    Bishop,
    Rook,
    Queen,
    King,
}

#[derive(Clone, Copy, PartialEq, Eq, Structural, Debug)]
pub struct Piece {
    pub color: PieceColor,
    pub role: PieceRole,
}

/// A board coordinate: file 0..=7 stands for a..h, rank 0..=7 for 1..8.
#[derive(Clone, Copy, PartialEq, Eq, Structural, Debug)]
pub struct Square {
    pub file: u8,
    pub rank: u8,
}

impl Square {
    pub open spec fn wf(self) -> bool {
        self.file < 8 && self.rank < 8
    }

    pub open spec fn index(self) -> int {
        self.rank as int * 8 + self.file as int
    }

    pub fn idx(self) -> (r: usize)
        requires
            self.wf(),
        ensures
            r == self.index(),
    {
        self.rank as usize * 8 + self.file as usize
    }
}

/// The piece standing on `s`, or `None` for an empty square (or an
/// out-of-shape board, so that the definition is total).
pub open spec fn occupant(board: Seq<Option<Piece>>, s: Square) -> Option<Piece> {
    if s.wf() && board.len() == 64 {
        board[s.index()]
    } else {
        None
    }
}

pub fn occupant_at(board: &Vec<Option<Piece>>, s: Square) -> (r: Option<Piece>)
    requires
        board@.len() == 64,
        s.wf(),
    ensures
        r == occupant(board@, s),
{
    board[s.idx()]
}

/// The piece on `file` of a back rank in the standard starting position.
pub open spec fn back_rank_role(file: int) -> PieceRole {
    if file == 0 || file == 7 {
        PieceRole::Rook
    } else if file == 1 || file == 6 {
        PieceRole::Knight
    } else if file == 2 || file == 5 {
        PieceRole::Bishop
    } else if file == 3 {
        PieceRole::Queen
    } else {
        PieceRole::King
    }
}

pub open spec fn starting_occupant(i: int) -> Option<Piece> {
    let rank = i / 8;
    let file = i % 8;
    if rank == 0 {
        Some(Piece { color: PieceColor::White, role: back_rank_role(file) })
    } else if rank == 1 {
        Some(Piece { color: PieceColor::White, role: PieceRole::Pawn })
    } else if rank == 6 {
        Some(Piece { color: PieceColor::Black, role: PieceRole::Pawn })
    } else if rank == 7 {
        Some(Piece { color: PieceColor::Black, role: back_rank_role(file) })
    } else {
        None
    }
}

/// The occupancy of the standard starting position.
pub open spec fn starting_board() -> Seq<Option<Piece>> {
    Seq::new(64, |i: int| starting_occupant(i))
}

/// Display letter for a square: upper case for White, lower case for
/// Black, `.` for an empty square.
pub open spec fn glyph_of(o: Option<Piece>) -> char {
    match o {
        None => '.',
        Some(p) => match (p.color, p.role) {
            (PieceColor::White, PieceRole::Pawn) => 'P',
            (PieceColor::White, PieceRole::Knight) => 'N',
            (PieceColor::White, PieceRole::Bishop) => 'B',
            (PieceColor::White, PieceRole::Rook) => 'R',
            (PieceColor::White, PieceRole::Queen) => 'Q',
            (PieceColor::White, PieceRole::King) => 'K',
            (PieceColor::Black, PieceRole::Pawn) => 'p',
            (PieceColor::Black, PieceRole::Knight) => 'n',
            (PieceColor::Black, PieceRole::Bishop) => 'b',
            (PieceColor::Black, PieceRole::Rook) => 'r',
            (PieceColor::Black, PieceRole::Queen) => 'q',
            (PieceColor::Black, PieceRole::King) => 'k',
        },
    }
}

pub fn glyph_byte(o: Option<Piece>) -> (b: u8)
    ensures
        b < 128,
        b as char == glyph_of(o),
{
    match o {
        None => 46,
        Some(p) => match (p.color, p.role) {
            (PieceColor::White, PieceRole::Pawn) => 80,
            (PieceColor::White, PieceRole::Knight) => 78,
            (PieceColor::White, PieceRole::Bishop) => 66,
            (PieceColor::White, PieceRole::Rook) => 82,
            (PieceColor::White, PieceRole::Queen) => 81,
            (PieceColor::White, PieceRole::King) => 75,
            (PieceColor::Black, PieceRole::Pawn) => 112,
            (PieceColor::Black, PieceRole::Knight) => 110,
            (PieceColor::Black, PieceRole::Bishop) => 98,
            (PieceColor::Black, PieceRole::Rook) => 114,
            (PieceColor::Black, PieceRole::Queen) => 113,
            (PieceColor::Black, PieceRole::King) => 107,
        },
    }
}

/// Character `j` of the rendering: rank 8 first, each rank's eight glyphs
/// separated by single spaces, each rank ended by a line break, sixteen
/// characters per rank row.
pub open spec fn rendering_char(board: Seq<Option<Piece>>, j: int) -> char {
    let row = j / 16;
    let col = j % 16;
    if col % 2 == 0 {
        glyph_of(occupant(board, Square { file: (col / 2) as u8, rank: (7 - row) as u8 }))
    } else if col == 15 {
        '\n'
    } else {
        ' '
    }
}

/// The square-by-square view of the board as displayed: rank 8 down to
/// rank 1, files a to h within a rank.
pub open spec fn board_rendering(board: Seq<Option<Piece>>) -> Seq<char> {
    Seq::new(128, |j: int| rendering_char(board, j))
}

/// The first `n` characters of the rendering stand, as bytes, in `bytes`.
pub open spec fn rendering_prefix(bytes: Seq<u8>, board: Seq<Option<Piece>>) -> bool {
    forall|j: int|
        0 <= j < bytes.len() ==> #[trigger] bytes[j] < 128 && (bytes[j] as char)
            == rendering_char(board, j)
}

pub fn render_board(board: &Vec<Option<Piece>>) -> (r: String)
    requires
        board@.len() == 64,
    ensures
        r@ == board_rendering(board@),
{
    let mut bytes: Vec<u8> = Vec::new();
    let mut row: usize = 0;
    while row < 8
        invariant
            board@.len() == 64,
            row <= 8,
            bytes@.len() == row * 16,
            rendering_prefix(bytes@, board@),
        decreases 8 - row,
    {
        let mut file: usize = 0;
        while file < 8
            invariant
                board@.len() == 64,
                row < 8,
                file <= 8,
                bytes@.len() == row * 16 + file * 2,
                rendering_prefix(bytes@, board@),
            decreases 8 - file,
        {
            let s = Square { file: file as u8, rank: (7 - row) as u8 };
            let g = glyph_byte(occupant_at(board, s));
            let sep: u8 = if file == 7 {
                10
            } else {
                32
            };
            let ghost old_bytes = bytes@;
            let ghost j0 = bytes@.len() as int;
            bytes.push(g);
            bytes.push(sep);
            proof {
                assert(j0 / 16 == row && j0 % 16 == file * 2 && (j0 + 1) / 16 == row && (j0 + 1)
                    % 16 == file * 2 + 1) by (nonlinear_arith)
                    requires
                        j0 == row * 16 + file * 2,
                        0 <= row < 8,
                        0 <= file < 8,
                ;
                assert forall|j: int| 0 <= j < bytes@.len() implies #[trigger] bytes@[j] < 128 && (
                bytes@[j] as char) == rendering_char(board@, j) by {
                    if j < j0 {
                        assert(bytes@[j] == old_bytes[j]);
                        assert(old_bytes[j] as char == rendering_char(board@, j));
                    } else if j == j0 {
                        assert(bytes@[j] == g);
                    } else {
                        assert(j == j0 + 1);
                        assert(bytes@[j] == sep);
                    }
                }
            }
            file = file + 1;
        }
        row = row + 1;
    }
    let r = crate::text::ascii_string(bytes);
    proof {
        assert forall|j: int| 0 <= j < 128 implies r@[j] == board_rendering(board@)[j] by {
            assert(bytes@[j] as char == rendering_char(board@, j));
        }
        assert(r@ =~= board_rendering(board@));
    }
    r
}

} // verus!
