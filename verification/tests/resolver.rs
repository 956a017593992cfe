use chess_session::board::{glyph_byte, render_board, Piece, PieceColor, PieceRole, Square};
use chess_session::moves::{coordinate_text, CastleSide, ResolvedMove};
use chess_session::resolver::{resolve, ResolutionError};

fn empty_board() -> Vec<Option<Piece>> {
    let mut v = Vec::new();
    for _ in 0..64 {
        v.push(None);
    }
    v
}

fn put(board: &mut Vec<Option<Piece>>, file: u8, rank: u8, color: PieceColor, role: PieceRole) {
    board[(rank as usize) * 8 + (file as usize)] = Some(Piece { color, role });
}

fn tokens(ts: &[&str]) -> Vec<String> {
    ts.iter().map(|t| t.to_string()).collect()
}

#[test]
fn empty_origin_fails_with_no_piece_at_origin() {
    let board = empty_board();
    let legal = tokens(&["e2e4"]);
    let r = resolve("e2e4", &board, &legal);
    assert_eq!(r, Err(ResolutionError::NoPieceAtOrigin));
}

#[test]
fn coordinate_pawn_push_resolves() {
    let mut board = empty_board();
    put(&mut board, 4, 1, PieceColor::White, PieceRole::Pawn);
    let legal = tokens(&["e2e3", "e2e4"]);
    let m = resolve("e2e4", &board, &legal).expect("listed move resolves");
    assert_eq!(
        m,
        ResolvedMove {
            role: PieceRole::Pawn,
            from: Square { file: 4, rank: 1 },
            to: Square { file: 4, rank: 3 },
            capture: false,
            promotion: None,
            castle: None,
        }
    );
    assert_eq!(coordinate_text(&m), "e2e4");
}

#[test]
fn unlisted_move_is_illegal() {
    let mut board = empty_board();
    put(&mut board, 4, 1, PieceColor::White, PieceRole::Pawn);
    let legal = tokens(&["e2e3"]);
    let r = resolve("e2e4", &board, &legal);
    assert_eq!(r, Err(ResolutionError::IllegalMove));
}

#[test]
fn malformed_text_is_a_parse_error() {
    let board = empty_board();
    let legal = tokens(&[]);
    assert_eq!(resolve("hello?", &board, &legal), Err(ResolutionError::ParseError));
    assert_eq!(resolve("", &board, &legal), Err(ResolutionError::ParseError));
    assert_eq!(resolve("e9e4", &board, &legal), Err(ResolutionError::ParseError));
}

#[test]
fn ambiguous_algebraic_is_illegal_until_disambiguated() {
    let mut board = empty_board();
    put(&mut board, 1, 0, PieceColor::White, PieceRole::Knight);
    put(&mut board, 5, 2, PieceColor::White, PieceRole::Knight);
    let legal = tokens(&["b1d2", "f3d2"]);
    assert_eq!(resolve("Nd2", &board, &legal), Err(ResolutionError::IllegalMove));
    let m = resolve("Nbd2", &board, &legal).expect("file disambiguates");
    assert_eq!(m.from, Square { file: 1, rank: 0 });
    let m2 = resolve("Nb1d2", &board, &legal).expect("full origin disambiguates");
    assert_eq!(m2, m);
}

#[test]
fn algebraic_capture_marker_respects_occupancy() {
    let mut board = empty_board();
    put(&mut board, 4, 3, PieceColor::White, PieceRole::Pawn);
    put(&mut board, 3, 4, PieceColor::Black, PieceRole::Pawn);
    let legal = tokens(&["e4d5", "e4e5"]);
    let m = resolve("exd5", &board, &legal).expect("capture resolves");
    assert!(m.capture);
    assert_eq!(m.to, Square { file: 3, rank: 4 });
}

#[test]
fn coordinate_castle_classifies_side() {
    let mut board = empty_board();
    put(&mut board, 4, 0, PieceColor::White, PieceRole::King);
    put(&mut board, 7, 0, PieceColor::White, PieceRole::Rook);
    put(&mut board, 0, 0, PieceColor::White, PieceRole::Rook);
    let legal = tokens(&["e1g1", "e1c1", "e1f1"]);
    let k = resolve("e1g1", &board, &legal).expect("king-side castle");
    assert_eq!(k.castle, Some(CastleSide::KingSide));
    let q = resolve("e1c1", &board, &legal).expect("queen-side castle");
    assert_eq!(q.castle, Some(CastleSide::QueenSide));
    let plain = resolve("e1f1", &board, &legal).expect("one-square king move");
    assert_eq!(plain.castle, None);
    assert_eq!(resolve("O-O", &board, &legal).unwrap(), k);
    assert_eq!(resolve("O-O-O", &board, &legal).unwrap(), q);
}

#[test]
fn promotion_suffix_is_exact() {
    let mut board = empty_board();
    put(&mut board, 4, 6, PieceColor::White, PieceRole::Pawn);
    let legal = tokens(&["e7e8q", "e7e8r", "e7e8b", "e7e8n"]);
    let m = resolve("e7e8q", &board, &legal).expect("promotion resolves");
    assert_eq!(m.promotion, Some(PieceRole::Queen));
    assert_eq!(coordinate_text(&m), "e7e8q");
    assert_eq!(resolve("e7e8", &board, &legal), Err(ResolutionError::IllegalMove));
    let n = resolve("e8=N", &board, &legal).expect("algebraic promotion resolves");
    assert_eq!(n.promotion, Some(PieceRole::Knight));
}

#[test]
fn rendering_shows_each_side_distinctly() {
    let mut board = empty_board();
    put(&mut board, 0, 0, PieceColor::White, PieceRole::Rook);
    put(&mut board, 7, 7, PieceColor::Black, PieceRole::Rook);
    let r = render_board(&board);
    let lines: Vec<&str> = r.lines().collect();
    assert_eq!(lines.len(), 8);
    assert_eq!(lines[0], ". . . . . . . r");
    assert_eq!(lines[7], "R . . . . . . .");
    assert_eq!(
        glyph_byte(Some(Piece { color: PieceColor::White, role: PieceRole::Queen })),
        b'Q'
    );
    assert_eq!(glyph_byte(None), b'.');
}
