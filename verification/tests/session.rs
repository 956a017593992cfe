use chess_session::board::{Piece, PieceColor, PieceRole};
use chess_session::moves::CastleSide;
use chess_session::resolver::ResolutionError;
use chess_session::session::{GameSession, Phase, SessionError};

const START_RENDERING: &str = "r n b q k b n r\np p p p p p p p\n. . . . . . . .\n. . . . . . . .\n. . . . . . . .\n. . . . . . . .\nP P P P P P P P\nR N B Q K B N R\n";

#[test]
fn new_session_starts_at_standard_position() {
    let s = GameSession::new();
    assert_eq!(s.current_phase(), Phase::AwaitingHumanMove);
    assert_eq!(s.side_to_move(), PieceColor::White);
    assert!(s.history().is_empty());
    assert_eq!(s.render(), START_RENDERING);
    assert_eq!(
        s.export_position(),
        "rnbqkbnr/pppppppp/8/8/8/8/PPPPPPPP/RNBQKBNR w KQkq - 0 1"
    );
    assert_eq!(s.legal_moves_coordinate().len(), 20);
    let board = s.board_occupancy();
    assert_eq!(
        board[4],
        Some(Piece { color: PieceColor::White, role: PieceRole::King })
    );
    assert_eq!(
        board[60],
        Some(Piece { color: PieceColor::Black, role: PieceRole::King })
    );
    assert_eq!(board[28], None);
}

#[test]
fn opening_round_updates_turn_and_history() {
    let mut s = GameSession::new();
    let m = s.apply_human_move("e2e4").expect("e2e4 is legal");
    assert_eq!(m.role, PieceRole::Pawn);
    assert!(!m.capture);
    assert_eq!(s.side_to_move(), PieceColor::Black);
    assert_eq!(s.current_phase(), Phase::AwaitingEngineMove);
    assert_eq!(s.history(), &vec!["e2e4".to_string()]);
    assert_eq!(
        s.export_position(),
        "rnbqkbnr/pppppppp/8/8/4P3/8/PPPP1PPP/RNBQKBNR b KQkq e3 0 1"
    );
    s.apply_engine_move("c7c5").expect("c7c5 is legal");
    assert_eq!(s.side_to_move(), PieceColor::White);
    assert_eq!(s.current_phase(), Phase::AwaitingHumanMove);
    assert_eq!(s.history(), &vec!["e2e4".to_string(), "c7c5".to_string()]);
}

#[test]
fn illegal_jump_is_rejected_and_state_unchanged() {
    let mut s = GameSession::new();
    let before_render = s.render();
    let before_fen = s.export_position();
    let r = s.apply_human_move("e2e5");
    assert_eq!(
        r,
        Err(SessionError::Resolution(ResolutionError::IllegalMove))
    );
    assert_eq!(s.current_phase(), Phase::AwaitingHumanMove);
    assert_eq!(s.side_to_move(), PieceColor::White);
    assert!(s.history().is_empty());
    assert_eq!(s.render(), before_render);
    assert_eq!(s.export_position(), before_fen);
}

#[test]
fn failed_engine_move_leaves_state_unchanged() {
    let mut s = GameSession::new();
    s.apply_human_move("e2e4").unwrap();
    let before_fen = s.export_position();
    let r = s.apply_engine_move("zz9");
    assert_eq!(r, Err(SessionError::Resolution(ResolutionError::ParseError)));
    assert_eq!(s.current_phase(), Phase::AwaitingEngineMove);
    assert_eq!(s.export_position(), before_fen);
    assert_eq!(s.history(), &vec!["e2e4".to_string()]);
}

#[test]
fn empty_origin_square_is_reported() {
    let mut s = GameSession::new();
    let r = s.apply_human_move("e4e5");
    assert_eq!(
        r,
        Err(SessionError::Resolution(ResolutionError::NoPieceAtOrigin))
    );
    assert!(s.history().is_empty());
}

fn play_to_castling_position(s: &mut GameSession) {
    s.apply_human_move("e2e4").unwrap();
    s.apply_engine_move("e7e5").unwrap();
    s.apply_human_move("g1f3").unwrap();
    s.apply_engine_move("b8c6").unwrap();
    s.apply_human_move("f1c4").unwrap();
    s.apply_engine_move("g8f6").unwrap();
}

#[test]
fn king_side_castle_by_coordinate_token() {
    let mut s = GameSession::new();
    play_to_castling_position(&mut s);
    let m = s.apply_human_move("e1g1").expect("castling is legal");
    assert_eq!(m.castle, Some(CastleSide::KingSide));
    assert_eq!(m.role, PieceRole::King);
    assert_eq!(s.history().last().unwrap(), "e1g1");
}

#[test]
fn king_side_castle_by_algebraic_token() {
    let mut s = GameSession::new();
    play_to_castling_position(&mut s);
    let m = s.apply_human_move("O-O").expect("castling is legal");
    assert_eq!(m.castle, Some(CastleSide::KingSide));
    assert_eq!(s.history().last().unwrap(), "e1g1");
}

#[test]
fn castle_after_king_moved_is_illegal() {
    let mut s = GameSession::new();
    play_to_castling_position(&mut s);
    s.apply_human_move("e1f1").unwrap();
    s.apply_engine_move("h7h6").unwrap();
    s.apply_human_move("f1e1").unwrap();
    s.apply_engine_move("h6h5").unwrap();
    let r = s.apply_human_move("e1g1");
    assert_eq!(
        r,
        Err(SessionError::Resolution(ResolutionError::IllegalMove))
    );
}

#[test]
fn queen_side_castle_by_algebraic_token() {
    let mut s = GameSession::new();
    s.apply_human_move("d2d4").unwrap();
    s.apply_engine_move("d7d5").unwrap();
    s.apply_human_move("c1f4").unwrap();
    s.apply_engine_move("b8c6").unwrap();
    s.apply_human_move("b1c3").unwrap();
    s.apply_engine_move("g8f6").unwrap();
    s.apply_human_move("d1d2").unwrap();
    s.apply_engine_move("e7e6").unwrap();
    let m = s.apply_human_move("O-O-O").expect("queen-side castling is legal");
    assert_eq!(m.castle, Some(CastleSide::QueenSide));
    assert_eq!(s.history().last().unwrap(), "e1c1");
}

#[test]
fn en_passant_is_played_through_the_rules_engine() {
    let mut s = GameSession::new();
    s.apply_human_move("e2e4").unwrap();
    s.apply_engine_move("a7a6").unwrap();
    s.apply_human_move("e4e5").unwrap();
    s.apply_engine_move("d7d5").unwrap();
    let m = s.apply_human_move("e5d6").expect("en passant is legal");
    assert_eq!(m.role, PieceRole::Pawn);
    assert_eq!(s.history().last().unwrap(), "e5d6");
    let board = s.board_occupancy();
    // the captured pawn is gone from d5, the capturing pawn stands on d6
    assert_eq!(board[35], None);
    assert_eq!(
        board[43],
        Some(Piece { color: PieceColor::White, role: PieceRole::Pawn })
    );
}

#[test]
fn promotion_requires_and_takes_suffix() {
    let mut s = GameSession::new();
    s.apply_human_move("h2h4").unwrap();
    s.apply_engine_move("g7g5").unwrap();
    s.apply_human_move("h4g5").unwrap();
    s.apply_engine_move("g8h6").unwrap();
    s.apply_human_move("g5g6").unwrap();
    s.apply_engine_move("h6g4").unwrap();
    s.apply_human_move("g6g7").unwrap();
    s.apply_engine_move("g4e5").unwrap();
    let bare = s.apply_human_move("g7g8");
    assert_eq!(
        bare,
        Err(SessionError::Resolution(ResolutionError::IllegalMove))
    );
    let m = s.apply_human_move("g7g8q").expect("promotion is legal");
    assert_eq!(m.promotion, Some(PieceRole::Queen));
    assert_eq!(s.history().last().unwrap(), "g7g8q");
}

#[test]
fn algebraic_and_coordinate_agree_on_knight_move() {
    let mut a = GameSession::new();
    let mut b = GameSession::new();
    let ma = a.apply_human_move("g1f3").unwrap();
    let mb = b.apply_human_move("Nf3").unwrap();
    assert_eq!(ma, mb);
    assert_eq!(a.history(), b.history());
}

#[test]
fn pawn_capture_algebraic() {
    let mut s = GameSession::new();
    s.apply_human_move("e2e4").unwrap();
    s.apply_engine_move("d7d5").unwrap();
    let m = s.apply_human_move("exd5").expect("capture is legal");
    assert!(m.capture);
    assert_eq!(s.history().last().unwrap(), "e4d5");
}
