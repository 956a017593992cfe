//! The authoritative game state: current position and move history.
//!
//! A session alternates strictly between awaiting the human's move and
//! awaiting the engine's. Each `apply_*` call resolves the given text
//! against the current legal-move set, and on success replaces the
//! position wholesale with the successor produced by the rules engine,
//! appends the move's coordinate form to the history and hands the turn
//! over. A failed call leaves the state exactly as it was; the caller
//! re-prompts without advancing anything.

use vstd::prelude::*;
use crate::board::{board_rendering, render_board, starting_board, Piece, PieceColor};
use crate::moves::{coord_chars, coordinate_text, ResolvedMove};
use crate::laws::lemma_resolution_yields_legal_token;
use crate::resolver::{entry_canonical, entry_views, resolve, resolve_spec, ResolutionError};
use crate::rules::{
    board_of, board_squares, fen_of, fen_text, legal_ucis, legal_ucis_of, play_of, play_uci,
    starting_position, turn_color, turn_of,
};

verus! {

#[derive(Clone, Copy, PartialEq, Eq, Structural, Debug)]
pub enum Phase {
    AwaitingHumanMove,
    AwaitingEngineMove,
}

#[derive(Clone, Copy, PartialEq, Eq, Structural, Debug)]
pub enum SessionError {
    /// The move text did not resolve; the state is untouched and the
    /// caller may re-prompt.
    Resolution(ResolutionError),
    /// The rules engine refused a move that resolved against the current
    /// legal-move set. The apply contract proves this is never returned
    /// while the session invariant holds; it stands for the
    /// collaborator-failure arm of the error taxonomy, which callers
    /// treat as fatal.
    Collaborator,
}

pub struct GameSession {
    position: shakmaty::Chess,
    board: Vec<Option<Piece>>,
    legal: Vec<String>,
    turn: PieceColor,
    history: Vec<String>,
    phase: Phase,
}

impl GameSession {
    /// The authoritative position owned by the rules engine.
    pub closed spec fn position_view(self) -> shakmaty::Chess {
        self.position
    }

    /// The current occupancy, 64 squares in `rank * 8 + file` order.
    pub closed spec fn board_view(self) -> Seq<Option<Piece>> {
        self.board@
    }

    /// The coordinate tokens of the current legal moves.
    pub closed spec fn legal_view(self) -> Seq<Seq<char>> {
        entry_views(self.legal@)
    }

    pub closed spec fn turn_view(self) -> PieceColor {
        self.turn
    }

    /// The coordinate forms of the moves played so far, in order.
    pub closed spec fn history_view(self) -> Seq<Seq<char>> {
        self.history@.map_values(|s: String| s@)
    }

    pub closed spec fn phase_view(self) -> Phase {
        self.phase
    }

    /// The cached occupancy, legal-move set and side to move agree with
    /// the authoritative position, and every cached legal-move token is
    /// the canonical rendering of the move it names.
    pub closed spec fn wf(self) -> bool {
        &&& self.board@ == board_of(self.position)
        &&& self.board@.len() == 64
        &&& self.legal@.map_values(|s: String| s@).to_set() == legal_ucis_of(self.position)
        &&& forall|i: int|
            0 <= i < self.legal@.len() ==> entry_canonical(self.board@, #[trigger] self.legal@[i]@)
        &&& self.turn == turn_of(self.position)
    }

    /// A fresh session: standard starting position, no history, White to
    /// move, awaiting the human.
    pub fn new() -> (s: GameSession)
        ensures
            s.wf(),
            s.phase_view() == Phase::AwaitingHumanMove,
            s.history_view() == Seq::<Seq<char>>::empty(),
            s.board_view() == starting_board(),
            s.turn_view() == PieceColor::White,
    {
        let position = starting_position();
        let board = board_squares(&position);
        let legal = legal_ucis(&position);
        let turn = turn_color(&position);
        let s = GameSession {
            position,
            board,
            legal,
            turn,
            history: Vec::new(),
            phase: Phase::AwaitingHumanMove,
        };
        proof {
            assert(s.history_view() =~= Seq::<Seq<char>>::empty());
        }
        s
    }

    /// Resolves `text`, plays the resolved move, advances to `next_phase`.
    /// Success is owed: whenever the text resolves against the current
    /// legal-move set, the resolved move is returned and the state
    /// advances to the rules engine's successor position for it.
    fn apply_move(&mut self, text: &str, next_phase: Phase) -> (r: Result<
        ResolvedMove,
        SessionError,
    >)
        requires
            old(self).wf(),
        ensures
            final(self).wf(),
            r is Err ==> *final(self) == *old(self),
            (match resolve_spec(text@, old(self).board_view(), old(self).legal_view()) {
                Err(e) => r == Err::<ResolvedMove, SessionError>(SessionError::Resolution(e)),
                Ok(m) => r == Ok::<ResolvedMove, SessionError>(m),
            }),
            r matches Ok(m) ==> {
                &&& m.wf()
                &&& final(self).position_view() == play_of(
                    old(self).position_view(),
                    coord_chars(m),
                ).unwrap()
                &&& final(self).history_view() == old(self).history_view().push(coord_chars(m))
                &&& final(self).phase_view() == next_phase
                &&& final(self).turn_view() != old(self).turn_view()
            },
    {
        let resolved = resolve(text, &self.board, &self.legal);
        match resolved {
            Err(e) => Err(SessionError::Resolution(e)),
            Ok(m) => {
                let coord = coordinate_text(&m);
                proof {
                    assert forall|i: int|
                        0 <= i < entry_views(self.legal@).len() implies entry_canonical(
                        self.board@,
                        #[trigger] entry_views(self.legal@)[i],
                    ) by {
                        assert(entry_views(self.legal@)[i] == self.legal@[i]@);
                    }
                    lemma_resolution_yields_legal_token(
                        text@,
                        self.board@,
                        entry_views(self.legal@),
                        m,
                    );
                    let i0 = choose|i: int|
                        0 <= i < entry_views(self.legal@).len() && #[trigger] entry_views(
                            self.legal@,
                        )[i] == coord_chars(m);
                    assert(self.legal@.map_values(|s: String| s@).contains(coord_chars(m)));
                    assert(legal_ucis_of(self.position).contains(coord@));
                }
                match play_uci(&self.position, coord.as_str()) {
                    None => {
                        // the played token is a member of the position's
                        // legal-move set, so play_uci owes a successor
                        proof {
                            assert(false);
                        }
                        Err(SessionError::Collaborator)
                    },
                    Some(next) => {
                        self.position = next;
                        self.board = board_squares(&self.position);
                        self.legal = legal_ucis(&self.position);
                        self.turn = turn_color(&self.position);
                        self.history.push(coord);
                        self.phase = next_phase;
                        proof {
                            assert(self.history@.map_values(|s: String| s@) =~= old(
                                self,
                            ).history@.map_values(|s: String| s@).push(coord_chars(m)));
                        }
                        Ok(m)
                    },
                }
            },
        }
    }

    /// Resolves and applies the human's move text. Only valid while the
    /// session awaits the human. The text resolves against the current
    /// legal-move set if and only if the resolved move is returned and
    /// applied, with the session then awaiting the engine; on failure the
    /// state is untouched and the caller re-prompts.
    pub fn apply_human_move(&mut self, text: &str) -> (r: Result<ResolvedMove, SessionError>)
        requires
            old(self).wf(),
            old(self).phase_view() == Phase::AwaitingHumanMove,
        ensures
            final(self).wf(),
            r is Err ==> *final(self) == *old(self),
            (match resolve_spec(text@, old(self).board_view(), old(self).legal_view()) {
                Err(e) => r == Err::<ResolvedMove, SessionError>(SessionError::Resolution(e)),
                Ok(m) => r == Ok::<ResolvedMove, SessionError>(m),
            }),
            r matches Ok(m) ==> {
                &&& m.wf()
                &&& final(self).position_view() == play_of(
                    old(self).position_view(),
                    coord_chars(m),
                ).unwrap()
                &&& final(self).history_view() == old(self).history_view().push(coord_chars(m))
                &&& final(self).phase_view() == Phase::AwaitingEngineMove
                &&& final(self).turn_view() != old(self).turn_view()
            },
    {
        self.apply_move(text, Phase::AwaitingEngineMove)
    }

    /// Resolves and applies the engine's reply. Identical to
    /// `apply_human_move` but for the source of the text and the phase:
    /// only valid while the session awaits the engine, and on success the
    /// session awaits the human again. The caller treats any failure here
    /// as fatal, since the collaborator is trusted to be
    /// protocol-conformant.
    pub fn apply_engine_move(&mut self, text: &str) -> (r: Result<ResolvedMove, SessionError>)
        requires
            old(self).wf(),
            old(self).phase_view() == Phase::AwaitingEngineMove,
        ensures
            final(self).wf(),
            r is Err ==> *final(self) == *old(self),
            (match resolve_spec(text@, old(self).board_view(), old(self).legal_view()) {
                Err(e) => r == Err::<ResolvedMove, SessionError>(SessionError::Resolution(e)),
                Ok(m) => r == Ok::<ResolvedMove, SessionError>(m),
            }),
            r matches Ok(m) ==> {
                &&& m.wf()
                &&& final(self).position_view() == play_of(
                    old(self).position_view(),
                    coord_chars(m),
                ).unwrap()
                &&& final(self).history_view() == old(self).history_view().push(coord_chars(m))
                &&& final(self).phase_view() == Phase::AwaitingHumanMove
                &&& final(self).turn_view() != old(self).turn_view()
            },
    {
        self.apply_move(text, Phase::AwaitingHumanMove)
    }

    /// The position encoding the engine collaborator is given, reflecting
    /// the state exactly as of the last applied move.
    pub fn export_position(&self) -> (r: String)
        ensures
            r@ == fen_of(self.position_view()),
    {
        fen_text(&self.position)
    }

    /// The board as displayed after every half-move: rank 8 down to rank
    /// 1, one glyph per square.
    pub fn render(&self) -> (r: String)
        requires
            self.wf(),
        ensures
            r@ == board_rendering(self.board_view()),
    {
        render_board(&self.board)
    }

    pub fn current_phase(&self) -> (r: Phase)
        ensures
            r == self.phase_view(),
    {
        self.phase
    }

    pub fn side_to_move(&self) -> (r: PieceColor)
        ensures
            r == self.turn_view(),
    {
        self.turn
    }

    /// The moves played so far, each in coordinate form.
    pub fn history(&self) -> (r: &Vec<String>)
        ensures
            r@.map_values(|s: String| s@) == self.history_view(),
    {
        &self.history
    }

    /// The coordinate tokens of the current legal moves.
    pub fn legal_moves_coordinate(&self) -> (r: &Vec<String>)
        ensures
            entry_views(r@) == self.legal_view(),
    {
        &self.legal
    }

    /// The current occupancy, 64 squares in `rank * 8 + file` order.
    pub fn board_occupancy(&self) -> (r: &Vec<Option<Piece>>)
        ensures
            r@ == self.board_view(),
    {
        &self.board
    }
}

} // verus!
