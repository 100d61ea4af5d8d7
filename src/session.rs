//! A game in play: the board, the player to move, and the outcome so far.
use vstd::prelude::*;
use crate::outcome::{evaluate, spec_outcome, Outcome};
use crate::symbol::{board_empty, CurrentSymbol, MoveError, Symbol, Symbols};

verus! {

/// The abstract state of a session.
pub struct SessionModel {
    pub board: Seq<Symbol>,
    /// The mark to be written next, or `Empty` once the game is over.
    pub turn: Symbol,
    pub outcome: Outcome,
}

impl SessionModel {
    /// The outcome is that of the board; a player is to move exactly while the
    /// game is in progress.
    pub open spec fn wf(self) -> bool {
        &&& self.board.len() == 9
        &&& self.outcome == spec_outcome(self.board)
        &&& self.outcome == Outcome::InProgress ==> self.turn.is_player()
        &&& self.outcome != Outcome::InProgress ==> self.turn == Symbol::Empty
    }

    /// What a move at `index` returns: the game must be going on, the index on
    /// the board and the cell empty.
    pub open spec fn move_result(self, index: int) -> Result<(), MoveError> {
        if self.outcome != Outcome::InProgress {
            Err(MoveError::GameAlreadyOver)
        } else if !(0 <= index < 9) {
            Err(MoveError::IndexOutOfRange)
        } else if self.board[index] != Symbol::Empty {
            Err(MoveError::CellOccupied)
        } else {
            Ok(())
        }
    }

    /// The state after an accepted move at `index`: the mark to move is
    /// written, the board evaluated, and the turn passes while the game goes on.
    pub open spec fn after_move(self, index: int) -> SessionModel {
        let board = self.board.update(index, self.turn);
        let outcome = spec_outcome(board);
        SessionModel {
            board,
            turn: if outcome == Outcome::InProgress {
                self.turn.spec_other()
            } else {
                Symbol::Empty
            },
            outcome,
        }
    }

    /// A fresh game: empty board, a player to move, nothing decided.
    pub open spec fn is_fresh(self) -> bool {
        &&& self.board.len() == 9
        &&& board_empty(self.board)
        &&& self.turn.is_player()
        &&& self.outcome == Outcome::InProgress
    }
}

/// A read-only picture of a session, also returned by each accepted move.
#[derive(Clone, Copy, Debug)]
pub struct GameView {
    pub symbols: Symbols,
    /// The mark to move; `None` once the game is over.
    pub turn: Option<Symbol>,
    pub outcome: Outcome,
}

/// One game between two players.
pub struct GameSession {
    symbols: Symbols,
    current: CurrentSymbol,
    outcome: Outcome,
}

impl View for GameSession {
    type V = SessionModel;

    closed spec fn view(&self) -> SessionModel {
        SessionModel { board: self.symbols@, turn: self.current.0, outcome: self.outcome }
    }
}

/// The picture of a session in state `m`.
pub open spec fn view_of(m: SessionModel, v: GameView) -> bool {
    &&& v.symbols@ == m.board
    &&& v.outcome == m.outcome
    &&& v.turn == (if m.turn.is_player() {
        Some(m.turn)
    } else {
        None::<Symbol>
    })
}

impl GameSession {
    /// A fresh game in which `X` moves first when `x_starts`, else `O`.
    pub fn with_first_player(x_starts: bool) -> (r: GameSession)
        ensures
            r@.wf(),
            r@.is_fresh(),
            r@.turn == (if x_starts { Symbol::X } else { Symbol::O }),
    {
        let r = GameSession {
            symbols: Symbols::new(),
            current: CurrentSymbol::starting(x_starts),
            outcome: Outcome::InProgress,
        };
        proof {
            lemma_empty_board_in_progress(r.symbols@);
        }
        r
    }

    /// A fresh game whose first player is drawn at random.
    pub fn new() -> (r: GameSession)
        ensures
            r@.wf(),
            r@.is_fresh(),
    {
        let current = CurrentSymbol::default();
        let r = GameSession { symbols: Symbols::new(), current, outcome: Outcome::InProgress };
        proof {
            lemma_empty_board_in_progress(r.symbols@);
        }
        r
    }

    /// The current board, player to move and outcome.
    pub fn current_view(&self) -> (r: GameView)
        ensures
            view_of(self@, r),
    {
        GameView {
            symbols: self.symbols,
            turn: if self.current.0 == Symbol::Empty {
                None
            } else {
                Some(self.current.0)
            },
            outcome: self.outcome,
        }
    }

    /// Plays the current player's mark at `index`. A rejected move changes
    /// nothing; an accepted one writes the mark, evaluates the board and
    /// either passes the turn or ends the game.
    pub fn apply_move(&mut self, index: usize) -> (r: Result<GameView, MoveError>)
        requires
            old(self)@.wf(),
        ensures
            final(self)@.wf(),
            r is Ok <==> old(self)@.move_result(index as int) is Ok,
            r is Err ==> r == Err::<GameView, MoveError>(
                old(self)@.move_result(index as int)->Err_0,
            ),
            r is Err ==> final(self)@ == old(self)@,
            r is Ok ==> final(self)@ == old(self)@.after_move(index as int),
            r is Ok ==> view_of(final(self)@, r->Ok_0),
    {
        if self.current.0 == Symbol::Empty {
            return Err(MoveError::GameAlreadyOver);
        }
        let mark = self.current.0;
        match self.symbols.set(index, mark) {
            Err(e) => {
                return Err(e);
            },
            Ok(()) => {},
        }
        let outcome = evaluate(&self.symbols);
        self.outcome = outcome;
        if outcome == Outcome::InProgress {
            self.current = CurrentSymbol(mark.other());
        } else {
            self.current = CurrentSymbol(Symbol::Empty);
        }
        Ok(self.current_view())
    }

    /// Starts over with an empty board and `X` to move when `x_starts`, else
    /// `O`, whatever state the game was in.
    pub fn restart_with_first_player(&mut self, x_starts: bool)
        ensures
            final(self)@.wf(),
            final(self)@.is_fresh(),
            final(self)@.turn == (if x_starts { Symbol::X } else { Symbol::O }),
    {
        *self = GameSession::with_first_player(x_starts);
    }

    /// Starts over with an empty board and a first player drawn at random,
    /// whatever state the game was in.
    pub fn restart(&mut self)
        ensures
            final(self)@.wf(),
            final(self)@.is_fresh(),
    {
        *self = GameSession::new();
    }
}

/// An empty board is in progress.
proof fn lemma_empty_board_in_progress(b: Seq<Symbol>)
    requires
        b.len() == 9,
        board_empty(b),
    ensures
        spec_outcome(b) == Outcome::InProgress,
{
    assert(b[0] == Symbol::Empty);
    assert forall|k: int, m: Symbol| m.is_player() implies !#[trigger] crate::outcome::line_filled_by(b, k, m) by {
        let t = crate::outcome::line(k);
        if 0 <= k < 8 {
            assert(b[t.0] == Symbol::Empty);
        }
    }
}

/// An accepted move leaves a well-formed session well-formed.
pub proof fn lemma_accepted_move_keeps_wf(m: SessionModel, index: int)
    requires
        m.wf(),
        m.move_result(index) is Ok,
    ensures
        m.after_move(index).wf(),
{
}

/// The state after the first `n` of `moves` are applied, each as accepted.
pub open spec fn play(m: SessionModel, moves: Seq<int>, n: int) -> SessionModel
    decreases n,
{
    if n <= 0 {
        m
    } else {
        play(m, moves, n - 1).after_move(moves[n - 1])
    }
}

/// Each of `moves`, played in order from `m`, is accepted.
pub open spec fn all_accepted(m: SessionModel, moves: Seq<int>) -> bool {
    forall|k: int| 0 <= k < moves.len() ==> (#[trigger] play(m, moves, k)).move_result(moves[k]) is Ok
}

/// Every state reached by accepted moves is well-formed.
proof fn lemma_play_wf(m: SessionModel, moves: Seq<int>, n: int)
    requires
        m.wf(),
        all_accepted(m, moves),
        0 <= n <= moves.len(),
    ensures
        play(m, moves, n).wf(),
    decreases n,
{
    if n > 0 {
        lemma_play_wf(m, moves, n - 1);
        assert(play(m, moves, n - 1).move_result(moves[n - 1]) is Ok);
    }
}

/// Along any sequence of accepted moves, move `k` writes a mark that differs
/// from the one move `k - 1` wrote (each move writes the mark to move).
pub proof fn lemma_accepted_moves_alternate(m: SessionModel, moves: Seq<int>)
    requires
        m.wf(),
        all_accepted(m, moves),
    ensures
        forall|k: int|
            0 <= k < moves.len() ==> (#[trigger] play(m, moves, k + 1)).board[moves[k]] == play(
                m,
                moves,
                k,
            ).turn,
        forall|k: int|
            0 < k < moves.len() ==> (#[trigger] play(m, moves, k)).turn != play(m, moves, k - 1).turn,
{
    assert forall|k: int| 0 <= k < moves.len() implies (#[trigger] play(m, moves, k + 1)).board[moves[k]]
        == play(m, moves, k).turn by {
        lemma_play_wf(m, moves, k);
        assert(play(m, moves, k).move_result(moves[k]) is Ok);
    }
    assert forall|k: int| 0 < k < moves.len() implies (#[trigger] play(m, moves, k)).turn != play(
        m,
        moves,
        k - 1,
    ).turn by {
        lemma_play_wf(m, moves, k - 1);
        assert(play(m, moves, k - 1).move_result(moves[k - 1]) is Ok);
        assert(play(m, moves, k).move_result(moves[k]) is Ok);
        lemma_play_wf(m, moves, k);
    }
}

} // verus!
