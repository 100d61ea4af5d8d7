//! Evaluation of a board: a win, a draw, or a game still in progress.
use vstd::prelude::*;
use crate::symbol::{board_full, Symbol, Symbols};

verus! {

/// A finished game's result, as the interface announces it.
#[derive(Clone, Copy, PartialEq, Eq, Debug, Structural)]
pub enum WinningEvent {
    X,
    O,
    Draw,
}

/// What a board amounts to. `Win` only ever holds `X` or `O`.
#[derive(Clone, Copy, PartialEq, Eq, Debug, Structural)]
pub enum Outcome {
    InProgress,
    Win(Symbol),
    Draw,
}

/// The three cells of winning line `k` (rows, then columns, then diagonals).
pub open spec fn line(k: int) -> (int, int, int) {
    if k == 0 {
        (0, 1, 2)
    } else if k == 1 {
        (3, 4, 5)
    } else if k == 2 {
        (6, 7, 8)
    } else if k == 3 {
        (0, 3, 6)
    } else if k == 4 {
        (1, 4, 7)
    } else if k == 5 {
        (2, 5, 8)
    } else if k == 6 {
        (0, 4, 8)
    } else {
        (2, 4, 6)
    }
}

/// Whether line `k` is one of the eight and holds `m` in all three cells.
pub open spec fn line_filled_by(b: Seq<Symbol>, k: int, m: Symbol) -> bool {
    &&& 0 <= k < 8
    &&& b[line(k).0] == m
    &&& b[line(k).1] == m
    &&& b[line(k).2] == m
}

/// Whether `m` fills some winning line.
pub open spec fn has_line(b: Seq<Symbol>, m: Symbol) -> bool {
    ||| line_filled_by(b, 0, m)
    ||| line_filled_by(b, 1, m)
    ||| line_filled_by(b, 2, m)
    ||| line_filled_by(b, 3, m)
    ||| line_filled_by(b, 4, m)
    ||| line_filled_by(b, 5, m)
    ||| line_filled_by(b, 6, m)
    ||| line_filled_by(b, 7, m)
}

/// The outcome of a board: `X` is checked before `O`; a full board without a
/// line is a draw.
pub open spec fn spec_outcome(b: Seq<Symbol>) -> Outcome {
    if has_line(b, Symbol::X) {
        Outcome::Win(Symbol::X)
    } else if has_line(b, Symbol::O) {
        Outcome::Win(Symbol::O)
    } else if board_full(b) {
        Outcome::Draw
    } else {
        Outcome::InProgress
    }
}

impl Outcome {
    /// The event announced for a finished game; `None` while in progress.
    pub fn winning_event(&self) -> (r: Option<WinningEvent>)
        ensures
            *self == Outcome::Win(Symbol::X) ==> r == Some(WinningEvent::X),
            *self == Outcome::Win(Symbol::O) ==> r == Some(WinningEvent::O),
            *self == Outcome::Draw ==> r == Some(WinningEvent::Draw),
            *self == Outcome::InProgress || *self == Outcome::Win(Symbol::Empty) ==> r is None,
    {
        match self {
            Outcome::Win(Symbol::X) => Some(WinningEvent::X),
            Outcome::Win(Symbol::O) => Some(WinningEvent::O),
            Outcome::Draw => Some(WinningEvent::Draw),
            _ => None,
        }
    }
}

/// The cells of winning line `k`.
fn line_cells(k: usize) -> (r: (usize, usize, usize))
    requires
        k < 8,
    ensures
        r.0 as int == line(k as int).0,
        r.1 as int == line(k as int).1,
        r.2 as int == line(k as int).2,
{
    if k == 0 {
        (0, 1, 2)
    } else if k == 1 {
        (3, 4, 5)
    } else if k == 2 {
        (6, 7, 8)
    } else if k == 3 {
        (0, 3, 6)
    } else if k == 4 {
        (1, 4, 7)
    } else if k == 5 {
        (2, 5, 8)
    } else if k == 6 {
        (0, 4, 8)
    } else {
        (2, 4, 6)
    }
}

/// How many of the three cells of line `k` hold `m`.
pub open spec fn line_count(b: Seq<Symbol>, k: int, m: Symbol) -> int {
    (if b[line(k).0] == m { 1int } else { 0int }) + (if b[line(k).1] == m { 1int } else { 0int }) + (
    if b[line(k).2] == m {
        1int
    } else {
        0int
    })
}

/// 1 when `cell` holds `m`, else 0.
fn tally(cell: Symbol, m: Symbol) -> (r: u8)
    ensures
        r == (if cell == m { 1u8 } else { 0u8 }),
{
    if cell == m {
        1
    } else {
        0
    }
}

/// The number of `X` and of `O` marks on line `k`.
fn line_counts(symbols: &Symbols, k: usize) -> (r: (u8, u8))
    requires
        k < 8,
    ensures
        r.0 as int == line_count(symbols@, k as int, Symbol::X),
        r.1 as int == line_count(symbols@, k as int, Symbol::O),
{
    let (a, b, c) = line_cells(k);
    let (sa, sb, sc) = (symbols.0[a], symbols.0[b], symbols.0[c]);
    let x = tally(sa, Symbol::X) + tally(sb, Symbol::X) + tally(sc, Symbol::X);
    let o = tally(sa, Symbol::O) + tally(sb, Symbol::O) + tally(sc, Symbol::O);
    (x, o)
}

/// Evaluates the board: a line of three `X`, else of three `O`, wins; else a
/// full board is a draw; else the game goes on. The board is only read.
pub fn evaluate(symbols: &Symbols) -> (r: Outcome)
    ensures
        r == spec_outcome(symbols@),
{
    let mut x_line = false;
    let mut o_line = false;
    let mut k: usize = 0;
    while k < 8
        invariant
            k <= 8,
            x_line == exists|j: int| 0 <= j < k && #[trigger] line_filled_by(symbols@, j, Symbol::X),
            o_line == exists|j: int| 0 <= j < k && #[trigger] line_filled_by(symbols@, j, Symbol::O),
        decreases 8 - k,
    {
        let (x, o) = line_counts(symbols, k);
        if x == 3 {
            x_line = true;
        }
        if o == 3 {
            o_line = true;
        }
        assert(line_filled_by(symbols@, k as int, Symbol::X) <==> x == 3);
        assert(line_filled_by(symbols@, k as int, Symbol::O) <==> o == 3);
        k = k + 1;
    }
    assert(x_line ==> has_line(symbols@, Symbol::X));
    assert(o_line ==> has_line(symbols@, Symbol::O));
    if x_line {
        Outcome::Win(Symbol::X)
    } else if o_line {
        Outcome::Win(Symbol::O)
    } else if symbols.is_full() {
        Outcome::Draw
    } else {
        Outcome::InProgress
    }
}

/// The board holding `m` on the three cells of line `k` and nothing elsewhere.
pub open spec fn board_with_line(k: int, m: Symbol) -> Seq<Symbol> {
    Seq::new(
        9,
        |i: int|
            if i == line(k).0 || i == line(k).1 || i == line(k).2 {
                m
            } else {
                Symbol::Empty
            },
    )
}

/// Any one winning line filled by a player's mark, on an otherwise empty
/// board, is a win for that player.
pub proof fn lemma_single_line_wins(k: int, m: Symbol)
    requires
        0 <= k < 8,
        m.is_player(),
    ensures
        spec_outcome(board_with_line(k, m)) == Outcome::Win(m),
{
    let b = board_with_line(k, m);
    assert(line_filled_by(b, k, m));
    if m == Symbol::O {
        assert forall|j: int| !#[trigger] line_filled_by(b, j, Symbol::X) by {
            if line_filled_by(b, j, Symbol::X) {
                assert(b[line(j).0] == Symbol::X);
            }
        }
    }
}

/// A full board on which no player fills a line is a draw.
pub proof fn lemma_full_board_without_line_is_draw(b: Seq<Symbol>)
    requires
        b.len() == 9,
        board_full(b),
        !has_line(b, Symbol::X),
        !has_line(b, Symbol::O),
    ensures
        spec_outcome(b) == Outcome::Draw,
{
}

/// A board with an empty cell on which no player fills a line is still in
/// progress.
pub proof fn lemma_open_board_without_line_in_progress(b: Seq<Symbol>, i: int)
    requires
        b.len() == 9,
        0 <= i < 9,
        b[i] == Symbol::Empty,
        !has_line(b, Symbol::X),
        !has_line(b, Symbol::O),
    ensures
        spec_outcome(b) == Outcome::InProgress,
{
}

/// The outcome is a function of the board's contents alone: two boards with
/// the same cells, or one board evaluated twice, give the same outcome.
pub proof fn lemma_outcome_depends_on_cells_only(a: Symbols, b: Symbols)
    requires
        a@ == b@,
    ensures
        spec_outcome(a@) == spec_outcome(b@),
{
}

} // verus!
