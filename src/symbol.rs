//! Marks, the 3x3 board that holds them, and the player to move.
use vstd::prelude::*;

verus! {

/// What a cell holds.
#[derive(Clone, Copy, PartialEq, Eq, Debug, Structural)]
pub enum Symbol {
    X,
    O,
    Empty,
}

/// Errors of the move protocol.
#[derive(Clone, Copy, PartialEq, Eq, Debug, Structural)]
pub enum MoveError {
    /// A cell index outside `0..9` was given.
    IndexOutOfRange,
    /// The targeted cell already holds a mark.
    CellOccupied,
    /// The game has already been won or drawn.
    GameAlreadyOver,
}

impl Symbol {
    /// A mark that a player writes (not `Empty`).
    pub open spec fn is_player(self) -> bool {
        self != Symbol::Empty
    }

    pub open spec fn spec_other(self) -> Symbol {
        match self {
            Symbol::X => Symbol::O,
            Symbol::O => Symbol::X,
            Symbol::Empty => Symbol::Empty,
        }
    }

    pub open spec fn spec_name(self) -> Seq<char> {
        match self {
            Symbol::X => "X"@,
            Symbol::O => "O"@,
            Symbol::Empty => "Empty"@,
        }
    }

    /// The opponent's mark; `Empty` stays `Empty`.
    pub fn other(self) -> (r: Symbol)
        ensures
            r == self.spec_other(),
    {
        match self {
            Symbol::X => Symbol::O,
            Symbol::O => Symbol::X,
            Symbol::Empty => Symbol::Empty,
        }
    }

    /// The name shown to players: "X", "O" or "Empty".
    pub fn name(&self) -> (r: &'static str)
        ensures
            r@ == self.spec_name(),
    {
        match self {
            Symbol::X => "X",
            Symbol::O => "O",
            Symbol::Empty => "Empty",
        }
    }
}

impl Default for Symbol {
    fn default() -> (r: Self)
        ensures
            r == Symbol::Empty,
    {
        Symbol::Empty
    }
}

/// The position of a rendered cell on the board, in `0..9`.
#[derive(Clone, Copy, PartialEq, Eq, Debug, Structural)]
pub struct SymbolIndex(pub usize);

/// Relies on rand::random::<bool>: a value drawn from the thread-local
/// generator; nothing is known of which.
#[verifier::external_body]
fn random_bool() -> (r: bool) {
    rand::random::<bool>()
}

/// The mark of the player to move, or `Empty` once the game is over.
#[derive(Clone, Copy, PartialEq, Eq, Debug, Structural)]
pub struct CurrentSymbol(pub Symbol);

impl CurrentSymbol {
    /// The player chosen to start: `X` when `x_starts`, else `O`.
    pub fn starting(x_starts: bool) -> (r: CurrentSymbol)
        ensures
            r.0 == (if x_starts { Symbol::X } else { Symbol::O }),
    {
        CurrentSymbol(if x_starts { Symbol::X } else { Symbol::O })
    }

    /// The name of the current mark, as `Symbol::name` gives it.
    pub fn name(&self) -> (r: &'static str)
        ensures
            r@ == self.0.spec_name(),
    {
        self.0.name()
    }
}

impl Default for CurrentSymbol {
    /// A starting player drawn at random.
    fn default() -> (r: Self)
        ensures
            r.0.is_player(),
    {
        CurrentSymbol::starting(random_bool())
    }
}

/// The board: nine cells in row-major order (index = row * 3 + column).
#[derive(Clone, Copy, Debug)]
pub struct Symbols(pub [Symbol; 9]);

/// Every cell holds a mark.
pub open spec fn board_full(b: Seq<Symbol>) -> bool {
    forall|i: int| 0 <= i < b.len() ==> b[i] != Symbol::Empty
}

/// Every cell is empty.
pub open spec fn board_empty(b: Seq<Symbol>) -> bool {
    forall|i: int| 0 <= i < b.len() ==> b[i] == Symbol::Empty
}

impl View for Symbols {
    type V = Seq<Symbol>;

    open spec fn view(&self) -> Seq<Symbol> {
        self.0@
    }
}

impl Symbols {
    /// An all-empty board.
    pub fn new() -> (r: Symbols)
        ensures
            r@.len() == 9,
            board_empty(r@),
    {
        Symbols([Symbol::Empty; 9])
    }

    /// The mark at `index`.
    pub fn get(&self, index: usize) -> (r: Result<Symbol, MoveError>)
        ensures
            index < 9 ==> r == Ok::<Symbol, MoveError>(self@[index as int]),
            index >= 9 ==> r == Err::<Symbol, MoveError>(MoveError::IndexOutOfRange),
    {
        if index < 9 {
            Ok(self.0[index])
        } else {
            Err(MoveError::IndexOutOfRange)
        }
    }

    /// Writes `mark` into an empty cell; an occupied cell is left alone.
    pub fn set(&mut self, index: usize, mark: Symbol) -> (r: Result<(), MoveError>)
        ensures
            index >= 9 ==> r == Err::<(), MoveError>(MoveError::IndexOutOfRange),
            index < 9 && old(self)@[index as int] != Symbol::Empty ==> r == Err::<(), MoveError>(
                MoveError::CellOccupied,
            ),
            index < 9 && old(self)@[index as int] == Symbol::Empty ==> r == Ok::<(), MoveError>(()),
            r is Ok ==> final(self)@ == old(self)@.update(index as int, mark),
            r is Err ==> *final(self) == *old(self),
    {
        if index >= 9 {
            return Err(MoveError::IndexOutOfRange);
        }
        if self.0[index] != Symbol::Empty {
            return Err(MoveError::CellOccupied);
        }
        self.0[index] = mark;
        Ok(())
    }

    /// Whether no cell is empty.
    pub fn is_full(&self) -> (r: bool)
        ensures
            r == board_full(self@),
    {
        let mut i: usize = 0;
        while i < 9
            invariant
                i <= 9,
                self@.len() == 9,
                forall|j: int| 0 <= j < i ==> self@[j] != Symbol::Empty,
            decreases 9 - i,
        {
            if self.0[i] == Symbol::Empty {
                return false;
            }
            i = i + 1;
        }
        true
    }

    /// Empties every cell.
    pub fn reset(&mut self)
        ensures
            final(self)@.len() == 9,
            board_empty(final(self)@),
    {
        *self = Symbols::new();
    }
}

impl Default for Symbols {
    fn default() -> (r: Self)
        ensures
            r@.len() == 9,
            board_empty(r@),
    {
        Symbols::new()
    }
}

} // verus!
