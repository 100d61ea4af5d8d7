//! Rules engine of a two-player tic-tac-toe game: the board, the evaluation
//! of its outcome, and the session that accepts moves and alternates turns.
pub mod outcome;
pub mod session;
pub mod symbol;
pub mod ui;
