use tic_tac_toe::outcome::{evaluate, Outcome, WinningEvent};
use tic_tac_toe::session::{GameSession, GameView};
use tic_tac_toe::symbol::{CurrentSymbol, MoveError, Symbol, Symbols};

const LINES: [[usize; 3]; 8] = [
    [0, 1, 2],
    [3, 4, 5],
    [6, 7, 8],
    [0, 3, 6],
    [1, 4, 7],
    [2, 5, 8],
    [0, 4, 8],
    [2, 4, 6],
];

fn board(cells: &str) -> Symbols {
    let mut b = [Symbol::Empty; 9];
    for (i, c) in cells.chars().enumerate() {
        b[i] = match c {
            'X' => Symbol::X,
            'O' => Symbol::O,
            _ => Symbol::Empty,
        };
    }
    Symbols(b)
}

fn play(session: &mut GameSession, moves: &[usize]) -> Vec<Result<GameView, MoveError>> {
    moves.iter().map(|&i| session.apply_move(i)).collect()
}

#[test]
fn every_line_wins_for_either_player() {
    for line in LINES.iter() {
        for mark in [Symbol::X, Symbol::O] {
            let mut b = [Symbol::Empty; 9];
            for &i in line.iter() {
                b[i] = mark;
            }
            assert_eq!(evaluate(&Symbols(b)), Outcome::Win(mark));
        }
    }
}

#[test]
fn two_of_a_line_and_an_empty_is_no_win() {
    assert_eq!(evaluate(&board("XX.......")), Outcome::InProgress);
    assert_eq!(evaluate(&board("OO.X.X...")), Outcome::InProgress);
}

#[test]
fn x_is_checked_before_o() {
    assert_eq!(evaluate(&board("XXXOOO...")), Outcome::Win(Symbol::X));
}

#[test]
fn full_board_without_line_is_draw() {
    assert_eq!(evaluate(&board("XOXXOOOXX")), Outcome::Draw);
    assert_eq!(evaluate(&board("XXOOOXXOX")), Outcome::Draw);
}

#[test]
fn win_on_full_board_is_a_win() {
    assert_eq!(evaluate(&board("XXXOOXOXO")), Outcome::Win(Symbol::X));
}

#[test]
fn open_board_without_line_is_in_progress() {
    assert_eq!(evaluate(&board(".........")), Outcome::InProgress);
    assert_eq!(evaluate(&board("XOXXOOOX.")), Outcome::InProgress);
}

#[test]
fn evaluation_is_idempotent() {
    let b = board("XOX.O.X..");
    let before = b.0;
    let first = evaluate(&b);
    let second = evaluate(&b);
    assert_eq!(first, second);
    assert_eq!(b.0, before);
}

#[test]
fn turns_alternate_until_the_game_ends() {
    let mut g = GameSession::with_first_player(false);
    let moves = [4, 0, 8, 2, 1, 7, 6, 3, 5];
    let mut last: Option<Symbol> = None;
    for &i in moves.iter() {
        let before = g.current_view().turn.unwrap();
        let effect = g.apply_move(i).unwrap();
        assert_eq!(effect.symbols.0[i], before);
        if let Some(prev) = last {
            assert_ne!(prev, before);
        }
        last = Some(before);
        if effect.outcome != Outcome::InProgress {
            break;
        }
    }
}

#[test]
fn occupied_cell_changes_nothing() {
    let mut g = GameSession::with_first_player(true);
    g.apply_move(4).unwrap();
    let before = g.current_view();
    assert_eq!(g.apply_move(4).unwrap_err(), MoveError::CellOccupied);
    let after = g.current_view();
    assert_eq!(after.symbols.0, before.symbols.0);
    assert_eq!(after.turn, Some(Symbol::O));
    assert_eq!(after.outcome, Outcome::InProgress);
}

#[test]
fn out_of_range_index_is_rejected() {
    let mut g = GameSession::with_first_player(true);
    assert_eq!(g.apply_move(9).unwrap_err(), MoveError::IndexOutOfRange);
    let v = g.current_view();
    assert_eq!(v.symbols.0, [Symbol::Empty; 9]);
    assert_eq!(v.turn, Some(Symbol::X));
}

#[test]
fn restart_gives_a_fresh_game() {
    let mut g = GameSession::with_first_player(true);
    play(&mut g, &[0, 3, 1, 4, 2]);
    assert_eq!(g.current_view().outcome, Outcome::Win(Symbol::X));
    g.restart_with_first_player(false);
    let v = g.current_view();
    assert_eq!(v.symbols.0, [Symbol::Empty; 9]);
    assert_eq!(v.outcome, Outcome::InProgress);
    assert_eq!(v.turn, Some(Symbol::O));
    g.restart();
    let v = g.current_view();
    assert_eq!(v.symbols.0, [Symbol::Empty; 9]);
    assert_eq!(v.outcome, Outcome::InProgress);
    assert!(matches!(v.turn, Some(Symbol::X) | Some(Symbol::O)));
}

#[test]
fn random_first_player_is_a_player() {
    for _ in 0..20 {
        let g = GameSession::new();
        let v = g.current_view();
        assert!(matches!(v.turn, Some(Symbol::X) | Some(Symbol::O)));
        assert_eq!(v.outcome, Outcome::InProgress);
        let c = CurrentSymbol::default();
        assert_ne!(c.0, Symbol::Empty);
    }
}

#[test]
fn scenario_top_row_win() {
    let mut g = GameSession::with_first_player(true);
    let results = play(&mut g, &[0, 3, 1, 4]);
    assert!(results.iter().all(|r| r.is_ok()));
    let last = g.apply_move(2).unwrap();
    assert_eq!(last.outcome, Outcome::Win(Symbol::X));
    assert_eq!(last.turn, None);
    assert_eq!(last.symbols.0[0], Symbol::X);
    assert_eq!(last.symbols.0[3], Symbol::O);
}

#[test]
fn scenario_full_board_draw() {
    let mut g = GameSession::with_first_player(true);
    let moves = [0, 1, 3, 4, 2, 6, 7, 5, 8];
    for (k, &i) in moves.iter().enumerate() {
        let effect = g.apply_move(i).unwrap();
        if k < 8 {
            assert_eq!(effect.outcome, Outcome::InProgress);
        } else {
            assert_eq!(effect.outcome, Outcome::Draw);
            assert_eq!(effect.turn, None);
        }
    }
}

#[test]
fn scenario_same_cell_twice() {
    let mut g = GameSession::with_first_player(true);
    let first = g.apply_move(4).unwrap();
    assert_eq!(g.apply_move(4).unwrap_err(), MoveError::CellOccupied);
    assert_eq!(g.current_view().symbols.0, first.symbols.0);
}

#[test]
fn scenario_move_after_win() {
    let mut g = GameSession::with_first_player(true);
    play(&mut g, &[0, 3, 1, 4, 2]);
    let before = g.current_view();
    assert_eq!(before.outcome, Outcome::Win(Symbol::X));
    assert_eq!(g.apply_move(8).unwrap_err(), MoveError::GameAlreadyOver);
    let after = g.current_view();
    assert_eq!(after.symbols.0, before.symbols.0);
    assert_eq!(after.outcome, before.outcome);
    assert_eq!(after.turn, None);
}

#[test]
fn move_after_draw_is_rejected() {
    let mut g = GameSession::with_first_player(true);
    play(&mut g, &[0, 1, 3, 4, 2, 6, 7, 5, 8]);
    assert_eq!(g.apply_move(0).unwrap_err(), MoveError::GameAlreadyOver);
}

#[test]
fn board_get_set_full_reset() {
    let mut b = Symbols::new();
    assert_eq!(b.get(9), Err(MoveError::IndexOutOfRange));
    assert_eq!(b.set(9, Symbol::X), Err(MoveError::IndexOutOfRange));
    assert_eq!(b.set(5, Symbol::O), Ok(()));
    assert_eq!(b.get(5), Ok(Symbol::O));
    assert_eq!(b.set(5, Symbol::X), Err(MoveError::CellOccupied));
    assert_eq!(b.get(5), Ok(Symbol::O));
    assert!(!b.is_full());
    for i in 0..9 {
        let _ = b.set(i, Symbol::X);
    }
    assert!(b.is_full());
    b.reset();
    assert_eq!(b.0, [Symbol::Empty; 9]);
    assert_eq!(Symbols::default().0, [Symbol::Empty; 9]);
    assert_eq!(Symbol::default(), Symbol::Empty);
}

#[test]
fn winning_events_of_outcomes() {
    assert_eq!(Outcome::Win(Symbol::X).winning_event(), Some(WinningEvent::X));
    assert_eq!(Outcome::Win(Symbol::O).winning_event(), Some(WinningEvent::O));
    assert_eq!(Outcome::Draw.winning_event(), Some(WinningEvent::Draw));
    assert_eq!(Outcome::InProgress.winning_event(), None);
}

#[test]
fn symbol_names_and_other() {
    assert_eq!(Symbol::X.name(), "X");
    assert_eq!(Symbol::O.name(), "O");
    assert_eq!(Symbol::Empty.name(), "Empty");
    assert_eq!(CurrentSymbol(Symbol::O).name(), "O");
    assert_eq!(Symbol::X.other(), Symbol::O);
    assert_eq!(Symbol::O.other(), Symbol::X);
    assert_eq!(CurrentSymbol::starting(true).0, Symbol::X);
    assert_eq!(CurrentSymbol::starting(false).0, Symbol::O);
}
