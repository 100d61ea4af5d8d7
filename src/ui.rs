//! What the interface shows: button labels, status texts and where each cell
//! is drawn.
use vstd::prelude::*;
use crate::outcome::WinningEvent;
use crate::symbol::CurrentSymbol;

verus! {

/// The buttons of the menus.
#[derive(Clone, Copy, PartialEq, Eq, Debug, Structural)]
pub enum ButtonElement {
    StartGame,
    RestartGame,
    QuitGame,
}

impl ButtonElement {
    pub open spec fn spec_label(self) -> Seq<char> {
        match self {
            ButtonElement::StartGame => "Start game"@,
            ButtonElement::RestartGame => "Restart game"@,
            ButtonElement::QuitGame => "Quit game"@,
        }
    }

    /// The text written on the button.
    pub fn label(&self) -> (r: &'static str)
        ensures
            r@ == self.spec_label(),
    {
        match self {
            ButtonElement::StartGame => "Start game",
            ButtonElement::RestartGame => "Restart game",
            ButtonElement::QuitGame => "Quit game",
        }
    }
}

/// The layout nodes of a menu.
#[derive(Clone, Copy, PartialEq, Eq, Debug, Structural)]
pub enum NodeElement {
    Root,
    Text,
}

/// A status line: whose turn it is, or who won.
#[derive(Clone, Copy, PartialEq, Eq, Debug, Structural)]
pub enum TextElement {
    CurrentSymbol(CurrentSymbol),
    Winner(Option<WinningEvent>),
}

pub open spec fn winner_text(w: Option<WinningEvent>) -> Seq<char> {
    match w {
        Some(WinningEvent::X) => "The winner is X!"@,
        Some(WinningEvent::O) => "The winner is O!"@,
        Some(WinningEvent::Draw) => "It's a draw!"@,
        None => ""@,
    }
}

impl TextElement {
    pub open spec fn spec_text(self) -> Seq<char> {
        match self {
            TextElement::CurrentSymbol(c) => "Current symbol is "@ + c.0.spec_name(),
            TextElement::Winner(w) => winner_text(w),
        }
    }

    /// The line as displayed.
    pub fn text(&self) -> (r: String)
        ensures
            r@ == self.spec_text(),
    {
        match self {
            TextElement::CurrentSymbol(c) => {
                let s = String::from_str("Current symbol is ");
                s.concat(c.name())
            },
            TextElement::Winner(w) => {
                let t = match w {
                    Some(WinningEvent::X) => "The winner is X!",
                    Some(WinningEvent::O) => "The winner is O!",
                    Some(WinningEvent::Draw) => "It's a draw!",
                    None => "",
                };
                String::from_str(t)
            },
        }
    }
}

/// The status line `t` once refreshed: a turn line shows `current`; a winner
/// line is cleared when `reset`, else kept.
pub open spec fn refreshed(t: TextElement, current: CurrentSymbol, reset: bool) -> TextElement {
    match t {
        TextElement::CurrentSymbol(_) => TextElement::CurrentSymbol(current),
        TextElement::Winner(w) => TextElement::Winner(
            if reset {
                None
            } else {
                w
            },
        ),
    }
}

/// Refreshes every status line: turn lines show `current_symbol`, winner lines
/// are cleared when `reset`.
pub fn update_texts(texts: &mut Vec<TextElement>, current_symbol: &CurrentSymbol, reset: bool)
    ensures
        final(texts)@.len() == old(texts)@.len(),
        forall|i: int|
            0 <= i < old(texts)@.len() ==> #[trigger] final(texts)@[i] == refreshed(
                old(texts)@[i],
                *current_symbol,
                reset,
            ),
{
    let n = texts.len();
    let mut i: usize = 0;
    while i < n
        invariant
            n == old(texts)@.len(),
            texts@.len() == n,
            i <= n,
            forall|j: int| 0 <= j < i ==> #[trigger] texts@[j] == refreshed(old(texts)@[j], *current_symbol, reset),
            forall|j: int| i <= j < n ==> #[trigger] texts@[j] == old(texts)@[j],
        decreases n - i,
    {
        let t = match texts[i] {
            TextElement::CurrentSymbol(_) => TextElement::CurrentSymbol(*current_symbol),
            TextElement::Winner(w) => TextElement::Winner(if reset { None } else { w }),
        };
        texts.set(i, t);
        i = i + 1;
    }
}

/// The status line `t` once the game ended with `event`.
pub open spec fn announced(t: TextElement, event: WinningEvent) -> TextElement {
    match t {
        TextElement::Winner(_) => TextElement::Winner(Some(event)),
        _ => t,
    }
}

/// Shows `event` on every winner line; turn lines are kept.
pub fn announce_winner(texts: &mut Vec<TextElement>, event: WinningEvent)
    ensures
        final(texts)@.len() == old(texts)@.len(),
        forall|i: int|
            0 <= i < old(texts)@.len() ==> #[trigger] final(texts)@[i] == announced(old(texts)@[i], event),
{
    let n = texts.len();
    let mut i: usize = 0;
    while i < n
        invariant
            n == old(texts)@.len(),
            texts@.len() == n,
            i <= n,
            forall|j: int| 0 <= j < i ==> #[trigger] texts@[j] == announced(old(texts)@[j], event),
            forall|j: int| i <= j < n ==> #[trigger] texts@[j] == old(texts)@[j],
        decreases n - i,
    {
        if let TextElement::Winner(_) = texts[i] {
            texts.set(i, TextElement::Winner(Some(event)));
        }
        i = i + 1;
    }
}

/// Where cell `index` is drawn, as (horizontal, vertical) steps from the
/// centre cell, each in `-1..=1`: the row gives the horizontal step and the
/// column the vertical one.
pub fn cell_offset(index: usize) -> (r: (i8, i8))
    requires
        index < 9,
    ensures
        r.0 as int == index as int / 3 - 1,
        r.1 as int == index as int % 3 - 1,
{
    let row = (index / 3) as i8;
    let column = (index % 3) as i8;
    (row - 1, column - 1)
}

} // verus!
