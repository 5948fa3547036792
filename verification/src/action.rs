//! The actions of the three-pane front end and its key bindings.

use vstd::prelude::*;

use crate::keys::{KeyCode, KeyPress};

verus! {

#[derive(Clone, Copy, Debug, PartialEq, Eq, Structural)]
pub enum Action {
    Quit,
    StartSearch,
    SubmitSearch,
    CancelSearch,
    SearchInput(char),
    SearchBackspace,
    SelectNext,
    SelectPrev,
    PlaySelected,
    TogglePause,
    ToggleLoop,
}

/// Whether keys go to the search box or to the commands.
#[derive(Clone, Copy, Debug, PartialEq, Eq, Structural)]
pub enum InputMode {
    Normal,
    Searching,
}

impl Default for InputMode {
    fn default() -> (r: InputMode)
        ensures
            r == InputMode::Normal,
    {
        InputMode::Normal
    }
}

/// What a key press means in the given mode: Control-C always quits; keys
/// without a binding mean nothing.
pub open spec fn action_for(k: KeyPress, mode: InputMode) -> Option<Action> {
    if k.ctrl && k.code == KeyCode::Char('c') {
        Some(Action::Quit)
    } else {
        match mode {
            InputMode::Normal => match k.code {
                KeyCode::Char('q') => Some(Action::Quit),
                KeyCode::Char('/') => Some(Action::StartSearch),
                KeyCode::Char(' ') => Some(Action::TogglePause),
                KeyCode::Char('l') => Some(Action::ToggleLoop),
                KeyCode::Char('j') | KeyCode::Down => Some(Action::SelectNext),
                KeyCode::Char('k') | KeyCode::Up => Some(Action::SelectPrev),
                KeyCode::Enter => Some(Action::PlaySelected),
                _ => None,
            },
            InputMode::Searching => match k.code {
                KeyCode::Esc => Some(Action::CancelSearch),
                KeyCode::Enter => Some(Action::SubmitSearch),
                KeyCode::Backspace => Some(Action::SearchBackspace),
                KeyCode::Char(c) => Some(Action::SearchInput(c)),
                _ => None,
            },
        }
    }
}

pub fn translate(key: KeyPress, mode: &InputMode) -> (r: Option<Action>)
    ensures
        r == action_for(key, *mode),
{
    if key.ctrl && key.code == KeyCode::Char('c') {
        return Some(Action::Quit);
    }
    match mode {
        InputMode::Normal => match key.code {
            KeyCode::Char('q') => Some(Action::Quit),
            KeyCode::Char('/') => Some(Action::StartSearch),
            KeyCode::Char(' ') => Some(Action::TogglePause),
            KeyCode::Char('l') => Some(Action::ToggleLoop),
            KeyCode::Char('j') | KeyCode::Down => Some(Action::SelectNext),
            KeyCode::Char('k') | KeyCode::Up => Some(Action::SelectPrev),
            KeyCode::Enter => Some(Action::PlaySelected),
            _ => None,
        },
        InputMode::Searching => match key.code {
            KeyCode::Esc => Some(Action::CancelSearch),
            KeyCode::Enter => Some(Action::SubmitSearch),
            KeyCode::Backspace => Some(Action::SearchBackspace),
            KeyCode::Char(c) => Some(Action::SearchInput(c)),
            _ => None,
        },
    }
}

} // verus!
