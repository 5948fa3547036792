//! Key bindings: which message (or action) each key press stands for.

use vstd::prelude::*;

use crate::msg::Message;
use crate::state::{Model, SearchFocus, View};

verus! {

/// The key of a key press, as far as the bindings tell keys apart.
#[derive(Clone, Copy, Debug, PartialEq, Eq, Structural)]
pub enum KeyCode {
    Char(char),
    Enter,
    Esc,
    Backspace,
    Tab,
    Up,
    Down,
    Left,
    Right,
    /// Any other key.
    Other,
}

/// A key press: the key, and whether Control was held.
#[derive(Clone, Copy, Debug, PartialEq, Eq, Structural)]
pub struct KeyPress {
    pub code: KeyCode,
    pub ctrl: bool,
}

/// Control-C.
pub open spec fn is_interrupt(k: KeyPress) -> bool {
    k.ctrl && k.code == KeyCode::Char('c')
}

/// The bindings of the search view: typing into the query, or moving
/// through the results.
pub open spec fn search_binding(code: KeyCode, focus: SearchFocus) -> Message {
    match focus {
        SearchFocus::Input => match code {
            KeyCode::Esc => Message::Back,
            KeyCode::Enter => Message::SubmitSearch,
            KeyCode::Backspace => Message::SearchBackspace,
            KeyCode::Char(c) => Message::SearchChar(c),
            KeyCode::Tab => Message::ToggleView,
            _ => Message::Nothing,
        },
        SearchFocus::Results => match code {
            KeyCode::Char('/') | KeyCode::Esc => Message::EnterSearch,
            KeyCode::Char('j') | KeyCode::Down => Message::NavDown,
            KeyCode::Char('k') | KeyCode::Up => Message::NavUp,
            KeyCode::Enter => Message::Confirm,
            KeyCode::Char('a') => Message::AddToQueue,
            KeyCode::Char('H') => Message::SkipPrev,
            KeyCode::Char('L') => Message::SkipNext,
            KeyCode::Tab => Message::ToggleView,
            KeyCode::Char('q') => Message::Quit,
            _ => Message::Nothing,
        },
    }
}

/// The bindings of the player view.
pub open spec fn player_binding(code: KeyCode) -> Message {
    match code {
        KeyCode::Char(' ') => Message::TogglePause,
        KeyCode::Char('r') => Message::ToggleLoop,
        KeyCode::Tab => Message::ToggleView,
        KeyCode::Char('q') => Message::Quit,
        KeyCode::Char('H') => Message::SkipPrev,
        KeyCode::Char('L') => Message::SkipNext,
        KeyCode::Char('h') | KeyCode::Left => Message::FocusLeft,
        KeyCode::Char('l') | KeyCode::Right => Message::FocusRight,
        KeyCode::Char('j') | KeyCode::Down => Message::NavDown,
        KeyCode::Char('k') | KeyCode::Up => Message::NavUp,
        KeyCode::Enter => Message::Confirm,
        KeyCode::Esc => Message::Back,
        KeyCode::Char('d') => Message::RemoveFromQueue,
        KeyCode::Char('D') => Message::DeleteFromLibrary,
        _ => Message::Nothing,
    }
}

/// What a key press means in the given view and search focus: Control-C
/// always quits; otherwise the view's bindings.
pub open spec fn key_message(k: KeyPress, view: View, focus: SearchFocus) -> Message {
    if is_interrupt(k) {
        Message::Quit
    } else {
        match view {
            View::Search => search_binding(k.code, focus),
            View::Player => player_binding(k.code),
        }
    }
}

/// A view (with its search focus) in which keys move a selection: the
/// player view, or the search results.
pub open spec fn navigates(view: View, focus: SearchFocus) -> bool {
    view == View::Player || focus == SearchFocus::Results
}

/// Wherever keys move a selection, `j` and Down, and nothing else, move it
/// down, and `k` and Up, and nothing else, move it up (Control-C still
/// quits); the player view binds them as the search results do.
pub proof fn law_navigation_keys(k: KeyPress, view: View, focus: SearchFocus)
    requires
        navigates(view, focus),
        !is_interrupt(k),
    ensures
        (key_message(k, view, focus) == Message::NavDown) <==> (k.code == KeyCode::Char('j')
            || k.code == KeyCode::Down),
        (key_message(k, view, focus) == Message::NavUp) <==> (k.code == KeyCode::Char('k')
            || k.code == KeyCode::Up),
        (k.code == KeyCode::Char('j') || k.code == KeyCode::Down || k.code == KeyCode::Char('k')
            || k.code == KeyCode::Up) ==> player_binding(k.code) == search_binding(
            k.code,
            SearchFocus::Results,
        ),
{
}

pub fn translate_search(key: KeyPress, focus: &SearchFocus) -> (r: Message)
    ensures
        r == search_binding(key.code, *focus),
{
    match focus {
        SearchFocus::Input => match key.code {
            KeyCode::Esc => Message::Back,
            KeyCode::Enter => Message::SubmitSearch,
            KeyCode::Backspace => Message::SearchBackspace,
            KeyCode::Char(c) => Message::SearchChar(c),
            KeyCode::Tab => Message::ToggleView,
            _ => Message::Nothing,
        },
        SearchFocus::Results => match key.code {
            KeyCode::Char('/') | KeyCode::Esc => Message::EnterSearch,
            KeyCode::Char('j') | KeyCode::Down => Message::NavDown,
            KeyCode::Char('k') | KeyCode::Up => Message::NavUp,
            KeyCode::Enter => Message::Confirm,
            KeyCode::Char('a') => Message::AddToQueue,
            KeyCode::Char('H') => Message::SkipPrev,
            KeyCode::Char('L') => Message::SkipNext,
            KeyCode::Tab => Message::ToggleView,
            KeyCode::Char('q') => Message::Quit,
            _ => Message::Nothing,
        },
    }
}

pub fn translate_player(key: KeyPress) -> (r: Message)
    ensures
        r == player_binding(key.code),
{
    match key.code {
        KeyCode::Char(' ') => Message::TogglePause,
        KeyCode::Char('r') => Message::ToggleLoop,
        KeyCode::Tab => Message::ToggleView,
        KeyCode::Char('q') => Message::Quit,
        KeyCode::Char('H') => Message::SkipPrev,
        KeyCode::Char('L') => Message::SkipNext,
        KeyCode::Char('h') | KeyCode::Left => Message::FocusLeft,
        KeyCode::Char('l') | KeyCode::Right => Message::FocusRight,
        KeyCode::Char('j') | KeyCode::Down => Message::NavDown,
        KeyCode::Char('k') | KeyCode::Up => Message::NavUp,
        KeyCode::Enter => Message::Confirm,
        KeyCode::Esc => Message::Back,
        KeyCode::Char('d') => Message::RemoveFromQueue,
        KeyCode::Char('D') => Message::DeleteFromLibrary,
        _ => Message::Nothing,
    }
}

/// The message a key press stands for in the model's current view.
pub fn translate_key(key: KeyPress, model: &Model) -> (r: Message)
    ensures
        r == key_message(key, model.view, model.search_focus),
{
    if key.ctrl && key.code == KeyCode::Char('c') {
        return Message::Quit;
    }
    match model.view {
        View::Search => translate_search(key, &model.search_focus),
        View::Player => translate_player(key),
    }
}

} // verus!
