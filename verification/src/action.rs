//! Mapping terminal key presses to state transitions.

use vstd::prelude::*;

use crate::app::InputMode;

verus! {

/// The key that was pressed.
#[derive(Clone, Copy, Debug, PartialEq, Eq, Structural)]
pub enum KeyCode {
    Char(char),
    Esc,
    Enter,
    Backspace,
    Tab,
    BackTab,
    Left,
    Right,
    Up,
    Down,
    Home,
    End,
    /// Any key this application does not bind.
    Other,
}

/// A key press: the key and whether the Control modifier was held.
#[derive(Clone, Copy, Debug, PartialEq, Eq, Structural)]
pub struct Key {
    pub code: KeyCode,
    pub control: bool,
}

impl Key {
    /// A key press with the given modifier state.
    pub fn new(code: KeyCode, control: bool) -> (r: Key)
        ensures
            r == (Key { code, control }),
    {
        Key { code, control }
    }
}

/// A state transition requested by the user.
#[derive(Clone, Copy, Debug, PartialEq, Eq, Structural)]
pub enum Action {
    Quit,
    NextTab,
    PreviousTab,
    MoveUp,
    MoveDown,
    First,
    Last,
    TogglePause,
    Refresh,
    ToggleHelp,
    CloseOverlay,
    OpenDetails,
    StartSearch,
    /// Edit the current filter: return to the search text without clearing it.
    Filter,
    FinishSearch,
    ClearSearch,
    SearchChar(char),
    SearchBackspace,
    ExportReport,
    /// A key that requests nothing.
    NoOp,
}

/// The key bindings: Ctrl-C quits in every mode; while searching, text keys edit the search;
/// otherwise the navigation and command keys apply.
pub open spec fn key_action(key: Key, mode: InputMode) -> Action {
    if key.control && key.code == KeyCode::Char('c') {
        Action::Quit
    } else if mode == InputMode::Search {
        match key.code {
            KeyCode::Esc => Action::ClearSearch,
            KeyCode::Enter => Action::FinishSearch,
            KeyCode::Backspace => Action::SearchBackspace,
            KeyCode::Char(c) => Action::SearchChar(c),
            _ => Action::NoOp,
        }
    } else {
        match key.code {
            KeyCode::Char('q') => Action::Quit,
            KeyCode::Tab | KeyCode::Right | KeyCode::Char('l') => Action::NextTab,
            KeyCode::BackTab | KeyCode::Left | KeyCode::Char('h') => Action::PreviousTab,
            KeyCode::Up | KeyCode::Char('k') => Action::MoveUp,
            KeyCode::Down | KeyCode::Char('j') => Action::MoveDown,
            KeyCode::Home | KeyCode::Char('g') => Action::First,
            KeyCode::End | KeyCode::Char('G') => Action::Last,
            KeyCode::Char(' ') => Action::TogglePause,
            KeyCode::Char('r') => Action::Refresh,
            KeyCode::Char('?') => Action::ToggleHelp,
            KeyCode::Esc => Action::CloseOverlay,
            KeyCode::Enter => Action::OpenDetails,
            KeyCode::Char('/') => Action::StartSearch,
            KeyCode::Char('f') => Action::Filter,
            KeyCode::Char('e') => Action::ExportReport,
            _ => Action::NoOp,
        }
    }
}

/// The action that a key press requests in the given input mode.
pub fn from_key(key: Key, input_mode: InputMode) -> (r: Action)
    ensures
        r == key_action(key, input_mode),
{
    if key.control && key.code == KeyCode::Char('c') {
        return Action::Quit;
    }
    if input_mode == InputMode::Search {
        return match key.code {
            KeyCode::Esc => Action::ClearSearch,
            KeyCode::Enter => Action::FinishSearch,
            KeyCode::Backspace => Action::SearchBackspace,
            KeyCode::Char(character) => Action::SearchChar(character),
            _ => Action::NoOp,
        };
    }
    match key.code {
        KeyCode::Char('q') => Action::Quit,
        KeyCode::Tab | KeyCode::Right | KeyCode::Char('l') => Action::NextTab,
        KeyCode::BackTab | KeyCode::Left | KeyCode::Char('h') => Action::PreviousTab,
        KeyCode::Up | KeyCode::Char('k') => Action::MoveUp,
        KeyCode::Down | KeyCode::Char('j') => Action::MoveDown,
        KeyCode::Home | KeyCode::Char('g') => Action::First,
        KeyCode::End | KeyCode::Char('G') => Action::Last,
        KeyCode::Char(' ') => Action::TogglePause,
        KeyCode::Char('r') => Action::Refresh,
        KeyCode::Char('?') => Action::ToggleHelp,
        KeyCode::Esc => Action::CloseOverlay,
        KeyCode::Enter => Action::OpenDetails,
        KeyCode::Char('/') => Action::StartSearch,
        KeyCode::Char('f') => Action::Filter,
        KeyCode::Char('e') => Action::ExportReport,
        _ => Action::NoOp,
    }
}

/// Law: while searching, every plain character key edits the search text, so no command key
/// can fire by accident; only Ctrl-C still quits.
pub proof fn search_mode_captures_characters(c: char, control: bool)
    ensures
        !(control && c == 'c') ==> key_action(Key { code: KeyCode::Char(c), control }, InputMode::Search)
            == Action::SearchChar(c),
        key_action(Key { code: KeyCode::Char('c'), control: true }, InputMode::Search) == Action::Quit,
        key_action(Key { code: KeyCode::Char('c'), control: true }, InputMode::Normal) == Action::Quit,
{
}

/// Law: no key pressed while searching pauses, refreshes, exports, moves the selection or
/// changes the view; such keys only edit or end the search (or quit).
pub proof fn searching_keys_stay_in_the_search(key: Key)
    ensures
        key_action(key, InputMode::Search) != Action::TogglePause,
        key_action(key, InputMode::Search) != Action::Refresh,
        key_action(key, InputMode::Search) != Action::ExportReport,
        key_action(key, InputMode::Search) != Action::MoveUp,
        key_action(key, InputMode::Search) != Action::MoveDown,
        key_action(key, InputMode::Search) != Action::NextTab,
        key_action(key, InputMode::Search) != Action::PreviousTab,
        key_action(key, InputMode::Search) != Action::Filter,
{
}

} // verus!
