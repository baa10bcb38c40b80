use wsentry::action::{from_key, Action, Key, KeyCode};
use wsentry::app::InputMode;

#[test]
fn maps_navigation_and_global_quit() {
    assert_eq!(
        from_key(Key::new(KeyCode::Char('j'), false), InputMode::Normal),
        Action::MoveDown
    );
    assert_eq!(
        from_key(Key::new(KeyCode::Char('c'), true), InputMode::Search),
        Action::Quit
    );
}

#[test]
fn search_mode_routes_characters_to_search() {
    assert_eq!(
        from_key(Key::new(KeyCode::Char('q'), false), InputMode::Search),
        Action::SearchChar('q')
    );
    assert_eq!(
        from_key(Key::new(KeyCode::Esc, false), InputMode::Search),
        Action::ClearSearch
    );
}

#[test]
fn normal_mode_keys_map_to_their_actions() {
    let normal = |code| from_key(Key::new(code, false), InputMode::Normal);
    assert_eq!(normal(KeyCode::Char('q')), Action::Quit);
    assert_eq!(normal(KeyCode::Tab), Action::NextTab);
    assert_eq!(normal(KeyCode::BackTab), Action::PreviousTab);
    assert_eq!(normal(KeyCode::Up), Action::MoveUp);
    assert_eq!(normal(KeyCode::Char('k')), Action::MoveUp);
    assert_eq!(normal(KeyCode::Down), Action::MoveDown);
    assert_eq!(normal(KeyCode::Home), Action::First);
    assert_eq!(normal(KeyCode::End), Action::Last);
    assert_eq!(normal(KeyCode::Char(' ')), Action::TogglePause);
    assert_eq!(normal(KeyCode::Char('r')), Action::Refresh);
    assert_eq!(normal(KeyCode::Char('?')), Action::ToggleHelp);
    assert_eq!(normal(KeyCode::Esc), Action::CloseOverlay);
    assert_eq!(normal(KeyCode::Enter), Action::OpenDetails);
    assert_eq!(normal(KeyCode::Char('/')), Action::StartSearch);
    assert_eq!(normal(KeyCode::Char('f')), Action::Filter);
    assert_eq!(normal(KeyCode::Char('e')), Action::ExportReport);
    assert_eq!(normal(KeyCode::Char('x')), Action::NoOp);
    assert_eq!(normal(KeyCode::Other), Action::NoOp);
}

#[test]
fn search_mode_edits_and_finishes_the_search() {
    let search = |code| from_key(Key::new(code, false), InputMode::Search);
    assert_eq!(search(KeyCode::Enter), Action::FinishSearch);
    assert_eq!(search(KeyCode::Backspace), Action::SearchBackspace);
    assert_eq!(search(KeyCode::Char('/')), Action::SearchChar('/'));
    assert_eq!(search(KeyCode::Char('f')), Action::SearchChar('f'));
    assert_eq!(search(KeyCode::Up), Action::NoOp);
}

#[test]
fn control_c_quits_in_every_mode_and_other_keys_ignore_control() {
    assert_eq!(
        from_key(Key::new(KeyCode::Char('c'), true), InputMode::Normal),
        Action::Quit
    );
    assert_eq!(
        from_key(Key::new(KeyCode::Char('C'), true), InputMode::Search),
        Action::SearchChar('C')
    );
    assert_eq!(
        from_key(Key::new(KeyCode::Char('q'), true), InputMode::Normal),
        Action::Quit
    );
}
