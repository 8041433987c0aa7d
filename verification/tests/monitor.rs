use ra_killer::monitor::{App, AppState, KeyAction, KeyInput};
use ra_killer::process::ProcessInfo;

fn app_with(n: u32) -> App {
    let mut app = App::new(85, 20, "ra".to_string());
    let ps: Vec<ProcessInfo> = (0..n)
        .map(|i| ProcessInfo { pid: 100 + i, name: "ra".to_string(), memory: i as u64, cpu_bits: 0 })
        .collect();
    app.set_processes(&ps);
    app
}

#[test]
fn new_app_starts_browsing() {
    let app = App::new(85, 20, "rust-analyzer".to_string());
    assert_eq!(app.threshold, 85);
    assert_eq!(app.interval, 20);
    assert_eq!(app.selected_index, 0);
    assert!(app.processes.is_empty());
    assert_eq!(app.state, AppState::Normal);
    assert!(!app.should_quit);
}

#[test]
fn navigation_stays_in_list() {
    let mut app = app_with(3);
    assert_eq!(app.handle_key(KeyInput::Up), KeyAction::Nothing);
    assert_eq!(app.selected_index, 0);
    app.handle_key(KeyInput::Down);
    app.handle_key(KeyInput::Char('j'));
    assert_eq!(app.selected_index, 2);
    app.handle_key(KeyInput::Down);
    assert_eq!(app.selected_index, 2);
    app.handle_key(KeyInput::Char('k'));
    assert_eq!(app.selected_index, 1);
    let mut empty = app_with(0);
    empty.handle_key(KeyInput::Down);
    assert_eq!(empty.selected_index, 0);
}

#[test]
fn quit_keys() {
    let mut app = app_with(1);
    app.handle_key(KeyInput::Char('q'));
    assert!(app.should_quit);
    let mut app = app_with(1);
    app.handle_key(KeyInput::Esc);
    assert!(app.should_quit);
    app.handle_key(KeyInput::Char('x'));
    assert!(app.should_quit);
}

#[test]
fn kill_selected_needs_confirmation() {
    let mut app = app_with(2);
    app.handle_key(KeyInput::Down);
    assert_eq!(app.handle_key(KeyInput::Enter), KeyAction::Nothing);
    assert_eq!(app.state, AppState::ConfirmKill(1));
    assert_eq!(app.handle_key(KeyInput::Char('x')), KeyAction::Nothing);
    assert_eq!(app.state, AppState::ConfirmKill(1));
    assert_eq!(app.handle_key(KeyInput::Char('y')), KeyAction::KillSelected);
    assert_eq!(app.state, AppState::Normal);
    assert_eq!(app.selected_pid(), Some(101));
}

#[test]
fn cleanup_needs_confirmation() {
    let mut app = app_with(2);
    app.handle_key(KeyInput::Char('a'));
    assert_eq!(app.state, AppState::ConfirmKill(usize::MAX));
    assert_eq!(app.handle_key(KeyInput::Enter), KeyAction::KillTopMemory);
    assert_eq!(app.state, AppState::Normal);
    app.handle_key(KeyInput::Char('a'));
    assert_eq!(app.handle_key(KeyInput::Char('n')), KeyAction::Nothing);
    assert_eq!(app.state, AppState::Normal);
    app.handle_key(KeyInput::Char('a'));
    assert_eq!(app.handle_key(KeyInput::Esc), KeyAction::Nothing);
    assert_eq!(app.state, AppState::Normal);
    assert!(!app.should_quit);
}

#[test]
fn nothing_to_confirm_in_empty_list() {
    let mut app = app_with(0);
    app.handle_key(KeyInput::Enter);
    assert_eq!(app.state, AppState::Normal);
    app.handle_key(KeyInput::Char('a'));
    assert_eq!(app.state, AppState::Normal);
}

#[test]
fn refresh_and_language_keys() {
    let mut app = app_with(1);
    assert_eq!(app.handle_key(KeyInput::Char('r')), KeyAction::Refresh);
    assert_eq!(app.handle_key(KeyInput::Char('L')), KeyAction::ToggleLanguage);
    assert_eq!(app.handle_key(KeyInput::Char('l')), KeyAction::Nothing);
    assert_eq!(app.handle_key(KeyInput::Other), KeyAction::Nothing);
    assert_eq!(app.state, AppState::Normal);
}
