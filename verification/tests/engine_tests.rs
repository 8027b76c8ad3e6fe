use peyvand::action::Action;
use peyvand::engine::InputEngine;
use peyvand::key::{KeyMode, KeyToken, KeybindingManager};

const TIMEOUT: u64 = 1000;

fn engine() -> InputEngine {
    InputEngine::new(KeybindingManager::with_defaults(), TIMEOUT)
}

#[test]
fn normal_mode_resolves_default_bindings() {
    let mut e = engine();
    let d = e.handle_token(KeyToken::plain('j'), 0);
    assert_eq!(d.actions, vec![Action::ScrollDown]);
    assert_eq!(d.report, None);

    let d = e.handle_token(KeyToken::plain('g'), 1);
    assert!(d.actions.is_empty());
    let d = e.handle_token(KeyToken::plain('t'), 2);
    assert_eq!(d.actions, vec![Action::ScrollTop]);
}

#[test]
fn mode_switching_binding_switches_engine_mode() {
    let mut e = engine();
    assert_eq!(e.current_mode(), KeyMode::Normal);
    let d = e.handle_token(KeyToken::plain('i'), 0);
    assert_eq!(d.actions, vec![Action::InsertMode]);
    assert_eq!(e.current_mode(), KeyMode::Insert);
    // insert mode has no bindings: keys are absorbed
    let d = e.handle_token(KeyToken::plain('j'), 1);
    assert!(d.actions.is_empty());
    assert_eq!(d.report, None);
}

#[test]
fn escape_returns_to_normal_from_insert() {
    let mut e = engine();
    e.handle_token(KeyToken::plain('i'), 0);
    assert_eq!(e.current_mode(), KeyMode::Insert);
    let d = e.handle_token(KeyToken::escape(), 1);
    assert_eq!(d.actions, vec![Action::NormalMode]);
    assert_eq!(e.current_mode(), KeyMode::Normal);
}

#[test]
fn escape_returns_to_normal_from_search_and_cmd() {
    let mut e = engine();
    e.handle_token(KeyToken::plain('/'), 0);
    assert_eq!(e.current_mode(), KeyMode::Search);
    // partial buffer content, then Escape
    e.handle_token(KeyToken::plain('a'), 1);
    let d = e.handle_token(KeyToken::escape(), 2);
    assert_eq!(d.actions, vec![Action::NormalMode]);
    assert_eq!(e.current_mode(), KeyMode::Normal);

    e.handle_token(KeyToken::plain(':'), 3);
    assert_eq!(e.current_mode(), KeyMode::Cmd);
    e.handle_token(KeyToken::plain('q'), 4);
    let d = e.handle_token(KeyToken::escape(), 5);
    assert_eq!(d.actions, vec![Action::NormalMode]);
    assert_eq!(e.current_mode(), KeyMode::Normal);

    // the abandoned buffers are gone: committing straight away sends empties
    e.handle_token(KeyToken::plain('/'), 6);
    let d = e.handle_token(KeyToken::enter(), 7);
    assert_eq!(
        d.actions,
        vec![Action::Search(String::new()), Action::NormalMode]
    );
}

#[test]
fn escape_also_clears_pending_matcher_state() {
    let mut e = engine();
    e.handle_token(KeyToken::plain('i'), 0);
    assert_eq!(e.current_mode(), KeyMode::Insert);
    let d = e.handle_token(KeyToken::escape(), 1);
    assert_eq!(d.actions, vec![Action::NormalMode]);
    // a fresh 'g' 't' resolves: nothing lingered in the matcher
    e.handle_token(KeyToken::plain('g'), 2);
    let d = e.handle_token(KeyToken::plain('t'), 3);
    assert_eq!(d.actions, vec![Action::ScrollTop]);
}

#[test]
fn search_mode_commits_buffer() {
    let mut e = engine();
    e.handle_token(KeyToken::plain('/'), 0);
    assert_eq!(e.current_mode(), KeyMode::Search);
    e.handle_token(KeyToken::plain('f'), 1);
    e.handle_token(KeyToken::plain('o'), 2);
    e.handle_token(KeyToken::plain('o'), 3);
    let d = e.handle_token(KeyToken::enter(), 4);
    assert_eq!(
        d.actions,
        vec![Action::Search("foo".to_string()), Action::NormalMode]
    );
    assert_eq!(e.current_mode(), KeyMode::Normal);
}

#[test]
fn search_mode_backspace_edits_buffer() {
    let mut e = engine();
    e.handle_token(KeyToken::plain('/'), 0);
    e.handle_token(KeyToken::plain('a'), 1);
    e.handle_token(KeyToken::plain('b'), 2);
    e.handle_token(KeyToken::backspace(), 3);
    e.handle_token(KeyToken::plain('c'), 4);
    // backspace on an empty buffer is silent
    e.handle_token(KeyToken::backspace(), 5);
    e.handle_token(KeyToken::backspace(), 6);
    e.handle_token(KeyToken::backspace(), 7);
    e.handle_token(KeyToken::plain('x'), 8);
    let d = e.handle_token(KeyToken::enter(), 9);
    assert_eq!(
        d.actions,
        vec![Action::Search("x".to_string()), Action::NormalMode]
    );
}

#[test]
fn cmd_mode_commits_known_command() {
    let mut e = engine();
    e.handle_token(KeyToken::plain(':'), 0);
    assert_eq!(e.current_mode(), KeyMode::Cmd);
    e.handle_token(KeyToken::plain('q'), 1);
    let d = e.handle_token(KeyToken::enter(), 2);
    assert_eq!(d.actions, vec![Action::NormalMode, Action::Exit]);
    assert_eq!(d.report, None);
    assert_eq!(e.current_mode(), KeyMode::Normal);
}

#[test]
fn cmd_mode_reports_unknown_command() {
    let mut e = engine();
    e.handle_token(KeyToken::plain(':'), 0);
    for (i, c) in "frob".chars().enumerate() {
        e.handle_token(KeyToken::plain(c), 1 + i as u64);
    }
    let d = e.handle_token(KeyToken::enter(), 10);
    assert_eq!(d.actions, vec![Action::NormalMode]);
    assert_eq!(d.report, Some("frob".to_string()));
    assert_eq!(e.current_mode(), KeyMode::Normal);
}

#[test]
fn cmd_mode_ignores_ctrl_characters() {
    let mut e = engine();
    e.handle_token(KeyToken::plain(':'), 0);
    e.handle_token(KeyToken::plain('q'), 1);
    // a ctrl-modified character is not buffered
    e.handle_token(KeyToken::with_ctrl('w'), 2);
    let d = e.handle_token(KeyToken::enter(), 3);
    assert_eq!(d.actions, vec![Action::NormalMode, Action::Exit]);
}

#[test]
fn invalid_sequence_is_absorbed_silently() {
    let mut e = engine();
    let d = e.handle_token(KeyToken::plain('g'), 0);
    assert!(d.actions.is_empty());
    let d = e.handle_token(KeyToken::plain('x'), 1);
    assert!(d.actions.is_empty());
    assert_eq!(d.report, None);
    assert_eq!(e.current_mode(), KeyMode::Normal);
}

#[test]
fn engine_idle_reset_between_tokens() {
    let mut e = engine();
    e.handle_token(KeyToken::plain('g'), 0);
    // long silence: the pending 'g' lapses, so 't' alone is a miss
    let d = e.handle_token(KeyToken::plain('t'), TIMEOUT + 50);
    assert!(d.actions.is_empty());
    // while within the window the sequence still resolves
    e.handle_token(KeyToken::plain('g'), 2 * TIMEOUT);
    let d = e.handle_token(KeyToken::plain('t'), 2 * TIMEOUT + 500);
    assert_eq!(d.actions, vec![Action::ScrollTop]);
}

#[test]
fn escape_in_normal_mode_is_plain_miss() {
    let mut e = engine();
    let d = e.handle_token(KeyToken::escape(), 0);
    assert!(d.actions.is_empty());
    assert_eq!(d.report, None);
    assert_eq!(e.current_mode(), KeyMode::Normal);
}
