use peyvand::key::{KeyMode, KeyToken, KeybindingManager};
use peyvand::matcher::{MatchOutcome, SequenceMatcher};

const TIMEOUT: u64 = 1000;

#[test]
fn single_key_bindings_resolve() {
    let mgr = KeybindingManager::with_defaults();
    let table = mgr.table(KeyMode::Normal);
    let mut m = SequenceMatcher::new(TIMEOUT);
    assert_eq!(
        m.feed(table, KeyToken::plain('j'), 0),
        MatchOutcome::Resolved("scroll-down".to_string())
    );
    assert_eq!(
        m.feed(table, KeyToken::plain('k'), 1),
        MatchOutcome::Resolved("scroll-up".to_string())
    );
    assert_eq!(
        m.feed(table, KeyToken::with_ctrl('d'), 2),
        MatchOutcome::Resolved("scroll-half-down".to_string())
    );
}

#[test]
fn multi_key_binding_pends_then_resolves() {
    let mgr = KeybindingManager::with_defaults();
    let table = mgr.table(KeyMode::Normal);
    let mut m = SequenceMatcher::new(TIMEOUT);
    assert_eq!(m.feed(table, KeyToken::plain('g'), 0), MatchOutcome::Pending);
    assert_eq!(
        m.feed(table, KeyToken::plain('t'), 10),
        MatchOutcome::Resolved("scroll-top".to_string())
    );
    // the matcher is back at the root: the same sequence resolves again
    assert_eq!(m.feed(table, KeyToken::plain('g'), 20), MatchOutcome::Pending);
    assert_eq!(
        m.feed(table, KeyToken::plain('b'), 30),
        MatchOutcome::Resolved("scroll-bottom".to_string())
    );
}

#[test]
fn divergent_token_is_invalid_and_resets() {
    let mgr = KeybindingManager::with_defaults();
    let table = mgr.table(KeyMode::Normal);
    let mut m = SequenceMatcher::new(TIMEOUT);
    assert_eq!(m.feed(table, KeyToken::plain('g'), 0), MatchOutcome::Pending);
    assert_eq!(m.feed(table, KeyToken::plain('x'), 10), MatchOutcome::Invalid);
    // reset: 't' alone starts no binding
    assert_eq!(m.feed(table, KeyToken::plain('t'), 20), MatchOutcome::Invalid);
    // and a full sequence still works afterwards
    assert_eq!(m.feed(table, KeyToken::plain('g'), 30), MatchOutcome::Pending);
    assert_eq!(
        m.feed(table, KeyToken::plain('o'), 40),
        MatchOutcome::Resolved("show-url".to_string())
    );
}

#[test]
fn unbound_single_token_is_invalid() {
    let mgr = KeybindingManager::with_defaults();
    let table = mgr.table(KeyMode::Normal);
    let mut m = SequenceMatcher::new(TIMEOUT);
    assert_eq!(m.feed(table, KeyToken::plain('z'), 0), MatchOutcome::Invalid);
    // the ctrl flag matters: plain 'd' starts nothing even though C-d is bound
    assert_eq!(m.feed(table, KeyToken::plain('d'), 1), MatchOutcome::Invalid);
}

#[test]
fn idle_deadline_resets_pending_state() {
    let mgr = KeybindingManager::with_defaults();
    let table = mgr.table(KeyMode::Normal);
    let mut m = SequenceMatcher::new(TIMEOUT);
    assert_eq!(m.feed(table, KeyToken::plain('g'), 0), MatchOutcome::Pending);
    // the deadline (0 + 1000) has lapsed: 't' is evaluated fresh against the
    // whole trie, where it starts no binding
    assert_eq!(
        m.feed(table, KeyToken::plain('t'), TIMEOUT + 5),
        MatchOutcome::Invalid
    );
    // within the deadline the pending state survives
    assert_eq!(m.feed(table, KeyToken::plain('g'), 2000), MatchOutcome::Pending);
    assert_eq!(
        m.feed(table, KeyToken::plain('t'), 2900),
        MatchOutcome::Resolved("scroll-top".to_string())
    );
}

#[test]
fn tick_silently_resets_after_deadline() {
    let mgr = KeybindingManager::with_defaults();
    let table = mgr.table(KeyMode::Normal);
    let mut m = SequenceMatcher::new(TIMEOUT);
    assert_eq!(m.feed(table, KeyToken::plain('g'), 0), MatchOutcome::Pending);
    m.tick(TIMEOUT + 1);
    // after the silent reset, 't' alone is a miss
    assert_eq!(m.feed(table, KeyToken::plain('t'), TIMEOUT + 2), MatchOutcome::Invalid);
}

#[test]
fn empty_table_absorbs_everything() {
    let mgr = KeybindingManager::with_defaults();
    let table = mgr.table(KeyMode::Insert);
    let mut m = SequenceMatcher::new(TIMEOUT);
    assert_eq!(m.feed(table, KeyToken::plain('a'), 0), MatchOutcome::Invalid);
    assert_eq!(m.feed(table, KeyToken::escape(), 1), MatchOutcome::Invalid);
}
