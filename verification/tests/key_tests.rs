use peyvand::key::{
    render_sequence, BindingTable, KeyCode, KeyMode, KeySequence, KeyToken, KeybindingConfig,
    KeybindingManager,
};

fn seq_of(s: &str) -> KeySequence {
    KeySequence::from_str(s)
}

#[test]
fn from_str_plain_characters() {
    let s = seq_of("gt");
    assert_eq!(s.0.len(), 2);
    assert_eq!(s.0[0], KeyToken::plain('g'));
    assert_eq!(s.0[1], KeyToken::plain('t'));
}

#[test]
fn from_str_ctrl_prefix() {
    let s = seq_of("C-d");
    assert_eq!(s.0.len(), 1);
    assert_eq!(s.0[0], KeyToken::with_ctrl('d'));
}

#[test]
fn from_str_modifier_combinations() {
    let s = seq_of("C-S-x");
    assert_eq!(s.0.len(), 1);
    let t = s.0[0];
    assert_eq!(t.code, KeyCode::Char('x'));
    assert!(t.ctrl);
    assert!(t.shift);
    assert!(!t.meta);

    // a trailing modifier letter is an ordinary character
    let s = seq_of("C-");
    assert_eq!(s.0.len(), 2);
    assert_eq!(s.0[0], KeyToken::plain('C'));
    assert_eq!(s.0[1], KeyToken::plain('-'));
}

#[test]
fn prefix_relation_is_strict() {
    let g = seq_of("g");
    let gt = seq_of("gt");
    let gx = seq_of("gx");
    assert!(g.is_prefix_of(&gt));
    assert!(!gt.is_prefix_of(&g));
    assert!(!gt.is_prefix_of(&gt));
    assert!(!gt.is_prefix_of(&gx));
}

#[test]
fn insert_rejects_prefix_conflicts() {
    let mut t = BindingTable::new();
    assert!(t.insert(seq_of("gt"), "scroll-top".to_string()).is_ok());
    // a strict prefix of an existing binding
    assert!(t.insert(seq_of("g"), "go-back".to_string()).is_err());
    // a strict extension of an existing binding
    assert!(t.insert(seq_of("gtx"), "exit".to_string()).is_err());
    // the table is untouched by the rejections
    assert_eq!(t.len(), 1);
    let (s, a) = t.entry_at(0);
    assert_eq!(render_sequence(&s), "gt");
    assert_eq!(a, "scroll-top");
}

#[test]
fn insert_rejects_empty_sequence() {
    let mut t = BindingTable::new();
    assert!(t.insert(seq_of(""), "exit".to_string()).is_err());
    assert_eq!(t.len(), 0);
}

#[test]
fn insert_rebinds_same_sequence() {
    let mut t = BindingTable::new();
    assert!(t.insert(seq_of("j"), "scroll-down".to_string()).is_ok());
    assert!(t.insert(seq_of("j"), "scroll-up".to_string()).is_ok());
    assert_eq!(t.len(), 1);
    let (_, a) = t.entry_at(0);
    assert_eq!(a, "scroll-up");
}

#[test]
fn defaults_contain_documented_bindings() {
    let m = KeybindingManager::with_defaults();
    let help = m.get_help_map(KeyMode::Normal);
    assert_eq!(help.len(), 19);
    let lookup = |action: &str| -> String {
        help.iter()
            .find(|(a, _)| a == action)
            .map(|(_, s)| s.clone())
            .expect("binding missing")
    };
    assert_eq!(lookup("scroll-down"), "j");
    assert_eq!(lookup("scroll-up"), "k");
    assert_eq!(lookup("scroll-top"), "gt");
    assert_eq!(lookup("scroll-bottom"), "gb");
    assert_eq!(lookup("scroll-half-down"), "C-d");
    assert_eq!(lookup("scroll-half-up"), "C-u");
    assert_eq!(lookup("go-back"), "h");
    assert_eq!(lookup("go-forward"), "l");
    assert_eq!(lookup("insert-mode"), "i");
    assert_eq!(lookup("cmd-mode"), ":");
    assert_eq!(lookup("show-help"), "?");
    assert_eq!(lookup("show-url"), "go");
    assert_eq!(lookup("hard-refresh-url"), "R");
    assert_eq!(lookup("soft-refresh-url"), "r");
    assert_eq!(lookup("copy-url"), "uy");
    assert_eq!(lookup("paste-url"), "up");
    assert_eq!(lookup("search-next"), "n");
    assert_eq!(lookup("search-prev"), "N");
    assert_eq!(lookup("search-mode"), "/");
}

#[test]
fn manager_new_without_config_is_defaults() {
    let m = KeybindingManager::new(None).expect("defaults never fail");
    assert_eq!(m.get_help_map(KeyMode::Normal).len(), 19);
    assert!(m.get_help_map(KeyMode::Insert).is_empty());
    assert!(m.get_help_map(KeyMode::Search).is_empty());
    assert!(m.get_help_map(KeyMode::Cmd).is_empty());
}

#[test]
fn overlay_adds_bindings() {
    let cfg = KeybindingConfig {
        bindings: vec![(
            "insert".to_string(),
            vec![("C-o".to_string(), "normal-mode".to_string())],
        )],
    };
    let m = KeybindingManager::new(Some(&cfg)).expect("valid overlay");
    let help = m.get_help_map(KeyMode::Insert);
    assert_eq!(help.len(), 1);
    assert_eq!(help[0].0, "normal-mode");
    assert_eq!(help[0].1, "C-o");
}

#[test]
fn overlay_unknown_mode_fails_atomically() {
    let mut m = KeybindingManager::with_defaults();
    let cfg = KeybindingConfig {
        bindings: vec![
            (
                "normal".to_string(),
                vec![("x".to_string(), "exit".to_string())],
            ),
            (
                "bogus".to_string(),
                vec![("y".to_string(), "exit".to_string())],
            ),
        ],
    };
    let err = m.load_overlay(&cfg).unwrap_err();
    assert_eq!(err, "Unknown mode: bogus");
    // nothing of the overlay was kept, not even the valid first section
    assert_eq!(m.get_help_map(KeyMode::Normal).len(), 19);
}

#[test]
fn overlay_conflict_fails_atomically() {
    let mut m = KeybindingManager::with_defaults();
    let cfg = KeybindingConfig {
        bindings: vec![(
            "normal".to_string(),
            // "g" is a strict prefix of the bound "gt"
            vec![("g".to_string(), "exit".to_string())],
        )],
    };
    let err = m.load_overlay(&cfg).unwrap_err();
    assert_eq!(
        err,
        "Invalid binding: sequence 'g' for command 'exit' conflicts with 'gt'"
    );
    assert_eq!(m.get_help_map(KeyMode::Normal).len(), 19);
}

#[test]
fn overlay_unknown_action_fails() {
    let mut m = KeybindingManager::with_defaults();
    let cfg = KeybindingConfig {
        bindings: vec![(
            "normal".to_string(),
            vec![("x".to_string(), "frobnicate".to_string())],
        )],
    };
    let err = m.load_overlay(&cfg).unwrap_err();
    assert_eq!(err, "Unknown action: frobnicate");
    assert_eq!(m.get_help_map(KeyMode::Normal).len(), 19);
}

#[test]
fn export_contains_tries_and_bindings() {
    let m = KeybindingManager::with_defaults();
    let js = m.export_full_js();
    assert!(js.contains("window.keyTries = {};"));
    assert!(js.contains("window.keyTries['Normal'] = new KeyTrie();"));
    assert!(js.contains("window.keyTries['Insert'] = new KeyTrie();"));
    assert!(js.contains("window.keyTries['Search'] = new KeyTrie();"));
    // Cmd mode bypasses the trie entirely
    assert!(!js.contains("window.keyTries['Cmd']"));
    assert!(js.contains("window.keyTries['Normal'].insert([\"g\", \"t\"], \"scroll-top\");"));
    assert!(js.contains("window.keyTries['Normal'].insert([\"C-d\"], \"scroll-half-down\");"));
    assert!(js.contains("document.addEventListener(\"keydown\""));
    assert!(js.contains("window.showHelp"));
}

#[test]
fn mode_names_round_trip() {
    assert_eq!(KeyMode::from_str("normal"), Some(KeyMode::Normal));
    assert_eq!(KeyMode::from_str("Insert"), Some(KeyMode::Insert));
    assert_eq!(KeyMode::from_str("search"), Some(KeyMode::Search));
    assert_eq!(KeyMode::from_str("cmd"), Some(KeyMode::Cmd));
    assert_eq!(KeyMode::from_str("bogus"), None);
    assert_eq!(KeyMode::Normal.name(), "Normal");
    assert_eq!(KeyMode::Cmd.name(), "Cmd");
}

#[test]
fn render_sequence_writes_modifiers() {
    assert_eq!(render_sequence(&seq_of("gt")), "gt");
    assert_eq!(render_sequence(&seq_of("C-d")), "C-d");
    let esc = KeySequence(vec![KeyToken::escape()]);
    assert_eq!(render_sequence(&esc), "Escape");
}
