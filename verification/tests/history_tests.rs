use peyvand::history::History;

#[test]
fn new_history_has_seed_current() {
    let h = History::new("https://start.example");
    assert_eq!(h.current(), "https://start.example");
}

#[test]
fn default_history_seed() {
    let h = History::default();
    assert_eq!(h.current(), "https://mr.katebzadeh.xyz");
}

#[test]
fn push_moves_current() {
    let mut h = History::new("a");
    h.push("b");
    assert_eq!(h.current(), "b");
    h.push("c");
    assert_eq!(h.current(), "c");
}

#[test]
fn back_to_boundary_returns_seed() {
    let mut h = History::new("seed");
    h.push("a");
    h.push("b");
    h.push("c");
    assert_eq!(h.back().as_deref(), Some("b"));
    assert_eq!(h.back().as_deref(), Some("a"));
    assert_eq!(h.back().as_deref(), Some("seed"));
    // at the boundary: no movement, silently
    assert_eq!(h.back(), None);
    assert_eq!(h.current(), "seed");
}

#[test]
fn forward_after_back_round_trip() {
    let mut h = History::new("seed");
    h.push("a");
    h.push("b");
    let before = h.current().to_string();
    assert_eq!(h.back().as_deref(), Some("a"));
    assert_eq!(h.forward().as_deref(), Some("b"));
    assert_eq!(h.current(), before);
    // newest entry: forward is a no-op
    assert_eq!(h.forward(), None);
    assert_eq!(h.current(), "b");
}

#[test]
fn push_truncates_forward_history() {
    let mut h = History::new("seed");
    h.push("A");
    h.push("B");
    assert_eq!(h.back().as_deref(), Some("A"));
    h.push("C");
    // B is discarded: forward is a no-op and current is C
    assert_eq!(h.forward(), None);
    assert_eq!(h.current(), "C");
    // and the past is intact
    assert_eq!(h.back().as_deref(), Some("A"));
    assert_eq!(h.back().as_deref(), Some("seed"));
}
