//! The modal input engine: one active mode, the mode-scoped text buffer used
//! by Search and Cmd, the sequence matcher for the token-fed modes, and the
//! binding tables. Raw key tokens go in; zero or more actions (and at most
//! one unknown-input report) come out. Escape returns to Normal from any
//! other mode, clearing the text buffer and the matcher cursor.

use vstd::prelude::*;

use crate::action::{
    action_payload, command_action_name, command_ok, command_payload, is_action_name,
    parse_action, parse_command, spec_action_name, takes_payload, Action, Dispatch,
};
use crate::key::{KeyCode, KeyMode, KeyToken, KeybindingManager, TableView};
use crate::matcher::{spec_deadline, spec_feed, MatchOutcome, SequenceMatcher, SpecMatch};
use crate::text::string_from_chars;

verus! {

/// The token that universally returns to Normal mode: a bare Escape.
pub open spec fn is_escape(t: KeyToken) -> bool {
    t.code is Escape && !t.ctrl && !t.shift && !t.meta
}

/// A bare Enter, committing the Search or Cmd buffer.
pub open spec fn is_enter(t: KeyToken) -> bool {
    t.code is Enter && !t.ctrl && !t.shift && !t.meta
}

/// A bare Backspace, erasing the last buffered character.
pub open spec fn is_backspace(t: KeyToken) -> bool {
    t.code is Backspace && !t.ctrl && !t.shift && !t.meta
}

/// A printable keystroke appended to the Search or Cmd buffer.
pub open spec fn is_text_input(t: KeyToken) -> bool {
    t.code is Char && !t.ctrl && !t.meta
}

/// The mode entered by a mode-switching action name, if it is one.
pub open spec fn mode_target(s: Seq<char>) -> Option<KeyMode> {
    if s == "normal-mode"@ {
        Some(KeyMode::Normal)
    } else if s == "insert-mode"@ {
        Some(KeyMode::Insert)
    } else if s == "search-mode"@ {
        Some(KeyMode::Search)
    } else if s == "cmd-mode"@ {
        Some(KeyMode::Cmd)
    } else {
        None
    }
}

/// The active mode and the mode-scoped text buffer (used only by Search and
/// Cmd; switching modes clears it).
pub struct ModeState {
    mode: KeyMode,
    buffer: Vec<char>,
}

impl ModeState {
    pub closed spec fn mode_view(&self) -> KeyMode {
        self.mode
    }

    pub closed spec fn buffer_view(&self) -> Seq<char> {
        self.buffer@
    }

    pub fn new() -> (m: Self)
        ensures
            m.mode_view() == KeyMode::Normal,
            m.buffer_view() == Seq::<char>::empty(),
    {
        ModeState { mode: KeyMode::Normal, buffer: Vec::new() }
    }

    pub fn mode(&self) -> (m: KeyMode)
        ensures
            m == self.mode_view(),
    {
        self.mode
    }

    /// Switches mode; the text buffer is always cleared on a switch.
    pub fn set_mode(&mut self, m: KeyMode)
        ensures
            final(self).mode_view() == m,
            final(self).buffer_view() == Seq::<char>::empty(),
    {
        self.mode = m;
        self.buffer.clear();
    }
}

/// The engine tying the pieces together; it owns the mode state, the matcher
/// and the binding tables.
pub struct InputEngine {
    mode_state: ModeState,
    matcher: SequenceMatcher,
    bindings: KeybindingManager,
}

impl InputEngine {
    pub closed spec fn mode_view(&self) -> KeyMode {
        self.mode_state.mode_view()
    }

    pub closed spec fn buffer_view(&self) -> Seq<char> {
        self.mode_state.buffer_view()
    }

    pub closed spec fn matcher_buffer_view(&self) -> Seq<KeyToken> {
        self.matcher.buffer_view()
    }

    pub closed spec fn matcher_deadline_view(&self) -> Option<u64> {
        self.matcher.deadline_view()
    }

    pub closed spec fn matcher_timeout_view(&self) -> u64 {
        self.matcher.timeout_view()
    }

    pub closed spec fn matcher_expired(&self, now: u64) -> bool {
        self.matcher.expired(now)
    }

    pub closed spec fn table_view(&self, m: KeyMode) -> TableView {
        self.bindings.table_view(m)
    }

    pub closed spec fn wf(&self) -> bool {
        self.bindings.wf()
    }

    /// An engine in Normal mode with empty buffers over the given tables.
    pub fn new(bindings: KeybindingManager, timeout_ms: u64) -> (e: Self)
        requires
            bindings.wf(),
        ensures
            e.wf(),
            e.mode_view() == KeyMode::Normal,
            e.buffer_view() == Seq::<char>::empty(),
            e.matcher_buffer_view() == Seq::<KeyToken>::empty(),
            e.matcher_deadline_view() is None,
            e.matcher_timeout_view() == timeout_ms,
            forall|m: KeyMode| #[trigger] e.table_view(m) == bindings.table_view(m),
    {
        InputEngine { mode_state: ModeState::new(), matcher: SequenceMatcher::new(timeout_ms), bindings }
    }

    pub fn current_mode(&self) -> (m: KeyMode)
        ensures
            m == self.mode_view(),
    {
        self.mode_state.mode()
    }

    /// Background expiry of the matcher's idle deadline; emits nothing.
    pub fn tick(&mut self, now: u64)
        ensures
            final(self).wf() == old(self).wf(),
            final(self).mode_view() == old(self).mode_view(),
            final(self).buffer_view() == old(self).buffer_view(),
            forall|m: KeyMode| #[trigger] final(self).table_view(m) == old(self).table_view(m),
            old(self).matcher_expired(now) ==> final(self).matcher_buffer_view() == Seq::<
                KeyToken,
            >::empty() && final(self).matcher_deadline_view() is None,
            !old(self).matcher_expired(now) ==> *final(self) == *old(self),
    {
        self.matcher.tick(now);
    }

    /// Routes one key token, at instant `now`, through the modal rules:
    ///
    /// - a bare Escape in any mode but Normal returns to Normal, clears the
    ///   text buffer and the matcher cursor, and emits `normal-mode`;
    /// - in Normal and Insert the token feeds the matcher: a resolved binding
    ///   emits its action (a mode-switching action also switches this
    ///   engine's own mode), a pending or invalid step absorbs the token, and
    ///   a resolved name that does not parse is reported;
    /// - in Search and Cmd a printable character extends the buffer,
    ///   Backspace shortens it, and Enter commits it: Search emits
    ///   `Search(buffer)` then `normal-mode`; Cmd emits `normal-mode` and the
    ///   parsed command, or reports unknown input;
    /// - everything else is absorbed unchanged.
    pub fn handle_token(&mut self, tok: KeyToken, now: u64) -> (r: Dispatch)
        requires
            old(self).wf(),
        ensures
            final(self).wf(),
            forall|m: KeyMode| #[trigger] final(self).table_view(m) == old(self).table_view(m),
            final(self).matcher_timeout_view() == old(self).matcher_timeout_view(),
            // Escape universality: from Insert, Search or Cmd, a bare Escape
            // returns to Normal and clears the text buffer and the matcher.
            (is_escape(tok) && old(self).mode_view() != KeyMode::Normal) ==> ({
                &&& final(self).mode_view() == KeyMode::Normal
                &&& final(self).buffer_view() == Seq::<char>::empty()
                &&& final(self).matcher_buffer_view() == Seq::<KeyToken>::empty()
                &&& final(self).matcher_deadline_view() is None
                &&& r.actions@.len() == 1
                &&& r.actions@[0] == Action::NormalMode
                &&& r.report is None
            }),
            // Token-fed modes: the matcher decides.
            (!(is_escape(tok) && old(self).mode_view() != KeyMode::Normal) && (old(
                self,
            ).mode_view() == KeyMode::Normal || old(self).mode_view() == KeyMode::Insert)) ==> ({
                let buf0 = if old(self).matcher_expired(now) {
                    Seq::<KeyToken>::empty()
                } else {
                    old(self).matcher_buffer_view()
                };
                let step = spec_feed(old(self).table_view(old(self).mode_view()), buf0, tok);
                &&& final(self).matcher_buffer_view() == step.0
                &&& (step.1 is Pending ==> final(self).matcher_deadline_view() == Some(
                    spec_deadline(now, old(self).matcher_timeout_view()),
                ))
                &&& (!(step.1 is Pending) ==> final(self).matcher_deadline_view() is None)
                &&& (step.1 is Pending || step.1 is Invalid) ==> ({
                    &&& r.actions@.len() == 0
                    &&& r.report is None
                    &&& final(self).mode_view() == old(self).mode_view()
                    &&& final(self).buffer_view() == old(self).buffer_view()
                })
                &&& (step.1 matches SpecMatch::Resolved(rn) ==> ({
                    if is_action_name(rn) && !takes_payload(rn) {
                        &&& r.actions@.len() == 1
                        &&& spec_action_name(r.actions@[0]) == rn
                        &&& action_payload(r.actions@[0]) is None
                        &&& r.report is None
                        &&& final(self).mode_view() == (match mode_target(rn) {
                            Some(m) => m,
                            None => old(self).mode_view(),
                        })
                        &&& (mode_target(rn) is Some ==> final(self).buffer_view() == Seq::<
                            char,
                        >::empty())
                        &&& (mode_target(rn) is None ==> final(self).buffer_view() == old(
                            self,
                        ).buffer_view())
                    } else {
                        &&& r.actions@.len() == 0
                        &&& r.report is Some
                        &&& r.report.unwrap()@ == rn
                        &&& final(self).mode_view() == old(self).mode_view()
                        &&& final(self).buffer_view() == old(self).buffer_view()
                    }
                }))
            }),
            // Text modes: buffer editing and commits.
            (!(is_escape(tok) && old(self).mode_view() != KeyMode::Normal) && (old(
                self,
            ).mode_view() == KeyMode::Search || old(self).mode_view() == KeyMode::Cmd)) ==> ({
                let buf0 = old(self).buffer_view();
                if is_enter(tok) {
                    &&& final(self).mode_view() == KeyMode::Normal
                    &&& final(self).buffer_view() == Seq::<char>::empty()
                    &&& final(self).matcher_buffer_view() == Seq::<KeyToken>::empty()
                    &&& final(self).matcher_deadline_view() is None
                    &&& (old(self).mode_view() == KeyMode::Search ==> ({
                        &&& r.actions@.len() == 2
                        &&& spec_action_name(r.actions@[0]) == "search"@
                        &&& action_payload(r.actions@[0]) == Some(buf0)
                        &&& r.actions@[1] == Action::NormalMode
                        &&& r.report is None
                    }))
                    &&& (old(self).mode_view() == KeyMode::Cmd ==> ({
                        if command_ok(buf0) {
                            &&& r.actions@.len() == 2
                            &&& r.actions@[0] == Action::NormalMode
                            &&& spec_action_name(r.actions@[1]) == command_action_name(buf0)
                            &&& action_payload(r.actions@[1]) == command_payload(buf0)
                            &&& r.report is None
                        } else {
                            &&& r.actions@.len() == 1
                            &&& r.actions@[0] == Action::NormalMode
                            &&& r.report is Some
                            &&& r.report.unwrap()@ == buf0
                        }
                    }))
                } else {
                    &&& final(self).mode_view() == old(self).mode_view()
                    &&& final(self).matcher_buffer_view() == old(self).matcher_buffer_view()
                    &&& final(self).matcher_deadline_view() == old(self).matcher_deadline_view()
                    &&& r.actions@.len() == 0
                    &&& r.report is None
                    &&& (is_backspace(tok) ==> final(self).buffer_view() == (if buf0.len() > 0 {
                        buf0.drop_last()
                    } else {
                        buf0
                    }))
                    &&& (is_text_input(tok) ==> final(self).buffer_view() == buf0.push(
                        tok.code->Char_0,
                    ))
                    &&& (!is_backspace(tok) && !is_text_input(tok) ==> final(self).buffer_view()
                        == buf0)
                }
            }),
    {
        let mode = self.mode_state.mode();
        let escape = match tok.code {
            KeyCode::Escape => !tok.ctrl && !tok.shift && !tok.meta,
            _ => false,
        };
        if escape && !matches!(mode, KeyMode::Normal) {
            self.mode_state.set_mode(KeyMode::Normal);
            self.matcher.reset();
            let mut actions: Vec<Action> = Vec::new();
            actions.push(Action::NormalMode);
            return Dispatch { actions, report: None };
        }
        match mode {
            KeyMode::Normal | KeyMode::Insert => {
                let table = self.bindings.table(mode);
                proof {
                    assert(crate::key::table_wf(old(self).bindings.table_view(mode)));
                }
                let outcome = self.matcher.feed(table, tok, now);
                match outcome {
                    MatchOutcome::Resolved(name) => {
                        let target = if crate::text::str_eq(name.as_str(), "normal-mode") {
                            Some(KeyMode::Normal)
                        } else if crate::text::str_eq(name.as_str(), "insert-mode") {
                            Some(KeyMode::Insert)
                        } else if crate::text::str_eq(name.as_str(), "search-mode") {
                            Some(KeyMode::Search)
                        } else if crate::text::str_eq(name.as_str(), "cmd-mode") {
                            Some(KeyMode::Cmd)
                        } else {
                            None
                        };
                        match parse_action(name.as_str(), None) {
                            Some(a) => {
                                match target {
                                    Some(m) => {
                                        self.mode_state.set_mode(m);
                                        self.matcher.reset();
                                    },
                                    None => {},
                                }
                                let mut actions: Vec<Action> = Vec::new();
                                actions.push(a);
                                Dispatch { actions, report: None }
                            },
                            None => Dispatch { actions: Vec::new(), report: Some(name) },
                        }
                    },
                    MatchOutcome::Pending => Dispatch { actions: Vec::new(), report: None },
                    MatchOutcome::Invalid => Dispatch { actions: Vec::new(), report: None },
                }
            },
            KeyMode::Search | KeyMode::Cmd => {
                let enter = match tok.code {
                    KeyCode::Enter => !tok.ctrl && !tok.shift && !tok.meta,
                    _ => false,
                };
                if enter {
                    let committed = string_from_chars(&self.mode_state.buffer);
                    self.mode_state.set_mode(KeyMode::Normal);
                    self.matcher.reset();
                    let mut actions: Vec<Action> = Vec::new();
                    if matches!(mode, KeyMode::Search) {
                        actions.push(Action::Search(committed));
                        actions.push(Action::NormalMode);
                        Dispatch { actions, report: None }
                    } else {
                        actions.push(Action::NormalMode);
                        match parse_command(committed.as_str()) {
                            Ok(a) => {
                                actions.push(a);
                                Dispatch { actions, report: None }
                            },
                            Err(e) => Dispatch { actions, report: Some(e) },
                        }
                    }
                } else {
                    let backspace = match tok.code {
                        KeyCode::Backspace => !tok.ctrl && !tok.shift && !tok.meta,
                        _ => false,
                    };
                    if backspace {
                        if self.mode_state.buffer.len() > 0 {
                            self.mode_state.buffer.pop();
                        }
                    } else {
                        match tok.code {
                            KeyCode::Char(c) => {
                                if !tok.ctrl && !tok.meta {
                                    self.mode_state.buffer.push(c);
                                }
                            },
                            _ => {},
                        }
                    }
                    Dispatch { actions: Vec::new(), report: None }
                }
            },
        }
    }
}

} // verus!
