//! The closed set of application-level commands, their wire names, and the
//! parsers that turn command-bar input and IPC message strings into actions.
//! Unknown names are rejected at this boundary and reported, never forwarded.

use vstd::prelude::*;
use vstd::string::StrSliceExecFns;

use crate::text::{find_char, spec_find_char, str_eq};

verus! {

broadcast use vstd::string::group_string_axioms;

#[derive(Clone, Debug, PartialEq)]
pub enum Action {
    GoBack,
    GoForward,
    ScrollDown,
    ScrollUp,
    ScrollTop,
    ScrollBottom,
    ScrollHalfUp,
    ScrollHalfDown,
    ShowHelp,
    Exit,
    NormalMode,
    InsertMode,
    CmdMode,
    SearchMode,
    ShowURL,
    ChangeURL(String),
    HardRefreshURL,
    SoftRefreshURL,
    CopyURL,
    PasteURL,
    Search(String),
    SearchNext,
    SearchPrev,
}

impl Default for Action {
    fn default() -> (a: Action)
        ensures
            a == Action::NormalMode,
    {
        Action::NormalMode
    }
}

/// The wire name of each action, as used on bindings, IPC messages and the
/// command bar.
pub open spec fn spec_action_name(a: Action) -> Seq<char> {
    match a {
        Action::GoBack => "go-back"@,
        Action::GoForward => "go-forward"@,
        Action::ScrollDown => "scroll-down"@,
        Action::ScrollUp => "scroll-up"@,
        Action::ScrollTop => "scroll-top"@,
        Action::ScrollBottom => "scroll-bottom"@,
        Action::ScrollHalfUp => "scroll-half-up"@,
        Action::ScrollHalfDown => "scroll-half-down"@,
        Action::ShowHelp => "show-help"@,
        Action::Exit => "exit"@,
        Action::NormalMode => "normal-mode"@,
        Action::InsertMode => "insert-mode"@,
        Action::CmdMode => "cmd-mode"@,
        Action::SearchMode => "search-mode"@,
        Action::ShowURL => "show-url"@,
        Action::ChangeURL(_) => "change-url"@,
        Action::HardRefreshURL => "hard-refresh-url"@,
        Action::SoftRefreshURL => "soft-refresh-url"@,
        Action::CopyURL => "copy-url"@,
        Action::PasteURL => "paste-url"@,
        Action::Search(_) => "search"@,
        Action::SearchNext => "search-next"@,
        Action::SearchPrev => "search-prev"@,
    }
}

/// Whether `s` is the wire name of some action.
pub open spec fn is_action_name(s: Seq<char>) -> bool {
    ||| s == "go-back"@
    ||| s == "go-forward"@
    ||| s == "scroll-down"@
    ||| s == "scroll-up"@
    ||| s == "scroll-top"@
    ||| s == "scroll-bottom"@
    ||| s == "scroll-half-up"@
    ||| s == "scroll-half-down"@
    ||| s == "show-help"@
    ||| s == "exit"@
    ||| s == "normal-mode"@
    ||| s == "insert-mode"@
    ||| s == "cmd-mode"@
    ||| s == "search-mode"@
    ||| s == "show-url"@
    ||| s == "change-url"@
    ||| s == "hard-refresh-url"@
    ||| s == "soft-refresh-url"@
    ||| s == "copy-url"@
    ||| s == "paste-url"@
    ||| s == "search"@
    ||| s == "search-next"@
    ||| s == "search-prev"@
}

/// The two actions whose wire form carries a `:payload` suffix.
pub open spec fn takes_payload(s: Seq<char>) -> bool {
    s == "change-url"@ || s == "search"@
}

/// The payload carried by an action, if its variant has one.
pub open spec fn action_payload(a: Action) -> Option<Seq<char>> {
    match a {
        Action::ChangeURL(u) => Some(u@),
        Action::Search(u) => Some(u@),
        _ => None,
    }
}

impl Action {
    /// The wire name of this action (payloads are not rendered).
    pub fn name(&self) -> (r: &'static str)
        ensures
            r@ == spec_action_name(*self),
    {
        match self {
            Action::GoBack => "go-back",
            Action::GoForward => "go-forward",
            Action::ScrollDown => "scroll-down",
            Action::ScrollUp => "scroll-up",
            Action::ScrollTop => "scroll-top",
            Action::ScrollBottom => "scroll-bottom",
            Action::ScrollHalfUp => "scroll-half-up",
            Action::ScrollHalfDown => "scroll-half-down",
            Action::ShowHelp => "show-help",
            Action::Exit => "exit",
            Action::NormalMode => "normal-mode",
            Action::InsertMode => "insert-mode",
            Action::CmdMode => "cmd-mode",
            Action::SearchMode => "search-mode",
            Action::ShowURL => "show-url",
            Action::ChangeURL(_) => "change-url",
            Action::HardRefreshURL => "hard-refresh-url",
            Action::SoftRefreshURL => "soft-refresh-url",
            Action::CopyURL => "copy-url",
            Action::PasteURL => "paste-url",
            Action::Search(_) => "search",
            Action::SearchNext => "search-next",
            Action::SearchPrev => "search-prev",
        }
    }
}

/// Parses a wire name (with an optional payload for the actions that take
/// one) into an action. `None` exactly when the name is unknown, or a
/// payload-taking name arrives without a payload.
pub fn parse_action(name: &str, payload: Option<&str>) -> (r: Option<Action>)
    ensures
        r is Some <==> is_action_name(name@) && (takes_payload(name@) ==> payload is Some),
        r is Some ==> spec_action_name(r.unwrap()) == name@,
        r is Some ==> action_payload(r.unwrap()) == (if takes_payload(name@) {
            Some(payload.unwrap()@)
        } else {
            None::<Seq<char>>
        }),
{
    proof {
        reveal_strlit("go-back");
        reveal_strlit("go-forward");
        reveal_strlit("scroll-down");
        reveal_strlit("scroll-up");
        reveal_strlit("scroll-top");
        reveal_strlit("scroll-bottom");
        reveal_strlit("scroll-half-up");
        reveal_strlit("scroll-half-down");
        reveal_strlit("show-help");
        reveal_strlit("exit");
        reveal_strlit("normal-mode");
        reveal_strlit("insert-mode");
        reveal_strlit("cmd-mode");
        reveal_strlit("search-mode");
        reveal_strlit("show-url");
        reveal_strlit("change-url");
        reveal_strlit("hard-refresh-url");
        reveal_strlit("soft-refresh-url");
        reveal_strlit("copy-url");
        reveal_strlit("paste-url");
        reveal_strlit("search");
        reveal_strlit("search-next");
        reveal_strlit("search-prev");
        assert("go-back"@.len() == 7);
        assert("go-forward"@.len() == 10);
        assert("scroll-down"@.len() == 11);
        assert("scroll-up"@.len() == 9);
        assert("scroll-top"@.len() == 10);
        assert("scroll-bottom"@.len() == 13);
        assert("scroll-half-up"@.len() == 14);
        assert("scroll-half-down"@.len() == 16);
        assert("show-help"@.len() == 9);
        assert("exit"@.len() == 4);
        assert("normal-mode"@.len() == 11);
        assert("insert-mode"@.len() == 11);
        assert("cmd-mode"@.len() == 8);
        assert("search-mode"@.len() == 11);
        assert("show-url"@.len() == 8);
        assert("change-url"@.len() == 10);
        assert("hard-refresh-url"@.len() == 16);
        assert("soft-refresh-url"@.len() == 16);
        assert("copy-url"@.len() == 8);
        assert("paste-url"@.len() == 9);
        assert("search"@.len() == 6);
        assert("search-next"@.len() == 11);
        assert("search-prev"@.len() == 11);
        assert("go-forward"@[0] != "change-url"@[0]);
        assert("go-forward"@ != "change-url"@);
        assert("scroll-top"@[0] != "change-url"@[0]);
        assert("scroll-top"@ != "change-url"@);
    }
    if str_eq(name, "go-back") {
        Some(Action::GoBack)
    } else if str_eq(name, "go-forward") {
        Some(Action::GoForward)
    } else if str_eq(name, "scroll-down") {
        Some(Action::ScrollDown)
    } else if str_eq(name, "scroll-up") {
        Some(Action::ScrollUp)
    } else if str_eq(name, "scroll-top") {
        Some(Action::ScrollTop)
    } else if str_eq(name, "scroll-bottom") {
        Some(Action::ScrollBottom)
    } else if str_eq(name, "scroll-half-up") {
        Some(Action::ScrollHalfUp)
    } else if str_eq(name, "scroll-half-down") {
        Some(Action::ScrollHalfDown)
    } else if str_eq(name, "show-help") {
        Some(Action::ShowHelp)
    } else if str_eq(name, "exit") {
        Some(Action::Exit)
    } else if str_eq(name, "normal-mode") {
        Some(Action::NormalMode)
    } else if str_eq(name, "insert-mode") {
        Some(Action::InsertMode)
    } else if str_eq(name, "cmd-mode") {
        Some(Action::CmdMode)
    } else if str_eq(name, "search-mode") {
        Some(Action::SearchMode)
    } else if str_eq(name, "show-url") {
        Some(Action::ShowURL)
    } else if str_eq(name, "hard-refresh-url") {
        Some(Action::HardRefreshURL)
    } else if str_eq(name, "soft-refresh-url") {
        Some(Action::SoftRefreshURL)
    } else if str_eq(name, "copy-url") {
        Some(Action::CopyURL)
    } else if str_eq(name, "paste-url") {
        Some(Action::PasteURL)
    } else if str_eq(name, "search-next") {
        Some(Action::SearchNext)
    } else if str_eq(name, "search-prev") {
        Some(Action::SearchPrev)
    } else if str_eq(name, "change-url") {
        match payload {
            Some(p) => Some(Action::ChangeURL(p.to_owned())),
            None => None,
        }
    } else if str_eq(name, "search") {
        match payload {
            Some(p) => Some(Action::Search(p.to_owned())),
            None => None,
        }
    } else {
        None
    }
}

/// The `name` part of command-bar input: everything before the first `:`.
pub open spec fn spec_cmd_name(c: Seq<char>) -> Seq<char> {
    c.subrange(0, spec_find_char(c, ':'))
}

/// The `payload` part of command-bar input: everything after the first `:`,
/// if there is one.
pub open spec fn spec_cmd_payload(c: Seq<char>) -> Option<Seq<char>> {
    if spec_find_char(c, ':') < c.len() {
        Some(c.subrange(spec_find_char(c, ':') + 1, c.len() as int))
    } else {
        None
    }
}

/// Whether command-bar input resolves to an action: one of the short aliases,
/// or `name` / `name:payload` over the wire names.
pub open spec fn command_ok(c: Seq<char>) -> bool {
    ||| c == "q"@
    ||| c == "h"@
    ||| c == "help"@
    ||| (is_action_name(spec_cmd_name(c)) && (takes_payload(spec_cmd_name(c))
        ==> spec_cmd_payload(c) is Some))
}

/// The wire name that command-bar input resolves to, when it resolves.
pub open spec fn command_action_name(c: Seq<char>) -> Seq<char> {
    if c == "q"@ {
        "exit"@
    } else if c == "h"@ || c == "help"@ {
        "show-help"@
    } else {
        spec_cmd_name(c)
    }
}

/// The payload that command-bar input hands to the resolved action.
pub open spec fn command_payload(c: Seq<char>) -> Option<Seq<char>> {
    if c == "q"@ || c == "h"@ || c == "help"@ {
        None
    } else if takes_payload(spec_cmd_name(c)) {
        spec_cmd_payload(c)
    } else {
        None
    }
}

/// Parses committed command-bar input. `Err` returns the input itself, to be
/// reported as an unknown command; it never aborts anything.
pub fn parse_command(cmd: &str) -> (r: Result<Action, String>)
    ensures
        r is Ok <==> command_ok(cmd@),
        r is Ok ==> spec_action_name(r.unwrap()) == command_action_name(cmd@),
        r is Ok ==> action_payload(r.unwrap()) == command_payload(cmd@),
        r is Err ==> r->Err_0@ == cmd@,
{
    if str_eq(cmd, "q") {
        Ok(Action::Exit)
    } else if str_eq(cmd, "h") || str_eq(cmd, "help") {
        Ok(Action::ShowHelp)
    } else {
        let n = cmd.unicode_len();
        let fc = find_char(cmd, ':');
        proof {
            crate::text::lemma_find_char_bounds(cmd@, ':');
        }
        let (name, payload): (&str, Option<&str>) = if fc < n {
            (cmd.substring_char(0, fc), Some(cmd.substring_char(fc + 1, n)))
        } else {
            proof {
                assert(cmd@.subrange(0, cmd@.len() as int) == cmd@);
            }
            (cmd, None)
        };
        match parse_action(name, payload) {
            Some(a) => Ok(a),
            None => Err(cmd.to_owned()),
        }
    }
}

impl Action {
    /// Applies this action to the owned state and returns the effects the
    /// collaborators should perform, in order. History boundaries emit no
    /// navigation effect; `Exit` persists first and terminates last.
    pub fn apply(&self, state: &mut crate::state::State) -> (e: Vec<crate::state::Effect>)
        requires
            old(state).history.well_formed(),
        ensures
            final(state).history.well_formed(),
            final(state).cookie_mgr == old(state).cookie_mgr,
            final(state).key_mgr == old(state).key_mgr,
            (match *self {
                Action::GoBack => {
                    let stack = old(state).history.stack_view();
                    let idx = old(state).history.index_view();
                    &&& final(state).key_mode == old(state).key_mode
                    &&& final(state).history.stack_view() == stack
                    &&& final(state).history.index_view() == crate::history::spec_back(stack, idx)
                    &&& (idx > 0 ==> ({
                        &&& e@.len() == 2
                        &&& e@[0] matches crate::state::Effect::SetTitle(t) && t@ == stack[idx - 1]@
                        &&& e@[1] matches crate::state::Effect::Navigate(u) && u@ == stack[idx
                            - 1]@
                    }))
                    &&& (idx == 0 ==> e@.len() == 0)
                },
                Action::GoForward => {
                    let stack = old(state).history.stack_view();
                    let idx = old(state).history.index_view();
                    &&& final(state).key_mode == old(state).key_mode
                    &&& final(state).history.stack_view() == stack
                    &&& final(state).history.index_view() == crate::history::spec_forward(
                        stack,
                        idx,
                    )
                    &&& (idx + 1 < stack.len() ==> ({
                        &&& e@.len() == 2
                        &&& e@[0] matches crate::state::Effect::SetTitle(t) && t@ == stack[idx + 1]@
                        &&& e@[1] matches crate::state::Effect::Navigate(u) && u@ == stack[idx
                            + 1]@
                    }))
                    &&& (idx + 1 >= stack.len() ==> e@.len() == 0)
                },
                Action::ScrollDown => *final(state) == *old(state) && e@.len() == 1 && e@[0]
                    == crate::state::Effect::ScrollBy(crate::state::SCROLL_STEP as i64),
                Action::ScrollUp => *final(state) == *old(state) && e@.len() == 1 && e@[0]
                    == crate::state::Effect::ScrollBy((-crate::state::SCROLL_STEP) as i64),
                Action::ScrollTop => *final(state) == *old(state) && e@.len() == 1 && e@[0]
                    == crate::state::Effect::ScrollToTop,
                Action::ScrollBottom => *final(state) == *old(state) && e@.len() == 1 && e@[0]
                    == crate::state::Effect::ScrollToBottom,
                Action::ScrollHalfDown => *final(state) == *old(state) && e@.len() == 1 && e@[0]
                    == crate::state::Effect::ScrollBy((6 * crate::state::SCROLL_STEP) as i64),
                Action::ScrollHalfUp => *final(state) == *old(state) && e@.len() == 1 && e@[0]
                    == crate::state::Effect::ScrollBy((-6 * crate::state::SCROLL_STEP) as i64),
                Action::NormalMode => {
                    &&& final(state).key_mode == crate::key::KeyMode::Normal
                    &&& final(state).history == old(state).history
                    &&& e@.len() == 1
                    &&& (e@[0] matches crate::state::Effect::RunScript(s) && s@
                        == crate::state::spec_mode_sync_script(crate::key::KeyMode::Normal))
                },
                Action::InsertMode => {
                    &&& final(state).key_mode == crate::key::KeyMode::Insert
                    &&& final(state).history == old(state).history
                    &&& e@.len() == 1
                    &&& (e@[0] matches crate::state::Effect::RunScript(s) && s@
                        == crate::state::spec_mode_sync_script(crate::key::KeyMode::Insert))
                },
                Action::CmdMode => {
                    &&& final(state).key_mode == crate::key::KeyMode::Cmd
                    &&& final(state).history == old(state).history
                    &&& e@.len() == 1
                    &&& (e@[0] matches crate::state::Effect::RunScript(s) && s@
                        == crate::state::spec_mode_sync_script(crate::key::KeyMode::Cmd))
                },
                Action::SearchMode => {
                    &&& final(state).key_mode == crate::key::KeyMode::Search
                    &&& final(state).history == old(state).history
                    &&& e@.len() == 1
                    &&& (e@[0] matches crate::state::Effect::RunScript(s) && s@
                        == crate::state::spec_mode_sync_script(crate::key::KeyMode::Search))
                },
                Action::ShowHelp => {
                    &&& *final(state) == *old(state)
                    &&& e@.len() == 1
                    &&& (e@[0] matches crate::state::Effect::RunScript(s) && s@
                        == crate::state::spec_help_script(
                        old(state).key_mgr.table_view(old(state).key_mode),
                    ))
                },
                Action::ShowURL => {
                    &&& final(state).key_mode == crate::key::KeyMode::Insert
                    &&& final(state).history == old(state).history
                    &&& e@.len() == 2
                    &&& (e@[0] matches crate::state::Effect::RunScript(s) && s@
                        == crate::state::spec_mode_sync_script(crate::key::KeyMode::Insert))
                    &&& (e@[1] matches crate::state::Effect::RunScript(s) && s@
                        == crate::state::spec_show_url_script(
                        old(state).history.stack_view()[old(state).history.index_view()]@,
                    ))
                },
                Action::ChangeURL(url) => {
                    &&& final(state).key_mode == crate::key::KeyMode::Normal
                    &&& final(state).history == old(state).history
                    &&& e@.len() == 2
                    &&& (e@[0] matches crate::state::Effect::Navigate(u) && u@ == url@)
                    &&& (e@[1] matches crate::state::Effect::RunScript(s) && s@
                        == crate::state::spec_mode_sync_script(crate::key::KeyMode::Normal))
                },
                Action::HardRefreshURL => {
                    &&& *final(state) == *old(state)
                    &&& e@.len() == 1
                    &&& (e@[0] matches crate::state::Effect::RunScript(s) && s@
                        == "location.reload(true);"@)
                },
                Action::SoftRefreshURL => {
                    &&& *final(state) == *old(state)
                    &&& e@.len() == 1
                    &&& (e@[0] matches crate::state::Effect::RunScript(s) && s@
                        == "location.reload();"@)
                },
                Action::CopyURL => {
                    &&& *final(state) == *old(state)
                    &&& e@.len() == 1
                    &&& (e@[0] matches crate::state::Effect::CopyToClipboard(u) && u@ == old(
                        state,
                    ).history.stack_view()[old(state).history.index_view()]@)
                },
                Action::PasteURL => *final(state) == *old(state) && e@.len() == 1 && e@[0]
                    == crate::state::Effect::RequestPaste,
                Action::Search(needle) => {
                    &&& *final(state) == *old(state)
                    &&& e@.len() == 1
                    &&& (e@[0] matches crate::state::Effect::RunScript(s) && s@
                        == crate::state::spec_search_script(needle@))
                },
                Action::SearchNext => {
                    &&& *final(state) == *old(state)
                    &&& e@.len() == 1
                    &&& (e@[0] matches crate::state::Effect::RunScript(s) && s@
                        == "window.searchNext();"@)
                },
                Action::SearchPrev => {
                    &&& *final(state) == *old(state)
                    &&& e@.len() == 1
                    &&& (e@[0] matches crate::state::Effect::RunScript(s) && s@
                        == "window.searchPrev();"@)
                },
                Action::Exit => {
                    &&& *final(state) == *old(state)
                    &&& e@.len() == 2
                    &&& e@[0] == crate::state::Effect::Persist
                    &&& e@[1] == crate::state::Effect::Quit
                },
            }),
    {
        match self {
            Action::GoBack => state.go_back(),
            Action::GoForward => state.go_forward(),
            Action::ScrollDown => state.scroll_down(),
            Action::ScrollUp => state.scroll_up(),
            Action::ScrollHalfDown => state.scroll_half_down(),
            Action::ScrollHalfUp => state.scroll_half_up(),
            Action::ScrollTop => state.scroll_top(),
            Action::ScrollBottom => state.scroll_bottom(),
            Action::NormalMode => state.set_key_mode(crate::key::KeyMode::Normal),
            Action::InsertMode => state.set_key_mode(crate::key::KeyMode::Insert),
            Action::CmdMode => state.set_key_mode(crate::key::KeyMode::Cmd),
            Action::SearchMode => state.set_key_mode(crate::key::KeyMode::Search),
            Action::ShowHelp => state.show_help(),
            Action::ShowURL => {
                let mut e = state.set_key_mode(crate::key::KeyMode::Insert);
                let mut e2 = state.show_url();
                e.append(&mut e2);
                e
            },
            Action::ChangeURL(url) => {
                let mut e = state.change_url(url.as_str());
                let mut e2 = state.set_key_mode(crate::key::KeyMode::Normal);
                e.append(&mut e2);
                e
            },
            Action::HardRefreshURL => state.refresh_url(true),
            Action::SoftRefreshURL => state.refresh_url(false),
            Action::CopyURL => state.copy_url(),
            Action::PasteURL => state.paste_url(),
            Action::Search(needle) => state.search(needle.as_str()),
            Action::SearchNext => state.search_next(),
            Action::SearchPrev => state.search_prev(),
            Action::Exit => {
                let mut e = state.exit();
                e.push(crate::state::Effect::Quit);
                e
            },
        }
    }
}

/// What an input string was understood as: zero or more actions to enqueue,
/// and at most one unknown-input report for the status surface.
pub struct Dispatch {
    pub actions: Vec<Action>,
    pub report: Option<String>,
}

/// Parses one raw IPC message: either `command:<command-bar input>`, or a
/// wire name with an optional `:payload`. Unknown input produces a report
/// and no action.
pub fn parse_ipc_message(body: &str) -> (r: Dispatch)
    ensures
        ({
            let b = body@;
            let fc = spec_find_char(b, ':');
            let head = b.subrange(0, fc);
            let hasrest = fc < b.len();
            let rest = b.subrange(fc + 1, b.len() as int);
            if head == "command"@ && hasrest {
                &&& (command_ok(rest) ==> {
                    &&& r.actions@.len() == 2
                    &&& r.actions@[0] == Action::NormalMode
                    &&& spec_action_name(r.actions@[1]) == command_action_name(rest)
                    &&& action_payload(r.actions@[1]) == command_payload(rest)
                    &&& r.report is None
                })
                &&& (!command_ok(rest) ==> {
                    &&& r.actions@.len() == 1
                    &&& r.actions@[0] == Action::NormalMode
                    &&& r.report is Some
                    &&& r.report.unwrap()@ == rest
                })
            } else {
                if is_action_name(head) && (takes_payload(head) ==> hasrest) {
                    &&& r.actions@.len() == 1
                    &&& spec_action_name(r.actions@[0]) == head
                    &&& action_payload(r.actions@[0]) == (if takes_payload(head) {
                        Some(rest)
                    } else {
                        None::<Seq<char>>
                    })
                    &&& r.report is None
                } else {
                    &&& r.actions@.len() == 0
                    &&& r.report is Some
                    &&& r.report.unwrap()@ == b
                }
            }
        }),
{
    let n = body.unicode_len();
    let fc = find_char(body, ':');
    proof {
        crate::text::lemma_find_char_bounds(body@, ':');
    }
    if fc < n && str_eq(body.substring_char(0, fc), "command") {
        let cmdstr = body.substring_char(fc + 1, n);
        let mut actions: Vec<Action> = Vec::new();
        actions.push(Action::NormalMode);
        match parse_command(cmdstr) {
            Ok(a) => {
                actions.push(a);
                Dispatch { actions, report: None }
            },
            Err(e) => Dispatch { actions, report: Some(e) },
        }
    } else {
        let (name, payload): (&str, Option<&str>) = if fc < n {
            (body.substring_char(0, fc), Some(body.substring_char(fc + 1, n)))
        } else {
            proof {
                assert(body@.subrange(0, body@.len() as int) == body@);
            }
            (body, None)
        };
        match parse_action(name, payload) {
            Some(a) => {
                let mut actions: Vec<Action> = Vec::new();
                actions.push(a);
                Dispatch { actions, report: None }
            },
            None => Dispatch { actions: Vec::new(), report: Some(body.to_owned()) },
        }
    }
}

} // verus!
