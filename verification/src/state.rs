//! The owned application state and the effect model. Applying an action
//! mutates the state (mode, history) and returns the effects the rendering
//! collaborator should perform: navigations, scrolls, scripts, clipboard
//! traffic, persistence, or loop termination. History boundaries produce no
//! navigation effect — "no movement" is a normal, silent outcome.

use vstd::prelude::*;

use crate::action::Action;
use crate::args::Args;
use crate::cookie::CookieManager;
use crate::history::{spec_back, spec_forward, spec_push, History};
use crate::key::{
    spec_mode_name, spec_render_seq, KeyMode, KeySequence, KeyToken, KeybindingManager,
    TableView,
};

verus! {

/// One scroll step in pixels; half-page scrolls use six steps.
pub const SCROLL_STEP: i64 = 40;

/// A request to a collaborator, produced by applying an action. The core
/// never performs these itself.
#[derive(Clone, Debug, PartialEq)]
pub enum Effect {
    /// Load this location in the rendering collaborator.
    Navigate(String),
    /// Scroll vertically by this many pixels (negative is up).
    ScrollBy(i64),
    ScrollToTop,
    ScrollToBottom,
    /// Retitle the window.
    SetTitle(String),
    /// Run this script in the page.
    RunScript(String),
    /// Put this text on the clipboard.
    CopyToClipboard(String),
    /// Read the clipboard and enqueue its content as a `change-url` intent.
    RequestPaste,
    /// Save collaborator state (cookies) now.
    Persist,
    /// Stop the event loop, after everything before this effect ran.
    Quit,
}

/// The script keeping the page-side mode display in step.
pub open spec fn spec_mode_sync_script(m: KeyMode) -> Seq<char> {
    "window.appState = { mode: '"@ + spec_mode_name(m) + "' };"@
}

/// The script that starts an in-page search.
pub open spec fn spec_search_script(needle: Seq<char>) -> Seq<char> {
    "window.searchHighlight(\""@ + needle + "\")"@
}

/// The script that opens the URL bar over the current location.
pub open spec fn spec_show_url_script(u: Seq<char>) -> Seq<char> {
    "window.showUrlBar(\""@ + u + "\")"@
}

/// The name a list of string pairs is given by its JSON encoding. Relied on
/// through `help_map_json`; equal pairs always encode to the same text.
pub uninterp spec fn json_of_pairs(m: Seq<(Seq<char>, Seq<char>)>) -> Seq<char>;

pub open spec fn pairs_view(s: Seq<(String, String)>) -> Seq<(Seq<char>, Seq<char>)> {
    s.map_values(|p: (String, String)| (p.0@, p.1@))
}

/// The help entries of a table: action name and rendered sequence.
pub open spec fn spec_help_pairs(t: TableView) -> Seq<(Seq<char>, Seq<char>)> {
    t.map_values(|e: (Seq<KeyToken>, Seq<char>)| (e.1, spec_render_seq(e.0)))
}

/// The script that opens the help overlay for a table.
pub open spec fn spec_help_script(t: TableView) -> Seq<char> {
    "window.showHelp("@ + json_of_pairs(spec_help_pairs(t)) + ")"@
}

/// Relies on `serde_json::to_string` over a `Vec` of string pairs: it
/// encodes the pairs alone, so equal pairs give equal text, and for this
/// type it cannot fail (its errors arise only from a failing `Serialize`
/// impl or a map with non-string keys; a vector of string pairs has
/// neither).
#[verifier::external_body]
fn help_map_json(pairs: &Vec<(String, String)>) -> (r: String)
    ensures
        r@ == json_of_pairs(pairs_view(pairs@)),
{
    serde_json::to_string(pairs).unwrap()
}

/// The mutable application state owned by the single consumer loop.
pub struct State {
    pub history: History,
    pub key_mode: KeyMode,
    pub cookie_mgr: CookieManager,
    pub key_mgr: KeybindingManager,
}

impl State {
    /// Fresh state over the starting location and the command-line options:
    /// history seeded with the location, Normal mode, cookie settings from
    /// the options, and the default bindings.
    pub fn new(args: &Args, url: &str) -> (r: Result<State, String>)
        ensures
            r is Ok,
            ({
                let s = r.unwrap();
                &&& s.history.well_formed()
                &&& s.history.stack_view().len() == 1
                &&& s.history.stack_view()[0]@ == url@
                &&& s.history.index_view() == 0
                &&& s.key_mode == KeyMode::Normal
                &&& s.cookie_mgr.file_view() == args.cookiefile
                &&& s.cookie_mgr.policy_view() == crate::cookie::spec_parse_policy(
                    args.cookie_policies,
                )
                &&& s.key_mgr.wf()
                &&& s.key_mgr.table_view(KeyMode::Normal)
                    == crate::key::default_normal_bindings()
                &&& s.key_mgr.table_view(KeyMode::Insert) == Seq::<
                    (Seq<KeyToken>, Seq<char>),
                >::empty()
                &&& s.key_mgr.table_view(KeyMode::Search) == Seq::<
                    (Seq<KeyToken>, Seq<char>),
                >::empty()
                &&& s.key_mgr.table_view(KeyMode::Cmd) == Seq::<
                    (Seq<KeyToken>, Seq<char>),
                >::empty()
            }),
    {
        let file = match &args.cookiefile {
            Some(f) => Some(f.clone()),
            None => None,
        };
        let policy = match &args.cookie_policies {
            Some(p) => Some(p.clone()),
            None => None,
        };
        proof {
            assert(file == args.cookiefile);
            assert(policy == args.cookie_policies);
        }
        let cookie_mgr = CookieManager::new(file, policy);
        let key_mgr = match KeybindingManager::new(None) {
            Ok(m) => m,
            Err(e) => {
                return Err(e);
            },
        };
        Ok(State {
            history: History::new(url),
            key_mode: KeyMode::Normal,
            cookie_mgr,
            key_mgr,
        })
    }

    /// Records an externally reported navigation and retitles the window.
    pub fn set_url(&mut self, url: &str) -> (e: Vec<Effect>)
        requires
            old(self).history.well_formed(),
        ensures
            final(self).history.well_formed(),
            final(self).key_mode == old(self).key_mode,
            final(self).cookie_mgr == old(self).cookie_mgr,
            final(self).key_mgr == old(self).key_mgr,
            final(self).history.stack_view().last()@ == url@,
            (final(self).history.stack_view(), final(self).history.index_view()) == spec_push(
                old(self).history.stack_view(),
                old(self).history.index_view(),
                final(self).history.stack_view().last(),
            ),
            e@.len() == 1,
            e@[0] matches Effect::SetTitle(t) && t@ == url@,
    {
        self.history.push(url);
        let title = self.history.current().to_owned();
        let mut e: Vec<Effect> = Vec::new();
        e.push(Effect::SetTitle(title));
        e
    }

    /// Steps the history back; at the boundary nothing moves and no effect
    /// is emitted.
    pub fn go_back(&mut self) -> (e: Vec<Effect>)
        requires
            old(self).history.well_formed(),
        ensures
            final(self).history.well_formed(),
            final(self).key_mode == old(self).key_mode,
            final(self).cookie_mgr == old(self).cookie_mgr,
            final(self).key_mgr == old(self).key_mgr,
            final(self).history.stack_view() == old(self).history.stack_view(),
            final(self).history.index_view() == spec_back(
                old(self).history.stack_view(),
                old(self).history.index_view(),
            ),
            old(self).history.index_view() > 0 ==> ({
                let loc = old(self).history.stack_view()[old(self).history.index_view() - 1];
                &&& e@.len() == 2
                &&& e@[0] matches Effect::SetTitle(t) && t@ == loc@
                &&& e@[1] matches Effect::Navigate(u) && u@ == loc@
            }),
            old(self).history.index_view() == 0 ==> e@.len() == 0,
    {
        match self.history.back() {
            Some(loc) => {
                let mut e: Vec<Effect> = Vec::new();
                e.push(Effect::SetTitle(loc.clone()));
                e.push(Effect::Navigate(loc));
                e
            },
            None => Vec::new(),
        }
    }

    /// Steps the history forward; at the boundary nothing moves and no
    /// effect is emitted.
    pub fn go_forward(&mut self) -> (e: Vec<Effect>)
        requires
            old(self).history.well_formed(),
        ensures
            final(self).history.well_formed(),
            final(self).key_mode == old(self).key_mode,
            final(self).cookie_mgr == old(self).cookie_mgr,
            final(self).key_mgr == old(self).key_mgr,
            final(self).history.stack_view() == old(self).history.stack_view(),
            final(self).history.index_view() == spec_forward(
                old(self).history.stack_view(),
                old(self).history.index_view(),
            ),
            old(self).history.index_view() + 1 < old(self).history.stack_view().len() ==> ({
                let loc = old(self).history.stack_view()[old(self).history.index_view() + 1];
                &&& e@.len() == 2
                &&& e@[0] matches Effect::SetTitle(t) && t@ == loc@
                &&& e@[1] matches Effect::Navigate(u) && u@ == loc@
            }),
            old(self).history.index_view() + 1 >= old(self).history.stack_view().len() ==> e@.len()
                == 0,
    {
        match self.history.forward() {
            Some(loc) => {
                let mut e: Vec<Effect> = Vec::new();
                e.push(Effect::SetTitle(loc.clone()));
                e.push(Effect::Navigate(loc));
                e
            },
            None => Vec::new(),
        }
    }

    pub fn get_key_mode(&self) -> (m: KeyMode)
        ensures
            m == self.key_mode,
    {
        self.key_mode
    }

    /// Switches the recorded mode and keeps the page display in step.
    pub fn set_key_mode(&mut self, mode: KeyMode) -> (e: Vec<Effect>)
        ensures
            final(self).key_mode == mode,
            final(self).history == old(self).history,
            final(self).cookie_mgr == old(self).cookie_mgr,
            final(self).key_mgr == old(self).key_mgr,
            e@.len() == 1,
            e@[0] matches Effect::RunScript(s) && s@ == spec_mode_sync_script(mode),
    {
        self.key_mode = mode;
        let mut s = "window.appState = { mode: '".to_owned();
        s.append(mode.name());
        s.append("' };");
        proof {
            assert(s@ =~= spec_mode_sync_script(mode));
        }
        let mut e: Vec<Effect> = Vec::new();
        e.push(Effect::RunScript(s));
        e
    }

    pub fn scroll_down(&self) -> (e: Vec<Effect>)
        ensures
            e@.len() == 1,
            e@[0] == Effect::ScrollBy(SCROLL_STEP as i64),
    {
        let mut e: Vec<Effect> = Vec::new();
        e.push(Effect::ScrollBy(SCROLL_STEP));
        e
    }

    pub fn scroll_up(&self) -> (e: Vec<Effect>)
        ensures
            e@.len() == 1,
            e@[0] == Effect::ScrollBy((-SCROLL_STEP) as i64),
    {
        let mut e: Vec<Effect> = Vec::new();
        e.push(Effect::ScrollBy(-SCROLL_STEP));
        e
    }

    pub fn scroll_top(&self) -> (e: Vec<Effect>)
        ensures
            e@.len() == 1,
            e@[0] == Effect::ScrollToTop,
    {
        let mut e: Vec<Effect> = Vec::new();
        e.push(Effect::ScrollToTop);
        e
    }

    pub fn scroll_bottom(&self) -> (e: Vec<Effect>)
        ensures
            e@.len() == 1,
            e@[0] == Effect::ScrollToBottom,
    {
        let mut e: Vec<Effect> = Vec::new();
        e.push(Effect::ScrollToBottom);
        e
    }

    pub fn scroll_half_down(&self) -> (e: Vec<Effect>)
        ensures
            e@.len() == 1,
            e@[0] == Effect::ScrollBy((6 * SCROLL_STEP) as i64),
    {
        let mut e: Vec<Effect> = Vec::new();
        e.push(Effect::ScrollBy(6 * SCROLL_STEP));
        e
    }

    pub fn scroll_half_up(&self) -> (e: Vec<Effect>)
        ensures
            e@.len() == 1,
            e@[0] == Effect::ScrollBy((-6 * SCROLL_STEP) as i64),
    {
        let mut e: Vec<Effect> = Vec::new();
        e.push(Effect::ScrollBy(-6 * SCROLL_STEP));
        e
    }

    /// Exit-time persistence: save collaborator state now.
    pub fn exit(&self) -> (e: Vec<Effect>)
        ensures
            e@.len() == 1,
            e@[0] == Effect::Persist,
    {
        let mut e: Vec<Effect> = Vec::new();
        e.push(Effect::Persist);
        e
    }

    /// Opens the help overlay over the current mode's bindings.
    pub fn show_help(&self) -> (e: Vec<Effect>)
        ensures
            e@.len() == 1,
            e@[0] matches Effect::RunScript(s) && s@ == spec_help_script(
                self.key_mgr.table_view(self.key_mode),
            ),
    {
        let pairs = self.key_mgr.get_help_map(self.key_mode);
        proof {
            assert(pairs_view(pairs@) =~= spec_help_pairs(
                self.key_mgr.table_view(self.key_mode),
            ));
        }
        let json = help_map_json(&pairs);
        let mut s = "window.showHelp(".to_owned();
        s.append(json.as_str());
        s.append(")");
        proof {
            assert(s@ =~= spec_help_script(self.key_mgr.table_view(self.key_mode)));
        }
        let mut e: Vec<Effect> = Vec::new();
        e.push(Effect::RunScript(s));
        e
    }

    /// Opens the URL bar prefilled with the current location.
    pub fn show_url(&self) -> (e: Vec<Effect>)
        requires
            self.history.well_formed(),
        ensures
            e@.len() == 1,
            e@[0] matches Effect::RunScript(s) && s@ == spec_show_url_script(
                self.history.stack_view()[self.history.index_view()]@,
            ),
    {
        let mut s = "window.showUrlBar(\"".to_owned();
        s.append(self.history.current());
        s.append("\")");
        proof {
            assert(s@ =~= spec_show_url_script(
                self.history.stack_view()[self.history.index_view()]@,
            ));
        }
        let mut e: Vec<Effect> = Vec::new();
        e.push(Effect::RunScript(s));
        e
    }

    /// Asks the collaborator to load a new location.
    pub fn change_url(&mut self, url: &str) -> (e: Vec<Effect>)
        ensures
            *final(self) == *old(self),
            e@.len() == 1,
            e@[0] matches Effect::Navigate(u) && u@ == url@,
    {
        let mut e: Vec<Effect> = Vec::new();
        e.push(Effect::Navigate(url.to_owned()));
        e
    }

    /// Reloads the page; a hard refresh bypasses caches.
    pub fn refresh_url(&self, hard: bool) -> (e: Vec<Effect>)
        ensures
            e@.len() == 1,
            e@[0] matches Effect::RunScript(s) && s@ == (if hard {
                "location.reload(true);"@
            } else {
                "location.reload();"@
            }),
    {
        let mut e: Vec<Effect> = Vec::new();
        if hard {
            e.push(Effect::RunScript("location.reload(true);".to_owned()));
        } else {
            e.push(Effect::RunScript("location.reload();".to_owned()));
        }
        e
    }

    /// Puts the current location on the clipboard.
    pub fn copy_url(&self) -> (e: Vec<Effect>)
        requires
            self.history.well_formed(),
        ensures
            e@.len() == 1,
            e@[0] matches Effect::CopyToClipboard(u) && u@ == self.history.stack_view()[
                self.history.index_view()
            ]@,
    {
        let mut e: Vec<Effect> = Vec::new();
        e.push(Effect::CopyToClipboard(self.history.current().to_owned()));
        e
    }

    /// Asks for the clipboard content to come back as a navigation intent.
    pub fn paste_url(&self) -> (e: Vec<Effect>)
        ensures
            e@.len() == 1,
            e@[0] == Effect::RequestPaste,
    {
        let mut e: Vec<Effect> = Vec::new();
        e.push(Effect::RequestPaste);
        e
    }

    /// Starts an in-page search for the needle.
    pub fn search(&self, needle: &str) -> (e: Vec<Effect>)
        ensures
            e@.len() == 1,
            e@[0] matches Effect::RunScript(s) && s@ == spec_search_script(needle@),
    {
        let mut s = "window.searchHighlight(\"".to_owned();
        s.append(needle);
        s.append("\")");
        proof {
            assert(s@ =~= spec_search_script(needle@));
        }
        let mut e: Vec<Effect> = Vec::new();
        e.push(Effect::RunScript(s));
        e
    }

    pub fn search_next(&self) -> (e: Vec<Effect>)
        ensures
            e@.len() == 1,
            e@[0] matches Effect::RunScript(s) && s@ == "window.searchNext();"@,
    {
        let mut e: Vec<Effect> = Vec::new();
        e.push(Effect::RunScript("window.searchNext();".to_owned()));
        e
    }

    pub fn search_prev(&self) -> (e: Vec<Effect>)
        ensures
            e@.len() == 1,
            e@[0] matches Effect::RunScript(s) && s@ == "window.searchPrev();"@,
    {
        let mut e: Vec<Effect> = Vec::new();
        e.push(Effect::RunScript("window.searchPrev();".to_owned()));
        e
    }
}

} // verus!
