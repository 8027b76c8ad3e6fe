use peyvand::action::Action;
use peyvand::agent::{default_user_agent, Platform};
use peyvand::app::Application;
use peyvand::args::Args;
use peyvand::hint::Hint;
use peyvand::key::KeyMode;
use peyvand::search::Search;
use peyvand::state::{Effect, State, SCROLL_STEP};
use peyvand::statusbar::Statusbar;
use peyvand::url::Url;

fn fresh_state(url: &str) -> State {
    State::new(&Args::defaults(), url).expect("state construction")
}

#[test]
fn new_state_is_seeded() {
    let s = fresh_state("https://example.org");
    assert_eq!(s.history.current(), "https://example.org");
    assert_eq!(s.get_key_mode(), KeyMode::Normal);
}

#[test]
fn scroll_actions_emit_scroll_effects() {
    let mut s = fresh_state("a");
    assert_eq!(Action::ScrollDown.apply(&mut s), vec![Effect::ScrollBy(SCROLL_STEP)]);
    assert_eq!(Action::ScrollUp.apply(&mut s), vec![Effect::ScrollBy(-SCROLL_STEP)]);
    assert_eq!(
        Action::ScrollHalfDown.apply(&mut s),
        vec![Effect::ScrollBy(6 * SCROLL_STEP)]
    );
    assert_eq!(
        Action::ScrollHalfUp.apply(&mut s),
        vec![Effect::ScrollBy(-6 * SCROLL_STEP)]
    );
    assert_eq!(Action::ScrollTop.apply(&mut s), vec![Effect::ScrollToTop]);
    assert_eq!(Action::ScrollBottom.apply(&mut s), vec![Effect::ScrollToBottom]);
}

#[test]
fn navigation_actions_move_history() {
    let mut s = fresh_state("seed");
    s.set_url("a");
    s.set_url("b");
    let e = Action::GoBack.apply(&mut s);
    assert_eq!(
        e,
        vec![
            Effect::SetTitle("a".to_string()),
            Effect::Navigate("a".to_string())
        ]
    );
    assert_eq!(s.history.current(), "a");
    let e = Action::GoForward.apply(&mut s);
    assert_eq!(
        e,
        vec![
            Effect::SetTitle("b".to_string()),
            Effect::Navigate("b".to_string())
        ]
    );
    assert_eq!(s.history.current(), "b");
}

#[test]
fn navigation_boundaries_are_silent() {
    let mut s = fresh_state("seed");
    // at the oldest entry: no movement, no effect
    assert_eq!(Action::GoBack.apply(&mut s), vec![]);
    assert_eq!(s.history.current(), "seed");
    // at the newest entry: no movement, no effect
    assert_eq!(Action::GoForward.apply(&mut s), vec![]);
    assert_eq!(s.history.current(), "seed");
}

#[test]
fn mode_actions_sync_the_page() {
    let mut s = fresh_state("a");
    let e = Action::InsertMode.apply(&mut s);
    assert_eq!(s.get_key_mode(), KeyMode::Insert);
    assert_eq!(
        e,
        vec![Effect::RunScript(
            "window.appState = { mode: 'Insert' };".to_string()
        )]
    );
    let e = Action::NormalMode.apply(&mut s);
    assert_eq!(s.get_key_mode(), KeyMode::Normal);
    assert_eq!(
        e,
        vec![Effect::RunScript(
            "window.appState = { mode: 'Normal' };".to_string()
        )]
    );
}

#[test]
fn show_url_enters_insert_and_opens_bar() {
    let mut s = fresh_state("https://example.org");
    let e = Action::ShowURL.apply(&mut s);
    assert_eq!(s.get_key_mode(), KeyMode::Insert);
    assert_eq!(e.len(), 2);
    assert_eq!(
        e[1],
        Effect::RunScript("window.showUrlBar(\"https://example.org\")".to_string())
    );
}

#[test]
fn change_url_navigates_and_returns_to_normal() {
    let mut s = fresh_state("a");
    s.set_key_mode(KeyMode::Insert);
    let e = Action::ChangeURL("https://new.example".to_string()).apply(&mut s);
    assert_eq!(s.get_key_mode(), KeyMode::Normal);
    assert_eq!(e.len(), 2);
    assert_eq!(e[0], Effect::Navigate("https://new.example".to_string()));
}

#[test]
fn refresh_copy_paste_effects() {
    let mut s = fresh_state("https://example.org");
    assert_eq!(
        Action::HardRefreshURL.apply(&mut s),
        vec![Effect::RunScript("location.reload(true);".to_string())]
    );
    assert_eq!(
        Action::SoftRefreshURL.apply(&mut s),
        vec![Effect::RunScript("location.reload();".to_string())]
    );
    assert_eq!(
        Action::CopyURL.apply(&mut s),
        vec![Effect::CopyToClipboard("https://example.org".to_string())]
    );
    assert_eq!(Action::PasteURL.apply(&mut s), vec![Effect::RequestPaste]);
}

#[test]
fn search_actions_drive_page_search() {
    let mut s = fresh_state("a");
    assert_eq!(
        Action::Search("needle".to_string()).apply(&mut s),
        vec![Effect::RunScript("window.searchHighlight(\"needle\")".to_string())]
    );
    assert_eq!(
        Action::SearchNext.apply(&mut s),
        vec![Effect::RunScript("window.searchNext();".to_string())]
    );
    assert_eq!(
        Action::SearchPrev.apply(&mut s),
        vec![Effect::RunScript("window.searchPrev();".to_string())]
    );
}

#[test]
fn exit_persists_then_quits() {
    let mut s = fresh_state("a");
    assert_eq!(Action::Exit.apply(&mut s), vec![Effect::Persist, Effect::Quit]);
}

#[test]
fn show_help_serializes_bindings() {
    let mut s = fresh_state("a");
    let e = Action::ShowHelp.apply(&mut s);
    assert_eq!(e.len(), 1);
    match &e[0] {
        Effect::RunScript(js) => {
            assert!(js.starts_with("window.showHelp("));
            assert!(js.ends_with(")"));
            assert!(js.contains("scroll-down"));
            assert!(js.contains("\"j\""));
        },
        other => panic!("unexpected effect {:?}", other),
    }
}

#[test]
fn user_agents_per_platform() {
    assert!(default_user_agent(Platform::Linux).contains("X11; Linux"));
    assert!(default_user_agent(Platform::Windows).contains("Windows NT"));
    assert!(default_user_agent(Platform::MacOs).contains("Macintosh"));
    assert!(default_user_agent(Platform::Other).contains("Peyvand"));
}

#[test]
fn injected_scripts_have_their_hooks() {
    assert!(Statusbar::new().get_statusbar().contains("window.updateStatus"));
    assert!(Url::new().get_url().contains("window.showUrlBar"));
    assert!(Hint::get_js().contains("window.showHints"));
    assert!(Search::get_js().contains("window.searchHighlight"));
}

#[test]
fn application_keeps_its_args() {
    let app = Application::new(Args::defaults());
    assert_eq!(app.args().url, "about:blank");
    assert_eq!(app.args().cookie_policies.as_deref(), Some("all"));
    assert_eq!(app.args().verbose, 0);
}
