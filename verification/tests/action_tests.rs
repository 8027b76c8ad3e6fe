use peyvand::action::{parse_action, parse_command, parse_ipc_message, Action};

#[test]
fn test_action_display() {
    let actions = [
        (Action::GoBack, "go-back"),
        (Action::GoForward, "go-forward"),
        (Action::ScrollDown, "scroll-down"),
        (Action::ScrollUp, "scroll-up"),
        (Action::ScrollTop, "scroll-top"),
        (Action::ScrollBottom, "scroll-bottom"),
        (Action::ScrollHalfUp, "scroll-half-up"),
        (Action::ScrollHalfDown, "scroll-half-down"),
        (Action::Exit, "exit"),
        (Action::NormalMode, "normal-mode"),
        (Action::InsertMode, "insert-mode"),
        (Action::CmdMode, "cmd-mode"),
    ];

    for (action, expected) in actions.iter() {
        assert_eq!(action.name(), *expected);
    }
}

#[test]
fn parse_action_known_names() {
    assert_eq!(parse_action("go-back", None), Some(Action::GoBack));
    assert_eq!(parse_action("search-mode", None), Some(Action::SearchMode));
    assert_eq!(parse_action("show-url", None), Some(Action::ShowURL));
    assert_eq!(parse_action("paste-url", None), Some(Action::PasteURL));
}

#[test]
fn parse_action_payloads() {
    assert_eq!(
        parse_action("change-url", Some("https://example.org")),
        Some(Action::ChangeURL("https://example.org".to_string()))
    );
    assert_eq!(
        parse_action("search", Some("needle")),
        Some(Action::Search("needle".to_string()))
    );
    // a payload-taking name without a payload is not an action
    assert_eq!(parse_action("change-url", None), None);
    assert_eq!(parse_action("search", None), None);
}

#[test]
fn parse_action_unknown_name() {
    assert_eq!(parse_action("frobnicate", None), None);
    assert_eq!(parse_action("", None), None);
    assert_eq!(parse_action("Scroll-Down", None), None);
}

#[test]
fn parse_command_aliases() {
    assert_eq!(parse_command("q"), Ok(Action::Exit));
    assert_eq!(parse_command("h"), Ok(Action::ShowHelp));
    assert_eq!(parse_command("help"), Ok(Action::ShowHelp));
}

#[test]
fn parse_command_wire_names() {
    assert_eq!(parse_command("scroll-down"), Ok(Action::ScrollDown));
    assert_eq!(
        parse_command("change-url:https://example.org"),
        Ok(Action::ChangeURL("https://example.org".to_string()))
    );
    assert_eq!(
        parse_command("search:two:colons"),
        Ok(Action::Search("two:colons".to_string()))
    );
}

#[test]
fn parse_command_unknown_is_reported() {
    assert_eq!(parse_command("frob"), Err("frob".to_string()));
    assert_eq!(parse_command("change-url"), Err("change-url".to_string()));
    assert_eq!(parse_command(""), Err("".to_string()));
}

#[test]
fn ipc_command_messages() {
    let d = parse_ipc_message("command:q");
    assert_eq!(d.actions, vec![Action::NormalMode, Action::Exit]);
    assert_eq!(d.report, None);

    let d = parse_ipc_message("command:help");
    assert_eq!(d.actions, vec![Action::NormalMode, Action::ShowHelp]);
    assert_eq!(d.report, None);

    let d = parse_ipc_message("command:frob");
    assert_eq!(d.actions, vec![Action::NormalMode]);
    assert_eq!(d.report, Some("frob".to_string()));
}

#[test]
fn ipc_action_messages() {
    let d = parse_ipc_message("scroll-down");
    assert_eq!(d.actions, vec![Action::ScrollDown]);
    assert_eq!(d.report, None);

    let d = parse_ipc_message("search:foo");
    assert_eq!(d.actions, vec![Action::Search("foo".to_string())]);
    assert_eq!(d.report, None);

    let d = parse_ipc_message("change-url:https://example.org");
    assert_eq!(
        d.actions,
        vec![Action::ChangeURL("https://example.org".to_string())]
    );
    assert_eq!(d.report, None);
}

#[test]
fn ipc_unknown_messages() {
    let d = parse_ipc_message("bogus");
    assert!(d.actions.is_empty());
    assert_eq!(d.report, Some("bogus".to_string()));

    let d = parse_ipc_message("bogus:payload");
    assert!(d.actions.is_empty());
    assert_eq!(d.report, Some("bogus:payload".to_string()));
}
