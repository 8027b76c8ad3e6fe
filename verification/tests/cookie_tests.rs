use peyvand::cookie::{format_cookie_line, parse_cookie_line, trim_str, CookieManager, CookiePolicy};

#[test]
fn policy_parsing() {
    assert_eq!(
        CookieManager::new(None, Some("all".to_string())).policy(),
        CookiePolicy::All
    );
    assert_eq!(
        CookieManager::new(None, Some("none".to_string())).policy(),
        CookiePolicy::Deny
    );
    assert_eq!(
        CookieManager::new(None, Some("session".to_string())).policy(),
        CookiePolicy::SessionOnly
    );
    // anything else falls back to keeping all cookies
    assert_eq!(
        CookieManager::new(None, Some("bogus".to_string())).policy(),
        CookiePolicy::All
    );
    assert_eq!(CookieManager::new(None, None).policy(), CookiePolicy::All);
}

#[test]
fn accept_follows_policy() {
    let all = CookieManager::new(None, Some("all".to_string()));
    assert!(all.accept(true));
    assert!(all.accept(false));

    let none = CookieManager::new(None, Some("none".to_string()));
    assert!(!none.accept(true));
    assert!(!none.accept(false));

    let session = CookieManager::new(None, Some("session".to_string()));
    assert!(!session.accept(true));
    assert!(session.accept(false));
}

#[test]
fn manager_keeps_file_path() {
    let m = CookieManager::new(Some("/tmp/cookies.txt".to_string()), None);
    assert_eq!(m.file().as_deref(), Some("/tmp/cookies.txt"));
    let m = CookieManager::new(None, None);
    assert_eq!(m.file().as_deref(), None);
}

#[test]
fn cookie_line_parsing() {
    assert_eq!(
        parse_cookie_line("name=value"),
        Some(("name".to_string(), "value".to_string()))
    );
    assert_eq!(
        parse_cookie_line("  name  =  value  "),
        Some(("name".to_string(), "value".to_string()))
    );
    // only the first '=' splits
    assert_eq!(
        parse_cookie_line("k=v=w"),
        Some(("k".to_string(), "v=w".to_string()))
    );
    // a line without '=' carries no cookie
    assert_eq!(parse_cookie_line("garbage"), None);
    assert_eq!(parse_cookie_line(""), None);
}

#[test]
fn cookie_line_formatting() {
    assert_eq!(format_cookie_line("name", "value"), "name=value\n");
    let line = format_cookie_line("k", "");
    assert_eq!(parse_cookie_line(&line), Some(("k".to_string(), "".to_string())));
}

#[test]
fn trim_behaviour() {
    assert_eq!(trim_str("  abc  "), "abc");
    assert_eq!(trim_str("abc"), "abc");
    assert_eq!(trim_str("\t a b \r\n"), "a b");
    assert_eq!(trim_str("   "), "");
    assert_eq!(trim_str(""), "");
}
