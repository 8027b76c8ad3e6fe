//! The command-line options, as plain values. Parsing the real command line
//! happens outside the verified core; this is the shape it produces.

use vstd::prelude::*;

verus! {

pub struct Args {
    /// Cookie policy name (`all`, `none`, `session`).
    pub cookie_policies: Option<String>,
    /// Show scrollbars.
    pub scrollbars: bool,
    /// Cookie file path.
    pub cookiefile: Option<String>,
    /// Style file path.
    pub stylefile: Option<String>,
    /// Use a disk cache.
    pub diskcache: bool,
    /// Window id to embed into.
    pub embed: Option<u32>,
    /// Run in fullscreen.
    pub fullscreen: bool,
    /// Allow geolocation.
    pub geolocation: bool,
    /// Load images.
    pub loadimages: bool,
    /// Prefer a dark style.
    pub dark_mode: bool,
    /// Open the inspector.
    pub inspector: bool,
    /// Enable JavaScript.
    pub javascript: bool,
    /// Enforce strict TLS.
    pub stricttls: bool,
    /// User agent override.
    pub user_agent: Option<String>,
    /// Verbosity level.
    pub verbose: u8,
    /// The location to open.
    pub url: String,
}

impl Args {
    /// The options as they stand before any command-line flag: the cookie
    /// policy defaults to `all` and the location to a blank page.
    pub fn defaults() -> (a: Args)
        ensures
            a.cookie_policies is Some,
            a.cookie_policies.unwrap()@ == "all"@,
            a.scrollbars == false,
            a.cookiefile is None,
            a.stylefile is None,
            a.diskcache == false,
            a.embed is None,
            a.fullscreen == false,
            a.geolocation == false,
            a.loadimages == false,
            a.dark_mode == false,
            a.inspector == false,
            a.javascript == false,
            a.stricttls == false,
            a.user_agent is None,
            a.verbose == 0,
            a.url@ == "about:blank"@,
    {
        Args {
            cookie_policies: Some("all".to_owned()),
            scrollbars: false,
            cookiefile: None,
            stylefile: None,
            diskcache: false,
            embed: None,
            fullscreen: false,
            geolocation: false,
            loadimages: false,
            dark_mode: false,
            inspector: false,
            javascript: false,
            stricttls: false,
            user_agent: None,
            verbose: 0,
            url: "about:blank".to_owned(),
        }
    }
}

} // verus!
