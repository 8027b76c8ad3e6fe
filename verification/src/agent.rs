//! The built-in user-agent strings, one per platform family. Which platform
//! the build runs on is the caller's knowledge; the choice itself is fixed
//! here.

use vstd::prelude::*;

verus! {

/// The platform families a default user agent exists for.
#[derive(Clone, Copy, Debug, PartialEq, Eq, Structural)]
pub enum Platform {
    Windows,
    MacOs,
    Linux,
    Other,
}

pub const UA_WINDOWS: &'static str = "Mozilla/5.0 (Windows NT 10.0; Win64; x64) AppleWebKit/537.36 (KHTML, like Gecko) Chrome/118.0.5993.117 Safari/537.36";

pub const UA_MACOS: &'static str = "Mozilla/5.0 (Macintosh; Intel Mac OS X 13_5) AppleWebKit/605.1.15 (KHTML, like Gecko) Version/16.6 Safari/605.1.15";

pub const UA_LINUX: &'static str = "Mozilla/5.0 (X11; Linux x86_64) AppleWebKit/537.36 (KHTML, like Gecko) Chrome/118.0.5993.117 Safari/537.36";

pub const UA_OTHER: &'static str = "Mozilla/5.0 (compatible; Peyvand/0.1; +https://github.com/mrkatebzadeh/peyvand)";

pub open spec fn spec_default_user_agent(p: Platform) -> Seq<char> {
    match p {
        Platform::Windows => UA_WINDOWS@,
        Platform::MacOs => UA_MACOS@,
        Platform::Linux => UA_LINUX@,
        Platform::Other => UA_OTHER@,
    }
}

/// The default user-agent string for a platform family.
pub fn default_user_agent(p: Platform) -> (r: &'static str)
    ensures
        r@ == spec_default_user_agent(p),
{
    match p {
        Platform::Windows => UA_WINDOWS,
        Platform::MacOs => UA_MACOS,
        Platform::Linux => UA_LINUX,
        Platform::Other => UA_OTHER,
    }
}

} // verus!
