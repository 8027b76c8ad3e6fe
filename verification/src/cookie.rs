//! Cookie policy and the cookie-file line format. The store itself is a
//! collaborator; this module decides which cookies are kept and how a
//! `name=value` line is read and written.

use vstd::prelude::*;
use vstd::string::StrSliceExecFns;

use crate::text::{spec_find_char, str_eq};

verus! {

#[derive(Clone, Copy, Debug, PartialEq, Eq, Structural)]
pub enum CookiePolicy {
    /// Keep every cookie.
    All,
    /// Keep no cookie at all.
    Deny,
    /// Keep only cookies without an expiry (session cookies).
    SessionOnly,
}

/// The policy named by the `-a` argument; anything unrecognised falls back
/// to keeping all cookies.
pub open spec fn spec_parse_policy(p: Option<String>) -> CookiePolicy {
    match p {
        Some(s) => if s@ == "all"@ {
            CookiePolicy::All
        } else if s@ == "none"@ {
            CookiePolicy::Deny
        } else if s@ == "session"@ {
            CookiePolicy::SessionOnly
        } else {
            CookiePolicy::All
        },
        Option::None => CookiePolicy::All,
    }
}

/// Whether a cookie passes a policy; `has_expiry` is false for session
/// cookies.
pub open spec fn spec_accept(p: CookiePolicy, has_expiry: bool) -> bool {
    match p {
        CookiePolicy::All => true,
        CookiePolicy::Deny => false,
        CookiePolicy::SessionOnly => !has_expiry,
    }
}

pub struct CookieManager {
    file: Option<String>,
    policy: CookiePolicy,
}

impl CookieManager {
    /// The configured cookie file path, if one was given.
    pub closed spec fn file_view(&self) -> Option<String> {
        self.file
    }

    pub closed spec fn policy_view(&self) -> CookiePolicy {
        self.policy
    }

    pub fn new(file: Option<String>, policy: Option<String>) -> (m: Self)
        ensures
            m.file_view() == file,
            m.policy_view() == spec_parse_policy(policy),
    {
        let p = match &policy {
            Some(s) => {
                if str_eq(s.as_str(), "all") {
                    CookiePolicy::All
                } else if str_eq(s.as_str(), "none") {
                    CookiePolicy::Deny
                } else if str_eq(s.as_str(), "session") {
                    CookiePolicy::SessionOnly
                } else {
                    CookiePolicy::All
                }
            },
            None => CookiePolicy::All,
        };
        CookieManager { file, policy: p }
    }

    pub fn file(&self) -> (r: &Option<String>)
        ensures
            *r == self.file_view(),
    {
        &self.file
    }

    pub fn policy(&self) -> (r: CookiePolicy)
        ensures
            r == self.policy_view(),
    {
        self.policy
    }

    /// Whether a cookie with the given expiry flag is kept under this
    /// manager's policy.
    pub fn accept(&self, has_expiry: bool) -> (r: bool)
        ensures
            r == spec_accept(self.policy_view(), has_expiry),
    {
        match self.policy {
            CookiePolicy::All => true,
            CookiePolicy::Deny => false,
            CookiePolicy::SessionOnly => !has_expiry,
        }
    }
}

pub open spec fn is_space(c: char) -> bool {
    c == ' ' || c == '\t' || c == '\r' || c == '\n'
}

/// How many whitespace characters the sequence starts with.
pub open spec fn spec_leading_spaces(s: Seq<char>) -> int
    decreases s.len(),
{
    if s.len() > 0 && is_space(s[0]) {
        1 + spec_leading_spaces(s.skip(1))
    } else {
        0
    }
}

/// How many whitespace characters the sequence ends with.
pub open spec fn spec_trailing_spaces(s: Seq<char>) -> int
    decreases s.len(),
{
    if s.len() > 0 && is_space(s.last()) {
        1 + spec_trailing_spaces(s.drop_last())
    } else {
        0
    }
}

/// The sequence without leading and trailing whitespace.
pub open spec fn spec_trim(s: Seq<char>) -> Seq<char> {
    let rest = s.skip(spec_leading_spaces(s));
    rest.subrange(0, rest.len() - spec_trailing_spaces(rest))
}

pub proof fn lemma_leading_spaces(s: Seq<char>)
    ensures
        0 <= spec_leading_spaces(s) <= s.len(),
        forall|j: int| 0 <= j < spec_leading_spaces(s) ==> is_space(s[j]),
        spec_leading_spaces(s) < s.len() ==> !is_space(s[spec_leading_spaces(s)]),
    decreases s.len(),
{
    if s.len() > 0 && is_space(s[0]) {
        lemma_leading_spaces(s.skip(1));
        let l = spec_leading_spaces(s);
        assert(l == 1 + spec_leading_spaces(s.skip(1)));
        assert forall|j: int| 0 <= j < l implies is_space(s[j]) by {
            if j > 0 {
                assert(s.skip(1)[j - 1] == s[j]);
            }
        }
        if l < s.len() {
            assert(s.skip(1)[l - 1] == s[l]);
        }
    }
}

pub proof fn lemma_trailing_spaces(s: Seq<char>)
    ensures
        0 <= spec_trailing_spaces(s) <= s.len(),
        forall|j: int| s.len() - spec_trailing_spaces(s) <= j < s.len() ==> is_space(s[j]),
        spec_trailing_spaces(s) < s.len() ==> !is_space(s[s.len() - spec_trailing_spaces(s) - 1]),
    decreases s.len(),
{
    if s.len() > 0 && is_space(s.last()) {
        lemma_trailing_spaces(s.drop_last());
        let t = spec_trailing_spaces(s);
        assert(t == 1 + spec_trailing_spaces(s.drop_last()));
        assert forall|j: int| s.len() - t <= j < s.len() implies is_space(s[j]) by {
            if j < s.len() - 1 {
                assert(s.drop_last()[j] == s[j]);
            }
        }
        if t < s.len() {
            assert(s.drop_last()[s.len() - t - 1] == s[s.len() - t - 1]);
        }
    }
}

/// Whitespace test usable in loop conditions.
fn is_space_char(c: char) -> (r: bool)
    ensures
        r == is_space(c),
{
    c == ' ' || c == '\t' || c == '\r' || c == '\n'
}

/// Copies `s` without leading and trailing whitespace.
pub fn trim_str(s: &str) -> (r: String)
    ensures
        r@ == spec_trim(s@),
{
    proof {
        lemma_leading_spaces(s@);
    }
    let n = s.unicode_len();
    let mut a: usize = 0;
    while a < n && is_space_char(s.get_char(a))
        invariant
            0 <= a <= n,
            n == s@.len(),
            forall|j: int| 0 <= j < a ==> is_space(s@[j]),
        decreases n - a,
    {
        a = a + 1;
    }
    proof {
        let l = spec_leading_spaces(s@);
        if a < l {
            assert(is_space(s@[a as int]));
            assert(false);
        }
        if l < a {
            assert(is_space(s@[l]));
            assert(false);
        }
        assert(a == l);
    }
    let rest = s.substring_char(a, n);
    proof {
        assert(rest@ == s@.skip(a as int));
        lemma_trailing_spaces(rest@);
    }
    let m = n - a;
    let mut b: usize = m;
    while b > 0 && is_space_char(rest.get_char(b - 1))
        invariant
            0 <= b <= m,
            m == rest@.len(),
            forall|j: int| b <= j < m ==> is_space(rest@[j]),
        decreases b,
    {
        b = b - 1;
    }
    proof {
        let t = spec_trailing_spaces(rest@);
        if m - b < t {
            assert(is_space(rest@[b - 1]));
            assert(false);
        }
        if t < m - b {
            assert(is_space(rest@[m - t - 1]));
            assert(false);
        }
        assert(m - b == t);
    }
    let out = rest.substring_char(0, b);
    proof {
        assert(out@ == spec_trim(s@));
    }
    out.to_owned()
}

/// What a cookie-file line means: `None` for a line without `=`; otherwise
/// the name and value around the first `=`, each trimmed.
pub open spec fn spec_parse_cookie_line(l: Seq<char>) -> Option<(Seq<char>, Seq<char>)> {
    let eq = spec_find_char(l, '=');
    if eq < l.len() {
        Some((spec_trim(l.subrange(0, eq)), spec_trim(l.subrange(eq + 1, l.len() as int))))
    } else {
        None
    }
}

/// Reads one cookie-file line.
pub fn parse_cookie_line(line: &str) -> (r: Option<(String, String)>)
    ensures
        r is Some <==> spec_parse_cookie_line(line@) is Some,
        r is Some ==> (r.unwrap().0@, r.unwrap().1@) == spec_parse_cookie_line(line@).unwrap(),
{
    let n = line.unicode_len();
    let eq = crate::text::find_char(line, '=');
    proof {
        crate::text::lemma_find_char_bounds(line@, '=');
    }
    if eq < n {
        let name = trim_str(line.substring_char(0, eq));
        let value = trim_str(line.substring_char(eq + 1, n));
        Some((name, value))
    } else {
        None
    }
}

/// Writes one cookie-file line: `name=value` and a newline.
pub fn format_cookie_line(name: &str, value: &str) -> (r: String)
    ensures
        r@ == name@ + "="@ + value@ + "\n"@,
{
    let mut r = name.to_owned();
    r.append("=");
    r.append(value);
    r.append("\n");
    proof {
        assert(r@ =~= name@ + "="@ + value@ + "\n"@);
    }
    r
}

} // verus!
