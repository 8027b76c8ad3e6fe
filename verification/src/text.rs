//! Small text helpers shared by the parsing and rendering code: appending a
//! character to a `String`, slice equality, and locating a separator.

use vstd::prelude::*;
use vstd::string::StrSliceExecFns;

verus! {

/// Relies on `String::push`: appends exactly the one character at the end.
#[verifier::external_body]
pub(crate) fn push_char(s: &mut String, c: char)
    ensures
        final(s)@ == old(s)@.push(c),
{
    s.push(c)
}

/// Relies on `str`'s `PartialEq`: equality of the underlying bytes, which for
/// UTF-8 coincides with equality of the character sequences.
#[verifier::external_body]
pub(crate) fn str_eq(a: &str, b: &str) -> (r: bool)
    ensures
        r == (a@ == b@),
{
    a == b
}

/// Builds the `String` holding exactly the given characters, in order.
pub fn string_from_chars(chars: &Vec<char>) -> (r: String)
    ensures
        r@ == chars@,
{
    let mut r = String::new();
    let mut i: usize = 0;
    while i < chars.len()
        invariant
            i <= chars.len(),
            r@ == chars@.subrange(0, i as int),
        decreases chars.len() - i,
    {
        push_char(&mut r, chars[i]);
        i = i + 1;
        assert(r@ == chars@.subrange(0, i as int));
    }
    assert(chars@.subrange(0, chars@.len() as int) == chars@);
    r
}

/// Index of the first occurrence of `c` in `s`, or the length of `s` if `c`
/// does not occur.
pub open spec fn spec_find_char(s: Seq<char>, c: char) -> int
    decreases s.len(),
{
    if s.len() == 0 {
        0
    } else if s[0] == c {
        0
    } else {
        1 + spec_find_char(s.skip(1), c)
    }
}

pub proof fn lemma_find_char_bounds(s: Seq<char>, c: char)
    ensures
        0 <= spec_find_char(s, c) <= s.len(),
        spec_find_char(s, c) < s.len() ==> s[spec_find_char(s, c)] == c,
        forall|j: int| 0 <= j < spec_find_char(s, c) ==> s[j] != c,
    decreases s.len(),
{
    if s.len() > 0 && s[0] != c {
        lemma_find_char_bounds(s.skip(1), c);
        let f = spec_find_char(s, c);
        assert(f == 1 + spec_find_char(s.skip(1), c));
        if f < s.len() {
            assert(s.skip(1)[f - 1] == s[f]);
        }
        assert forall|j: int| 0 <= j < f implies s[j] != c by {
            if j > 0 {
                assert(s.skip(1)[j - 1] == s[j]);
            }
        }
    }
}

proof fn lemma_find_char_step(s: Seq<char>, c: char, i: int)
    requires
        0 <= i < s.len(),
        forall|j: int| 0 <= j < i ==> s[j] != c,
    ensures
        s[i] == c ==> spec_find_char(s, c) == i,
        s[i] != c ==> spec_find_char(s, c) > i,
    decreases i,
{
    if i == 0 {
        if s[0] != c {
            lemma_find_char_bounds(s.skip(1), c);
            assert(spec_find_char(s, c) == 1 + spec_find_char(s.skip(1), c));
        }
    } else {
        assert(s[0] != c);
        assert forall|j: int| 0 <= j < i - 1 implies s.skip(1)[j] != c by {
            assert(s.skip(1)[j] == s[j + 1]);
        }
        lemma_find_char_step(s.skip(1), c, i - 1);
        assert(s.skip(1)[i - 1] == s[i]);
        assert(spec_find_char(s, c) == 1 + spec_find_char(s.skip(1), c));
    }
}

/// Finds the first occurrence of `c`, scanning the characters left to right.
pub fn find_char(s: &str, c: char) -> (r: usize)
    ensures
        r == spec_find_char(s@, c),
{
    let n = s.unicode_len();
    let mut i: usize = 0;
    while i < n
        invariant
            0 <= i <= n,
            n == s@.len(),
            forall|j: int| 0 <= j < i ==> s@[j] != c,
        decreases n - i,
    {
        if s.get_char(i) == c {
            proof {
                lemma_find_char_step(s@, c, i as int);
            }
            return i;
        }
        proof {
            lemma_find_char_step(s@, c, i as int);
        }
        i = i + 1;
    }
    proof {
        lemma_find_char_bounds(s@, c);
    }
    n
}

} // verus!
