//! Back/forward navigation history: an ordered stack of visited locations
//! plus a current index. Pushing a new location discards the forward part of
//! the stack; `back` and `forward` move the index and report "no movement"
//! (`None`) at the boundaries.

use vstd::prelude::*;

verus! {

/// Abstract transition of `push`: drop everything after the current index,
/// then append the new location and point at it.
pub open spec fn spec_push(stack: Seq<String>, index: int, url: String) -> (Seq<String>, int) {
    (stack.subrange(0, index + 1).push(url), index + 1)
}

/// Abstract transition of `back`: step the index down unless at the oldest entry.
pub open spec fn spec_back(stack: Seq<String>, index: int) -> int {
    if index > 0 {
        index - 1
    } else {
        index
    }
}

/// Abstract transition of `forward`: step the index up unless at the newest entry.
pub open spec fn spec_forward(stack: Seq<String>, index: int) -> int {
    if index + 1 < stack.len() {
        index + 1
    } else {
        index
    }
}

pub struct History {
    stack: Vec<String>,
    current_index: usize,
}

impl History {
    /// The visited locations, oldest first.
    pub closed spec fn stack_view(&self) -> Seq<String> {
        self.stack@
    }

    /// The position of the current location in the stack.
    pub closed spec fn index_view(&self) -> int {
        self.current_index as int
    }

    /// The index always points at an entry of the stack.
    pub open spec fn well_formed(&self) -> bool {
        0 <= self.index_view() < self.stack_view().len()
    }

    pub fn new(initial_url: &str) -> (h: Self)
        ensures
            h.well_formed(),
            h.stack_view().len() == 1,
            h.stack_view()[0]@ == initial_url@,
            h.index_view() == 0,
    {
        let mut stack: Vec<String> = Vec::new();
        stack.push(initial_url.to_owned());
        History { stack, current_index: 0 }
    }

    pub fn push(&mut self, url: &str)
        requires
            old(self).well_formed(),
        ensures
            final(self).well_formed(),
            final(self).stack_view().last()@ == url@,
            (final(self).stack_view(), final(self).index_view()) == spec_push(
                old(self).stack_view(),
                old(self).index_view(),
                final(self).stack_view().last(),
            ),
    {
        let len = self.stack.len();
        self.stack.truncate(self.current_index + 1);
        self.stack.push(url.to_owned());
        self.current_index = self.current_index + 1;
    }

    /// Moves one step towards the oldest entry; `None` means "no movement"
    /// because the history is already at its oldest entry.
    pub fn back(&mut self) -> (r: Option<String>)
        requires
            old(self).well_formed(),
        ensures
            final(self).well_formed(),
            final(self).stack_view() == old(self).stack_view(),
            final(self).index_view() == spec_back(old(self).stack_view(), old(self).index_view()),
            old(self).index_view() > 0 ==> r is Some && r.unwrap()@ == old(self).stack_view()[
                old(self).index_view() - 1
            ]@,
            old(self).index_view() == 0 ==> r is None,
    {
        if self.current_index > 0 {
            self.current_index = self.current_index - 1;
            Some(self.stack[self.current_index].clone())
        } else {
            None
        }
    }

    /// Moves one step towards the newest entry; `None` means "no movement"
    /// because the history is already at its newest entry.
    pub fn forward(&mut self) -> (r: Option<String>)
        requires
            old(self).well_formed(),
        ensures
            final(self).well_formed(),
            final(self).stack_view() == old(self).stack_view(),
            final(self).index_view() == spec_forward(
                old(self).stack_view(),
                old(self).index_view(),
            ),
            old(self).index_view() + 1 < old(self).stack_view().len() ==> r is Some
                && r.unwrap()@ == old(self).stack_view()[old(self).index_view() + 1]@,
            old(self).index_view() + 1 >= old(self).stack_view().len() ==> r is None,
    {
        let len = self.stack.len();
        if self.current_index + 1 < len {
            self.current_index = self.current_index + 1;
            Some(self.stack[self.current_index].clone())
        } else {
            None
        }
    }

    pub fn current(&self) -> (r: &str)
        requires
            self.well_formed(),
        ensures
            r@ == self.stack_view()[self.index_view()]@,
    {
        self.stack[self.current_index].as_str()
    }
}

impl Default for History {
    /// A history seeded with the built-in start page.
    fn default() -> (h: Self)
        ensures
            h.well_formed(),
            h.stack_view().len() == 1,
            h.stack_view()[0]@ == "https://mr.katebzadeh.xyz"@,
            h.index_view() == 0,
    {
        History::new("https://mr.katebzadeh.xyz")
    }
}

/// Pushing never disturbs the oldest entry, so walking `back` to the boundary
/// always lands on the seed location: at index 0, `current` is the entry that
/// the history was created with, whatever pushes happened since.
pub proof fn lemma_push_keeps_oldest(stack: Seq<String>, index: int, url: String)
    requires
        0 <= index < stack.len(),
    ensures
        spec_push(stack, index, url).0[0] == stack[0],
        spec_push(stack, index, url).0.len() == index + 2,
        spec_push(stack, index, url).1 == index + 1,
{
}

/// The index after `back` has been called `n` times in a row.
pub open spec fn spec_back_many(stack: Seq<String>, index: int, n: nat) -> int
    decreases n,
{
    if n == 0 {
        index
    } else {
        spec_back(stack, spec_back_many(stack, index, (n - 1) as nat))
    }
}

/// Walking `back` to the boundary lands on the oldest entry: after at least
/// `index` repetitions the index is 0, where the current location is the
/// entry the history was seeded with (which `push` never disturbs).
pub proof fn lemma_back_to_boundary(stack: Seq<String>, index: int, n: nat)
    requires
        0 <= index < stack.len(),
        n >= index,
    ensures
        spec_back_many(stack, index, n) == 0,
    decreases n,
{
    if n > 0 {
        if index > 0 {
            assert(spec_back_many(stack, index, n) == spec_back(
                stack,
                spec_back_many(stack, index, (n - 1) as nat),
            ));
            lemma_back_many_bounds(stack, index, (n - 1) as nat);
            if n - 1 >= index {
                lemma_back_to_boundary(stack, index, (n - 1) as nat);
            } else {
                lemma_back_many_decrements(stack, index, (n - 1) as nat);
            }
        } else {
            lemma_back_to_boundary(stack, index, (n - 1) as nat);
        }
    }
}

/// While above the boundary, each `back` moves down by exactly one.
proof fn lemma_back_many_decrements(stack: Seq<String>, index: int, n: nat)
    requires
        0 <= index,
        n <= index,
    ensures
        spec_back_many(stack, index, n) == index - n,
    decreases n,
{
    if n > 0 {
        lemma_back_many_decrements(stack, index, (n - 1) as nat);
    }
}

/// Repeated `back` never leaves the valid range.
proof fn lemma_back_many_bounds(stack: Seq<String>, index: int, n: nat)
    requires
        0 <= index,
    ensures
        0 <= spec_back_many(stack, index, n) <= index,
    decreases n,
{
    if n > 0 {
        lemma_back_many_bounds(stack, index, (n - 1) as nat);
    }
}

/// A `back` that moved, followed by `forward`, returns to the pre-`back`
/// position (the stack itself is untouched by both).
pub proof fn lemma_back_forward_round_trip(stack: Seq<String>, index: int)
    requires
        0 < index < stack.len(),
    ensures
        spec_forward(stack, spec_back(stack, index)) == index,
{
}

/// Truncation law: after `push(a); push(b); back(); push(c)` the entry for
/// `b` is discarded, the current location is `c`, and `forward` does not move.
pub proof fn lemma_push_truncates_forward(
    stack: Seq<String>,
    index: int,
    a: String,
    b: String,
    c: String,
)
    requires
        0 <= index < stack.len(),
    ensures
        ({
            let (s1, i1) = spec_push(stack, index, a);
            let (s2, i2) = spec_push(s1, i1, b);
            let i3 = spec_back(s2, i2);
            let (s4, i4) = spec_push(s2, i3, c);
            &&& s4.last() == c
            &&& i4 == s4.len() - 1
            &&& spec_forward(s4, i4) == i4
            &&& !s4.contains(b)
        }) <== !stack.contains(b) && a != b && c != b,
{
    let (s1, i1) = spec_push(stack, index, a);
    let (s2, i2) = spec_push(s1, i1, b);
    let i3 = spec_back(s2, i2);
    let (s4, i4) = spec_push(s2, i3, c);
    if !stack.contains(b) && a != b && c != b {
        assert forall|k: int| 0 <= k < s4.len() implies s4[k] != b by {
            if k < s4.len() - 1 {
                assert(s4[k] == s1[k]);
                if k < s1.len() - 1 {
                    assert(s1[k] == stack[k]);
                }
            }
        }
        assert(!s4.contains(b));
    }
}

} // verus!
