//! The stateful sequence matcher: it accumulates the keystrokes typed since
//! it last stood at the trie root and resolves them against one mode's
//! binding table. Each fed token yields `Resolved` (a full binding was
//! typed), `Pending` (a binding strictly extends what was typed) or
//! `Invalid` (no binding continues this way; the matcher silently resets —
//! a designed miss, not an error). A pending state expires after an idle
//! timeout: the next token is then evaluated as if the matcher had never
//! left the root.

use vstd::prelude::*;

use crate::key::{
    binding_action, binding_index, has_binding, has_strict_extension, spec_strict_prefix,
    table_wf, BindingTable, KeyToken, TableView,
};

verus! {

/// What one fed keystroke produced.
#[derive(Clone, Debug, PartialEq)]
pub enum MatchOutcome {
    /// A binding strictly extends the keys typed so far; more input is
    /// expected before the idle deadline.
    Pending,
    /// The keys typed so far are exactly a bound sequence; its action name.
    Resolved(String),
    /// No binding continues with this keystroke; the matcher reset to root.
    Invalid,
}

/// The specification-level outcome, over the action's character sequence.
pub enum SpecMatch {
    Pending,
    Resolved(Seq<char>),
    Invalid,
}

/// One matcher step: the new buffer (cursor position) and the outcome, for a
/// candidate extended by one token.
pub open spec fn spec_feed(t: TableView, buf: Seq<KeyToken>, tok: KeyToken) -> (
    Seq<KeyToken>,
    SpecMatch,
) {
    let cand = buf.push(tok);
    if has_binding(t, cand) {
        (Seq::empty(), SpecMatch::Resolved(binding_action(t, cand)))
    } else if has_strict_extension(t, cand) {
        (cand, SpecMatch::Pending)
    } else {
        (Seq::empty(), SpecMatch::Invalid)
    }
}

/// Feeding a whole token sequence from the root, without any idle expiry:
/// the final buffer and the outcome of the last step.
pub open spec fn spec_run(t: TableView, toks: Seq<KeyToken>) -> (Seq<KeyToken>, SpecMatch)
    decreases toks.len(),
{
    if toks.len() == 0 {
        (Seq::empty(), SpecMatch::Pending)
    } else {
        spec_feed(t, spec_run(t, toks.drop_last()).0, toks.last())
    }
}

/// The deadline set after a pending step: `now` plus the timeout, saturated.
pub open spec fn spec_deadline(now: u64, timeout_ms: u64) -> u64 {
    if now + timeout_ms > u64::MAX {
        u64::MAX
    } else {
        (now + timeout_ms) as u64
    }
}

pub struct SequenceMatcher {
    buffer: Vec<KeyToken>,
    deadline: Option<u64>,
    timeout_ms: u64,
}

impl SequenceMatcher {
    /// The keys typed since the matcher last stood at the root.
    pub closed spec fn buffer_view(&self) -> Seq<KeyToken> {
        self.buffer@
    }

    /// The instant the pending state lapses, if one is pending.
    pub closed spec fn deadline_view(&self) -> Option<u64> {
        self.deadline
    }

    /// The configured idle timeout in milliseconds.
    pub closed spec fn timeout_view(&self) -> u64 {
        self.timeout_ms
    }

    /// The pending state has lapsed at instant `now`.
    pub open spec fn expired(&self, now: u64) -> bool {
        match self.deadline_view() {
            Some(d) => now >= d,
            None => false,
        }
    }

    /// A matcher at the root, with the given idle timeout.
    pub fn new(timeout_ms: u64) -> (m: Self)
        ensures
            m.buffer_view() == Seq::<KeyToken>::empty(),
            m.deadline_view() is None,
            m.timeout_view() == timeout_ms,
    {
        SequenceMatcher { buffer: Vec::new(), deadline: None, timeout_ms }
    }

    /// Returns the cursor to the root and clears any deadline.
    pub fn reset(&mut self)
        ensures
            final(self).buffer_view() == Seq::<KeyToken>::empty(),
            final(self).deadline_view() is None,
            final(self).timeout_view() == old(self).timeout_view(),
    {
        self.buffer.clear();
        self.deadline = None;
    }

    /// Background expiry: silently returns to the root once the idle
    /// deadline has lapsed; otherwise changes nothing. No outcome is emitted.
    pub fn tick(&mut self, now: u64)
        ensures
            final(self).timeout_view() == old(self).timeout_view(),
            old(self).expired(now) ==> final(self).buffer_view() == Seq::<KeyToken>::empty()
                && final(self).deadline_view() is None,
            !old(self).expired(now) ==> *final(self) == *old(self),
    {
        let lapsed = match self.deadline {
            Some(d) => now >= d,
            None => false,
        };
        if lapsed {
            self.buffer.clear();
            self.deadline = None;
        }
    }

    /// Feeds one keystroke at instant `now`. A lapsed deadline first resets
    /// the cursor, so the keystroke is evaluated as if the matcher had never
    /// left the root. The step then follows `spec_feed`; a pending outcome
    /// restarts the idle deadline.
    pub fn feed(&mut self, table: &BindingTable, tok: KeyToken, now: u64) -> (r: MatchOutcome)
        requires
            table_wf(table@),
        ensures
            ({
                let buf0 = if old(self).expired(now) {
                    Seq::<KeyToken>::empty()
                } else {
                    old(self).buffer_view()
                };
                let step = spec_feed(table@, buf0, tok);
                &&& final(self).buffer_view() == step.0
                &&& (step.1 matches SpecMatch::Resolved(sa) ==> r matches MatchOutcome::Resolved(a)
                    && a@ == sa)
                &&& (step.1 is Pending <==> r is Pending)
                &&& (step.1 is Invalid <==> r is Invalid)
                &&& final(self).timeout_view() == old(self).timeout_view()
                &&& (step.1 is Pending ==> final(self).deadline_view() == Some(
                    spec_deadline(now, old(self).timeout_view()),
                ))
                &&& (!(step.1 is Pending) ==> final(self).deadline_view() is None)
                &&& (final(self).buffer_view().len() == 0 || has_strict_extension(
                    table@,
                    final(self).buffer_view(),
                ))
            }),
    {
        let lapsed = match self.deadline {
            Some(d) => now >= d,
            None => false,
        };
        if lapsed {
            self.buffer.clear();
        }
        self.buffer.push(tok);
        match table.find_exact(&self.buffer) {
            Some(a) => {
                self.buffer.clear();
                self.deadline = None;
                MatchOutcome::Resolved(a)
            },
            None => {
                if table.has_extension(&self.buffer) {
                    let d = if now > u64::MAX - self.timeout_ms {
                        u64::MAX
                    } else {
                        now + self.timeout_ms
                    };
                    self.deadline = Some(d);
                    MatchOutcome::Pending
                } else {
                    self.buffer.clear();
                    self.deadline = None;
                    MatchOutcome::Invalid
                }
            },
        }
    }
}

/// Matcher determinism along a bound sequence: feeding the first `k` tokens
/// of an entry's sequence from the root leaves the matcher `Pending` with
/// exactly those tokens buffered while `k` is a strict non-empty prefix, and
/// resolves to exactly that entry's action at the final token.
pub proof fn lemma_matcher_determinism(t: TableView, e: int, k: int)
    requires
        table_wf(t),
        0 <= e < t.len(),
        0 < k <= t[e].0.len(),
    ensures
        ({
            let s = t[e].0;
            let run = spec_run(t, s.subrange(0, k));
            &&& (k < s.len() ==> run.0 == s.subrange(0, k) && run.1 is Pending)
            &&& (k == s.len() ==> run.0 == Seq::<KeyToken>::empty() && (
            run.1 matches SpecMatch::Resolved(a) && a == t[e].1))
        }),
    decreases k,
{
    let s = t[e].0;
    let pre = s.subrange(0, k);
    assert(pre.drop_last() =~= s.subrange(0, k - 1));
    assert(pre.last() == s[k - 1]);
    let buf0: Seq<KeyToken> = if k == 1 {
        Seq::empty()
    } else {
        s.subrange(0, k - 1)
    };
    if k == 1 {
        assert(spec_run(t, pre.drop_last()).0 =~= buf0);
    } else {
        lemma_matcher_determinism(t, e, k - 1);
        assert(spec_run(t, pre.drop_last()).0 == buf0);
    }
    let cand = buf0.push(s[k - 1]);
    assert(cand =~= s.subrange(0, k));
    assert(spec_run(t, pre) == spec_feed(t, buf0, s[k - 1]));
    if k < s.len() {
        // the candidate is a strict prefix of the entry's own sequence
        assert(cand == s.subrange(0, cand.len() as int));
        assert(spec_strict_prefix(cand, s));
        assert(has_strict_extension(t, cand));
        // no entry can be bound to it, or the antichain would be violated
        if has_binding(t, cand) {
            let i = choose|i: int| 0 <= i < t.len() && #[trigger] t[i].0 == cand;
            assert(spec_strict_prefix(t[i].0, t[e].0));
            assert(false);
        }
    } else {
        assert(cand =~= s);
        assert(has_binding(t, cand));
        let i = binding_index(t, cand);
        assert(0 <= i < t.len() && t[i].0 == cand);
        if i != e {
            assert(t[i].0 != t[e].0);
            assert(false);
        }
        assert(binding_action(t, cand) == t[e].1);
    }
}

/// The first divergent token yields `Invalid`: from the root or any strict
/// prefix of a binding, a token that neither completes a binding nor keeps a
/// binding reachable resets the matcher with an `Invalid` outcome.
pub proof fn lemma_matcher_invalid(t: TableView, pre: Seq<KeyToken>, tok: KeyToken)
    requires
        table_wf(t),
        pre.len() == 0 || has_strict_extension(t, pre),
        !has_binding(t, pre.push(tok)),
        !has_strict_extension(t, pre.push(tok)),
    ensures
        spec_run(t, pre.push(tok)).0 == Seq::<KeyToken>::empty(),
        spec_run(t, pre.push(tok)).1 is Invalid,
{
    let w = pre.push(tok);
    assert(w.drop_last() =~= pre);
    assert(w.last() == tok);
    if pre.len() == 0 {
        assert(spec_run(t, pre).0 =~= Seq::<KeyToken>::empty());
    } else {
        let e = choose|i: int| 0 <= i < t.len() && spec_strict_prefix(pre, #[trigger] t[i].0);
        assert(0 <= e < t.len() && spec_strict_prefix(pre, t[e].0));
        assert(pre =~= t[e].0.subrange(0, pre.len() as int));
        lemma_matcher_determinism(t, e, pre.len() as int);
        assert(spec_run(t, pre).0 == pre);
    }
    assert(spec_run(t, w) == spec_feed(t, spec_run(t, w.drop_last()).0, w.last()));
    assert(spec_run(t, w.drop_last()).0 == spec_run(t, pre).0);
    assert(spec_run(t, pre).0 =~= pre);
    let step = spec_feed(t, pre, tok);
    assert(pre.push(tok) == w);
    assert(!has_binding(t, w) && !has_strict_extension(t, w));
    assert(step.0 == Seq::<KeyToken>::empty() && step.1 is Invalid);
    assert(spec_run(t, w) == step);
}

} // verus!

