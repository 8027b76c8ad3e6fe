//! Key tokens, key sequences and the per-mode binding tables.
//!
//! A sequence string such as `"gt"` or `"C-d"` denotes one keystroke per
//! character, where a `C-`, `S-` or `M-` prefix folds a ctrl/shift/meta
//! modifier into the following keystroke. Sequences bound in the same mode
//! must form an antichain under the prefix relation: no bound sequence is a
//! strict prefix of another, which keeps every binding reachable and the
//! matcher free of ambiguity.

use vstd::prelude::*;
use vstd::string::StrSliceExecFns;

use crate::action::parse_action;
use crate::text::{push_char, str_eq};

verus! {

broadcast use vstd::string::group_string_axioms;

/// The four input-interpretation contexts.
#[derive(Clone, Copy, Debug, PartialEq, Eq, Hash, Structural)]
pub enum KeyMode {
    Normal,
    Insert,
    Search,
    Cmd,
}

impl Default for KeyMode {
    fn default() -> (m: KeyMode)
        ensures
            m == KeyMode::Normal,
    {
        KeyMode::Normal
    }
}

pub open spec fn spec_mode_name(m: KeyMode) -> Seq<char> {
    match m {
        KeyMode::Normal => "Normal"@,
        KeyMode::Insert => "Insert"@,
        KeyMode::Search => "Search"@,
        KeyMode::Cmd => "Cmd"@,
    }
}

/// The mode denoted by a configuration-file mode name, if any.
pub open spec fn spec_mode_from_str(s: Seq<char>) -> Option<KeyMode> {
    if s == "normal"@ || s == "Normal"@ {
        Some(KeyMode::Normal)
    } else if s == "insert"@ || s == "Insert"@ {
        Some(KeyMode::Insert)
    } else if s == "search"@ || s == "Search"@ {
        Some(KeyMode::Search)
    } else if s == "cmd"@ || s == "Cmd"@ {
        Some(KeyMode::Cmd)
    } else {
        None
    }
}

impl KeyMode {
    pub fn name(&self) -> (r: &'static str)
        ensures
            r@ == spec_mode_name(*self),
    {
        match self {
            KeyMode::Normal => "Normal",
            KeyMode::Insert => "Insert",
            KeyMode::Search => "Search",
            KeyMode::Cmd => "Cmd",
        }
    }

    /// Parses a configuration-file mode name; `None` exactly for unknown names.
    pub fn from_str(s: &str) -> (r: Option<KeyMode>)
        ensures
            r == spec_mode_from_str(s@),
    {
        if str_eq(s, "normal") || str_eq(s, "Normal") {
            Some(KeyMode::Normal)
        } else if str_eq(s, "insert") || str_eq(s, "Insert") {
            Some(KeyMode::Insert)
        } else if str_eq(s, "search") || str_eq(s, "Search") {
            Some(KeyMode::Search)
        } else if str_eq(s, "cmd") || str_eq(s, "Cmd") {
            Some(KeyMode::Cmd)
        } else {
            None
        }
    }
}

/// The label of one logical keystroke: a printable character or one of the
/// named keys the engine reacts to.
#[derive(Clone, Copy, Debug, PartialEq, Eq, Hash, Structural)]
pub enum KeyCode {
    Char(char),
    Escape,
    Enter,
    Backspace,
}

/// One logical keystroke: a key label plus its modifier flags. Equality is
/// structural: label and all three flags must match exactly.
#[derive(Clone, Copy, Debug, PartialEq, Eq, Hash, Structural)]
pub struct KeyToken {
    pub code: KeyCode,
    pub ctrl: bool,
    pub shift: bool,
    pub meta: bool,
}

pub open spec fn plain_token(c: char) -> KeyToken {
    KeyToken { code: KeyCode::Char(c), ctrl: false, shift: false, meta: false }
}

pub open spec fn is_modifier_char(c: char) -> bool {
    c == 'C' || c == 'S' || c == 'M'
}

pub open spec fn apply_modifier(m: char, t: KeyToken) -> KeyToken {
    if m == 'C' {
        KeyToken { ctrl: true, ..t }
    } else if m == 'S' {
        KeyToken { shift: true, ..t }
    } else {
        KeyToken { meta: true, ..t }
    }
}

impl KeyToken {
    pub fn plain(c: char) -> (t: KeyToken)
        ensures
            t == plain_token(c),
    {
        KeyToken { code: KeyCode::Char(c), ctrl: false, shift: false, meta: false }
    }

    pub fn with_ctrl(c: char) -> (t: KeyToken)
        ensures
            t == apply_modifier('C', plain_token(c)),
    {
        KeyToken { code: KeyCode::Char(c), ctrl: true, shift: false, meta: false }
    }

    pub fn escape() -> (t: KeyToken)
        ensures
            t == (KeyToken { code: KeyCode::Escape, ctrl: false, shift: false, meta: false }),
    {
        KeyToken { code: KeyCode::Escape, ctrl: false, shift: false, meta: false }
    }

    pub fn enter() -> (t: KeyToken)
        ensures
            t == (KeyToken { code: KeyCode::Enter, ctrl: false, shift: false, meta: false }),
    {
        KeyToken { code: KeyCode::Enter, ctrl: false, shift: false, meta: false }
    }

    pub fn backspace() -> (t: KeyToken)
        ensures
            t == (KeyToken { code: KeyCode::Backspace, ctrl: false, shift: false, meta: false }),
    {
        KeyToken { code: KeyCode::Backspace, ctrl: false, shift: false, meta: false }
    }
}

/// The token starting at position `i` of a sequence string, and the position
/// just after it. A modifier prefix (`C-`, `S-`, `M-`) folds into the token
/// it precedes; a trailing modifier letter with nothing after its `-` is an
/// ordinary character.
pub open spec fn spec_token(s: Seq<char>, i: int) -> (KeyToken, int)
    decreases s.len() - i,
{
    if 0 <= i && i + 2 < s.len() && is_modifier_char(s[i]) && s[i + 1] == '-' {
        let (t, j) = spec_token(s, i + 2);
        (apply_modifier(s[i], t), j)
    } else if 0 <= i < s.len() {
        (plain_token(s[i]), i + 1)
    } else {
        (plain_token(' '), i + 1)
    }
}

pub proof fn lemma_spec_token_bounds(s: Seq<char>, i: int)
    requires
        0 <= i < s.len(),
    ensures
        i < spec_token(s, i).1 <= s.len(),
    decreases s.len() - i,
{
    if i + 2 < s.len() && is_modifier_char(s[i]) && s[i + 1] == '-' {
        lemma_spec_token_bounds(s, i + 2);
    }
}

/// The tokens denoted by a sequence string from position `i` on.
pub open spec fn spec_parse_from(s: Seq<char>, i: int) -> Seq<KeyToken>
    decreases s.len() - i,
    via spec_parse_from_decreases
{
    if 0 <= i < s.len() {
        seq![spec_token(s, i).0] + spec_parse_from(s, spec_token(s, i).1)
    } else {
        Seq::empty()
    }
}

#[via_fn]
proof fn spec_parse_from_decreases(s: Seq<char>, i: int) {
    if 0 <= i < s.len() {
        lemma_spec_token_bounds(s, i);
    }
}

/// The tokens denoted by a whole sequence string.
pub open spec fn spec_parse_keys(s: Seq<char>) -> Seq<KeyToken> {
    spec_parse_from(s, 0)
}

fn apply_modifier_exec(m: char, t: KeyToken) -> (r: KeyToken)
    ensures
        r == apply_modifier(m, t),
{
    if m == 'C' {
        KeyToken { ctrl: true, ..t }
    } else if m == 'S' {
        KeyToken { shift: true, ..t }
    } else {
        KeyToken { meta: true, ..t }
    }
}

/// Reads the token starting at position `i` of a sequence string.
fn token_at(s: &str, i: usize) -> (r: (KeyToken, usize))
    requires
        i < s@.len(),
    ensures
        r.0 == spec_token(s@, i as int).0,
        r.1 as int == spec_token(s@, i as int).1,
        i < r.1 <= s@.len(),
    decreases s@.len() - i,
{
    proof {
        lemma_spec_token_bounds(s@, i as int);
    }
    let n = s.unicode_len();
    if n - i > 2 {
        let c0 = s.get_char(i);
        if (c0 == 'C' || c0 == 'S' || c0 == 'M') && s.get_char(i + 1) == '-' {
            let (t, j) = token_at(s, i + 2);
            return (apply_modifier_exec(c0, t), j);
        }
        return (KeyToken::plain(c0), i + 1);
    }
    (KeyToken::plain(s.get_char(i)), i + 1)
}

/// An ordered sequence of keystrokes, interpreted together as one trigger.
#[derive(Clone, Debug, PartialEq, Eq, Hash)]
pub struct KeySequence(pub Vec<KeyToken>);

impl View for KeySequence {
    type V = Seq<KeyToken>;

    open spec fn view(&self) -> Seq<KeyToken> {
        self.0@
    }
}

/// `a` comes strictly before `b` in the prefix order.
pub open spec fn spec_strict_prefix(a: Seq<KeyToken>, b: Seq<KeyToken>) -> bool {
    a.len() < b.len() && a == b.subrange(0, a.len() as int)
}

impl KeySequence {
    /// Reads a sequence string, one token per character with `C-`/`S-`/`M-`
    /// modifier prefixes folded in.
    pub fn from_str(s: &str) -> (r: Self)
        ensures
            r@ == spec_parse_keys(s@),
    {
        let n = s.unicode_len();
        let mut toks: Vec<KeyToken> = Vec::new();
        let mut i: usize = 0;
        while i < n
            invariant
                0 <= i <= n,
                n == s@.len(),
                spec_parse_keys(s@) == toks@ + spec_parse_from(s@, i as int),
            decreases n - i,
        {
            let ghost pre = toks@;
            let (t, j) = token_at(s, i);
            toks.push(t);
            proof {
                assert(spec_parse_from(s@, i as int) == seq![t] + spec_parse_from(s@, j as int));
                assert(pre + spec_parse_from(s@, i as int) == (pre + seq![t]) + spec_parse_from(
                    s@,
                    j as int,
                ));
                assert(pre + seq![t] == toks@);
            }
            i = j;
        }
        proof {
            assert(toks@ + spec_parse_from(s@, i as int) == toks@);
        }
        KeySequence(toks)
    }

    /// Structural copy of the sequence.
    pub fn duplicate(&self) -> (r: Self)
        ensures
            r@ == self@,
    {
        let mut v: Vec<KeyToken> = Vec::new();
        let mut i: usize = 0;
        while i < self.0.len()
            invariant
                0 <= i <= self.0.len(),
                v@ == self.0@.subrange(0, i as int),
            decreases self.0.len() - i,
        {
            v.push(self.0[i]);
            i = i + 1;
        }
        proof {
            assert(self.0@.subrange(0, self.0@.len() as int) == self.0@);
        }
        KeySequence(v)
    }

    /// Whether `self` is a strict prefix of `other` (equal sequences are not
    /// prefixes of each other here).
    pub fn is_prefix_of(&self, other: &KeySequence) -> (r: bool)
        ensures
            r == spec_strict_prefix(self@, other@),
    {
        if self.0.len() >= other.0.len() {
            return false;
        }
        let mut i: usize = 0;
        while i < self.0.len()
            invariant
                0 <= i <= self.0@.len(),
                self.0@.len() < other.0@.len(),
                forall|j: int| 0 <= j < i ==> self.0@[j] == other.0@[j],
            decreases self.0.len() - i,
        {
            if self.0[i] != other.0[i] {
                proof {
                    assert(self.0@[i as int] != other.0@.subrange(0, self.0@.len() as int)[
                        i as int
                    ]);
                }
                return false;
            }
            i = i + 1;
        }
        proof {
            assert(self.0@ =~= other.0@.subrange(0, self.0@.len() as int));
        }
        true
    }

    /// Structural equality of two sequences.
    pub fn same_as(&self, other: &KeySequence) -> (r: bool)
        ensures
            r == (self@ == other@),
    {
        if self.0.len() != other.0.len() {
            return false;
        }
        let mut i: usize = 0;
        while i < self.0.len()
            invariant
                0 <= i <= self.0@.len(),
                self.0@.len() == other.0@.len(),
                forall|j: int| 0 <= j < i ==> self.0@[j] == other.0@[j],
            decreases self.0.len() - i,
        {
            if self.0[i] != other.0[i] {
                return false;
            }
            i = i + 1;
        }
        proof {
            assert(self.0@ =~= other.0@);
        }
        true
    }
}

/// Equality of two token vectors.
fn vec_tokens_equal(a: &Vec<KeyToken>, b: &Vec<KeyToken>) -> (r: bool)
    ensures
        r == (a@ == b@),
{
    if a.len() != b.len() {
        return false;
    }
    let mut i: usize = 0;
    while i < a.len()
        invariant
            0 <= i <= a@.len(),
            a@.len() == b@.len(),
            forall|j: int| 0 <= j < i ==> a@[j] == b@[j],
        decreases a.len() - i,
    {
        if a[i] != b[i] {
            return false;
        }
        i = i + 1;
    }
    proof {
        assert(a@ =~= b@);
    }
    true
}

/// Whether `a@` is a strict prefix of `b@`.
fn vec_tokens_strict_prefix(a: &Vec<KeyToken>, b: &Vec<KeyToken>) -> (r: bool)
    ensures
        r == spec_strict_prefix(a@, b@),
{
    if a.len() >= b.len() {
        return false;
    }
    let mut i: usize = 0;
    while i < a.len()
        invariant
            0 <= i <= a@.len(),
            a@.len() < b@.len(),
            forall|j: int| 0 <= j < i ==> a@[j] == b@[j],
        decreases a.len() - i,
    {
        if a[i] != b[i] {
            proof {
                assert(a@[i as int] != b@.subrange(0, a@.len() as int)[i as int]);
            }
            return false;
        }
        i = i + 1;
    }
    proof {
        assert(a@ =~= b@.subrange(0, a@.len() as int));
    }
    true
}

/// The abstract contents of a binding table: bound token sequence and the
/// wire name of the action it triggers, in insertion order.
pub open spec fn table_entries_view(entries: Seq<(KeySequence, String)>) -> Seq<
    (Seq<KeyToken>, Seq<char>),
> {
    entries.map_values(|e: (KeySequence, String)| (e.0@, e.1@))
}

/// Every bound sequence is non-empty.
pub open spec fn entries_nonempty(t: Seq<(Seq<KeyToken>, Seq<char>)>) -> bool {
    forall|i: int| 0 <= i < t.len() ==> #[trigger] t[i].0.len() > 0
}

/// No two entries bind the same sequence.
pub open spec fn entries_unique(t: Seq<(Seq<KeyToken>, Seq<char>)>) -> bool {
    forall|i: int, j: int|
        0 <= i < t.len() && 0 <= j < t.len() && i != j ==> #[trigger] t[i].0 != #[trigger] t[j].0
}

/// No bound sequence is a strict prefix of another bound sequence.
pub open spec fn entries_antichain(t: Seq<(Seq<KeyToken>, Seq<char>)>) -> bool {
    forall|i: int, j: int|
        0 <= i < t.len() && 0 <= j < t.len() ==> !spec_strict_prefix(
            #[trigger] t[i].0,
            #[trigger] t[j].0,
        )
}

pub open spec fn table_wf(t: Seq<(Seq<KeyToken>, Seq<char>)>) -> bool {
    entries_nonempty(t) && entries_unique(t) && entries_antichain(t)
}

/// Some entry binds exactly the sequence `s`.
pub open spec fn has_binding(t: Seq<(Seq<KeyToken>, Seq<char>)>, s: Seq<KeyToken>) -> bool {
    exists|i: int| 0 <= i < t.len() && #[trigger] t[i].0 == s
}

pub open spec fn binding_index(t: Seq<(Seq<KeyToken>, Seq<char>)>, s: Seq<KeyToken>) -> int {
    choose|i: int| 0 <= i < t.len() && #[trigger] t[i].0 == s
}

/// The action name bound to exactly the sequence `s`.
pub open spec fn binding_action(t: Seq<(Seq<KeyToken>, Seq<char>)>, s: Seq<KeyToken>) -> Seq<
    char,
> {
    t[binding_index(t, s)].1
}

/// Some entry binds a strict extension of `s` (so more input could still
/// resolve).
pub open spec fn has_strict_extension(t: Seq<(Seq<KeyToken>, Seq<char>)>, s: Seq<KeyToken>) -> bool {
    exists|i: int| 0 <= i < t.len() && spec_strict_prefix(s, #[trigger] t[i].0)
}

/// Binding `s` would overlap an existing entry in the prefix order.
pub open spec fn conflicts(t: Seq<(Seq<KeyToken>, Seq<char>)>, s: Seq<KeyToken>) -> bool {
    exists|i: int|
        0 <= i < t.len() && (spec_strict_prefix(#[trigger] t[i].0, s) || spec_strict_prefix(
            s,
            t[i].0,
        ))
}

/// The position of the first entry that overlaps `s` in the prefix order
/// (the table's length if none does).
pub open spec fn first_conflict(t: Seq<(Seq<KeyToken>, Seq<char>)>, s: Seq<KeyToken>) -> int
    decreases t.len(),
{
    if t.len() == 0 {
        0
    } else if spec_strict_prefix(t[0].0, s) || spec_strict_prefix(s, t[0].0) {
        0
    } else {
        1 + first_conflict(t.skip(1), s)
    }
}

pub proof fn lemma_first_conflict(t: Seq<(Seq<KeyToken>, Seq<char>)>, s: Seq<KeyToken>)
    ensures
        0 <= first_conflict(t, s) <= t.len(),
        first_conflict(t, s) < t.len() ==> (spec_strict_prefix(t[first_conflict(t, s)].0, s)
            || spec_strict_prefix(s, t[first_conflict(t, s)].0)),
        forall|j: int|
            0 <= j < first_conflict(t, s) ==> !(spec_strict_prefix(#[trigger] t[j].0, s)
                || spec_strict_prefix(s, t[j].0)),
    decreases t.len(),
{
    if t.len() > 0 && !(spec_strict_prefix(t[0].0, s) || spec_strict_prefix(s, t[0].0)) {
        lemma_first_conflict(t.skip(1), s);
        let f = first_conflict(t, s);
        assert(f == 1 + first_conflict(t.skip(1), s));
        if f < t.len() {
            assert(t.skip(1)[f - 1] == t[f]);
        }
        assert forall|j: int|
            0 <= j < f implies !(spec_strict_prefix(#[trigger] t[j].0, s) || spec_strict_prefix(
            s,
            t[j].0,
        )) by {
            if j > 0 {
                assert(t.skip(1)[j - 1] == t[j]);
            }
        }
    }
}

/// Why a binding was rejected.
#[derive(Clone, Debug)]
pub enum BindError {
    /// The empty sequence can trigger nothing.
    EmptySequence,
    /// The new sequence is a strict prefix of, or strictly extends, the
    /// carried existing binding (sequence and action name).
    Conflict(KeySequence, String),
}

/// One mode's bindings: sequence/action-name pairs forming a prefix
/// antichain.
pub struct BindingTable {
    entries: Vec<(KeySequence, String)>,
}

impl View for BindingTable {
    type V = Seq<(Seq<KeyToken>, Seq<char>)>;

    closed spec fn view(&self) -> Seq<(Seq<KeyToken>, Seq<char>)> {
        table_entries_view(self.entries@)
    }
}

impl BindingTable {
    pub fn new() -> (t: Self)
        ensures
            t@ == Seq::<(Seq<KeyToken>, Seq<char>)>::empty(),
            table_wf(t@),
    {
        let t = BindingTable { entries: Vec::new() };
        proof {
            assert(t@ =~= Seq::<(Seq<KeyToken>, Seq<char>)>::empty());
        }
        t
    }

    pub fn len(&self) -> (n: usize)
        ensures
            n == self@.len(),
    {
        self.entries.len()
    }

    /// The bound sequence and action name at position `i`, as fresh values.
    pub fn entry_at(&self, i: usize) -> (r: (KeySequence, String))
        requires
            i < self@.len(),
        ensures
            r.0@ == self@[i as int].0,
            r.1@ == self@[i as int].1,
    {
        let e = &self.entries[i];
        (e.0.duplicate(), e.1.clone())
    }

    /// The action bound to exactly the candidate sequence, if any.
    pub fn find_exact(&self, cand: &Vec<KeyToken>) -> (r: Option<String>)
        requires
            table_wf(self@),
        ensures
            r is Some <==> has_binding(self@, cand@),
            r is Some ==> r.unwrap()@ == binding_action(self@, cand@),
    {
        let mut i: usize = 0;
        while i < self.entries.len()
            invariant
                0 <= i <= self@.len(),
                self@.len() == self.entries@.len(),
                table_wf(self@),
                self@ == table_entries_view(self.entries@),
                forall|j: int| 0 <= j < i ==> #[trigger] self@[j].0 != cand@,
            decreases self.entries.len() - i,
        {
            proof {
                assert(self@[i as int].0 == self.entries@[i as int].0@);
            }
            if vec_tokens_equal(&self.entries[i].0 .0, cand) {
                proof {
                    assert(self@[i as int].0 == cand@);
                    assert(has_binding(self@, cand@));
                    let k = binding_index(self@, cand@);
                    assert(0 <= k < self@.len() && self@[k].0 == cand@);
                    assert(k == i as int);
                }
                return Some(self.entries[i].1.clone());
            }
            i = i + 1;
        }
        None
    }

    /// Whether some binding strictly extends the candidate sequence.
    pub fn has_extension(&self, cand: &Vec<KeyToken>) -> (r: bool)
        ensures
            r == has_strict_extension(self@, cand@),
    {
        let mut i: usize = 0;
        while i < self.entries.len()
            invariant
                0 <= i <= self@.len(),
                self@.len() == self.entries@.len(),
                self@ == table_entries_view(self.entries@),
                forall|j: int| 0 <= j < i ==> !spec_strict_prefix(cand@, #[trigger] self@[j].0),
            decreases self.entries.len() - i,
        {
            proof {
                assert(self@[i as int].0 == self.entries@[i as int].0@);
            }
            if vec_tokens_strict_prefix(cand, &self.entries[i].0 .0) {
                return true;
            }
            i = i + 1;
        }
        false
    }

    /// Binds `seq` to `action`. Rebinding the exact same sequence replaces
    /// its action; a sequence that is empty, or that overlaps an existing
    /// entry in the prefix order, is rejected with the table untouched.
    pub fn insert(&mut self, seq: KeySequence, action: String) -> (r: Result<(), BindError>)
        requires
            table_wf(old(self)@),
        ensures
            table_wf(final(self)@),
            r is Err <==> (seq@.len() == 0 || conflicts(old(self)@, seq@)),
            r is Err ==> final(self)@ == old(self)@,
            r is Ok && has_binding(old(self)@, seq@) ==> final(self)@ == old(self)@.update(
                binding_index(old(self)@, seq@),
                (seq@, action@),
            ),
            r is Ok && !has_binding(old(self)@, seq@) ==> final(self)@ == old(self)@.push(
                (seq@, action@),
            ),
            (r matches Err(BindError::EmptySequence) ==> seq@.len() == 0),
            // a conflict carries the first overlapping entry, in table order
            (r matches Err(BindError::Conflict(e, a)) ==> ({
                let fc = first_conflict(old(self)@, seq@);
                &&& seq@.len() > 0
                &&& fc < old(self)@.len()
                &&& (e@, a@) == old(self)@[fc]
                &&& (spec_strict_prefix(e@, seq@) || spec_strict_prefix(seq@, e@))
            })),
    {
        if seq.0.len() == 0 {
            return Err(BindError::EmptySequence);
        }
        let ghost pre = self@;
        let ghost pre_entries = self.entries@;
        // reject any prefix overlap with an existing entry
        let mut i: usize = 0;
        while i < self.entries.len()
            invariant
                0 <= i <= pre.len(),
                pre == old(self)@,
                self@ == pre,
                self.entries@ == pre_entries,
                pre.len() == pre_entries.len(),
                pre == table_entries_view(pre_entries),
                table_wf(pre),
                seq@.len() > 0,
                forall|j: int|
                    0 <= j < i ==> !spec_strict_prefix(#[trigger] pre[j].0, seq@)
                        && !spec_strict_prefix(seq@, pre[j].0),
            decreases self.entries.len() - i,
        {
            proof {
                assert(pre[i as int].0 == pre_entries[i as int].0@);
                assert(pre[i as int].1 == pre_entries[i as int].1@);
            }
            let existing = &self.entries[i].0;
            if existing.is_prefix_of(&seq) || seq.is_prefix_of(existing) {
                proof {
                    lemma_first_conflict(pre, seq@);
                    let fc = first_conflict(pre, seq@);
                    if fc < i {
                        assert(!(spec_strict_prefix(pre[fc].0, seq@) || spec_strict_prefix(
                            seq@,
                            pre[fc].0,
                        )));
                        assert(false);
                    }
                    if fc > i as int {
                        assert(!(spec_strict_prefix(pre[i as int].0, seq@) || spec_strict_prefix(
                            seq@,
                            pre[i as int].0,
                        )));
                        assert(false);
                    }
                    assert(fc == i as int);
                }
                return Err(BindError::Conflict(existing.duplicate(), self.entries[i].1.clone()));
            }
            i = i + 1;
        }
        proof {
            assert(!conflicts(pre, seq@));
        }
        // replace the action if the very same sequence is already bound
        let mut k: usize = 0;
        while k < self.entries.len()
            invariant
                0 <= k <= pre.len(),
                pre == old(self)@,
                self@ == pre,
                self.entries@ == pre_entries,
                pre.len() == pre_entries.len(),
                pre == table_entries_view(pre_entries),
                table_wf(pre),
                seq@.len() > 0,
                !conflicts(pre, seq@),
                forall|j: int| 0 <= j < k ==> #[trigger] pre[j].0 != seq@,
            decreases self.entries.len() - k,
        {
            proof {
                assert(pre[k as int].0 == pre_entries[k as int].0@);
            }
            if vec_tokens_equal(&self.entries[k].0 .0, &seq.0) {
                proof {
                    assert(pre[k as int].0 == seq@);
                    assert(has_binding(pre, seq@));
                    let w = binding_index(pre, seq@);
                    assert(0 <= w < pre.len() && pre[w].0 == seq@);
                    assert(w == k as int);
                }
                let ghost aview = action@;
                let ghost seqview = seq@;
                self.entries.remove(k);
                self.entries.insert(k, (seq, action));
                proof {
                    let target = pre.update(k as int, (seqview, aview));
                    assert(self.entries@ =~= pre_entries.update(
                        k as int,
                        self.entries@[k as int],
                    ));
                    assert(self.entries@[k as int].0@ == seqview);
                    assert(self.entries@[k as int].1@ == aview);
                    assert forall|m: int| 0 <= m < self@.len() implies self@[m] == target[m] by {
                        assert(self@[m] == (self.entries@[m].0@, self.entries@[m].1@));
                        if m != k as int {
                            assert(self.entries@[m] == pre_entries[m]);
                            assert(pre[m] == (pre_entries[m].0@, pre_entries[m].1@));
                        }
                    }
                    assert(self@ =~= target);
                    assert(pre[k as int].0 == seqview);
                    lemma_update_same_seq_wf(pre, k as int, aview);
                }
                return Ok(());
            }
            k = k + 1;
        }
        proof {
            assert(!has_binding(pre, seq@));
        }
        let ghost aview = action@;
        let ghost seqview = seq@;
        self.entries.push((seq, action));
        proof {
            let target = pre.push((seqview, aview));
            assert(self.entries@ =~= pre_entries.push(self.entries@.last()));
            assert(self.entries@.last().0@ == seqview);
            assert(self.entries@.last().1@ == aview);
            assert forall|m: int| 0 <= m < self@.len() implies self@[m] == target[m] by {
                assert(self@[m] == (self.entries@[m].0@, self.entries@[m].1@));
                if m < pre.len() {
                    assert(self.entries@[m] == pre_entries[m]);
                    assert(pre[m] == (pre_entries[m].0@, pre_entries[m].1@));
                }
            }
            assert(self@ =~= target);
            lemma_push_no_conflict_wf(pre, (seqview, aview));
        }
        Ok(())
    }
}

/// Replacing the action of an existing entry (same sequence) preserves
/// well-formedness.
proof fn lemma_update_same_seq_wf(t: Seq<(Seq<KeyToken>, Seq<char>)>, k: int, a: Seq<char>)
    requires
        table_wf(t),
        0 <= k < t.len(),
    ensures
        table_wf(t.update(k, (t[k].0, a))),
{
    let u = t.update(k, (t[k].0, a));
    assert forall|i: int| 0 <= i < u.len() implies #[trigger] u[i].0.len() > 0 by {
        assert(u[i].0 == t[i].0);
    }
    assert forall|i: int, j: int|
        0 <= i < u.len() && 0 <= j < u.len() && i != j implies #[trigger] u[i].0
        != #[trigger] u[j].0 by {
        assert(u[i].0 == t[i].0 && u[j].0 == t[j].0);
    }
    assert forall|i: int, j: int|
        0 <= i < u.len() && 0 <= j < u.len() implies !spec_strict_prefix(
        #[trigger] u[i].0,
        #[trigger] u[j].0,
    ) by {
        assert(u[i].0 == t[i].0 && u[j].0 == t[j].0);
    }
}

/// Appending an entry that is non-empty, not already bound, and prefix-free
/// against the table preserves well-formedness.
proof fn lemma_push_no_conflict_wf(t: Seq<(Seq<KeyToken>, Seq<char>)>, e: (Seq<KeyToken>, Seq<char>))
    requires
        table_wf(t),
        e.0.len() > 0,
        !has_binding(t, e.0),
        !conflicts(t, e.0),
    ensures
        table_wf(t.push(e)),
{
    let u = t.push(e);
    assert forall|i: int| 0 <= i < u.len() implies #[trigger] u[i].0.len() > 0 by {
        if i < t.len() {
            assert(u[i].0 == t[i].0);
        } else {
            assert(u[i] == e);
        }
    }
    assert forall|i: int, j: int|
        0 <= i < u.len() && 0 <= j < u.len() && i != j implies #[trigger] u[i].0
        != #[trigger] u[j].0 by {
        if i < t.len() && j < t.len() {
            assert(u[i].0 == t[i].0 && u[j].0 == t[j].0);
        } else if i < t.len() {
            assert(u[j] == e);
            assert(u[i].0 == t[i].0);
            if t[i].0 == e.0 {
                assert(has_binding(t, e.0));
            }
        } else if j < t.len() {
            assert(u[i] == e);
            assert(u[j].0 == t[j].0);
            if t[j].0 == e.0 {
                assert(has_binding(t, e.0));
            }
        }
    }
    assert forall|i: int, j: int|
        0 <= i < u.len() && 0 <= j < u.len() implies !spec_strict_prefix(
        #[trigger] u[i].0,
        #[trigger] u[j].0,
    ) by {
        if i < t.len() && j < t.len() {
            assert(u[i].0 == t[i].0 && u[j].0 == t[j].0);
        } else if i < t.len() && j == t.len() {
            assert(u[j] == e && u[i].0 == t[i].0);
            if spec_strict_prefix(t[i].0, e.0) {
                assert(conflicts(t, e.0));
            }
        } else if i == t.len() && j < t.len() {
            assert(u[i] == e && u[j].0 == t[j].0);
            if spec_strict_prefix(e.0, t[j].0) {
                assert(conflicts(t, e.0));
            }
        } else {
            assert(u[i] == e && u[j] == e);
            assert(!spec_strict_prefix(e.0, e.0));
        }
    }
}

/// Antichain law: in a well-formed table, of any two bound sequences neither
/// is a strict prefix of the other.
pub proof fn lemma_antichain(t: Seq<(Seq<KeyToken>, Seq<char>)>, i: int, j: int)
    requires
        table_wf(t),
        0 <= i < t.len(),
        0 <= j < t.len(),
    ensures
        !spec_strict_prefix(t[i].0, t[j].0),
        !spec_strict_prefix(t[j].0, t[i].0),
{
}

/// A strict prefix starts with the same token as what it prefixes.
pub proof fn lemma_prefix_first_token(a: Seq<KeyToken>, b: Seq<KeyToken>)
    requires
        a.len() > 0,
    ensures
        spec_strict_prefix(a, b) ==> a[0] == b[0],
{
    if spec_strict_prefix(a, b) {
        assert(a[0] == b.subrange(0, a.len() as int)[0]);
    }
}

impl BindingTable {
    /// Structural copy of the table.
    pub fn duplicate(&self) -> (r: Self)
        ensures
            r@ == self@,
    {
        let mut v: Vec<(KeySequence, String)> = Vec::new();
        let mut i: usize = 0;
        while i < self.entries.len()
            invariant
                0 <= i <= self.entries@.len(),
                self@ == table_entries_view(self.entries@),
                self@.len() == self.entries@.len(),
                table_entries_view(v@) =~= self@.subrange(0, i as int),
                v@.len() == i,
            decreases self.entries.len() - i,
        {
            let e = &self.entries[i];
            v.push((e.0.duplicate(), e.1.clone()));
            proof {
                assert(table_entries_view(v@) =~= self@.subrange(0, i + 1 as int));
            }
            i = i + 1;
        }
        let r = BindingTable { entries: v };
        proof {
            assert(self@.subrange(0, self@.len() as int) == self@);
            assert(r@ =~= self@);
        }
        r
    }
}

/// How one keystroke is written in sequence strings and the help overlay.
pub open spec fn spec_render_code(c: KeyCode) -> Seq<char> {
    match c {
        KeyCode::Char(ch) => seq![ch],
        KeyCode::Escape => "Escape"@,
        KeyCode::Enter => "Enter"@,
        KeyCode::Backspace => "Backspace"@,
    }
}

pub open spec fn spec_render_token(t: KeyToken) -> Seq<char> {
    (if t.ctrl {
        "C-"@
    } else {
        Seq::empty()
    }) + (if t.shift {
        "S-"@
    } else {
        Seq::empty()
    }) + (if t.meta {
        "M-"@
    } else {
        Seq::empty()
    }) + spec_render_code(t.code)
}

pub open spec fn spec_render_seq(s: Seq<KeyToken>) -> Seq<char>
    decreases s.len(),
{
    if s.len() == 0 {
        Seq::empty()
    } else {
        spec_render_token(s[0]) + spec_render_seq(s.skip(1))
    }
}

pub proof fn lemma_render_seq_push(p: Seq<KeyToken>, t: KeyToken)
    ensures
        spec_render_seq(p.push(t)) == spec_render_seq(p) + spec_render_token(t),
    decreases p.len(),
{
    let q = p.push(t);
    if p.len() == 0 {
        assert(q[0] == t);
        assert(q.skip(1) =~= Seq::<KeyToken>::empty());
        assert(spec_render_seq(q) == spec_render_token(q[0]) + spec_render_seq(q.skip(1)));
        assert(spec_render_seq(q.skip(1)) == Seq::<char>::empty());
        assert(spec_render_token(t) + Seq::<char>::empty() =~= spec_render_token(t));
        assert(spec_render_seq(p) == Seq::<char>::empty());
        assert(spec_render_seq(p) + spec_render_token(t) =~= spec_render_token(t));
    } else {
        assert(q.skip(1) =~= p.skip(1).push(t));
        lemma_render_seq_push(p.skip(1), t);
        assert(q[0] == p[0]);
        assert(spec_render_seq(q) == spec_render_token(p[0]) + (spec_render_seq(p.skip(1))
            + spec_render_token(t)));
        assert(spec_render_token(p[0]) + (spec_render_seq(p.skip(1)) + spec_render_token(t)) =~= (
        spec_render_token(p[0]) + spec_render_seq(p.skip(1))) + spec_render_token(t));
    }
}

/// Writes one keystroke as text: modifier prefixes, then the key label.
pub fn render_token(t: &KeyToken) -> (r: String)
    ensures
        r@ == spec_render_token(*t),
{
    let mut r = String::new();
    if t.ctrl {
        r.append("C-");
    }
    if t.shift {
        r.append("S-");
    }
    if t.meta {
        r.append("M-");
    }
    match t.code {
        KeyCode::Char(ch) => {
            push_char(&mut r, ch);
            proof {
                assert(r@ =~= spec_render_token(*t));
            }
        },
        KeyCode::Escape => {
            r.append("Escape");
            proof {
                assert(r@ =~= spec_render_token(*t));
            }
        },
        KeyCode::Enter => {
            r.append("Enter");
            proof {
                assert(r@ =~= spec_render_token(*t));
            }
        },
        KeyCode::Backspace => {
            r.append("Backspace");
            proof {
                assert(r@ =~= spec_render_token(*t));
            }
        },
    }
    r
}

/// Builds the one-keystroke sequence.
pub fn seq1(t0: KeyToken) -> (r: KeySequence)
    ensures
        r@ =~= seq![t0],
{
    let mut v: Vec<KeyToken> = Vec::new();
    v.push(t0);
    KeySequence(v)
}

/// Builds the two-keystroke sequence.
pub fn seq2(t0: KeyToken, t1: KeyToken) -> (r: KeySequence)
    ensures
        r@ =~= seq![t0, t1],
{
    let mut v: Vec<KeyToken> = Vec::new();
    v.push(t0);
    v.push(t1);
    KeySequence(v)
}

/// Writes a whole sequence as text, keystroke after keystroke.
pub fn render_sequence(s: &KeySequence) -> (r: String)
    ensures
        r@ == spec_render_seq(s@),
{
    let mut r = String::new();
    let mut i: usize = 0;
    while i < s.0.len()
        invariant
            0 <= i <= s.0@.len(),
            r@ == spec_render_seq(s.0@.subrange(0, i as int)),
        decreases s.0.len() - i,
    {
        let piece = render_token(&s.0[i]);
        r.append(piece.as_str());
        proof {
            assert(s.0@.subrange(0, i + 1 as int) =~= s.0@.subrange(0, i as int).push(
                s.0@[i as int],
            ));
            lemma_render_seq_push(s.0@.subrange(0, i as int), s.0@[i as int]);
        }
        i = i + 1;
    }
    proof {
        assert(s.0@.subrange(0, s.0@.len() as int) == s.0@);
    }
    r
}

/// A ctrl-modified character keystroke.
pub open spec fn ctrl_token(c: char) -> KeyToken {
    KeyToken { code: KeyCode::Char(c), ctrl: true, shift: false, meta: false }
}

/// The built-in Normal-mode bindings, in their fixed order.
pub open spec fn default_normal_bindings() -> Seq<(Seq<KeyToken>, Seq<char>)> {
    seq![
        (seq![plain_token('j')], "scroll-down"@),
        (seq![plain_token('k')], "scroll-up"@),
        (seq![plain_token('g'), plain_token('t')], "scroll-top"@),
        (seq![plain_token('g'), plain_token('b')], "scroll-bottom"@),
        (seq![ctrl_token('d')], "scroll-half-down"@),
        (seq![ctrl_token('u')], "scroll-half-up"@),
        (seq![plain_token('h')], "go-back"@),
        (seq![plain_token('l')], "go-forward"@),
        (seq![plain_token('i')], "insert-mode"@),
        (seq![plain_token(':')], "cmd-mode"@),
        (seq![plain_token('?')], "show-help"@),
        (seq![plain_token('g'), plain_token('o')], "show-url"@),
        (seq![plain_token('R')], "hard-refresh-url"@),
        (seq![plain_token('r')], "soft-refresh-url"@),
        (seq![plain_token('u'), plain_token('y')], "copy-url"@),
        (seq![plain_token('u'), plain_token('p')], "paste-url"@),
        (seq![plain_token('n')], "search-next"@),
        (seq![plain_token('N')], "search-prev"@),
        (seq![plain_token('/')], "search-mode"@),
    ]
}

/// The built-in table is well formed: sequences non-empty, pairwise
/// distinct, and free of strict prefix pairs.
#[verifier::rlimit(60)]
pub proof fn lemma_default_table_wf()
    ensures
        table_wf(default_normal_bindings()),
{
    let dn = default_normal_bindings();
    assert forall|i: int| 0 <= i < dn.len() implies #[trigger] dn[i].0.len() > 0 by {}
    assert forall|i: int, j: int|
        0 <= i < dn.len() && 0 <= j < dn.len() && i != j implies #[trigger] dn[i].0
        != #[trigger] dn[j].0 by {
        if dn[i].0.len() == dn[j].0.len() {
            if dn[i].0[0] == dn[j].0[0] {
                assert(dn[i].0.len() == 2);
                assert(dn[i].0[1] != dn[j].0[1]);
            } else {
                assert(dn[i].0 != dn[j].0);
            }
        }
    }
    assert forall|i: int, j: int|
        0 <= i < dn.len() && 0 <= j < dn.len() implies !spec_strict_prefix(
        #[trigger] dn[i].0,
        #[trigger] dn[j].0,
    ) by {
        if spec_strict_prefix(dn[i].0, dn[j].0) {
            lemma_prefix_first_token(dn[i].0, dn[j].0);
            assert(dn[i].0.len() < dn[j].0.len());
            assert(dn[i].0.len() == 1 && dn[j].0.len() == 2);
            assert(dn[i].0[0] == dn[j].0[0]);
            assert(false);
        }
    }
}

/// A user keybinding overlay: mode name, then sequence-string / action-name
/// pairs, applied in order on top of the defaults.
#[derive(Debug)]
pub struct KeybindingConfig {
    pub bindings: Vec<(String, Vec<(String, String)>)>,
}

/// The abstract contents of one mode's table.
pub type TableView = Seq<(Seq<KeyToken>, Seq<char>)>;

/// The abstract contents of all four mode tables: Normal, Insert, Search,
/// Cmd.
pub type Tables = (TableView, TableView, TableView, TableView);

pub open spec fn table_of(ts: Tables, m: KeyMode) -> TableView {
    match m {
        KeyMode::Normal => ts.0,
        KeyMode::Insert => ts.1,
        KeyMode::Search => ts.2,
        KeyMode::Cmd => ts.3,
    }
}

pub open spec fn set_table(ts: Tables, m: KeyMode, t: TableView) -> Tables {
    match m {
        KeyMode::Normal => (t, ts.1, ts.2, ts.3),
        KeyMode::Insert => (ts.0, t, ts.2, ts.3),
        KeyMode::Search => (ts.0, ts.1, t, ts.3),
        KeyMode::Cmd => (ts.0, ts.1, ts.2, t),
    }
}

/// One overlay binding applied to a table: rejected (`None`) when the action
/// name is unknown, the sequence is empty, or it overlaps an existing entry
/// in the prefix order; rebinding the exact same sequence replaces its
/// action; otherwise the pair is appended.
pub open spec fn spec_apply_binding(t: TableView, s: Seq<KeyToken>, a: Seq<char>) -> Option<
    TableView,
> {
    if !crate::action::is_action_name(a) || s.len() == 0 || conflicts(t, s) {
        None
    } else if has_binding(t, s) {
        Some(t.update(binding_index(t, s), (s, a)))
    } else {
        Some(t.push((s, a)))
    }
}

/// A list of overlay bindings applied in order; the first rejected binding
/// rejects the whole list.
pub open spec fn spec_apply_mode_list(t: TableView, l: Seq<(String, String)>) -> Option<TableView>
    decreases l.len(),
{
    if l.len() == 0 {
        Some(t)
    } else {
        match spec_apply_binding(t, spec_parse_keys(l[0].0@), l[0].1@) {
            None => None,
            Some(t2) => spec_apply_mode_list(t2, l.skip(1)),
        }
    }
}

/// A whole configuration applied to the four tables, mode section by mode
/// section; an unknown mode name or a rejected binding rejects the whole
/// configuration.
pub open spec fn spec_apply_config(ts: Tables, cfg: Seq<(String, Vec<(String, String)>)>) -> Option<
    Tables,
>
    decreases cfg.len(),
{
    if cfg.len() == 0 {
        Some(ts)
    } else {
        match spec_mode_from_str(cfg[0].0@) {
            None => None,
            Some(m) => match spec_apply_mode_list(table_of(ts, m), cfg[0].1@) {
                None => None,
                Some(t2) => spec_apply_config(set_table(ts, m, t2), cfg.skip(1)),
            },
        }
    }
}

/// The error text for a configuration section naming no known mode.
pub open spec fn unknown_mode_msg(name: Seq<char>) -> Seq<char> {
    "Unknown mode: "@ + name
}

/// The error text for a binding naming no known action.
pub open spec fn unknown_action_msg(name: Seq<char>) -> Seq<char> {
    "Unknown action: "@ + name
}

/// The error text for a binding whose sequence string denotes no keystroke.
pub open spec fn empty_binding_msg(seq_str: Seq<char>, action: Seq<char>) -> Seq<char> {
    "Invalid binding: sequence '"@ + seq_str + "' for command '"@ + action + "' is empty"@
}

/// The error text for a binding overlapping an existing one: it names the
/// new sequence, its command, and the first existing sequence it overlaps.
pub open spec fn conflict_binding_msg(
    seq_str: Seq<char>,
    action: Seq<char>,
    existing: Seq<char>,
) -> Seq<char> {
    "Invalid binding: sequence '"@ + seq_str + "' for command '"@ + action
        + "' conflicts with '"@ + existing + "'"@
}

/// The error text produced by the first rejected binding of one mode
/// section, if any binding is rejected.
pub open spec fn spec_list_error(t: TableView, l: Seq<(String, String)>) -> Option<Seq<char>>
    decreases l.len(),
{
    if l.len() == 0 {
        None
    } else {
        let s = spec_parse_keys(l[0].0@);
        let a = l[0].1@;
        if !crate::action::is_action_name(a) {
            Some(unknown_action_msg(a))
        } else if s.len() == 0 {
            Some(empty_binding_msg(l[0].0@, a))
        } else if conflicts(t, s) {
            Some(conflict_binding_msg(l[0].0@, a, spec_render_seq(t[first_conflict(t, s)].0)))
        } else {
            let t2 = if has_binding(t, s) {
                t.update(binding_index(t, s), (s, a))
            } else {
                t.push((s, a))
            };
            spec_list_error(t2, l.skip(1))
        }
    }
}

/// The error text produced by the first rejected part of a whole
/// configuration, if it is rejected.
pub open spec fn spec_config_error(ts: Tables, cfg: Seq<(String, Vec<(String, String)>)>) -> Option<
    Seq<char>,
>
    decreases cfg.len(),
{
    if cfg.len() == 0 {
        None
    } else {
        match spec_mode_from_str(cfg[0].0@) {
            None => Some(unknown_mode_msg(cfg[0].0@)),
            Some(m) => match spec_list_error(table_of(ts, m), cfg[0].1@) {
                Some(msg) => Some(msg),
                None => match spec_apply_mode_list(table_of(ts, m), cfg[0].1@) {
                    Some(t2) => spec_config_error(set_table(ts, m, t2), cfg.skip(1)),
                    None => None,
                },
            },
        }
    }
}

/// The four tables as built by `with_defaults`: the literal Normal-mode
/// table, nothing bound elsewhere.
pub open spec fn default_tables() -> Tables {
    (
        default_normal_bindings(),
        Seq::<(Seq<KeyToken>, Seq<char>)>::empty(),
        Seq::<(Seq<KeyToken>, Seq<char>)>::empty(),
        Seq::<(Seq<KeyToken>, Seq<char>)>::empty(),
    )
}

/// The per-mode binding tables, defaults first, optionally overlaid by user
/// configuration.
pub struct KeybindingManager {
    normal: BindingTable,
    insert: BindingTable,
    search: BindingTable,
    cmd: BindingTable,
}

impl KeybindingManager {
    /// The contents of the four tables, in mode order.
    pub closed spec fn all_tables(&self) -> Tables {
        (self.normal@, self.insert@, self.search@, self.cmd@)
    }

    /// The bindings of one mode.
    pub open spec fn table_view(&self, m: KeyMode) -> TableView {
        table_of(self.all_tables(), m)
    }

    /// Every mode's table is well formed.
    pub open spec fn wf(&self) -> bool {
        forall|m: KeyMode| table_wf(#[trigger] self.table_view(m))
    }

    pub fn table(&self, m: KeyMode) -> (r: &BindingTable)
        ensures
            r@ == self.table_view(m),
    {
        match m {
            KeyMode::Normal => &self.normal,
            KeyMode::Insert => &self.insert,
            KeyMode::Search => &self.search,
            KeyMode::Cmd => &self.cmd,
        }
    }

    /// The built-in bindings: the literal Normal-mode table, nothing bound in
    /// the other modes.
    pub fn with_defaults() -> (m: KeybindingManager)
        ensures
            m.wf(),
            m.table_view(KeyMode::Normal) == default_normal_bindings(),
            m.table_view(KeyMode::Insert) == Seq::<(Seq<KeyToken>, Seq<char>)>::empty(),
            m.table_view(KeyMode::Search) == Seq::<(Seq<KeyToken>, Seq<char>)>::empty(),
            m.table_view(KeyMode::Cmd) == Seq::<(Seq<KeyToken>, Seq<char>)>::empty(),
    {
        let ghost dn = default_normal_bindings();
        let mut v: Vec<(KeySequence, String)> = Vec::new();
        v.push((seq1(KeyToken::plain('j')), "scroll-down".to_owned()));
        proof {
            assert(table_entries_view(v@) =~= dn.subrange(0, 1));
        }
        v.push((seq1(KeyToken::plain('k')), "scroll-up".to_owned()));
        proof {
            assert(table_entries_view(v@) =~= dn.subrange(0, 2));
        }
        v.push((seq2(KeyToken::plain('g'), KeyToken::plain('t')), "scroll-top".to_owned()));
        proof {
            assert(table_entries_view(v@) =~= dn.subrange(0, 3));
        }
        v.push((seq2(KeyToken::plain('g'), KeyToken::plain('b')), "scroll-bottom".to_owned()));
        proof {
            assert(table_entries_view(v@) =~= dn.subrange(0, 4));
        }
        v.push((seq1(KeyToken::with_ctrl('d')), "scroll-half-down".to_owned()));
        proof {
            assert(table_entries_view(v@) =~= dn.subrange(0, 5));
        }
        v.push((seq1(KeyToken::with_ctrl('u')), "scroll-half-up".to_owned()));
        proof {
            assert(table_entries_view(v@) =~= dn.subrange(0, 6));
        }
        v.push((seq1(KeyToken::plain('h')), "go-back".to_owned()));
        proof {
            assert(table_entries_view(v@) =~= dn.subrange(0, 7));
        }
        v.push((seq1(KeyToken::plain('l')), "go-forward".to_owned()));
        proof {
            assert(table_entries_view(v@) =~= dn.subrange(0, 8));
        }
        v.push((seq1(KeyToken::plain('i')), "insert-mode".to_owned()));
        proof {
            assert(table_entries_view(v@) =~= dn.subrange(0, 9));
        }
        v.push((seq1(KeyToken::plain(':')), "cmd-mode".to_owned()));
        proof {
            assert(table_entries_view(v@) =~= dn.subrange(0, 10));
        }
        v.push((seq1(KeyToken::plain('?')), "show-help".to_owned()));
        proof {
            assert(table_entries_view(v@) =~= dn.subrange(0, 11));
        }
        v.push((seq2(KeyToken::plain('g'), KeyToken::plain('o')), "show-url".to_owned()));
        proof {
            assert(table_entries_view(v@) =~= dn.subrange(0, 12));
        }
        v.push((seq1(KeyToken::plain('R')), "hard-refresh-url".to_owned()));
        proof {
            assert(table_entries_view(v@) =~= dn.subrange(0, 13));
        }
        v.push((seq1(KeyToken::plain('r')), "soft-refresh-url".to_owned()));
        proof {
            assert(table_entries_view(v@) =~= dn.subrange(0, 14));
        }
        v.push((seq2(KeyToken::plain('u'), KeyToken::plain('y')), "copy-url".to_owned()));
        proof {
            assert(table_entries_view(v@) =~= dn.subrange(0, 15));
        }
        v.push((seq2(KeyToken::plain('u'), KeyToken::plain('p')), "paste-url".to_owned()));
        proof {
            assert(table_entries_view(v@) =~= dn.subrange(0, 16));
        }
        v.push((seq1(KeyToken::plain('n')), "search-next".to_owned()));
        proof {
            assert(table_entries_view(v@) =~= dn.subrange(0, 17));
        }
        v.push((seq1(KeyToken::plain('N')), "search-prev".to_owned()));
        proof {
            assert(table_entries_view(v@) =~= dn.subrange(0, 18));
        }
        v.push((seq1(KeyToken::plain('/')), "search-mode".to_owned()));
        proof {
            assert(table_entries_view(v@) =~= dn.subrange(0, 19));
            assert(dn.subrange(0, 19) == dn);
        }
        let normal = BindingTable { entries: v };
        let m = KeybindingManager {
            normal,
            insert: BindingTable::new(),
            search: BindingTable::new(),
            cmd: BindingTable::new(),
        };
        proof {
            lemma_default_table_wf();
            assert(m.table_view(KeyMode::Normal) == dn);
            assert forall|mode: KeyMode| table_wf(#[trigger] m.table_view(mode)) by {
                match mode {
                    KeyMode::Normal => assert(table_wf(m.table_view(KeyMode::Normal))),
                    KeyMode::Insert => assert(table_wf(m.table_view(KeyMode::Insert))),
                    KeyMode::Search => assert(table_wf(m.table_view(KeyMode::Search))),
                    KeyMode::Cmd => assert(table_wf(m.table_view(KeyMode::Cmd))),
                }
            }
        }
        m
    }

    /// Applies a configuration overlay on top of the current tables,
    /// atomically: on any unknown mode name, unknown action name, empty
    /// sequence or prefix conflict, an error describing the failure is
    /// returned and no table changes.
    pub fn load_overlay(&mut self, cfg: &KeybindingConfig) -> (r: Result<(), String>)
        requires
            old(self).wf(),
        ensures
            final(self).wf(),
            r is Ok <==> spec_apply_config(old(self).all_tables(), cfg.bindings@) is Some,
            r is Ok ==> final(self).all_tables() == spec_apply_config(
                old(self).all_tables(),
                cfg.bindings@,
            ).unwrap(),
            r is Err ==> final(self).all_tables() == old(self).all_tables(),
            r matches Err(m) ==> spec_config_error(old(self).all_tables(), cfg.bindings@)
                == Some(m@),
    {
        let ghost orig = old(self).all_tables();
        let mut tn = self.normal.duplicate();
        let mut ti = self.insert.duplicate();
        let mut tse = self.search.duplicate();
        let mut tc = self.cmd.duplicate();
        proof {
            assert(table_wf(old(self).table_view(KeyMode::Normal)));
            assert(table_wf(old(self).table_view(KeyMode::Insert)));
            assert(table_wf(old(self).table_view(KeyMode::Search)));
            assert(table_wf(old(self).table_view(KeyMode::Cmd)));
            assert(cfg.bindings@.skip(0) == cfg.bindings@);
        }
        let mut oi: usize = 0;
        while oi < cfg.bindings.len()
            invariant
                0 <= oi <= cfg.bindings@.len(),
                *self == *old(self),
                old(self).wf(),
                orig == old(self).all_tables(),
                table_wf(tn@),
                table_wf(ti@),
                table_wf(tse@),
                table_wf(tc@),
                spec_apply_config(orig, cfg.bindings@) == spec_apply_config(
                    (tn@, ti@, tse@, tc@),
                    cfg.bindings@.skip(oi as int),
                ),
                spec_config_error(orig, cfg.bindings@) == spec_config_error(
                    (tn@, ti@, tse@, tc@),
                    cfg.bindings@.skip(oi as int),
                ),
            decreases cfg.bindings.len() - oi,
        {
            let ghost cur: Tables = (tn@, ti@, tse@, tc@);
            let ghost remaining = cfg.bindings@.skip(oi as int);
            proof {
                assert(remaining[0] == cfg.bindings@[oi as int]);
                assert(remaining.skip(1) =~= cfg.bindings@.skip(oi + 1 as int));
            }
            let section = &cfg.bindings[oi];
            let mode_opt = KeyMode::from_str(section.0.as_str());
            match mode_opt {
                None => {
                    let mut msg = "Unknown mode: ".to_owned();
                    msg.append(section.0.as_str());
                    proof {
                        assert(spec_apply_config(cur, remaining) is None);
                        assert(msg@ =~= unknown_mode_msg(section.0@));
                        assert(spec_config_error(cur, remaining) == Some(
                            unknown_mode_msg(section.0@),
                        ));
                    }
                    return Err(msg);
                },
                Some(mode) => {
                    let applied = match mode {
                        KeyMode::Normal => apply_list(&mut tn, &section.1),
                        KeyMode::Insert => apply_list(&mut ti, &section.1),
                        KeyMode::Search => apply_list(&mut tse, &section.1),
                        KeyMode::Cmd => apply_list(&mut tc, &section.1),
                    };
                    match applied {
                        Ok(()) => {
                            proof {
                                let t2 = spec_apply_mode_list(
                                    table_of(cur, mode),
                                    section.1@,
                                ).unwrap();
                                assert((tn@, ti@, tse@, tc@) =~= set_table(cur, mode, t2));
                                assert(spec_apply_config(cur, remaining) == spec_apply_config(
                                    set_table(cur, mode, t2),
                                    remaining.skip(1),
                                ));
                                assert(spec_list_error(table_of(cur, mode), section.1@)
                                    is None);
                                assert(spec_config_error(cur, remaining) == spec_config_error(
                                    set_table(cur, mode, t2),
                                    remaining.skip(1),
                                ));
                            }
                            oi = oi + 1;
                        },
                        Err(msg) => {
                            proof {
                                assert(spec_apply_mode_list(table_of(cur, mode), section.1@)
                                    is None);
                                assert(spec_apply_config(cur, remaining) is None);
                                assert(spec_list_error(table_of(cur, mode), section.1@)
                                    == Some(msg@));
                                assert(spec_config_error(cur, remaining) == Some(msg@));
                            }
                            return Err(msg);
                        },
                    }
                },
            }
        }
        proof {
            assert(cfg.bindings@.skip(cfg.bindings@.len() as int)
                =~= Seq::<(String, Vec<(String, String)>)>::empty());
            assert(spec_apply_config(orig, cfg.bindings@) == Some((tn@, ti@, tse@, tc@)));
        }
        self.normal = tn;
        self.insert = ti;
        self.search = tse;
        self.cmd = tc;
        proof {
            assert(self.all_tables() == (self.normal@, self.insert@, self.search@, self.cmd@));
            assert forall|mode: KeyMode| table_wf(#[trigger] self.table_view(mode)) by {
                match mode {
                    KeyMode::Normal => assert(table_wf(self.table_view(KeyMode::Normal))),
                    KeyMode::Insert => assert(table_wf(self.table_view(KeyMode::Insert))),
                    KeyMode::Search => assert(table_wf(self.table_view(KeyMode::Search))),
                    KeyMode::Cmd => assert(table_wf(self.table_view(KeyMode::Cmd))),
                }
            }
        }
        Ok(())
    }

    /// The defaults, optionally overlaid by a user configuration; fails, with
    /// nothing built, exactly when the overlay is rejected.
    pub fn new(config: Option<&KeybindingConfig>) -> (r: Result<KeybindingManager, String>)
        ensures
            config is None ==> r is Ok,
            config is Some ==> (r is Ok <==> spec_apply_config(
                default_tables(),
                config.unwrap().bindings@,
            ) is Some),
            r is Ok ==> r.unwrap().wf(),
            r is Ok && config is None ==> r.unwrap().all_tables() == default_tables(),
            r is Ok && config is Some ==> r.unwrap().all_tables() == spec_apply_config(
                default_tables(),
                config.unwrap().bindings@,
            ).unwrap(),
            r matches Err(m) ==> config is Some && spec_config_error(
                default_tables(),
                config.unwrap().bindings@,
            ) == Some(m@),
    {
        let mut m = KeybindingManager::with_defaults();
        proof {
            assert(m.all_tables() == default_tables());
        }
        match config {
            Some(cfg) => match m.load_overlay(cfg) {
                Ok(()) => Ok(m),
                Err(e) => Err(e),
            },
            None => Ok(m),
        }
    }

    /// The help table for one mode: each binding's action name paired with
    /// its sequence written as text, in table order.
    pub fn get_help_map(&self, mode: KeyMode) -> (r: Vec<(String, String)>)
        ensures
            r@.len() == self.table_view(mode).len(),
            forall|i: int|
                0 <= i < r@.len() ==> (#[trigger] r@[i]).0@ == self.table_view(mode)[i].1
                    && r@[i].1@ == spec_render_seq(self.table_view(mode)[i].0),
    {
        let t = self.table(mode);
        let mut out: Vec<(String, String)> = Vec::new();
        let mut i: usize = 0;
        while i < t.len()
            invariant
                0 <= i <= t@.len(),
                t@ == self.table_view(mode),
                out@.len() == i,
                forall|j: int|
                    0 <= j < i ==> (#[trigger] out@[j]).0@ == t@[j].1 && out@[j].1@
                        == spec_render_seq(t@[j].0),
            decreases t@.len() - i,
        {
            let e = t.entry_at(i);
            let rendered = render_sequence(&e.0);
            out.push((e.1, rendered));
            i = i + 1;
        }
        out
    }
}

/// Script injected ahead of the trie code: the page-side input state.
pub const JS_APP_STATE: &'static str = "window.appState = {\n  mode: \"Normal\",\n  commandBuffer: \"\",\n  searchBuffer: \"\",\n};\n";

/// Script defining how the page posts an action name back over IPC.
pub const JS_SEND_ACTION: &'static str = "\nconst sendAction = (cmd) => window.ipc.postMessage(cmd);\n";

/// Script defining the page-side prefix trie mirroring the binding tables.
pub const JS_TRIE: &'static str = "\nclass KeyNode {\n  constructor() {\n    this.command = null;\n    this.children = new Map();\n  }\n}\n\nclass KeyTrie {\n  constructor() {\n    this.root = new KeyNode();\n    this.currentNode = this.root;\n  }\n\n  insert(sequence, command) {\n    let node = this.root;\n    for (const key of sequence) {\n      if (!node.children.has(key)) node.children.set(key, new KeyNode());\n      node = node.children.get(key);\n    }\n    node.command = command;\n  }\n\n  processKey(key) {\n    const nextNode = this.currentNode.children.get(key);\n    if (!nextNode) {\n      this.currentNode = this.root;\n      return null;\n    }\n    this.currentNode = nextNode;\n    if (nextNode.command) {\n      const cmd = nextNode.command;\n      this.currentNode = this.root;\n      return cmd;\n    }\n    return undefined;\n  }\n\n  reset() {\n    this.currentNode = this.root;\n  }\n}\n";

/// Script wiring the tries into the page's keydown events: Escape returns to
/// Normal everywhere; Cmd and Search edit their buffers and commit on Enter;
/// other modes feed the trie.
pub const JS_KEY_HANDLER: &'static str = "\ndocument.addEventListener(\"keydown\", (e) => {\n  e.stopPropagation();\n\n  if (e.key === \"Escape\" && window.appState.mode !== \"Normal\") {\n    window.appState.mode = \"Normal\";\n    sendAction(\"normal-mode\");\n    window.updateStatus(window.appState.mode);\n    if (window.keyTries[window.appState.mode])\n      window.keyTries[window.appState.mode].reset();\n    e.preventDefault();\n    return;\n  }\n\n  let key = e.key;\n  if (e.ctrlKey) key = \"C-\" + key;\n\n  if (window.appState.mode === \"Cmd\") {\n    if (key === \"Enter\") {\n      sendAction(\"command:\" + window.appState.commandBuffer);\n      window.appState.commandBuffer = \"\";\n      window.appState.mode = \"Normal\";\n      sendAction(\"normal-mode\");\n      window.updateStatus(window.appState.mode);\n      e.preventDefault();\n    } else if (key === \"Backspace\") {\n      if (window.appState.commandBuffer && window.appState.commandBuffer.length > 0) {\n        window.appState.commandBuffer = window.appState.commandBuffer.slice(0, -1);\n        window.updateStatus(\":\" + window.appState.commandBuffer);\n      }\n      e.preventDefault();\n    } else if (key.length === 1 && !e.ctrlKey && !e.metaKey) {\n      window.appState.commandBuffer = window.appState.commandBuffer || \"\";\n      window.appState.commandBuffer += key;\n      window.updateStatus(\":\" + window.appState.commandBuffer);\n      e.preventDefault();\n    }\n    return;\n  } else if (window.appState.mode === \"Search\") {\n    if (key === \"Enter\") {\n      window.appState.mode = \"Normal\";\n      sendAction(\"search:\" + window.appState.searchBuffer);\n      sendAction(\"normal-mode\");\n      window.updateStatus(window.appState.mode);\n      e.preventDefault();\n    } else if (key === \"Backspace\") {\n      if (window.appState.searchBuffer && window.appState.searchBuffer.length > 0) {\n        window.appState.searchBuffer = window.appState.searchBuffer.slice(0, -1);\n        window.updateStatus(\"/\" + window.appState.searchBuffer);\n      }\n      e.preventDefault();\n    } else if (key.length === 1 && !e.ctrlKey && !e.metaKey) {\n      window.appState.searchBuffer = window.appState.searchBuffer || \"\";\n      window.appState.searchBuffer += key;\n      window.updateStatus(\"/\" + window.appState.searchBuffer);\n      e.preventDefault();\n    }\n    return;\n  } else {\n    const trie = window.keyTries[window.appState.mode];\n    if (!trie) return;\n\n    const cmd = trie.processKey(key);\n    if (cmd) {\n      sendAction(cmd);\n      e.preventDefault();\n\n      const modeCommands = [\"normal-mode\", \"insert-mode\", \"cmd-mode\", \"search-mode\"];\n\n      if (modeCommands.includes(cmd)) {\n        let displayMode = \"\";\n        switch (cmd) {\n          case \"normal-mode\":\n            displayMode = \"Normal\";\n            window.updateStatus(displayMode);\n            break;\n          case \"insert-mode\":\n            displayMode = \"Insert\";\n            window.updateStatus(displayMode);\n            break;\n          case \"cmd-mode\":\n            displayMode = \"Cmd\";\n            window.appState.commandBuffer = \"\";\n            window.updateStatus(\":\");\n            break;\n          case \"search-mode\":\n            displayMode = \"Search\";\n            window.appState.searchBuffer = \"\";\n            window.updateStatus(\"/\");\n            break;\n        }\n\n        window.appState.mode = displayMode;\n\n        const newTrie = window.keyTries[displayMode];\n        if (newTrie) newTrie.reset();\n      }\n    } else if (cmd === null) {\n      trie.reset();\n    }\n  }\n});\n";

/// Script for the help overlay: renders the action/sequence pairs handed to
/// `window.showHelp`.
pub const JS_HELP_OVERLAY: &'static str = "\nwindow.overlays = window.overlays || {};\n\nwindow.showHelp = function(bindings) {\n  if (window.overlays.help) window.overlays.help.remove();\n\n  const overlay = document.createElement(\"div\");\n  overlay.id = \"help-overlay\";\n  overlay.style.position = \"fixed\";\n  overlay.style.bottom = \"0\";\n  overlay.style.left = \"0\";\n  overlay.style.width = \"100%\";\n  overlay.style.maxHeight = \"40%\";\n  overlay.style.background = \"rgba(0,0,0,0.85)\";\n  overlay.style.color = '#eee';\n  overlay.style.zIndex = 9999;\n  overlay.style.fontFamily = \"monospace\";\n  overlay.style.overflowY = \"auto\";\n  overlay.style.padding = \"1em\";\n  overlay.style.borderTop = \"2px solid #ccc\";\n\n  let content = \"<h3>Key Bindings</h3><ul>\";\n  for (const [action, seq] of bindings) {\n    content += `<li><b>${seq}</b> - ${action}</li>`;\n  }\n  content += \"</ul><p>Press ESC to close</p>\";\n  overlay.innerHTML = content;\n\n  document.body.appendChild(overlay);\n  window.overlays.help = overlay;\n\n  function remove() { overlay.remove(); window.overlays.help = null; document.removeEventListener(\"keydown\", escHandler); }\n  function escHandler(e) { if (e.key === \"Escape\") remove(); }\n  overlay.addEventListener(\"click\", remove);\n  document.addEventListener(\"keydown\", escHandler);\n};\n";

/// The keys of one bound sequence as a quoted, comma-separated JS list body,
/// from token `i` on.
pub open spec fn spec_key_list_from(s: Seq<KeyToken>, i: int) -> Seq<char>
    decreases s.len() - i,
{
    if 0 <= i < s.len() {
        "\""@ + spec_render_token(s[i]) + "\""@ + (if i + 1 < s.len() {
            ", "@
        } else {
            Seq::<char>::empty()
        }) + spec_key_list_from(s, i + 1)
    } else {
        Seq::empty()
    }
}

pub open spec fn spec_key_list(s: Seq<KeyToken>) -> Seq<char> {
    spec_key_list_from(s, 0)
}

/// One JS trie-insert statement for a bound sequence.
pub open spec fn spec_insert_line(mode_name: Seq<char>, s: Seq<KeyToken>, a: Seq<char>) -> Seq<
    char,
> {
    "window.keyTries['"@ + mode_name + "'].insert(["@ + spec_key_list(s) + "], \""@ + a
        + "\");\n"@
}

/// The trie-insert statements of a table, from entry `i` on.
pub open spec fn spec_table_lines_from(mode_name: Seq<char>, t: TableView, i: int) -> Seq<char>
    decreases t.len() - i,
{
    if 0 <= i < t.len() {
        spec_insert_line(mode_name, t[i].0, t[i].1) + spec_table_lines_from(mode_name, t, i + 1)
    } else {
        Seq::empty()
    }
}

/// One mode's section: a fresh trie, then its insert statements.
pub open spec fn spec_mode_section(mode_name: Seq<char>, t: TableView) -> Seq<char> {
    "window.keyTries['"@ + mode_name + "'] = new KeyTrie();\n"@ + spec_table_lines_from(
        mode_name,
        t,
        0,
    )
}

/// The whole injected key-handling script: page state, IPC bridge, trie
/// code, one trie per token-fed mode (Cmd bypasses the trie), the keydown
/// handler and the help overlay.
pub open spec fn spec_export_js(m: &KeybindingManager) -> Seq<char> {
    JS_APP_STATE@ + JS_SEND_ACTION@ + JS_TRIE@ + "window.keyTries = {};\n"@ + spec_mode_section(
        "Normal"@,
        m.table_view(KeyMode::Normal),
    ) + spec_mode_section("Insert"@, m.table_view(KeyMode::Insert)) + spec_mode_section(
        "Search"@,
        m.table_view(KeyMode::Search),
    ) + JS_KEY_HANDLER@ + JS_HELP_OVERLAY@
}

/// Writes the keys of one sequence as a quoted, comma-separated list.
fn key_list(s: &KeySequence) -> (r: String)
    ensures
        r@ == spec_key_list(s@),
{
    let mut r = String::new();
    let n = s.0.len();
    let mut i: usize = 0;
    while i < n
        invariant
            0 <= i <= n,
            n == s.0@.len(),
            spec_key_list(s.0@) == r@ + spec_key_list_from(s.0@, i as int),
        decreases n - i,
    {
        let ghost pre = r@;
        r.append("\"");
        let piece = render_token(&s.0[i]);
        r.append(piece.as_str());
        r.append("\"");
        if i + 1 < n {
            r.append(", ");
        }
        proof {
            assert(spec_key_list_from(s.0@, i as int) == ("\""@ + spec_render_token(
                s.0@[i as int],
            ) + "\""@ + (if i + 1 < s.0@.len() {
                ", "@
            } else {
                Seq::<char>::empty()
            })) + spec_key_list_from(s.0@, i + 1)) by {
                assert(spec_key_list_from(s.0@, i as int) =~= ("\""@ + spec_render_token(
                    s.0@[i as int],
                ) + "\""@ + (if i + 1 < s.0@.len() {
                    ", "@
                } else {
                    Seq::<char>::empty()
                })) + spec_key_list_from(s.0@, i + 1));
            }
            assert(r@ =~= pre + ("\""@ + spec_render_token(s.0@[i as int]) + "\""@ + (if i + 1
                < s.0@.len() {
                ", "@
            } else {
                Seq::<char>::empty()
            })));
            assert(pre + ("\""@ + spec_render_token(s.0@[i as int]) + "\""@ + (if i + 1
                < s.0@.len() {
                ", "@
            } else {
                Seq::<char>::empty()
            })) + spec_key_list_from(s.0@, i + 1) =~= pre + spec_key_list_from(s.0@, i as int));
        }
        i = i + 1;
    }
    r
}

/// Writes one mode's section of the injected script.
fn export_section(mode_name: &str, t: &BindingTable) -> (r: String)
    ensures
        r@ == spec_mode_section(mode_name@, t@),
{
    let mut r = String::new();
    r.append("window.keyTries['");
    r.append(mode_name);
    r.append("'] = new KeyTrie();\n");
    let ghost header = "window.keyTries['"@ + mode_name@ + "'] = new KeyTrie();\n"@;
    proof {
        assert(r@ =~= header);
    }
    let n = t.len();
    let mut i: usize = 0;
    while i < n
        invariant
            0 <= i <= n,
            n == t@.len(),
            header == "window.keyTries['"@ + mode_name@ + "'] = new KeyTrie();\n"@,
            header + spec_table_lines_from(mode_name@, t@, 0) == r@ + spec_table_lines_from(
                mode_name@,
                t@,
                i as int,
            ),
        decreases n - i,
    {
        let ghost pre = r@;
        let e = t.entry_at(i);
        r.append("window.keyTries['");
        r.append(mode_name);
        r.append("'].insert([");
        let keys = key_list(&e.0);
        r.append(keys.as_str());
        r.append("], \"");
        r.append(e.1.as_str());
        r.append("\");\n");
        proof {
            let line = spec_insert_line(mode_name@, t@[i as int].0, t@[i as int].1);
            assert(r@ =~= pre + line);
            assert(spec_table_lines_from(mode_name@, t@, i as int) == line
                + spec_table_lines_from(mode_name@, t@, i + 1));
            assert(pre + line + spec_table_lines_from(mode_name@, t@, i + 1) =~= pre
                + spec_table_lines_from(mode_name@, t@, i as int));
        }
        i = i + 1;
    }
    proof {
        assert(spec_table_lines_from(mode_name@, t@, n as int) == Seq::<char>::empty());
        assert(r@ + Seq::<char>::empty() =~= r@);
        assert(r@ =~= spec_mode_section(mode_name@, t@));
    }
    r
}

impl KeybindingManager {
    /// The full script injected into the page: state, IPC bridge, trie code,
    /// the tries of the token-fed modes with their bindings, the keydown
    /// handler and the help overlay.
    pub fn export_full_js(&self) -> (r: String)
        ensures
            r@ == spec_export_js(self),
    {
        let mut js = String::new();
        js.append(JS_APP_STATE);
        js.append(JS_SEND_ACTION);
        js.append(JS_TRIE);
        js.append("window.keyTries = {};\n");
        let sn = export_section("Normal", &self.normal);
        js.append(sn.as_str());
        let si = export_section("Insert", &self.insert);
        js.append(si.as_str());
        let ss = export_section("Search", &self.search);
        js.append(ss.as_str());
        js.append(JS_KEY_HANDLER);
        js.append(JS_HELP_OVERLAY);
        proof {
            assert(js@ =~= spec_export_js(self));
        }
        js
    }
}

/// Applies one mode section of an overlay to a table, stopping at the first
/// rejected binding (the table is a working copy; the caller discards it on
/// failure).
fn apply_list(t: &mut BindingTable, list: &Vec<(String, String)>) -> (r: Result<(), String>)
    requires
        table_wf(old(t)@),
    ensures
        table_wf(final(t)@),
        r is Ok <==> spec_apply_mode_list(old(t)@, list@) is Some,
        r is Ok ==> final(t)@ == spec_apply_mode_list(old(t)@, list@).unwrap(),
        r is Ok ==> spec_list_error(old(t)@, list@) is None,
        r matches Err(m) ==> spec_list_error(old(t)@, list@) == Some(m@),
{
    proof {
        assert(list@.skip(0) == list@);
    }
    let mut bi: usize = 0;
    while bi < list.len()
        invariant
            0 <= bi <= list@.len(),
            table_wf(t@),
            spec_apply_mode_list(old(t)@, list@) == spec_apply_mode_list(
                t@,
                list@.skip(bi as int),
            ),
            spec_list_error(old(t)@, list@) == spec_list_error(t@, list@.skip(bi as int)),
        decreases list.len() - bi,
    {
        let ghost pre = t@;
        let ghost remaining = list@.skip(bi as int);
        proof {
            assert(remaining[0] == list@[bi as int]);
            assert(remaining.skip(1) =~= list@.skip(bi + 1 as int));
        }
        let pair = &list[bi];
        let known = parse_action(pair.1.as_str(), Some("")).is_some();
        if !known {
            let mut msg = "Unknown action: ".to_owned();
            msg.append(pair.1.as_str());
            proof {
                assert(spec_apply_binding(pre, spec_parse_keys(pair.0@), pair.1@) is None);
                assert(spec_apply_mode_list(pre, remaining) is None);
                assert(msg@ =~= unknown_action_msg(pair.1@));
                assert(spec_list_error(pre, remaining) == Some(unknown_action_msg(pair.1@)));
            }
            return Err(msg);
        }
        let seq = KeySequence::from_str(pair.0.as_str());
        match t.insert(seq, pair.1.clone()) {
            Ok(()) => {
                proof {
                    assert(spec_apply_binding(pre, spec_parse_keys(pair.0@), pair.1@) == Some(
                        t@,
                    ));
                    assert(spec_apply_mode_list(pre, remaining) == spec_apply_mode_list(
                        t@,
                        remaining.skip(1),
                    ));
                    assert(spec_list_error(pre, remaining) == spec_list_error(
                        t@,
                        remaining.skip(1),
                    ));
                }
                bi = bi + 1;
            },
            Err(e) => {
                let mut msg = "Invalid binding: sequence '".to_owned();
                msg.append(pair.0.as_str());
                msg.append("' for command '");
                msg.append(pair.1.as_str());
                match e {
                    BindError::EmptySequence => {
                        msg.append("' is empty");
                        proof {
                            assert(msg@ =~= empty_binding_msg(pair.0@, pair.1@));
                            assert(spec_list_error(pre, remaining) == Some(
                                empty_binding_msg(pair.0@, pair.1@),
                            ));
                        }
                    },
                    BindError::Conflict(existing, _) => {
                        msg.append("' conflicts with '");
                        let shown = render_sequence(&existing);
                        msg.append(shown.as_str());
                        msg.append("'");
                        proof {
                            let s = spec_parse_keys(pair.0@);
                            assert(existing@ == pre[first_conflict(pre, s)].0);
                            assert(msg@ =~= conflict_binding_msg(
                                pair.0@,
                                pair.1@,
                                spec_render_seq(pre[first_conflict(pre, s)].0),
                            ));
                            assert(spec_list_error(pre, remaining) == Some(
                                conflict_binding_msg(
                                    pair.0@,
                                    pair.1@,
                                    spec_render_seq(pre[first_conflict(pre, s)].0),
                                ),
                            ));
                        }
                    },
                }
                proof {
                    assert(spec_apply_binding(pre, spec_parse_keys(pair.0@), pair.1@) is None);
                    assert(spec_apply_mode_list(pre, remaining) is None);
                }
                return Err(msg);
            },
        }
    }
    proof {
        assert(list@.skip(list@.len() as int) =~= Seq::<(String, String)>::empty());
    }
    Ok(())
}

} // verus!
