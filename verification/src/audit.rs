//! The audit log: redaction of its lines and rotation of its files.

use vstd::prelude::*;
use crate::paths::{file_name, file_name_of, with_file_name, with_name};
use crate::pattern::{compile, pattern_error, pattern_replaced, replace_all};
use crate::text::{cat3, decimal, decimal_string, Duplicate, Same};
use crate::types::tool::{
    ToolCall, ToolCallDecision, ToolCallDecisionView, ToolCallView, ToolOutcome, ToolOutcomeView,
};

verus! {

/// What an entry of the log is about.
#[derive(Debug, Clone, Copy, PartialEq, Eq, Structural)]
pub enum AuditEventKind {
    SessionStart,
    SessionEnd,
    BeforeTask,
    BeforeTool,
    AfterTool,
    BeforeFinalize,
    PolicyDecision,
    HookDecision,
}

impl View for AuditEventKind {
    type V = AuditEventKind;

    open spec fn view(&self) -> AuditEventKind {
        *self
    }
}

impl DeepView for AuditEventKind {
    type V = AuditEventKind;

    open spec fn deep_view(&self) -> AuditEventKind {
        *self
    }
}

impl Duplicate for AuditEventKind {
    fn dup(&self) -> (r: Self) {
        *self
    }
}

impl Same for AuditEventKind {
    fn same(&self, other: &Self) -> (b: bool) {
        *self == *other
    }
}

/// That a tool is about to be called.
#[derive(Debug, PartialEq, Eq)]
pub struct AuditBeforeTool {
    pub tool_call: ToolCall,
}

/// What a [`AuditBeforeTool`] stands for.
#[verifier::ext_equal]
pub struct AuditBeforeToolView {
    pub tool_call: ToolCallView,
}

impl View for AuditBeforeTool {
    type V = AuditBeforeToolView;

    open spec fn view(&self) -> AuditBeforeToolView {
        AuditBeforeToolView {
            tool_call: self.tool_call@,
        }
    }
}

impl DeepView for AuditBeforeTool {
    type V = AuditBeforeToolView;

    open spec fn deep_view(&self) -> AuditBeforeToolView {
        self@
    }
}

impl Duplicate for AuditBeforeTool {
    fn dup(&self) -> (r: Self) {
        AuditBeforeTool {
            tool_call: self.tool_call.dup(),
        }
    }
}

impl Clone for AuditBeforeTool {
    fn clone(&self) -> (r: Self)
        ensures
            r@ == self@,
    {
        self.dup()
    }
}

/// That a tool was called, and what came of it.
#[derive(Debug, PartialEq, Eq)]
pub struct AuditAfterTool {
    pub tool_call: ToolCall,
    pub outcome: ToolOutcome,
}

/// What a [`AuditAfterTool`] stands for.
#[verifier::ext_equal]
pub struct AuditAfterToolView {
    pub tool_call: ToolCallView,
    pub outcome: ToolOutcomeView,
}

impl View for AuditAfterTool {
    type V = AuditAfterToolView;

    open spec fn view(&self) -> AuditAfterToolView {
        AuditAfterToolView {
            tool_call: self.tool_call@,
            outcome: self.outcome@,
        }
    }
}

impl DeepView for AuditAfterTool {
    type V = AuditAfterToolView;

    open spec fn deep_view(&self) -> AuditAfterToolView {
        self@
    }
}

impl Duplicate for AuditAfterTool {
    fn dup(&self) -> (r: Self) {
        AuditAfterTool {
            tool_call: self.tool_call.dup(),
            outcome: self.outcome.dup(),
        }
    }
}

impl Clone for AuditAfterTool {
    fn clone(&self) -> (r: Self)
        ensures
            r@ == self@,
    {
        self.dup()
    }
}

/// What was decided about a tool call.
#[derive(Debug, PartialEq, Eq)]
pub struct AuditDecision {
    pub tool_call: ToolCall,
    pub decision: ToolCallDecision,
}

/// What a [`AuditDecision`] stands for.
#[verifier::ext_equal]
pub struct AuditDecisionView {
    pub tool_call: ToolCallView,
    pub decision: ToolCallDecisionView,
}

impl View for AuditDecision {
    type V = AuditDecisionView;

    open spec fn view(&self) -> AuditDecisionView {
        AuditDecisionView {
            tool_call: self.tool_call@,
            decision: self.decision@,
        }
    }
}

impl DeepView for AuditDecision {
    type V = AuditDecisionView;

    open spec fn deep_view(&self) -> AuditDecisionView {
        self@
    }
}

impl Duplicate for AuditDecision {
    fn dup(&self) -> (r: Self) {
        AuditDecision {
            tool_call: self.tool_call.dup(),
            decision: self.decision.dup(),
        }
    }
}

impl Clone for AuditDecision {
    fn clone(&self) -> (r: Self)
        ensures
            r@ == self@,
    {
        self.dup()
    }
}

/// An entry of the log.
#[derive(Debug, PartialEq, Eq)]
pub struct AuditEvent<T> {
    pub kind: AuditEventKind,
    pub payload: T,
}

/// The patterns from position `i` on that compile, behind `acc`.
pub open spec fn usable_patterns(p: Seq<Seq<char>>, i: int, acc: Seq<Seq<char>>) -> Seq<Seq<char>>
    decreases p.len() - i,
{
    if i < 0 || i >= p.len() {
        acc
    } else if pattern_error(p[i]) is None {
        usable_patterns(p, i + 1, acc.push(p[i]))
    } else {
        usable_patterns(p, i + 1, acc)
    }
}

/// A text with everything that the patterns from position `i` on match blotted out, one
/// pattern after the other.
pub open spec fn redacted(p: Seq<Seq<char>>, i: int, text: Seq<char>) -> Seq<char>
    decreases p.len() - i,
{
    if i < 0 || i >= p.len() {
        text
    } else {
        redacted(p, i + 1, pattern_replaced(p[i], text, "[REDACTED]"@))
    }
}

/// Blots out secrets.
pub struct Redactor {
    patterns: Vec<String>,
}

impl Redactor {
    /// The patterns of what is blotted out.
    pub closed spec fn patterns(&self) -> Seq<Seq<char>> {
        self.patterns.deep_view()
    }

    #[verifier::type_invariant]
    closed spec fn compiled(self) -> bool {
        forall|i: int|
            0 <= i < self.patterns.deep_view().len() ==> pattern_error(
                #[trigger] self.patterns.deep_view()[i],
            ) is None
    }

    /// A redactor for the patterns that compile; the others are passed over.
    pub fn new(patterns: &Vec<String>) -> (r: Self)
        ensures
            r.patterns() == usable_patterns(patterns.deep_view(), 0, Seq::empty()),
    {
        let ghost all = patterns.deep_view();
        let mut out: Vec<String> = Vec::new();
        let mut i: usize = 0;
        assert(out.deep_view() =~= Seq::empty());
        while i < patterns.len()
            invariant
                i <= patterns.len(),
                all == patterns.deep_view(),
                usable_patterns(all, 0, Seq::empty()) == usable_patterns(
                    all,
                    i as int,
                    out.deep_view(),
                ),
                forall|k: int|
                    0 <= k < out.deep_view().len() ==> pattern_error(
                        #[trigger] out.deep_view()[k],
                    ) is None,
            decreases patterns.len() - i,
        {
            assert(all[i as int] == patterns[i as int]@);
            if compile(patterns[i].as_str()).is_ok() {
                let ghost before = out.deep_view();
                out.push(patterns[i].clone());
                assert(out.deep_view() =~= before.push(all[i as int]));
            }
            i = i + 1;
        }
        Redactor { patterns: out }
    }

    /// A text with its secrets blotted out.
    pub fn redact_string(&self, input: &str) -> (r: String)
        ensures
            r@ == redacted(self.patterns(), 0, input@),
    {
        proof {
            use_type_invariant(self);
        }
        let ghost all = self.patterns.deep_view();
        let mut out = input.to_owned();
        let mut i: usize = 0;
        while i < self.patterns.len()
            invariant
                i <= self.patterns.len(),
                all == self.patterns.deep_view(),
                forall|k: int| 0 <= k < all.len() ==> pattern_error(#[trigger] all[k]) is None,
                redacted(all, 0, input@) == redacted(all, i as int, out@),
            decreases self.patterns.len() - i,
        {
            assert(all[i as int] == self.patterns[i as int]@);
            out = replace_all(self.patterns[i].as_str(), out.as_str(), "[REDACTED]");
            i = i + 1;
        }
        out
    }

    /// The line of the log for an entry's document.
    pub fn audit_line(&self, json: &str) -> (r: String)
        ensures
            r@ == redacted(self.patterns(), 0, json@) + "\n"@,
    {
        let mut line = self.redact_string(json);
        line.append("\n");
        line
    }
}

/// The path of an older log: the older, the higher its number.
pub open spec fn rotated(base: Seq<char>, idx: nat) -> Seq<char> {
    if idx == 0 {
        base
    } else {
        let name = match file_name(base) {
            Some(n) => n,
            None => "events.jsonl"@,
        };
        with_name(base, name + "."@ + decimal(idx))
    }
}

pub fn rotated_path(base: &str, idx: usize) -> (r: String)
    ensures
        r@ == rotated(base@, idx as nat),
{
    if idx == 0 {
        return base.to_owned();
    }
    let name = match file_name_of(base) {
        Some(n) => n,
        None => "events.jsonl".to_owned(),
    };
    let n = decimal_string(idx as u64);
    let numbered = cat3(name.as_str(), ".", n.as_str());
    with_file_name(base, numbered.as_str())
}

/// Whether the log has grown so large that a new one is begun.
pub fn should_rotate(size: u64, max_file_bytes: u64, max_files: usize) -> (r: bool)
    ensures
        r == (max_files != 0 && size >= max_file_bytes),
{
    max_files != 0 && size >= max_file_bytes
}

/// The number of renamings with which a new log is begun.
pub open spec fn rotation_steps(max_files: usize) -> nat {
    if max_files == 0 {
        0
    } else {
        max_files as nat
    }
}

/// The renaming with the number `k`, from and to: the oldest log goes first, so that none
/// is overwritten but the oldest; last comes the current log, where it is still there.
pub open spec fn rotation(base: Seq<char>, max_files: usize, k: nat) -> Option<
    (Seq<char>, Seq<char>),
> {
    if k >= rotation_steps(max_files) {
        None
    } else if k + 1 == rotation_steps(max_files) {
        Some((base, rotated(base, 1)))
    } else {
        let idx = (max_files - 1 - k) as nat;
        Some((rotated(base, (idx - 1) as nat), rotated(base, idx)))
    }
}

/// The renaming with the number `k`. A renaming whose source does not exist is left out.
pub fn rotation_step(base: &str, max_files: usize, k: usize) -> (r: Option<(String, String)>)
    ensures
        r.deep_view() == rotation(base@, max_files, k as nat),
{
    if k >= max_files {
        return None;
    }
    if k == max_files - 1 {
        return Some((base.to_owned(), rotated_path(base, 1)));
    }
    let idx: usize = max_files - 1 - k;
    Some((rotated_path(base, idx - 1), rotated_path(base, idx)))
}

/// Each renaming but the last makes room for the next: it takes away what the next one
/// puts in place.
pub proof fn rotation_overwrites_only_the_oldest(base: Seq<char>, max_files: usize, k: nat)
    requires
        k + 2 < rotation_steps(max_files),
    ensures
        rotation(base, max_files, k) matches Some((from, _)) && rotation(
            base,
            max_files,
            k + 1,
        ) matches Some((_, to)) && from == to,
{
}

proof fn redacted_tail(p: Seq<Seq<char>>, q: Seq<Seq<char>>, i: int, text: Seq<char>)
    requires
        0 <= i <= p.len(),
    ensures
        redacted(p + q, i, text) == redacted(p + q, p.len() as int, redacted(p, i, text)),
    decreases p.len() - i,
{
    if i < p.len() {
        assert((p + q)[i] == p[i]);
        redacted_tail(p, q, i + 1, pattern_replaced(p[i], text, "[REDACTED]"@));
    }
}

proof fn redacted_shift(p: Seq<Seq<char>>, q: Seq<Seq<char>>, i: int, text: Seq<char>)
    requires
        0 <= i <= q.len(),
    ensures
        redacted(p + q, p.len() + i, text) == redacted(q, i, text),
    decreases q.len() - i,
{
    if i < q.len() {
        assert((p + q)[p.len() + i] == q[i]);
        redacted_shift(p, q, i + 1, pattern_replaced(q[i], text, "[REDACTED]"@));
    }
}

/// Redaction by two lists of patterns is redaction by the first and then by the second:
/// no pattern is passed over, and each works on what the ones before it left.
pub proof fn redaction_applies_every_pattern(
    p: Seq<Seq<char>>,
    q: Seq<Seq<char>>,
    text: Seq<char>,
)
    ensures
        redacted(p + q, 0, text) == redacted(q, 0, redacted(p, 0, text)),
{
    redacted_tail(p, q, 0, text);
    redacted_shift(p, q, 0, redacted(p, 0, text));
}

/// Rotation moves the log only among its own numbered files, and never to a number past
/// the last one that is kept.
pub proof fn rotation_keeps_to_its_files(base: Seq<char>, max_files: usize, k: nat)
    requires
        max_files > 1,
    ensures
        rotation(base, max_files, k) matches Some((from, to)) ==> exists|i: nat, j: nat|
            i < j < max_files && from == #[trigger] rotated(base, i) && to == #[trigger] rotated(
                base,
                j,
            ),
{
    if k + 1 == rotation_steps(max_files) {
        assert(base == rotated(base, 0));
        assert(rotated(base, 1) == rotated(base, 1));
    } else if k < rotation_steps(max_files) {
        let idx = (max_files - 1 - k) as nat;
        assert(rotated(base, (idx - 1) as nat) == rotated(base, (idx - 1) as nat));
        assert(rotated(base, idx) == rotated(base, idx));
    }
}

} // verus!
