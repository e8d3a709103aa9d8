//! The policy that decides about tool calls and about finishing.

use vstd::prelude::*;
use crate::json::{field, parse, parsed, text_of};
use crate::pattern::{compile, is_match, pattern_error, pattern_matches};
use crate::text::{cat2, join, join_strings, list_prefix, list_starts_with, str_eq, Duplicate};
use crate::types::config::{
    PolicyConfig, PolicyConfigView, VerifyEvidence, VerifyEvidenceView,
};
use crate::types::time::{Timestamp, TimestampView};
use crate::types::tool::{
    DecisionKind, ToolCall, ToolCallDecision, ToolCallDecisionView, ToolCallView, ToolInput,
    ToolInputView,
};

verus! {

/// Why a policy cannot be put in force.
#[derive(Debug, PartialEq, Eq)]
pub enum PolicyError {
    InvalidRegex(String),
}

/// Patterns of commands that destroy data.
pub open spec fn dangerous_patterns() -> Seq<Seq<char>> {
    seq![
        "(?i)\\brm\\b.*\\s-(?:[^\\n]*r[^\\n]*f|[^\\n]*f[^\\n]*r)\\b"@,
        "(?i)\\bdel\\b\\s+/s\\s+/q\\b"@,
        "(?i)\\bformat\\b\\s+[a-z]:"@,
    ]
}

/// The first pattern from position `i` on that does not compile.
pub open spec fn first_invalid(patterns: Seq<Seq<char>>, i: int) -> Option<Seq<char>>
    decreases patterns.len() - i,
{
    if i < 0 || i >= patterns.len() {
        None
    } else if pattern_error(patterns[i]) is Some {
        Some(patterns[i])
    } else {
        first_invalid(patterns, i + 1)
    }
}

/// The command line in the arguments of a shell function.
pub open spec fn shell_argument(arguments: Seq<char>) -> Option<Seq<char>> {
    match parsed(arguments) {
        Err(_) => None,
        Ok(json) => match field(json, "command"@) {
            None => None,
            Some(v) => text_of(v),
        },
    }
}

/// The command that a tool call runs, as one text.
pub open spec fn command_text(call: ToolCallView) -> Option<Seq<char>> {
    match call.input {
        ToolInputView::LocalShell { command, .. } => Some(join(command, " "@)),
        ToolInputView::Function { arguments } => if call.tool_name == "shell_command"@ {
            shell_argument(arguments)
        } else {
            None
        },
        _ => None,
    }
}

/// The command that a tool call runs, as a list of arguments.
pub open spec fn argv_like(call: ToolCallView) -> Option<Seq<Seq<char>>> {
    match call.input {
        ToolInputView::LocalShell { command, .. } => Some(command),
        ToolInputView::Function { arguments } => if call.tool_name == "shell_command"@ {
            match shell_argument(arguments) {
                Some(s) => Some(seq![s]),
                None => None,
            }
        } else {
            None
        },
        _ => None,
    }
}

/// Whether one of the patterns is found in a text.
pub open spec fn any_matches(patterns: Seq<Seq<char>>, text: Seq<char>) -> bool {
    exists|i: int| 0 <= i < patterns.len() && #[trigger] pattern_matches(patterns[i], text)
}

/// Whether a tool call runs a dangerous command.
pub open spec fn dangerous(call: ToolCallView) -> bool {
    match command_text(call) {
        None => false,
        Some(text) => any_matches(dangerous_patterns(), text),
    }
}

/// A decision that allows.
pub open spec fn allowed() -> ToolCallDecisionView {
    ToolCallDecisionView {
        kind: DecisionKind::Allow,
        reason_code: None,
        message: None,
        modified_call: None,
    }
}

/// A decision that blocks.
pub open spec fn blocked(reason_code: Seq<char>, message: Seq<char>) -> ToolCallDecisionView {
    ToolCallDecisionView {
        kind: DecisionKind::Block,
        reason_code: Some(reason_code),
        message: Some(message),
        modified_call: None,
    }
}

/// The decision about a call, given whether it is dangerous.
pub open spec fn decision(cfg: PolicyConfigView, is_dangerous: bool) -> ToolCallDecisionView {
    if cfg.enabled && cfg.deny_dangerous_always && is_dangerous {
        blocked(
            "PrDangerousCommandDenied"@,
            "Blocked dangerous command by policy floor (deny_dangerous_always=true)."@,
        )
    } else {
        allowed()
    }
}

/// Whether a command is one that verifies.
pub open spec fn is_verify(cfg: PolicyConfigView, argv: Option<Seq<Seq<char>>>) -> bool {
    &&& cfg.enabled
    &&& argv is Some
    &&& exists|i: int|
        0 <= i < cfg.verify.command_prefixes.len() && list_prefix(
            argv->0,
            #[trigger] cfg.verify.command_prefixes[i],
        )
}

/// A point in time in nanoseconds.
pub open spec fn nanos(t: TimestampView) -> int {
    t.secs * 1000000000 + t.nanos
}

/// The age beyond which evidence is stale, in nanoseconds. A bound too large for a
/// signed 64-bit number of milliseconds counts as none at all.
pub open spec fn max_age_nanos(max_age_ms: u64) -> int {
    if max_age_ms > i64::MAX {
        0
    } else {
        max_age_ms * 1000000
    }
}

/// Whether evidence is stale.
pub open spec fn stale(cfg: PolicyConfigView, now: TimestampView, e: VerifyEvidenceView) -> bool {
    nanos(now) - nanos(e.recorded_at) > max_age_nanos(cfg.verify.max_age_ms)
}

/// The code with which finishing is refused.
pub open spec fn verify_denied(message: Seq<char>) -> ToolCallDecisionView {
    blocked("PrVerifyExecutionDenied"@, message)
}

/// What stands against finishing.
pub open spec fn finalize_block(
    cfg: PolicyConfigView,
    now: TimestampView,
    evidence: Option<VerifyEvidenceView>,
) -> Option<ToolCallDecisionView> {
    if !cfg.enabled || !cfg.verify.required {
        None
    } else {
        match evidence {
            None => Some(
                verify_denied(
                    "Verification is required, but no verify evidence was recorded for this session. Run the configured verify command(s) and retry."@,
                ),
            ),
            Some(e) => if !e.success {
                Some(
                    verify_denied(
                        "Verification is required, but the most recent verify attempt failed. Fix the issue, re-run verify, then retry."@,
                    ),
                )
            } else if stale(cfg, now, e) {
                Some(
                    verify_denied(
                        "Verification is required, but existing verify evidence is stale. Re-run verify and retry."@,
                    ),
                )
            } else {
                None
            },
        }
    }
}

/// The decision about a call, given whether it is dangerous.
pub fn decide(cfg: &PolicyConfig, is_dangerous: bool) -> (d: ToolCallDecision)
    ensures
        d@ == decision(cfg@, is_dangerous),
{
    if cfg.enabled && cfg.deny_dangerous_always && is_dangerous {
        return ToolCallDecision::block(
            "PrDangerousCommandDenied",
            "Blocked dangerous command by policy floor (deny_dangerous_always=true).",
        );
    }
    ToolCallDecision::allow()
}

/// Whether a command is one that verifies.
pub fn verifies(cfg: &PolicyConfig, argv: &Option<Vec<String>>) -> (r: bool)
    ensures
        r == is_verify(cfg@, argv.deep_view()),
{
    if !cfg.enabled {
        return false;
    }
    match argv {
        None => false,
        Some(command) => {
            let ghost prefixes = cfg@.verify.command_prefixes;
            let mut i: usize = 0;
            while i < cfg.verify.command_prefixes.len()
                invariant
                    i <= cfg.verify.command_prefixes.len(),
                    cfg.enabled,
                    prefixes == cfg@.verify.command_prefixes,
                    argv.deep_view() == Some(command.deep_view()),
                    forall|k: int|
                        0 <= k < i ==> !list_prefix(command.deep_view(), #[trigger] prefixes[k]),
                decreases cfg.verify.command_prefixes.len() - i,
            {
                assert(prefixes[i as int] == cfg.verify.command_prefixes[i as int].deep_view());
                if list_starts_with(command, &cfg.verify.command_prefixes[i]) {
                    return true;
                }
                i = i + 1;
            }
            false
        },
    }
}

fn shell_command_argument(arguments: &str) -> (r: Option<String>)
    ensures
        r.deep_view() == shell_argument(arguments@),
{
    match parse(arguments) {
        Err(_) => None,
        Ok(json) => match json.get("command") {
            None => None,
            Some(v) => match v.as_str() {
                None => None,
                Some(s) => Some(s.to_owned()),
            },
        },
    }
}

/// The command that a tool call runs, as a list of arguments.
pub fn extract_argv_like(call: &ToolCall) -> (r: Option<Vec<String>>)
    ensures
        r.deep_view() == argv_like(call@),
{
    match &call.input {
        ToolInput::LocalShell { command, .. } => Some(command.dup()),
        ToolInput::Function { arguments } => {
            if !str_eq(call.tool_name.as_str(), "shell_command") {
                return None;
            }
            match shell_command_argument(arguments.as_str()) {
                None => None,
                Some(s) => {
                    let v = vec![s];
                    assert(v.deep_view() =~= seq![s@]);
                    Some(v)
                },
            }
        },
        _ => None,
    }
}

/// The command that a tool call runs, as one text.
pub fn extract_command_text(call: &ToolCall) -> (r: Option<String>)
    ensures
        r.deep_view() == command_text(call@),
{
    match &call.input {
        ToolInput::LocalShell { command, .. } => Some(join_strings(command, " ")),
        ToolInput::Function { arguments } => {
            if !str_eq(call.tool_name.as_str(), "shell_command") {
                return None;
            }
            shell_command_argument(arguments.as_str())
        },
        _ => None,
    }
}

/// A policy in force.
pub struct PolicyEngine {
    cfg: PolicyConfig,
    patterns: Vec<String>,
}

impl PolicyEngine {
    /// The policy that is in force.
    pub closed spec fn config(&self) -> PolicyConfigView {
        self.cfg@
    }

    /// The patterns of what is dangerous under it.
    pub closed spec fn watched(&self) -> Seq<Seq<char>> {
        self.patterns.deep_view()
    }

    #[verifier::type_invariant]
    closed spec fn compiled(self) -> bool {
        &&& self.patterns.deep_view() == dangerous_patterns()
        &&& forall|i: int|
            0 <= i < dangerous_patterns().len() ==> pattern_error(
                #[trigger] dangerous_patterns()[i],
            ) is None
    }

    /// Puts a policy in force.
    pub fn new(cfg: PolicyConfig) -> (r: Result<Self, PolicyError>)
        ensures
            match first_invalid(dangerous_patterns(), 0) {
                None => r is Ok && r->Ok_0.config() == cfg@ && r->Ok_0.watched()
                    == dangerous_patterns(),
                Some(p) => r matches Err(PolicyError::InvalidRegex(q)) && q@ == p,
            },
    {
        let patterns = vec![
            "(?i)\\brm\\b.*\\s-(?:[^\\n]*r[^\\n]*f|[^\\n]*f[^\\n]*r)\\b".to_owned(),
            "(?i)\\bdel\\b\\s+/s\\s+/q\\b".to_owned(),
            "(?i)\\bformat\\b\\s+[a-z]:".to_owned(),
        ];
        let ghost all = dangerous_patterns();
        assert(patterns.deep_view() =~= all);
        let mut i: usize = 0;
        while i < patterns.len()
            invariant
                i <= patterns.len(),
                patterns.deep_view() == all,
                all == dangerous_patterns(),
                first_invalid(all, 0) == first_invalid(all, i as int),
                forall|k: int| 0 <= k < i ==> pattern_error(#[trigger] all[k]) is None,
            decreases patterns.len() - i,
        {
            assert(all[i as int] == patterns[i as int]@);
            if compile(patterns[i].as_str()).is_err() {
                return Err(PolicyError::InvalidRegex(patterns[i].clone()));
            }
            i = i + 1;
        }
        Ok(PolicyEngine { cfg, patterns })
    }

    /// Decides about a tool call.
    pub fn evaluate_tool_call(&self, call: &ToolCall) -> (d: ToolCallDecision)
        ensures
            d@ == decision(self.config(), dangerous(call@)),
    {
        if !self.cfg.enabled || !self.cfg.deny_dangerous_always {
            return ToolCallDecision::allow();
        }
        decide(&self.cfg, self.is_dangerous(call))
    }

    /// Whether a tool call is one that verifies, so that its outcome is evidence.
    pub fn should_record_verify(&self, call: &ToolCall) -> (r: bool)
        ensures
            r == is_verify(self.config(), argv_like(call@)),
    {
        verifies(&self.cfg, &extract_argv_like(call))
    }

    /// What stands against finishing at the time `now`.
    pub fn evaluate_finalize(&self, now: &Timestamp, last_verify: Option<&VerifyEvidence>) -> (r:
        Option<ToolCallDecision>)
        ensures
            r.deep_view() == finalize_block(self.config(), now@, last_verify.deep_view()),
    {
        if !self.cfg.enabled || !self.cfg.verify.required {
            return None;
        }
        let evidence = match last_verify {
            None => {
                return Some(
                    ToolCallDecision::block(
                        "PrVerifyExecutionDenied",
                        "Verification is required, but no verify evidence was recorded for this session. Run the configured verify command(s) and retry.",
                    ),
                );
            },
            Some(e) => e,
        };
        if !evidence.success {
            return Some(
                ToolCallDecision::block(
                    "PrVerifyExecutionDenied",
                    "Verification is required, but the most recent verify attempt failed. Fix the issue, re-run verify, then retry.",
                ),
            );
        }
        let age: i128 = now.secs as i128 * 1_000_000_000 + now.nanos as i128
            - evidence.recorded_at.secs as i128 * 1_000_000_000
            - evidence.recorded_at.nanos as i128;
        let max_age: i128 = if self.cfg.verify.max_age_ms > i64::MAX as u64 {
            0
        } else {
            self.cfg.verify.max_age_ms as i128 * 1_000_000
        };
        if age > max_age {
            return Some(
                ToolCallDecision::block(
                    "PrVerifyExecutionDenied",
                    "Verification is required, but existing verify evidence is stale. Re-run verify and retry.",
                ),
            );
        }
        None
    }

    fn is_dangerous(&self, call: &ToolCall) -> (r: bool)
        ensures
            r == dangerous(call@),
    {
        proof {
            use_type_invariant(self);
        }
        let text = match extract_command_text(call) {
            None => {
                return false;
            },
            Some(t) => t,
        };
        let ghost all = dangerous_patterns();
        let mut i: usize = 0;
        while i < self.patterns.len()
            invariant
                i <= self.patterns.len(),
                self.patterns.deep_view() == all,
                forall|k: int| 0 <= k < all.len() ==> pattern_error(#[trigger] all[k]) is None,
                forall|k: int| 0 <= k < i ==> !pattern_matches(#[trigger] all[k], text@),
                command_text(call@) == Some(text@),
                all == dangerous_patterns(),
            decreases self.patterns.len() - i,
        {
            assert(all[i as int] == self.patterns[i as int]@);
            if is_match(self.patterns[i].as_str(), text.as_str()) {
                assert(pattern_matches(all[i as int], text@));
                return true;
            }
            i = i + 1;
        }
        assert(!any_matches(all, text@));
        false
    }
}

/// A policy that is not enabled stands in nobody's way.
pub proof fn disabled_policy_allows(
    cfg: PolicyConfigView,
    is_dangerous: bool,
    now: TimestampView,
    evidence: Option<VerifyEvidenceView>,
)
    requires
        !cfg.enabled,
    ensures
        decision(cfg, is_dangerous) == allowed(),
        finalize_block(cfg, now, evidence) is None,
{
}

/// A dangerous command is blocked wherever the policy says so, and nothing else is.
pub proof fn exactly_dangerous_calls_are_blocked(cfg: PolicyConfigView, is_dangerous: bool)
    requires
        cfg.enabled,
        cfg.deny_dangerous_always,
    ensures
        decision(cfg, is_dangerous).kind == DecisionKind::Block <==> is_dangerous,
        decision(cfg, is_dangerous).kind == DecisionKind::Block ==> decision(
            cfg,
            is_dangerous,
        ).reason_code == Some("PrDangerousCommandDenied"@),
{
}

/// Where verification is required, finishing takes a successful verification that is
/// fresh enough; and it takes nothing else.
pub proof fn finishing_takes_fresh_evidence(
    cfg: PolicyConfigView,
    now: TimestampView,
    evidence: Option<VerifyEvidenceView>,
)
    requires
        cfg.enabled,
        cfg.verify.required,
    ensures
        finalize_block(cfg, now, evidence) is None <==> {
            &&& evidence is Some
            &&& evidence->0.success
            &&& nanos(now) - nanos(evidence->0.recorded_at) <= max_age_nanos(cfg.verify.max_age_ms)
        },
{
}

/// What stands against finishing does not go away by waiting.
pub proof fn waiting_does_not_help(
    cfg: PolicyConfigView,
    now: TimestampView,
    later: TimestampView,
    evidence: Option<VerifyEvidenceView>,
)
    requires
        nanos(now) <= nanos(later),
        finalize_block(cfg, now, evidence) is Some,
    ensures
        finalize_block(cfg, later, evidence) == finalize_block(cfg, now, evidence),
{
}

impl PolicyError {
    /// The error in words.
    pub fn message(&self) -> (r: String)
        ensures
            r@ == match self {
                PolicyError::InvalidRegex(m) => "invalid regex: "@ + m@,
            },
    {
        match self {
            PolicyError::InvalidRegex(m) => cat2("invalid regex: ", m.as_str()),
        }
    }
}

} // verus!
