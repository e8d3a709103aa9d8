//! What a session decides at each point of its life.

use vstd::prelude::*;
use crate::audit::{AuditDecision, AuditDecisionView};
use crate::hooks::{hook_error_text, HookRunError, HookSpec, HookSpecView};
use crate::paths::{join_path3, joined3};
use crate::policy::{
    argv_like, blocked, dangerous, dangerous_patterns, decision, extract_argv_like, finalize_block,
    first_invalid, is_verify, max_age_nanos, nanos, PolicyEngine, PolicyError,
};
use crate::strmap::{put, StrMap};
use crate::templates::{ref_of, template_ref, Template, TemplateRef, TemplateRefView, TemplateView};
use crate::text::{
    cat2, cat4, eq_ignore_ascii_case, list_contains, same_ignoring_case, str_eq, Duplicate, Same,
};
use crate::types::commands::{
    command_values, effective_commands, CommandSpecV1, CommandSpecV1View, Commands, CommandsFileV1,
    CommandsFileV1View,
};
use crate::types::config::{
    HookPayloadV2, HookPayloadV2View, HookResponseV2, PolicyConfigView, PrintRevoltConfig,
    PrintRevoltConfigView, SessionContext, SessionContextView, VerifyEvidence, VerifyEvidenceView,
};
use crate::types::time::{Timestamp, TimestampView};
use crate::types::tool::{
    DecisionKind, LifecycleEventKind, ToolCall, ToolCallDecision, ToolCallDecisionView,
    ToolCallView, ToolOutcome, ToolOutcomeView,
};

verus! {

/// Whether settings trust a repository: only one that they name.
pub open spec fn trusts(cfg: PrintRevoltConfigView, repo_root: Option<Seq<char>>) -> bool {
    match repo_root {
        None => false,
        Some(root) => cfg.hooks.trusted_repo_roots.contains(root),
    }
}

pub fn is_trusted_repo(cfg: &PrintRevoltConfig, repo_root: &Option<String>) -> (r: bool)
    ensures
        r == trusts(cfg@, repo_root.deep_view()),
{
    match repo_root {
        None => false,
        Some(root) => list_contains(&cfg.hooks.trusted_repo_roots, root.as_str()),
    }
}

/// Whether the audit log is written to the output too, by the value of a variable.
pub fn audit_to_stdout(value: Option<&str>) -> (r: bool)
    ensures
        r == (value matches Some(v) && (v@ == "1"@ || same_ignoring_case(v@, "true"@))),
{
    match value {
        None => false,
        Some(v) => str_eq(v, "1") || eq_ignore_ascii_case(v, "true"),
    }
}

/// Where the audit log of a user is kept.
pub fn audit_path(codex_home: &str) -> (r: String)
    ensures
        r@ == joined3(codex_home@, "printrevolt"@, "audit"@, "events.jsonl"@),
{
    join_path3(codex_home, "printrevolt", "audit", "events.jsonl")
}

/// A commands file of the known version.
pub fn usable_commands_file(file: CommandsFileV1) -> (r: Option<CommandsFileV1>)
    ensures
        r.deep_view() == (if file@.schema_version == "1"@ {
            Some(file@)
        } else {
            None
        }),
{
    if str_eq(file.schema_version.as_str(), "1") {
        Some(file)
    } else {
        None
    }
}

/// Commands by their identifiers, from position `i` on, stored into `acc`.
pub open spec fn by_id(s: Seq<CommandSpecV1View>, i: int, acc: Commands) -> Commands
    decreases s.len() - i,
{
    if i < 0 || i >= s.len() {
        acc
    } else {
        by_id(s, i + 1, put(acc, s[i].id, s[i]))
    }
}

/// The commands of a session: those in effect, or none where a file is not valid. The
/// file of a repository counts only where the repository is trusted.
pub open spec fn session_commands(
    trusted: bool,
    global: Option<CommandsFileV1View>,
    repo: Option<CommandsFileV1View>,
) -> Commands {
    match effective_commands(
        global,
        if trusted {
            repo
        } else {
            None
        },
    ) {
        Ok(m) => by_id(command_values(m), 0, Seq::empty()),
        Err(_) => Seq::empty(),
    }
}

fn index_commands(s: &Vec<CommandSpecV1>) -> (r: StrMap<CommandSpecV1>)
    ensures
        r@ == by_id(s.deep_view(), 0, Seq::empty()),
{
    let ghost all = s.deep_view();
    let mut out: StrMap<CommandSpecV1> = StrMap::new();
    let mut i: usize = 0;
    while i < s.len()
        invariant
            i <= s.len(),
            all == s.deep_view(),
            by_id(all, 0, Seq::empty()) == by_id(all, i as int, out@),
        decreases s.len() - i,
    {
        assert(all[i as int] == s[i as int]@);
        out.insert(s[i].id.clone(), s[i].dup());
        i = i + 1;
    }
    out
}

/// What is shown of templates.
pub open spec fn refs_of(s: Seq<TemplateView>) -> Seq<TemplateRefView> {
    s.map_values(|t: TemplateView| ref_of(t))
}

/// A session.
pub struct PrRuntime {
    pub cfg: PrintRevoltConfig,
    pub repo_root: Option<String>,
    pub vars: StrMap<String>,
    pub last_verify: Option<VerifyEvidence>,
    pub commands: StrMap<CommandSpecV1>,
    pub templates: Vec<TemplateRef>,
    pub policy: PolicyEngine,
}

/// What came of asking the hook about a tool call.
pub enum HookOutcome {
    /// No hook was to be asked.
    NotRun,
    /// The hook answered.
    Answered(HookResponseV2),
    /// The hook gave no answer.
    Failed(HookRunError),
}

/// What was decided about a tool call, and what the log is to say of it.
pub struct Decided {
    pub decision: ToolCallDecision,
    pub hook_audit: Option<AuditDecision>,
    pub policy_audit: Option<AuditDecision>,
}

/// What a [`Decided`] stands for.
#[verifier::ext_equal]
pub struct DecidedView {
    pub decision: ToolCallDecisionView,
    pub hook_audit: Option<AuditDecisionView>,
    pub policy_audit: Option<AuditDecisionView>,
}

impl View for Decided {
    type V = DecidedView;

    open spec fn view(&self) -> DecidedView {
        DecidedView {
            decision: self.decision@,
            hook_audit: self.hook_audit.deep_view(),
            policy_audit: self.policy_audit.deep_view(),
        }
    }
}

/// The decision about a call that is to run, in place of the one that was asked about.
pub open spec fn policy_verdict(
    verdict: ToolCallDecisionView,
    call: ToolCallView,
    candidate: ToolCallView,
) -> ToolCallDecisionView {
    if verdict.kind == DecisionKind::Allow && candidate != call {
        ToolCallDecisionView {
            kind: DecisionKind::Modify,
            reason_code: None,
            message: None,
            modified_call: Some(candidate),
        }
    } else {
        verdict
    }
}

/// What is decided about a call after the hook has had its say on it: the policy has the
/// last word, on the call as it is to run.
pub open spec fn after_hook(
    verdict: ToolCallDecisionView,
    call: ToolCallView,
    candidate: ToolCallView,
    hook_audit: Option<AuditDecisionView>,
) -> DecidedView {
    DecidedView {
        decision: policy_verdict(verdict, call, candidate),
        hook_audit,
        policy_audit: Some(AuditDecisionView { tool_call: candidate, decision: verdict }),
    }
}

/// The call that is to run: what the hook has put in place of it, if it has.
pub open spec fn candidate_of(call: ToolCallView, hook: HookOutcome) -> ToolCallView {
    match hook {
        HookOutcome::Answered(resp) => match (resp@.decision.kind, resp@.decision.modified_call) {
            (DecisionKind::Modify, Some(modified)) => modified,
            _ => call,
        },
        _ => call,
    }
}

/// What is decided about a tool call, given the policy's verdict on the call that is to
/// run.
pub open spec fn decided(
    call: ToolCallView,
    hook: HookOutcome,
    verdict: ToolCallDecisionView,
) -> DecidedView {
    match hook {
        HookOutcome::NotRun => after_hook(verdict, call, call, None),
        HookOutcome::Failed(e) => DecidedView {
            decision: blocked("PrHookFailed"@, "Hook failed: "@ + hook_error_text(e@)),
            hook_audit: None,
            policy_audit: None,
        },
        HookOutcome::Answered(resp) => {
            let entry = Some(
                AuditDecisionView { tool_call: call, decision: resp@.decision },
            );
            if resp@.decision.kind == DecisionKind::Block {
                DecidedView { decision: resp@.decision, hook_audit: entry, policy_audit: None }
            } else {
                after_hook(verdict, call, candidate_of(call, hook), entry)
            }
        },
    }
}

/// The decision about a tool call of a session that was not begun.
pub fn uninitialized_decision() -> (d: ToolCallDecision)
    ensures
        d@ == blocked(
            "PrRuntimeInitFailed"@,
            "PrintRevolt runtime was not initialized (on_session_start did not run)."@,
        ),
{
    ToolCallDecision::block(
        "PrRuntimeInitFailed",
        "PrintRevolt runtime was not initialized (on_session_start did not run).",
    )
}

/// The hook that is asked about a tool call, if any: one that a repository provides only
/// where the repository is trusted.
pub open spec fn hook_asked(cfg: PrintRevoltConfigView, repo_root: Option<Seq<char>>) -> Option<
    HookSpecView,
> {
    if !cfg.hooks.enabled {
        None
    } else {
        match cfg.hooks.before_tool {
            None => None,
            Some(def) => if def.is_repo_provided && !trusts(cfg, repo_root) {
                None
            } else {
                Some(
                    HookSpecView {
                        argv: def.argv,
                        timeout_ms: def.timeout_ms,
                        headless_only: def.headless_only,
                        is_repo_provided: def.is_repo_provided,
                    },
                )
            },
        }
    }
}

/// The evidence that a tool call gives.
pub open spec fn evidence_of(call: ToolCallView, outcome: ToolOutcomeView, now: TimestampView) -> VerifyEvidenceView {
    VerifyEvidenceView {
        recorded_at: now,
        command: match argv_like(call) {
            Some(argv) => argv,
            None => Seq::empty(),
        },
        success: outcome.success,
    }
}

impl PrRuntime {
    /// Begins a session: with the settings in effect, the commands of the user and, where it
    /// is trusted, of the repository, and the templates found.
    pub fn initialize(
        cfg: PrintRevoltConfig,
        repo_root: Option<String>,
        global_commands: Option<CommandsFileV1>,
        repo_commands: Option<CommandsFileV1>,
        templates: &Vec<Template>,
    ) -> (r: Result<Self, PolicyError>)
        ensures
            match first_invalid(dangerous_patterns(), 0) {
                Some(p) => r matches Err(PolicyError::InvalidRegex(q)) && q@ == p,
                None => {
                    &&& r matches Ok(s)
                    &&& s.cfg@ == cfg@
                    &&& s.repo_root.deep_view() == repo_root.deep_view()
                    &&& s.vars@ == cfg@.vars
                    &&& s.last_verify is None
                    &&& s.commands@ == session_commands(
                        trusts(cfg@, repo_root.deep_view()),
                        global_commands.deep_view(),
                        repo_commands.deep_view(),
                    )
                    &&& s.templates.deep_view() == refs_of(templates.deep_view())
                    &&& s.policy.config() == cfg@.policy
                },
            },
    {
        let trusted = is_trusted_repo(&cfg, &repo_root);
        let repo: Option<CommandsFileV1> = if trusted {
            repo_commands
        } else {
            None
        };
        let commands = match CommandsFileV1::merge_effective(global_commands, repo) {
            Ok(f) => index_commands(&f.commands),
            Err(_) => StrMap::new(),
        };
        let policy = match PolicyEngine::new(cfg.policy.dup()) {
            Err(e) => {
                return Err(e);
            },
            Ok(p) => p,
        };
        let mut refs: Vec<TemplateRef> = Vec::new();
        let mut i: usize = 0;
        while i < templates.len()
            invariant
                i <= templates.len(),
                refs@.len() == i,
                forall|k: int| 0 <= k < i ==> (#[trigger] refs@[k])@ == ref_of(templates@[k]@),
            decreases templates.len() - i,
        {
            refs.push(template_ref(&templates[i]));
            i = i + 1;
        }
        assert(refs.deep_view() =~= refs_of(templates.deep_view()));
        let vars = cfg.vars.dup();
        Ok(
            PrRuntime {
                cfg,
                repo_root,
                vars,
                last_verify: None,
                commands,
                templates: refs,
                policy,
            },
        )
    }

    /// What is told about an event of the session.
    pub fn context(&self, session_id: &str, turn_id: &str, now: &Timestamp, cwd: &str) -> (r:
        SessionContext)
        ensures
            r@ == (SessionContextView {
                session_id: session_id@,
                turn_id: Some(turn_id@),
                triggered_at: now@,
                cwd: cwd@,
                repo_root: self.repo_root.deep_view(),
            }),
    {
        SessionContext {
            session_id: session_id.to_owned(),
            turn_id: Some(turn_id.to_owned()),
            triggered_at: now.dup(),
            cwd: cwd.to_owned(),
            repo_root: self.repo_root.dup(),
        }
    }

    /// The hook that is asked about a tool call, and what it is told.
    pub fn before_tool_hook(&self, ctx: SessionContext, call: &ToolCall) -> (r: Option<
        (HookSpec, HookPayloadV2),
    >)
        ensures
            (match r {
                Some((h, p)) => Some((h@, p@)),
                None => None,
            }) == (match hook_asked(self.cfg@, self.repo_root.deep_view()) {
                None => None,
                Some(h) => Some(
                    (
                        h,
                        HookPayloadV2View {
                            ctx: ctx@,
                            event_kind: LifecycleEventKind::BeforeTool,
                            tool_call: Some(call@),
                            tool_outcome: None,
                            vars: self.vars@,
                        },
                    ),
                ),
            }),
    {
        if !self.cfg.hooks.enabled {
            return None;
        }
        match &self.cfg.hooks.before_tool {
            None => None,
            Some(def) => {
                if def.is_repo_provided && !is_trusted_repo(&self.cfg, &self.repo_root) {
                    return None;
                }
                let hook = HookSpec {
                    argv: def.argv.dup(),
                    timeout_ms: def.timeout_ms,
                    headless_only: def.headless_only,
                    is_repo_provided: def.is_repo_provided,
                };
                let payload = HookPayloadV2 {
                    ctx,
                    event_kind: LifecycleEventKind::BeforeTool,
                    tool_call: Some(call.dup()),
                    tool_outcome: None,
                    vars: self.vars.dup(),
                };
                Some((hook, payload))
            },
        }
    }

    /// Decides about a tool call, after the hook has had its say.
    pub fn before_tool_call(&self, call: &ToolCall, hook: HookOutcome) -> (r: Decided)
        ensures
            r@ == decided(
                call@,
                hook,
                decision(self.policy.config(), dangerous(candidate_of(call@, hook))),
            ),
    {
        let mut candidate = call.dup();
        let mut hook_audit: Option<AuditDecision> = None;
        match hook {
            HookOutcome::NotRun => {},
            HookOutcome::Failed(e) => {
                let m = e.message();
                let text = cat2("Hook failed: ", m.as_str());
                return Decided {
                    decision: ToolCallDecision::block("PrHookFailed", text.as_str()),
                    hook_audit: None,
                    policy_audit: None,
                };
            },
            HookOutcome::Answered(resp) => {
                hook_audit = Some(
                    AuditDecision { tool_call: call.dup(), decision: resp.decision.dup() },
                );
                match resp.decision.kind {
                    DecisionKind::Allow => {},
                    DecisionKind::Block => {
                        return Decided {
                            decision: resp.decision,
                            hook_audit,
                            policy_audit: None,
                        };
                    },
                    DecisionKind::Modify => {
                        if let Some(modified) = resp.decision.modified_call {
                            candidate = modified;
                        }
                    },
                }
            },
        }
        let verdict = self.policy.evaluate_tool_call(&candidate);
        let policy_audit = Some(
            AuditDecision { tool_call: candidate.dup(), decision: verdict.dup() },
        );
        let decision = if verdict.kind == DecisionKind::Allow && !candidate.same(call) {
            ToolCallDecision::modify(candidate)
        } else {
            verdict
        };
        Decided { decision, hook_audit, policy_audit }
    }

    /// Takes note of a tool call that has ended: one that verifies is evidence.
    pub fn after_tool_call(&mut self, call: &ToolCall, outcome: &ToolOutcome, now: &Timestamp)
        ensures
            final(self).last_verify.deep_view() == evidence_after(
                old(self).policy.config(),
                old(self).last_verify.deep_view(),
                call@,
                outcome@,
                now@,
            ),
            final(self).cfg == old(self).cfg,
            final(self).repo_root == old(self).repo_root,
            final(self).vars == old(self).vars,
            final(self).commands == old(self).commands,
            final(self).templates == old(self).templates,
            final(self).policy == old(self).policy,
    {
        if self.policy.should_record_verify(call) {
            let command = match extract_argv_like(call) {
                Some(argv) => argv,
                None => {
                    let none: Vec<String> = Vec::new();
                    assert(none.deep_view() =~= Seq::empty());
                    none
                },
            };
            self.last_verify = Some(
                VerifyEvidence { recorded_at: now.dup(), command, success: outcome.success },
            );
        }
    }

    /// What stands against finishing, in words.
    pub fn finalize_gate(&self, now: &Timestamp) -> (r: Option<String>)
        ensures
            r.deep_view() == gate_text(
                finalize_block(self.policy.config(), now@, self.last_verify.deep_view()),
            ),
    {
        match self.policy.evaluate_finalize(now, self.last_verify.as_ref()) {
            None => None,
            Some(d) => Some(denial_message(d)),
        }
    }
}

/// A denial in words.
pub open spec fn denial_text(d: ToolCallDecisionView) -> Seq<char> {
    "["@ + (match d.reason_code {
        Some(c) => c,
        None => "PrFinalizeDenied"@,
    }) + "] "@ + (match d.message {
        Some(m) => m,
        None => "Finalize denied by policy."@,
    })
}

/// What stands against finishing, in words.
pub open spec fn gate_text(d: Option<ToolCallDecisionView>) -> Option<Seq<char>> {
    match d {
        None => None,
        Some(d) => Some(denial_text(d)),
    }
}

/// A denial in words.
pub fn denial_message(d: ToolCallDecision) -> (r: String)
    ensures
        r@ == denial_text(d@),
{
    let code = match d.reason_code {
        Some(c) => c,
        None => "PrFinalizeDenied".to_owned(),
    };
    let message = match d.message {
        Some(m) => m,
        None => "Finalize denied by policy.".to_owned(),
    };
    cat4("[", code.as_str(), "] ", message.as_str())
}

/// Whatever a hook says, no dangerous call runs under a policy that denies them: what is
/// allowed is not dangerous, and neither is what a hook has put in its place.
pub proof fn hooks_cannot_bypass_the_policy(
    cfg: PolicyConfigView,
    call: ToolCallView,
    hook: HookOutcome,
)
    requires
        cfg.enabled,
        cfg.deny_dangerous_always,
    ensures
        ({
            let d = decided(
                call,
                hook,
                decision(cfg, dangerous(candidate_of(call, hook))),
            ).decision;
            &&& d.kind == DecisionKind::Allow ==> !dangerous(call)
            &&& d.kind == DecisionKind::Modify ==> d.modified_call is Some && !dangerous(
                d.modified_call->0,
            )
        }),
{
}

/// A hook that blocks a call, or fails, keeps it from running.
pub proof fn blocking_hook_prevails(
    call: ToolCallView,
    hook: HookOutcome,
    verdict: ToolCallDecisionView,
)
    requires
        hook is Failed || (hook matches HookOutcome::Answered(resp) && resp@.decision.kind
            == DecisionKind::Block),
    ensures
        decided(call, hook, verdict).decision.kind == DecisionKind::Block,
{
}

/// The evidence of a session after a tool call.
pub open spec fn evidence_after(
    cfg: PolicyConfigView,
    before: Option<VerifyEvidenceView>,
    call: ToolCallView,
    outcome: ToolOutcomeView,
    at: TimestampView,
) -> Option<VerifyEvidenceView> {
    if is_verify(cfg, argv_like(call)) {
        Some(evidence_of(call, outcome, at))
    } else {
        before
    }
}

/// A session that must verify may finish after a verify command that succeeded, until its
/// evidence is too old, and may not after one that failed, whatever came before it.
pub proof fn last_verification_counts(
    cfg: PolicyConfigView,
    before: Option<VerifyEvidenceView>,
    call: ToolCallView,
    outcome: ToolOutcomeView,
    at: TimestampView,
    now: TimestampView,
)
    requires
        cfg.enabled,
        cfg.verify.required,
        is_verify(cfg, argv_like(call)),
    ensures
        finalize_block(cfg, now, evidence_after(cfg, before, call, outcome, at)) is None <==> {
            &&& outcome.success
            &&& nanos(now) - nanos(at) <= max_age_nanos(cfg.verify.max_age_ms)
        },
{
}

/// Tool calls that do not verify neither open the way to finishing nor close it.
pub proof fn other_calls_do_not_count(
    cfg: PolicyConfigView,
    before: Option<VerifyEvidenceView>,
    call: ToolCallView,
    outcome: ToolOutcomeView,
    at: TimestampView,
    now: TimestampView,
)
    requires
        !is_verify(cfg, argv_like(call)),
    ensures
        finalize_block(cfg, now, evidence_after(cfg, before, call, outcome, at))
            == finalize_block(cfg, now, before),
{
}

/// A hook that a repository brings along is asked only where the repository is trusted.
pub proof fn repository_hooks_need_trust(cfg: PrintRevoltConfigView, repo_root: Option<Seq<char>>)
    ensures
        hook_asked(cfg, repo_root) matches Some(h) ==> (h.is_repo_provided ==> trusts(
            cfg,
            repo_root,
        )),
{
}

/// Commands that a repository brings along count only where the repository is trusted.
pub proof fn repository_commands_need_trust(
    global: Option<CommandsFileV1View>,
    repo: Option<CommandsFileV1View>,
)
    ensures
        session_commands(false, global, repo) == session_commands(false, global, None),
{
}

} // verus!
