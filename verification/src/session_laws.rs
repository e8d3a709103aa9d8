//! What holds of every decision of a session.

use vstd::prelude::*;
use crate::hooks::hook_error_text;
use crate::json::{field, parsed, JsonView};
use crate::pattern::pattern_matches;
use crate::policy::{argv_like, command_text, dangerous, decision, finalize_block, is_verify};
use crate::runtime::{
    by_id, candidate_of, decided, denial_text, evidence_after, gate_text, hook_asked,
    session_commands, trusts, HookOutcome,
};
use crate::strmap::{lookup, lookup_at, lookup_put, lookup_some, put, put_sorted, rank, sorted};
use crate::text::{is_blank, join};
use crate::types::commands::{
    collected, collected_file, command_values, effective_commands, effective_commands_are_valid,
    CommandSpecV1View, Commands, CommandsFileV1View,
};
use crate::types::config::{
    default_print_revolt_config, effective_ui, PolicyConfigView, PrintRevoltConfigView,
    VerifyEvidenceView,
};
use crate::types::time::TimestampView;
use crate::types::tool::{
    DecisionKind, ToolCallDecisionView, ToolCallView, ToolInputView, ToolOutcomeView,
};

verus! {

/// Whether a command is one that destroys data: it removes files recursively and by force,
/// deletes whole trees without asking, or formats a drive.
pub open spec fn destroys(text: Seq<char>) -> bool {
    ||| pattern_matches("(?i)\\brm\\b.*\\s-(?:[^\\n]*r[^\\n]*f|[^\\n]*f[^\\n]*r)\\b"@, text)
    ||| pattern_matches("(?i)\\bdel\\b\\s+/s\\s+/q\\b"@, text)
    ||| pattern_matches("(?i)\\bformat\\b\\s+[a-z]:"@, text)
}

/// Whether a call runs a command: a shell call the words that it gives, joined by blanks; a call
/// of the function `shell_command` the text under `command` in its arguments.
pub open spec fn runs_text(call: ToolCallView, text: Seq<char>) -> bool {
    match call.input {
        ToolInputView::LocalShell { command, .. } => text == join(command, " "@),
        ToolInputView::Function { arguments } => {
            &&& call.tool_name == "shell_command"@
            &&& parsed(arguments) is Ok
            &&& field(parsed(arguments)->Ok_0, "command"@) == Some(JsonView::Str(text))
        },
        _ => false,
    }
}

/// A call is blocked exactly where the policy is on and denies what is dangerous, and the call
/// runs a command that destroys data; the decision says why. Any other call is allowed as it
/// is.
pub proof fn destroying_calls_are_blocked(cfg: PolicyConfigView, call: ToolCallView)
    ensures
        ({
            let d = decision(cfg, dangerous(call));
            let denied = cfg.enabled && cfg.deny_dangerous_always && exists|text: Seq<char>| #[trigger]
                runs_text(call, text) && destroys(text);
            &&& denied ==> d.kind == DecisionKind::Block && d.reason_code == Some(
                "PrDangerousCommandDenied"@,
            ) && d.message is Some && d.modified_call is None
            &&& !denied ==> d.kind == DecisionKind::Allow && d.reason_code is None
                && d.message is None && d.modified_call is None
        }),
{
    let patterns = crate::policy::dangerous_patterns();
    assert forall|text: Seq<char>| #[trigger]
        runs_text(call, text) <==> command_text(call) == Some(text) by {}
    if let Some(text) = command_text(call) {
        assert(runs_text(call, text));
        if destroys(text) {
            assert(pattern_matches(patterns[0], text) || pattern_matches(patterns[1], text)
                || pattern_matches(patterns[2], text));
        }
    }
}

/// The words that a call runs: those of a shell call, or the whole command of the function
/// `shell_command` as one word.
pub open spec fn runs_words(call: ToolCallView, words: Seq<Seq<char>>) -> bool {
    match call.input {
        ToolInputView::LocalShell { command, .. } => words == command,
        ToolInputView::Function { .. } => words.len() == 1 && runs_text(call, words[0]),
        _ => false,
    }
}

/// A call verifies exactly where the policy is on and the words that it runs start with one of
/// the verify commands; it is then evidence, of when it ended, what it ran and whether it
/// succeeded, in place of all evidence before. Any other call leaves the evidence as it is.
pub proof fn verify_calls_are_evidence(
    cfg: PolicyConfigView,
    before: Option<VerifyEvidenceView>,
    call: ToolCallView,
    words: Seq<Seq<char>>,
    outcome: ToolOutcomeView,
    at: TimestampView,
    k: int,
    n: int,
)
    ensures
        ({
            let e = evidence_after(cfg, before, call, outcome, at);
            let prefixes = cfg.verify.command_prefixes;
            &&& cfg.enabled && runs_words(call, words) && 0 <= k < prefixes.len() && prefixes[k]
                == words.subrange(0, n) && 0 <= n <= words.len() ==> e == Some(
                VerifyEvidenceView { recorded_at: at, command: words, success: outcome.success },
            )
            &&& !cfg.enabled ==> e == before
            &&& runs_words(call, words) && (forall|i: int, m: int|
                0 <= i < prefixes.len() && 0 <= m <= words.len() ==> #[trigger] prefixes[i]
                    != #[trigger] words.subrange(0, m)) ==> e == before
            &&& (forall|w: Seq<Seq<char>>| !#[trigger] runs_words(call, w)) ==> e == before
        }),
{
    let prefixes = cfg.verify.command_prefixes;
    assert forall|w: Seq<Seq<char>>| #[trigger]
        runs_words(call, w) implies argv_like(call) == Some(w) by {
        if let ToolInputView::Function { .. } = call.input {
            assert(w =~= seq![w[0]]);
        }
    }
    if argv_like(call) is Some {
        let w = argv_like(call)->0;
        assert(runs_words(call, w));
    }
    if is_verify(cfg, argv_like(call)) && runs_words(call, words) {
        let i = choose|i: int|
            0 <= i < prefixes.len() && crate::text::list_prefix(words, #[trigger] prefixes[i]);
        assert(prefixes[i] == words.subrange(0, prefixes[i].len() as int));
    }
    if 0 <= k < prefixes.len() && 0 <= n <= words.len() && prefixes[k] == words.subrange(0, n) {
        assert(prefixes[k].len() == n);
    }
}

/// Whether evidence is at most so many milliseconds old.
pub open spec fn at_most_old(now: TimestampView, at: TimestampView, ms: int) -> bool {
    (now.secs - at.secs) * 1000000000 + (now.nanos - at.nanos) <= ms * 1000000
}

/// Finishing is refused, with a reason, exactly where the policy is on, requires verification,
/// and there is no evidence, or it is of a failure, or it is older than the policy allows. An
/// age that is out of range allows none.
pub proof fn finishing_is_gated(
    cfg: PolicyConfigView,
    now: TimestampView,
    evidence: Option<VerifyEvidenceView>,
)
    ensures
        ({
            let bound = if cfg.verify.max_age_ms <= i64::MAX {
                cfg.verify.max_age_ms as int
            } else {
                0
            };
            let r = finalize_block(cfg, now, evidence);
            let open = !cfg.enabled || !cfg.verify.required || evidence is Some
                && evidence->0.success && at_most_old(
                now,
                evidence->0.recorded_at,
                bound,
            );
            &&& r is None <==> open
            &&& r is Some ==> r->0.kind == DecisionKind::Block && r->0.reason_code == Some(
                "PrVerifyExecutionDenied"@,
            ) && r->0.message is Some
            &&& gate_text(r) == (match r {
                None => None,
                Some(d) => Some("["@ + d.reason_code->0 + "] "@ + d.message->0),
            })
        }),
{
}

/// What is refused says why in words: the code in brackets and the message, each with a stand-in
/// where it is missing.
pub proof fn denials_are_worded(d: ToolCallDecisionView)
    ensures
        denial_text(d) == "["@ + (if d.reason_code is Some {
            d.reason_code->0
        } else {
            "PrFinalizeDenied"@
        }) + "] "@ + (if d.message is Some {
            d.message->0
        } else {
            "Finalize denied by policy."@
        }),
{
}

/// A call is decided step by step: a hook that fails blocks it, with its error; one that blocks
/// is followed to the letter; otherwise the policy decides about the call that the hook asks for,
/// or about the call itself. What the policy allows runs as it is, or, where the hook has put
/// another call in its place, as that call. The log is told what the hook and the policy said of
/// which call.
pub proof fn calls_are_decided_step_by_step(
    call: ToolCallView,
    hook: HookOutcome,
    verdict: ToolCallDecisionView,
)
    ensures
        ({
            let r = decided(call, hook, verdict);
            let instead = match hook {
                HookOutcome::Answered(resp) => if resp@.decision.kind == DecisionKind::Modify
                    && resp@.decision.modified_call is Some {
                    resp@.decision.modified_call->0
                } else {
                    call
                },
                _ => call,
            };
            &&& candidate_of(call, hook) == instead
            &&& hook matches HookOutcome::Failed(e) ==> {
                &&& r.decision.kind == DecisionKind::Block
                &&& r.decision.reason_code == Some("PrHookFailed"@)
                &&& r.decision.message == Some("Hook failed: "@ + hook_error_text(e@))
                &&& r.hook_audit is None && r.policy_audit is None
            }
            &&& hook matches HookOutcome::Answered(resp) ==> {
                &&& r.hook_audit is Some && r.hook_audit->0.tool_call == call
                    && r.hook_audit->0.decision == resp@.decision
                &&& resp@.decision.kind == DecisionKind::Block ==> r.decision == resp@.decision
                    && r.policy_audit is None
            }
            &&& hook is NotRun ==> r.hook_audit is None
            &&& hook is NotRun || (hook matches HookOutcome::Answered(resp) && resp@.decision.kind
                != DecisionKind::Block) ==> {
                &&& r.policy_audit is Some && r.policy_audit->0.tool_call == instead
                    && r.policy_audit->0.decision == verdict
                &&& verdict.kind != DecisionKind::Allow || instead == call ==> r.decision
                    == verdict
                &&& verdict.kind == DecisionKind::Allow && instead != call ==> r.decision.kind
                    == DecisionKind::Modify && r.decision.modified_call == Some(instead)
            }
        }),
{
}

/// A hook is asked exactly where hooks are on, there is one, and the repository is one of the
/// trusted ones where it is the repository's; it is asked as it is set.
pub proof fn hook_is_asked_where_set(cfg: PrintRevoltConfigView, repo_root: Option<Seq<char>>)
    ensures
        ({
            let trusted = repo_root is Some && cfg.hooks.trusted_repo_roots.contains(repo_root->0);
            let asked = cfg.hooks.enabled && cfg.hooks.before_tool is Some && (
            cfg.hooks.before_tool->0.is_repo_provided ==> trusted);
            &&& trusts(cfg, repo_root) == trusted
            &&& hook_asked(cfg, repo_root) is Some <==> asked
            &&& asked ==> {
                let h = hook_asked(cfg, repo_root)->0;
                let def = cfg.hooks.before_tool->0;
                &&& h.argv == def.argv
                &&& h.timeout_ms == def.timeout_ms
                &&& h.headless_only == def.headless_only
                &&& h.is_repo_provided == def.is_repo_provided
            }
        }),
{
}

/// The last command of a file with an identifier.
pub open spec fn command_in(f: Option<CommandsFileV1View>, id: Seq<char>, c: CommandSpecV1View) -> bool {
    f matches Some(f) && exists|i: int|
        0 <= i < f.commands.len() && #[trigger] f.commands[i] == c && c.id == id && forall|j: int|
            i < j < f.commands.len() ==> (#[trigger] f.commands[j]).id != id
}

/// Whether every command of a file has an identifier and something to run.
pub open spec fn commands_are_usable(f: Option<CommandsFileV1View>) -> bool {
    f matches Some(f) ==> forall|i: int|
        0 <= i < f.commands.len() ==> !is_blank((#[trigger] f.commands[i]).id)
            && f.commands[i].argv.len() > 0
}

proof fn collected_so(cmds: Seq<CommandSpecV1View>, i: int, acc: Commands, id: Seq<char>)
    requires
        0 <= i <= cmds.len(),
        sorted(acc),
    ensures
        collected(cmds, i, acc) is Ok <==> forall|k: int|
            i <= k < cmds.len() ==> !is_blank((#[trigger] cmds[k]).id) && cmds[k].argv.len() > 0,
        collected(cmds, i, acc) matches Ok(m) ==> {
            &&& sorted(m)
            &&& (forall|k: int| i <= k < cmds.len() ==> (#[trigger] cmds[k]).id != id) ==> lookup(
                m,
                id,
            ) == lookup(acc, id)
            &&& forall|k: int|
                i <= k < cmds.len() && (#[trigger] cmds[k]).id == id && (forall|j: int|
                    k < j < cmds.len() ==> (#[trigger] cmds[j]).id != id) ==> lookup(m, id) == Some(
                    cmds[k],
                )
        },
    decreases cmds.len() - i,
{
    if i < cmds.len() {
        if crate::types::commands::command_problem(cmds[i]) is None {
            let next = put(acc, cmds[i].id, cmds[i]);
            put_sorted(acc, cmds[i].id, cmds[i]);
            lookup_put(acc, cmds[i].id, cmds[i], id);
            collected_so(cmds, i + 1, next, id);
        }
    }
}

/// Whether a file has a command with an identifier.
pub open spec fn names_command(f: Option<CommandsFileV1View>, id: Seq<char>) -> bool {
    f matches Some(f) && exists|i: int|
        0 <= i < f.commands.len() && (#[trigger] f.commands[i]).id == id
}

proof fn collected_from(f: Option<CommandsFileV1View>, acc: Commands, id: Seq<char>, c: CommandSpecV1View)
    requires
        sorted(acc),
    ensures
        ({
            let r = collected_file(f, acc);
            &&& r is Ok <==> commands_are_usable(f)
            &&& r is Ok ==> sorted(r->Ok_0)
            &&& r is Ok && !names_command(f, id) ==> lookup(r->Ok_0, id) == lookup(acc, id)
            &&& r is Ok && command_in(f, id, c) ==> lookup(r->Ok_0, id) == Some(c)
        }),
{
    if f is Some {
        collected_so(f->0.commands, 0, acc, id);
    }
}

/// The commands in effect: they are there exactly where every command of both files is usable;
/// a command of the repository comes before a global one, and in either file the last one with
/// an identifier counts. There are no others.
pub proof fn commands_in_effect(
    global: Option<CommandsFileV1View>,
    repo: Option<CommandsFileV1View>,
    id: Seq<char>,
    c: CommandSpecV1View,
)
    ensures
        ({
            let r = effective_commands(global, repo);
            &&& r is Ok <==> commands_are_usable(global) && commands_are_usable(repo)
            &&& r is Ok ==> sorted(r->Ok_0)
            &&& r is Ok && command_in(repo, id, c) ==> lookup(r->Ok_0, id) == Some(c)
            &&& r is Ok && !names_command(repo, id) && command_in(global, id, c) ==> lookup(
                r->Ok_0,
                id,
            ) == Some(c)
            &&& r is Ok && !names_command(repo, id) && !names_command(global, id) ==> lookup(
                r->Ok_0,
                id,
            ) is None
        }),
{
    let none: Commands = Seq::empty();
    lookup_some(none, id);
    collected_from(global, none, id, c);
    if let Ok(base) = collected_file(global, none) {
        collected_from(repo, base, id, c);
    }
}

proof fn indexed_by_id(m: Commands, i: int, acc: Commands, id: Seq<char>)
    requires
        crate::types::commands::well_kept(m),
        sorted(acc),
        0 <= i <= m.len(),
    ensures
        sorted(by_id(command_values(m), i, acc)),
        lookup(by_id(command_values(m), i, acc), id) == (if lookup(m, id) is Some && rank(m, id)
            >= i {
            lookup(m, id)
        } else {
            lookup(acc, id)
        }),
    decreases m.len() - i,
{
    let s = command_values(m);
    lookup_some(m, id);
    if i < m.len() {
        assert(s[i] == m[i].1);
        assert(m[i].1.id == m[i].0);
        lookup_at(m, i);
        put_sorted(acc, s[i].id, s[i]);
        lookup_put(acc, s[i].id, s[i], id);
        indexed_by_id(m, i + 1, put(acc, s[i].id, s[i]), id);
    }
}

/// A session has the commands in effect, each under its identifier; those of a repository that
/// is not trusted are left out, and a file that is not usable leaves it without any.
pub proof fn session_has_the_commands_in_effect(
    trusted: bool,
    global: Option<CommandsFileV1View>,
    repo: Option<CommandsFileV1View>,
    id: Seq<char>,
)
    ensures
        ({
            let counted = if trusted {
                repo
            } else {
                None
            };
            lookup(session_commands(trusted, global, repo), id) == match effective_commands(
                global,
                counted,
            ) {
                Ok(m) => lookup(m, id),
                Err(_) => None,
            }
        }),
{
    let counted = if trusted {
        repo
    } else {
        None
    };
    effective_commands_are_valid(global, counted);
    let none: Commands = Seq::empty();
    lookup_some(none, id);
    if let Ok(m) = effective_commands(global, counted) {
        lookup_some(m, id);
        indexed_by_id(m, 0, none, id);
    }
}

/// Without settings nothing is left open: calls that destroy data are blocked, hooks of a
/// repository are not run, its commands do not count, and pipelines and workflows are off.
pub proof fn defaults_are_safe(call: ToolCallView, repo_root: Option<Seq<char>>)
    ensures
        ({
            let cfg = default_print_revolt_config();
            &&& (exists|text: Seq<char>| #[trigger] runs_text(call, text) && destroys(text))
                ==> decision(cfg.policy, dangerous(call)).kind == DecisionKind::Block
            &&& hook_asked(cfg, repo_root) is None
            &&& !trusts(cfg, repo_root)
            &&& cfg.audit.enabled
            &&& cfg.audit.redact_patterns.len() > 0
            &&& !cfg.pipelines.enabled
            &&& !cfg.workflows.enabled
        }),
{
    destroying_calls_are_blocked(default_print_revolt_config().policy, call);
}

/// How templates are offered to an agent: as the agent's own settings say, each for itself, and
/// else as the general ones do.
pub proof fn agents_override_how_templates_are_offered(
    cfg: PrintRevoltConfigView,
    id: Seq<char>,
)
    ensures
        ({
            let r = effective_ui(cfg, Some(id));
            let own = lookup(cfg.agents, id);
            &&& own is Some && own->0.templates.selection_mode is Some ==> r.selection_mode
                == own->0.templates.selection_mode->0
            &&& own is Some && own->0.templates.selection_mode is None ==> r.selection_mode
                == cfg.templates.selection_mode
            &&& own is Some && own->0.templates.default_for_picker_template_id is Some
                ==> r.default_for_picker_template_id
                == own->0.templates.default_for_picker_template_id->0
            &&& own is Some && own->0.templates.default_for_picker_template_id is None
                ==> r.default_for_picker_template_id == cfg.templates.default_for_picker_template_id
            &&& own is None ==> r == cfg.templates
            &&& effective_ui(cfg, None) == cfg.templates
        }),
{
}

} // verus!
