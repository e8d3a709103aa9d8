//! Stepwise execution of a pipeline.

use vstd::prelude::*;
use crate::digest::{json_digest, sha256_json};
use crate::json::{
    at_pointer, compact_text, found_at, json_object, json_str, json_strs, parse, parsed, str_array,
    to_text, Json, JsonView,
};
use crate::pattern::{captures, compile, is_match, pattern_error, pattern_groups, pattern_matches};
use crate::pipelines::model::{
    no_facts, ApprovalMode, ApprovalScope, Cursor, CursorView, ExtractParser, ExtractParserView,
    ExtractSource, NormalizeOp, Part, PartView, Pipeline, PipelineAction, PipelineActionView,
    PipelineError, PipelineErrorView, PipelineFacts, PipelineFactsView, PipelineLimits, PipelinePhase,
    PipelineRunContext, PipelineRunContextView, PipelineRunState, PipelineRunStateView,
    PipelineView, WaitingFor, WaitingForView,
};
use crate::strmap::{lookup, put, StrMap};
use crate::text::{
    byte_len, bytes_len, cat2, cat3, cat6, cut, cut_string, debug_list, debug_strings, has_prefix,
    lowercased, starts_with, str_eq, to_lowercase, trim, trim_string, Duplicate,
};
use crate::types::commands::{ChildProcessPolicy, CommandSpecV1, CommandSpecV1View};
use crate::types::templating::{
    render_template, rendered, template_error_text, TemplateContext, TemplateContextView,
};
use crate::types::tool::{
    ToolCall, ToolCallView, ToolInput, ToolInputView, ToolKind, ToolOutcome, ToolOutcomeView,
};

verus! {

/// What turns the identifier of a command into the command.
pub trait CommandResolver {
    /// The command that an identifier stands for.
    open spec fn resolves(&self, command_id: Seq<char>) -> Option<CommandSpecV1View> {
        arbitrary()
    }

    fn resolve(&self, command_id: &str) -> (r: Option<CommandSpecV1>)
        ensures
            r.deep_view() == self.resolves(command_id@),
    ;
}

impl CommandResolver for StrMap<CommandSpecV1> {
    open spec fn resolves(&self, command_id: Seq<char>) -> Option<CommandSpecV1View> {
        lookup(self@, command_id)
    }

    fn resolve(&self, command_id: &str) -> (r: Option<CommandSpecV1>) {
        match self.get(command_id) {
            Some(c) => Some(c.dup()),
            None => None,
        }
    }
}

/// The most bytes of an output that a value is looked for in.
pub const MAX_INPUT_BYTES: usize = 32 * 1024;

/// The most bytes of an extracted value that are kept.
pub const MAX_OUT_BYTES: usize = 1024;

/// The longest pattern that a value may be extracted with, in bytes.
pub const MAX_PATTERN_BYTES: usize = 512;

/// The outcome of a step: the state after it, and its result. There is none where
/// a text would be cut inside a character or the count of cycles is used up.
pub type Outcome = Option<
    (PipelineRunStateView, Result<PipelineActionView, PipelineErrorView>),
>;

/// What the templates of a run are rendered from.
pub open spec fn run_context(s: PipelineRunStateView) -> TemplateContextView {
    TemplateContextView {
        session_id: s.ctx.session_id,
        task_id: s.ctx.task_id,
        turn_id: s.ctx.turn_id,
        vars: s.vars,
        facts: s.facts.derived,
    }
}

/// A template of a run, rendered.
pub open spec fn run_text(s: PipelineRunStateView, template: Seq<char>) -> Result<
    Seq<char>,
    PipelineErrorView,
> {
    match rendered(template, run_context(s)) {
        Ok(t) => Ok(t),
        Err(e) => Err(PipelineErrorView::TemplateError(template_error_text(e))),
    }
}

/// The output of the last tool that a source names.
pub open spec fn source_text(s: PipelineRunStateView, source: ExtractSource) -> Seq<char> {
    match source {
        ExtractSource::Stdout => s.facts.last_tool_output_stdout,
        ExtractSource::Stderr => s.facts.last_tool_output_stderr,
        ExtractSource::Combined => match s.facts.last_tool_outcome {
            Some(o) => o.output_preview,
            None => Seq::empty(),
        },
    }
}

/// An extraction that failed.
pub open spec fn extract_failed(message: Seq<char>) -> Result<Seq<char>, PipelineErrorView> {
    Err(PipelineErrorView::ExtractFailed(message))
}

/// What is kept of an extracted value.
pub open spec fn kept(s: Seq<char>) -> Option<Result<Seq<char>, PipelineErrorView>> {
    match cut(s, MAX_OUT_BYTES as nat) {
        Some(t) => Some(Ok(t)),
        None => None,
    }
}

/// The text of a value found in a document: a string as it is, anything else in
/// its compact form.
pub open spec fn found_text(found: JsonView) -> Seq<char> {
    match found {
        JsonView::Str(s) => s,
        other => compact_text(other),
    }
}

/// The group that an extraction asks for, the whole match where it names none.
pub open spec fn chosen_group(groups: Option<Seq<Option<Seq<char>>>>, group: Option<usize>) -> Result<
    Seq<char>,
    PipelineErrorView,
> {
    match groups {
        None => extract_failed("no match"@),
        Some(gs) => match group {
            Some(idx) => if idx < gs.len() && gs[idx as int] is Some {
                Ok(gs[idx as int]->0)
            } else {
                extract_failed("missing capture"@)
            },
            None => if gs.len() > 0 && gs[0] is Some {
                Ok(gs[0]->0)
            } else {
                Ok(Seq::empty())
            },
        },
    }
}

/// What a parser finds in a text.
pub open spec fn parser_result(parser: ExtractParserView, input: Seq<char>) -> Result<
    Seq<char>,
    PipelineErrorView,
> {
    match parser {
        ExtractParserView::JsonPath { json_path } => if !has_prefix(json_path, "/"@) {
            extract_failed("json_path must be a JSON pointer starting with '/'"@)
        } else {
            match parsed(input) {
                Err(e) => extract_failed("json parse failed: "@ + e),
                Ok(v) => match found_at(v, json_path) {
                    None => extract_failed("json_path not found: "@ + json_path),
                    Some(found) => Ok(found_text(found)),
                },
            }
        },
        ExtractParserView::Regex { pattern, group } => if bytes_len(pattern) > MAX_PATTERN_BYTES {
            extract_failed("regex too large"@)
        } else {
            match pattern_error(pattern) {
                Some(e) => extract_failed("invalid regex: "@ + e),
                None => chosen_group(pattern_groups(pattern, input), group),
            }
        },
    }
}

/// The value that a parser finds in the output of the last tool.
pub open spec fn extracted(
    s: PipelineRunStateView,
    source: ExtractSource,
    parser: ExtractParserView,
) -> Option<Result<Seq<char>, PipelineErrorView>> {
    if s.facts.last_tool_outcome is None {
        Some(Err(PipelineErrorView::MissingToolOutcome))
    } else {
        match cut(source_text(s, source), MAX_INPUT_BYTES as nat) {
            None => None,
            Some(input) => match parser_result(parser, input) {
                Err(e) => Some(Err(e)),
                Ok(t) => kept(t),
            },
        }
    }
}

/// A value after the clean-ups from position `i` on.
pub open spec fn normalized(s: Seq<char>, ops: Seq<NormalizeOp>, i: int) -> Seq<char>
    decreases ops.len() - i,
{
    if i < 0 || i >= ops.len() {
        s
    } else {
        match ops[i] {
            NormalizeOp::Trim => normalized(trim(s), ops, i + 1),
            NormalizeOp::Lowercase => normalized(lowercased(s), ops, i + 1),
        }
    }
}

/// Whether a fact is what a part expects of it.
pub open spec fn fact_check(
    facts: Seq<(Seq<char>, Seq<char>)>,
    key: Seq<char>,
    equals: Option<Seq<char>>,
    matches_regex: Option<Seq<char>>,
) -> Result<(), PipelineErrorView> {
    match lookup(facts, key) {
        None => Err(PipelineErrorView::AssertFailed("missing fact: "@ + key)),
        Some(value) => if equals is Some && value != equals->0 {
            Err(
                PipelineErrorView::AssertFailed(
                    "fact "@ + key + " expected "@ + equals->0 + ", got "@ + value,
                ),
            )
        } else {
            match matches_regex {
                None => Ok(()),
                Some(pattern) => match pattern_error(pattern) {
                    Some(e) => Err(PipelineErrorView::AssertFailed("invalid regex: "@ + e)),
                    None => if pattern_matches(pattern, value) {
                        Ok(())
                    } else {
                        Err(
                            PipelineErrorView::AssertFailed(
                                "fact "@ + key + " did not match regex"@,
                            ),
                        )
                    },
                },
            }
        },
    }
}

/// A call of the local shell.
pub open spec fn shell_call(
    call_id: Seq<char>,
    command: Seq<Seq<char>>,
    workdir: Seq<char>,
) -> ToolCallView {
    ToolCallView {
        call_id,
        tool_name: "local_shell"@,
        tool_kind: ToolKind::LocalShell,
        input: ToolInputView::LocalShell { command, workdir: Some(workdir) },
    }
}

/// A step that ends in an error and changes nothing more.
pub open spec fn fails(s: PipelineRunStateView, e: PipelineErrorView) -> Outcome {
    Some((s, Err(e)))
}

/// A step that invokes a tool: the run then waits for the tool.
pub open spec fn invokes(s: PipelineRunStateView, tool_call: ToolCallView) -> Outcome {
    Some(
        (
            PipelineRunStateView { waiting: Some(WaitingForView::Tool), ..s },
            Ok(PipelineActionView::InvokeTool { tool_call, phase: s.phase }),
        ),
    )
}

/// A step that only tells its caller something.
pub open spec fn notes(s: PipelineRunStateView, message: Seq<char>) -> Outcome {
    Some((s, Ok(PipelineActionView::EmitNote { message })))
}

/// A step that asks for a one-off approval: the run then waits for the answer.
pub open spec fn asks_once(
    s: PipelineRunStateView,
    prompt: Seq<char>,
    remediation: Seq<char>,
    action_hash: Seq<char>,
) -> Outcome {
    Some(
        (
            PipelineRunStateView {
                waiting: Some(
                    WaitingForView::Approval { mode: ApprovalMode::Gate, output_key: None },
                ),
                ..s
            },
            Ok(
                PipelineActionView::RequestApproval {
                    scope: ApprovalScope::OneOff,
                    mode: ApprovalMode::Gate,
                    prompt,
                    remediation: seq![remediation],
                    action_hash,
                    output_key: None,
                    phase: s.phase,
                },
            ),
        ),
    )
}

/// The branch that new work starts from, `main` where none is named.
pub open spec fn base_or_main(base_branch: Option<Seq<char>>) -> Seq<char> {
    match base_branch {
        Some(b) => b,
        None => "main"@,
    }
}

/// The question about a worktree.
pub open spec fn worktree_prompt() -> Seq<char> {
    "Create/ensure a git worktree for this "@ + "task?"@
}

/// The question about a branch.
pub open spec fn branch_prompt() -> Seq<char> {
    "Create/switch to a git branch for this "@ + "task?"@
}

/// What an approval of a worktree is bound to.
pub open spec fn worktree_payload(
    repo_root: Seq<char>,
    worktree_root: Seq<char>,
    naming: Seq<char>,
    branch_name: Seq<char>,
    base_branch: Seq<char>,
) -> JsonView {
    JsonView::Obj(
        seq![
            ("base_branch"@, JsonView::Str(base_branch)),
            ("branch_name"@, JsonView::Str(branch_name)),
            ("naming"@, JsonView::Str(naming)),
            ("op"@, JsonView::Str("ensure_worktree"@)),
            ("repo_root"@, JsonView::Str(repo_root)),
            ("worktree_root"@, JsonView::Str(worktree_root)),
        ],
    )
}

/// What an approval of a branch is bound to.
pub open spec fn branch_payload(
    repo_root: Seq<char>,
    base_branch: Seq<char>,
    branch_name: Seq<char>,
    protected: Seq<Seq<char>>,
) -> JsonView {
    JsonView::Obj(
        seq![
            ("base_branch"@, JsonView::Str(base_branch)),
            ("branch_name"@, JsonView::Str(branch_name)),
            ("op"@, JsonView::Str("ensure_branch"@)),
            ("protected"@, str_array(protected)),
            ("repo_root"@, JsonView::Str(repo_root)),
        ],
    )
}

/// The command that makes sure of a worktree.
pub open spec fn worktree_command(
    repo_root: Seq<char>,
    worktree_root: Seq<char>,
    naming: Seq<char>,
    branch_name: Seq<char>,
    base_branch: Seq<char>,
) -> Seq<Seq<char>> {
    seq![
        "codex-pr"@,
        "repo"@,
        "ensure-worktree"@,
        "--repo-root"@,
        repo_root,
        "--worktree-root"@,
        worktree_root,
        "--naming"@,
        naming,
        "--branch-name"@,
        branch_name,
        "--base-branch"@,
        base_branch,
        "--apply"@,
    ]
}

/// The options that protect branches, one pair for each of the first `n`.
pub open spec fn protected_options(protected: Seq<Seq<char>>, n: nat) -> Seq<Seq<char>>
    decreases n,
{
    if n == 0 {
        Seq::empty()
    } else {
        protected_options(protected, (n - 1) as nat).push("--protected"@).push(protected[n - 1])
    }
}

/// The command that makes sure of a branch.
pub open spec fn branch_command(
    repo_root: Seq<char>,
    base_branch: Seq<char>,
    branch_name: Seq<char>,
    protected: Seq<Seq<char>>,
) -> Seq<Seq<char>> {
    (seq![
        "codex-pr"@,
        "repo"@,
        "ensure-branch"@,
        "--repo-root"@,
        repo_root,
        "--base-branch"@,
        base_branch,
        "--branch-name"@,
        branch_name,
    ] + protected_options(protected, protected.len())).push("--apply"@)
}

/// The step that runs a command, given directly or by its identifier. A command
/// found by its identifier is announced first and invoked by the next step.
pub open spec fn run_command_step<R: CommandResolver>(
    s: PipelineRunStateView,
    cwd: Option<Seq<char>>,
    argv: Option<Seq<Seq<char>>>,
    command_id: Option<Seq<char>>,
    policy: ChildProcessPolicy,
    resolver: &R,
) -> Outcome {
    if policy != ChildProcessPolicy::Inherit {
        fails(s, PipelineErrorView::UnsupportedChildProcessPolicy(policy))
    } else {
        match command_id {
            Some(id) => match resolver.resolves(id) {
                None => fails(s, PipelineErrorView::UnknownCommandId(id)),
                Some(spec) => notes(
                    PipelineRunStateView {
                        pending_tool: Some(
                            shell_call("pipeline-run-command"@, spec.argv, spec.cwd),
                        ),
                        ..s
                    },
                    "Resolved command_id "@ + spec.id + " -> cwd="@ + spec.cwd + " argv="@
                        + debug_list(spec.argv),
                ),
            },
            None => match argv {
                None => fails(
                    s,
                    PipelineErrorView::InvalidPart(
                        "run_command requires either argv or command_id"@,
                    ),
                ),
                Some(argv) => invokes(
                    s,
                    shell_call(
                        "pipeline-run-command"@,
                        argv,
                        match cwd {
                            Some(c) => c,
                            None => "."@,
                        },
                    ),
                ),
            },
        }
    }
}

/// The step that asks for an approval.
pub open spec fn approval_step(
    s: PipelineRunStateView,
    scope: ApprovalScope,
    mode: ApprovalMode,
    prompt: Seq<char>,
    remediation: Seq<Seq<char>>,
    action_hash: Seq<char>,
    output_key: Option<Seq<char>>,
) -> Outcome {
    match run_text(s, prompt) {
        Err(e) => fails(s, e),
        Ok(prompt) => Some(
            (
                PipelineRunStateView {
                    waiting: Some(
                        WaitingForView::Approval {
                            mode,
                            output_key: if mode == ApprovalMode::Confirm {
                                output_key
                            } else {
                                None
                            },
                        },
                    ),
                    ..s
                },
                Ok(
                    PipelineActionView::RequestApproval {
                        scope,
                        mode,
                        prompt,
                        remediation,
                        action_hash,
                        output_key,
                        phase: s.phase,
                    },
                ),
            ),
        ),
    }
}

/// The step that makes sure of a worktree.
pub open spec fn worktree_step(
    s: PipelineRunStateView,
    worktree_root: Seq<char>,
    naming: Seq<char>,
    base_branch: Option<Seq<char>>,
    branch_name: Seq<char>,
    require_approval: bool,
) -> Outcome {
    match s.ctx.repo_root {
        None => fails(s, PipelineErrorView::MissingRepoRoot),
        Some(root) => match run_text(s, worktree_root) {
            Err(e) => fails(s, e),
            Ok(worktree_root) => match run_text(s, naming) {
                Err(e) => fails(s, e),
                Ok(naming) => match run_text(s, branch_name) {
                    Err(e) => fails(s, e),
                    Ok(branch) => {
                        let base = base_or_main(base_branch);
                        if require_approval {
                            asks_once(
                                s,
                                worktree_prompt(),
                                "Deny to proceed without creating a worktree."@,
                                json_digest(
                                    worktree_payload(root, worktree_root, naming, branch, base),
                                ),
                            )
                        } else {
                            invokes(
                                s,
                                shell_call(
                                    "pipeline-ensure-worktree"@,
                                    worktree_command(root, worktree_root, naming, branch, base),
                                    root,
                                ),
                            )
                        }
                    },
                },
            },
        },
    }
}

/// The step that makes sure of a branch.
pub open spec fn branch_step(
    s: PipelineRunStateView,
    base_branch: Option<Seq<char>>,
    branch_name: Seq<char>,
    protected: Seq<Seq<char>>,
    require_approval: bool,
) -> Outcome {
    match s.ctx.repo_root {
        None => fails(s, PipelineErrorView::MissingRepoRoot),
        Some(root) => match run_text(s, branch_name) {
            Err(e) => fails(s, e),
            Ok(branch) => {
                let base = base_or_main(base_branch);
                if require_approval {
                    asks_once(
                        s,
                        branch_prompt(),
                        "Deny to proceed without changing branches."@,
                        json_digest(branch_payload(root, base, branch, protected)),
                    )
                } else {
                    invokes(
                        s,
                        shell_call(
                            "pipeline-ensure-branch"@,
                            branch_command(root, base, branch, protected),
                            root,
                        ),
                    )
                }
            },
        },
    }
}

/// The step that takes one part.
pub open spec fn part_step<R: CommandResolver>(
    s: PipelineRunStateView,
    part: PartView,
    resolver: &R,
) -> Outcome {
    match part {
        PartView::RunTool { tool_call } => invokes(s, tool_call),
        PartView::RunCommand { cwd, argv, command_id, timeout_ms, child_process_policy } =>
        run_command_step(s, cwd, argv, command_id, child_process_policy, resolver),
        PartView::RequireApproval { scope, mode, prompt, remediation, action_hash, output_key } =>
        approval_step(s, scope, mode, prompt, remediation, action_hash, output_key),
        PartView::ExtractValue { source, parser, output_key, normalize } => match extracted(
            s,
            source,
            parser,
        ) {
            None => None,
            Some(Err(e)) => fails(s, e),
            Some(Ok(t)) => notes(
                set_fact(s, output_key, normalized(t, normalize, 0)),
                "extract_value: ok"@,
            ),
        },
        PartView::AssertFact { key, equals, matches_regex } => match fact_check(
            s.facts.derived,
            key,
            equals,
            matches_regex,
        ) {
            Err(e) => fails(s, e),
            Ok(_) => notes(s, "assert_fact: ok"@),
        },
        PartView::EnsureWorktree {
            worktree_root,
            naming,
            base_branch,
            branch_name,
            require_approval,
        } => worktree_step(s, worktree_root, naming, base_branch, branch_name, require_approval),
        PartView::EnsureBranch {
            base_branch,
            branch_name,
            protected_branches,
            require_approval,
        } => branch_step(s, base_branch, branch_name, protected_branches, require_approval),
        PartView::SetVar { key, value } => match run_text(s, value) {
            Err(e) => fails(s, e),
            Ok(v) => notes(
                PipelineRunStateView { vars: put(s.vars, key, v), ..s },
                "set_var: ok"@,
            ),
        },
        PartView::Fail { message } => match run_text(s, message) {
            Err(e) => fails(s, e),
            Ok(m) => notes(
                PipelineRunStateView { failed: true, failure_message: Some(m), ..s },
                "fail: set failed"@,
            ),
        },
        PartView::Defer { part } => notes(
            PipelineRunStateView { deferred: s.deferred.push(*part), ..s },
            "defer: registered"@,
        ),
        PartView::UseComponent { id, args } => fails(
            s,
            PipelineErrorView::InvalidPart("use_component must be expanded before execution"@),
        ),
    }
}

/// The state with a fact recorded.
pub open spec fn set_fact(s: PipelineRunStateView, key: Seq<char>, value: Seq<char>) -> PipelineRunStateView {
    PipelineRunStateView {
        facts: PipelineFactsView {
            derived: put(s.facts.derived, key, value),
            ..s.facts
        },
        ..s
    }
}

/// What a cursor leads to.
pub enum Reached {
    /// The count of cycles is used up.
    Nowhere,
    /// An error, in the given state.
    Error(PipelineRunStateView, PipelineErrorView),
    /// The end of the workflow.
    End(PipelineRunStateView),
    /// A part, with the cursor moved past it.
    At(PipelineRunStateView, PartView),
}

/// The state with the cursor of its phase moved past a part.
pub open spec fn advanced(s: PipelineRunStateView) -> PipelineRunStateView {
    if s.phase == PipelinePhase::Main {
        PipelineRunStateView {
            cursor: CursorView {
                workflow_id: s.cursor.workflow_id,
                part_index: (s.cursor.part_index + 1) as usize,
            },
            ..s
        }
    } else {
        match s.cleanup_cursor {
            Some(c) => PipelineRunStateView {
                cleanup_cursor: Some(
                    CursorView {
                        workflow_id: c.workflow_id,
                        part_index: (c.part_index + 1) as usize,
                    },
                ),
                ..s
            },
            None => s,
        }
    }
}

/// Where a cursor leads. Each look takes up one cycle.
pub open spec fn reach(
    max_cycles: u32,
    p: PipelineView,
    s: PipelineRunStateView,
    cursor: CursorView,
) -> Reached {
    if s.cycles == u32::MAX {
        Reached::Nowhere
    } else {
        let counted = PipelineRunStateView { cycles: (s.cycles + 1) as u32, ..s };
        if counted.cycles > max_cycles {
            Reached::Error(counted, PipelineErrorView::MaxCyclesExceeded(max_cycles))
        } else {
            match lookup(p.workflows, cursor.workflow_id) {
                None => Reached::Error(
                    counted,
                    PipelineErrorView::UnknownWorkflow(cursor.workflow_id),
                ),
                Some(w) => if cursor.part_index >= w.parts.len() {
                    Reached::End(counted)
                } else {
                    Reached::At(advanced(counted), w.parts[cursor.part_index as int])
                },
            }
        }
    }
}

/// The state that cleans up, and the error where the workflow that was being run
/// is not known.
pub open spec fn cleanup_begun(p: PipelineView, s: PipelineRunStateView) -> (
    PipelineRunStateView,
    Option<PipelineErrorView>,
) {
    let c = PipelineRunStateView { phase: PipelinePhase::Cleanup, ..s };
    match lookup(p.workflows, s.cursor.workflow_id) {
        None => (c, Some(PipelineErrorView::UnknownWorkflow(s.cursor.workflow_id))),
        Some(w) => (
            PipelineRunStateView {
                cleanup_cursor: match w.finally_workflow {
                    Some(id) => Some(CursorView { workflow_id: id, part_index: 0 }),
                    None => None,
                },
                ..c
            },
            None,
        ),
    }
}

/// The step that takes up what was deferred, last first, and then is done.
pub open spec fn deferred_step<R: CommandResolver>(
    s: PipelineRunStateView,
    resolver: &R,
) -> Outcome {
    if s.deferred.len() > 0 {
        part_step(
            PipelineRunStateView { deferred: s.deferred.drop_last(), ..s },
            s.deferred.last(),
            resolver,
        )
    } else {
        Some((s, Ok(PipelineActionView::Done { failed: s.failed, message: s.failure_message })))
    }
}

/// The step of a run that cleans up: first the clean-up workflow, then what was
/// deferred.
pub open spec fn cleanup_step<R: CommandResolver>(
    max_cycles: u32,
    p: PipelineView,
    s: PipelineRunStateView,
    resolver: &R,
) -> Outcome {
    match s.cleanup_cursor {
        None => deferred_step(s, resolver),
        Some(cursor) => match reach(max_cycles, p, s, cursor) {
            Reached::Nowhere => None,
            Reached::Error(t, e) => fails(t, e),
            Reached::End(t) => deferred_step(
                PipelineRunStateView { cleanup_cursor: None, ..t },
                resolver,
            ),
            Reached::At(t, part) => part_step(t, part, resolver),
        },
    }
}

/// The step that turns to cleaning up.
pub open spec fn begin_cleanup_step<R: CommandResolver>(
    max_cycles: u32,
    p: PipelineView,
    s: PipelineRunStateView,
    resolver: &R,
) -> Outcome {
    match cleanup_begun(p, s) {
        (t, Some(e)) => fails(t, e),
        (t, None) => cleanup_step(max_cycles, p, t, resolver),
    }
}

/// One step of a run.
pub open spec fn run_step<R: CommandResolver>(
    max_cycles: u32,
    p: PipelineView,
    s: PipelineRunStateView,
    resolver: &R,
) -> Outcome {
    if s.waiting is Some {
        fails(s, PipelineErrorView::WaitingForExternalInput)
    } else if s.pending_tool is Some {
        invokes(PipelineRunStateView { pending_tool: None, ..s }, s.pending_tool->0)
    } else if s.phase == PipelinePhase::Cleanup {
        cleanup_step(max_cycles, p, s, resolver)
    } else if s.failed {
        begin_cleanup_step(max_cycles, p, s, resolver)
    } else {
        match reach(max_cycles, p, s, s.cursor) {
            Reached::Nowhere => None,
            Reached::Error(t, e) => fails(t, e),
            Reached::End(t) => begin_cleanup_step(max_cycles, p, t, resolver),
            Reached::At(t, part) => part_step(t, part, resolver),
        }
    }
}

/// The state of a run that has not started.
pub open spec fn initial_state(p: PipelineView, ctx: PipelineRunContextView) -> PipelineRunStateView {
    PipelineRunStateView {
        phase: PipelinePhase::Main,
        vars: ctx.vars,
        facts: no_facts(),
        deferred: Seq::empty(),
        cycles: 0,
        failed: false,
        failure_message: None,
        cursor: CursorView { workflow_id: p.entry, part_index: 0 },
        cleanup_cursor: None,
        waiting: None,
        pending_tool: None,
        ctx,
    }
}

impl PipelineRunState {
    /// A run of `pipeline` that has not started.
    pub fn new(pipeline: &Pipeline, limits: &PipelineLimits, ctx: PipelineRunContext) -> (r: Self)
        ensures
            r@ == initial_state(pipeline@, ctx@),
    {
        let r = PipelineRunState {
            phase: PipelinePhase::Main,
            vars: ctx.vars.dup(),
            facts: PipelineFacts::default(),
            deferred: Vec::new(),
            cycles: 0,
            failed: false,
            failure_message: None,
            cursor: Cursor { workflow_id: pipeline.entry.clone(), part_index: 0 },
            cleanup_cursor: None,
            waiting: None,
            pending_tool: None,
            ctx,
        };
        assert(r@.deferred =~= Seq::empty());
        r
    }

    /// What the templates of this run are rendered from.
    pub fn template_ctx(&self) -> (r: TemplateContext<'_>)
        ensures
            r@ == run_context(self@),
    {
        let r = TemplateContext {
            session_id: self.ctx.session_id.as_str(),
            task_id: match &self.ctx.task_id {
                Some(t) => Some(t.as_str()),
                None => None,
            },
            turn_id: match &self.ctx.turn_id {
                Some(t) => Some(t.as_str()),
                None => None,
            },
            vars: &self.vars,
            facts: &self.facts.derived,
        };
        assert(r@ =~= run_context(self@));
        r
    }
}

fn render_template_or_err(input: &str, state: &PipelineRunState) -> (r: Result<
    String,
    PipelineError,
>)
    ensures
        (match r {
            Ok(t) => Ok(t@),
            Err(e) => Err(e@),
        }) == run_text(state@, input@),
{
    let ctx = state.template_ctx();
    match render_template(input, &ctx) {
        Ok(t) => Ok(t),
        Err(e) => Err(PipelineError::TemplateError(e.message())),
    }
}

/// The text of a value found in a document, where `compact` is its compact form.
pub fn value_text(found: &Json, compact: String) -> (r: String)
    ensures
        r@ == match found@ {
            JsonView::Str(s) => s,
            _ => compact@,
        },
{
    match found {
        Json::Str(s) => s.clone(),
        _ => compact,
    }
}

/// The group that an extraction asks for.
pub fn pick_group(groups: Option<Vec<Option<String>>>, group: Option<usize>) -> (r: Result<
    String,
    PipelineError,
>)
    ensures
        (match r {
            Ok(t) => Ok(t@),
            Err(e) => Err(e@),
        }) == chosen_group(groups.deep_view(), group),
{
    match groups {
        None => Err(PipelineError::ExtractFailed("no match".to_owned())),
        Some(gs) => {
            let ghost seen = gs.deep_view();
            assert(seen.len() == gs@.len());
            match group {
                Some(idx) => {
                    if idx < gs.len() {
                        assert(seen[idx as int] == gs@[idx as int].deep_view());
                        if let Some(t) = &gs[idx] {
                            return Ok(t.clone());
                        }
                    }
                    Err(PipelineError::ExtractFailed("missing capture".to_owned()))
                },
                None => {
                    if gs.len() > 0 {
                        assert(seen[0] == gs@[0].deep_view());
                        if let Some(t) = &gs[0] {
                            return Ok(t.clone());
                        }
                    }
                    let r = String::new();
                    assert(r@ =~= Seq::empty());
                    Ok(r)
                },
            }
        },
    }
}

/// What is kept of an extracted value; nothing where it would be cut inside a
/// character.
pub fn bound_output(s: String) -> (r: Option<String>)
    ensures
        r.deep_view() == cut(s@, MAX_OUT_BYTES as nat),
{
    cut_string(s.as_str(), MAX_OUT_BYTES)
}

/// What a parser finds in a text.
pub fn parse_output(parser: &ExtractParser, input: &str) -> (r: Result<String, PipelineError>)
    ensures
        (match r {
            Ok(t) => Ok(t@),
            Err(e) => Err(e@),
        }) == parser_result(parser@, input@),
{
    match parser {
        ExtractParser::JsonPath { json_path } => {
            if !starts_with(json_path.as_str(), "/") {
                return Err(
                    PipelineError::ExtractFailed(
                        "json_path must be a JSON pointer starting with '/'".to_owned(),
                    ),
                );
            }
            let v = match parse(input) {
                Err(e) => {
                    return Err(
                        PipelineError::ExtractFailed(cat2("json parse failed: ", e.as_str())),
                    );
                },
                Ok(v) => v,
            };
            match at_pointer(&v, json_path.as_str()) {
                None => Err(
                    PipelineError::ExtractFailed(
                        cat2("json_path not found: ", json_path.as_str()),
                    ),
                ),
                Some(found) => {
                    let compact = to_text(&found);
                    Ok(value_text(&found, compact))
                },
            }
        },
        ExtractParser::Regex { pattern, group } => {
            if byte_len(pattern.as_str()) > MAX_PATTERN_BYTES {
                return Err(PipelineError::ExtractFailed("regex too large".to_owned()));
            }
            if let Err(e) = compile(pattern.as_str()) {
                return Err(PipelineError::ExtractFailed(cat2("invalid regex: ", e.as_str())));
            }
            pick_group(captures(pattern.as_str(), input), *group)
        },
    }
}

fn extract_value(state: &PipelineRunState, source: ExtractSource, parser: &ExtractParser) -> (r:
    Option<Result<String, PipelineError>>)
    ensures
        (match r {
            None => None,
            Some(Ok(t)) => Some(Ok(t@)),
            Some(Err(e)) => Some(Err(e@)),
        }) == extracted(state@, source, parser@),
{
    let outcome = match &state.facts.last_tool_outcome {
        None => {
            return Some(Err(PipelineError::MissingToolOutcome));
        },
        Some(o) => o,
    };
    let text = match source {
        ExtractSource::Stdout => state.facts.last_tool_output_stdout.as_str(),
        ExtractSource::Stderr => state.facts.last_tool_output_stderr.as_str(),
        ExtractSource::Combined => outcome.output_preview.as_str(),
    };
    let input = match cut_string(text, MAX_INPUT_BYTES) {
        None => {
            return None;
        },
        Some(t) => t,
    };
    match parse_output(parser, input.as_str()) {
        Err(e) => Some(Err(e)),
        Ok(t) => match bound_output(t) {
            None => None,
            Some(t) => Some(Ok(t)),
        },
    }
}

/// A value after its clean-ups.
pub fn apply_normalize(s: String, ops: &Vec<NormalizeOp>) -> (r: String)
    ensures
        r@ == normalized(s@, ops.deep_view(), 0),
{
    let ghost seen = ops.deep_view();
    let mut out = s.clone();
    let mut i: usize = 0;
    while i < ops.len()
        invariant
            i <= ops.len(),
            seen == ops.deep_view(),
            normalized(s@, seen, 0) == normalized(out@, seen, i as int),
        decreases ops.len() - i,
    {
        assert(seen[i as int] == ops@[i as int]);
        out = match ops[i] {
            NormalizeOp::Trim => trim_string(out.as_str()),
            NormalizeOp::Lowercase => to_lowercase(out.as_str()),
        };
        i = i + 1;
    }
    out
}

/// Whether a fact is what a part expects of it.
pub fn assert_fact(
    facts: &StrMap<String>,
    key: &str,
    equals: &Option<String>,
    matches_regex: &Option<String>,
) -> (r: Result<(), PipelineError>)
    ensures
        (match r {
            Ok(_) => Ok(()),
            Err(e) => Err(e@),
        }) == fact_check(facts@, key@, equals.deep_view(), matches_regex.deep_view()),
{
    let value = match facts.get(key) {
        None => {
            return Err(PipelineError::AssertFailed(cat2("missing fact: ", key)));
        },
        Some(v) => v,
    };
    if let Some(eq) = equals {
        if !str_eq(value.as_str(), eq.as_str()) {
            return Err(
                PipelineError::AssertFailed(
                    cat6("fact ", key, " expected ", eq.as_str(), ", got ", value.as_str()),
                ),
            );
        }
    }
    if let Some(pattern) = matches_regex {
        if let Err(e) = compile(pattern.as_str()) {
            return Err(PipelineError::AssertFailed(cat2("invalid regex: ", e.as_str())));
        }
        if !is_match(pattern.as_str(), value.as_str()) {
            return Err(PipelineError::AssertFailed(cat3("fact ", key, " did not match regex")));
        }
    }
    Ok(())
}

fn child_process_policy_supported(policy: ChildProcessPolicy) -> (r: bool)
    ensures
        r == (policy == ChildProcessPolicy::Inherit),
{
    match policy {
        ChildProcessPolicy::Inherit => true,
        ChildProcessPolicy::AuditAllowlist | ChildProcessPolicy::EnforceAllowlist => false,
    }
}

/// Whether a step ended as expected.
pub open spec fn step_is(
    expected: Outcome,
    s: PipelineRunStateView,
    r: Option<Result<PipelineAction, PipelineError>>,
) -> bool {
    match expected {
        None => r is None,
        Some((t, Ok(a))) => s == t && r is Some && r->0 is Ok && r->0->Ok_0@ == a,
        Some((t, Err(e))) => s == t && r is Some && r->0 is Err && r->0->Err_0@ == e,
    }
}

fn make_shell_call(call_id: &str, command: Vec<String>, workdir: String) -> (r: ToolCall)
    ensures
        r@ == shell_call(call_id@, command.deep_view(), workdir@),
{
    ToolCall {
        call_id: call_id.to_owned(),
        tool_name: "local_shell".to_owned(),
        tool_kind: ToolKind::LocalShell,
        input: ToolInput::LocalShell { command, workdir: Some(workdir) },
    }
}

fn invoke(state: &mut PipelineRunState, tool_call: ToolCall) -> (r: Option<
    Result<PipelineAction, PipelineError>,
>)
    ensures
        step_is(invokes(old(state)@, tool_call@), final(state)@, r),
{
    state.waiting = Some(WaitingFor::Tool);
    Some(Ok(PipelineAction::InvokeTool { tool_call, phase: state.phase }))
}

fn ask_once(
    state: &mut PipelineRunState,
    prompt: &str,
    remediation: &str,
    action_hash: String,
) -> (r: Option<Result<PipelineAction, PipelineError>>)
    ensures
        step_is(
            asks_once(old(state)@, prompt@, remediation@, action_hash@),
            final(state)@,
            r,
        ),
{
    state.waiting = Some(WaitingFor::Approval { mode: ApprovalMode::Gate, output_key: None });
    let mut hints: Vec<String> = Vec::new();
    hints.push(remediation.to_owned());
    assert(hints.deep_view() =~= seq![remediation@]);
    Some(
        Ok(
            PipelineAction::RequestApproval {
                scope: ApprovalScope::OneOff,
                mode: ApprovalMode::Gate,
                prompt: prompt.to_owned(),
                remediation: hints,
                action_hash,
                output_key: None,
                phase: state.phase,
            },
        ),
    )
}

fn note(state: &PipelineRunState, message: &str) -> (r: Option<
    Result<PipelineAction, PipelineError>,
>)
    ensures
        step_is(notes(state@, message@), state@, r),
{
    Some(Ok(PipelineAction::EmitNote { message: message.to_owned() }))
}

fn run_command<R: CommandResolver>(
    state: &mut PipelineRunState,
    cwd: Option<String>,
    argv: Option<Vec<String>>,
    command_id: Option<String>,
    child_process_policy: ChildProcessPolicy,
    resolver: &R,
) -> (r: Option<Result<PipelineAction, PipelineError>>)
    ensures
        step_is(
            run_command_step(
                old(state)@,
                cwd.deep_view(),
                argv.deep_view(),
                command_id.deep_view(),
                child_process_policy,
                resolver,
            ),
            final(state)@,
            r,
        ),
{
    if !child_process_policy_supported(child_process_policy) {
        return Some(Err(PipelineError::UnsupportedChildProcessPolicy(child_process_policy)));
    }
    match command_id {
        Some(id) => match resolver.resolve(id.as_str()) {
            None => Some(Err(PipelineError::UnknownCommandId(id))),
            Some(spec) => {
                let argv_text = debug_strings(&spec.argv);
                let message = cat6(
                    "Resolved command_id ",
                    spec.id.as_str(),
                    " -> cwd=",
                    spec.cwd.as_str(),
                    " argv=",
                    argv_text.as_str(),
                );
                let call = make_shell_call("pipeline-run-command", spec.argv, spec.cwd);
                state.pending_tool = Some(call);
                Some(Ok(PipelineAction::EmitNote { message }))
            },
        },
        None => match argv {
            None => Some(
                Err(
                    PipelineError::InvalidPart(
                        "run_command requires either argv or command_id".to_owned(),
                    ),
                ),
            ),
            Some(argv) => {
                let cwd = match cwd {
                    Some(c) => c,
                    None => ".".to_owned(),
                };
                invoke(state, make_shell_call("pipeline-run-command", argv, cwd))
            },
        },
    }
}

fn request_approval(
    state: &mut PipelineRunState,
    scope: ApprovalScope,
    mode: ApprovalMode,
    prompt: String,
    remediation: Vec<String>,
    action_hash: String,
    output_key: Option<String>,
) -> (r: Option<Result<PipelineAction, PipelineError>>)
    ensures
        step_is(
            approval_step(
                old(state)@,
                scope,
                mode,
                prompt@,
                remediation.deep_view(),
                action_hash@,
                output_key.deep_view(),
            ),
            final(state)@,
            r,
        ),
{
    let prompt = match render_template_or_err(prompt.as_str(), state) {
        Err(e) => {
            return Some(Err(e));
        },
        Ok(p) => p,
    };
    let recorded_key: Option<String> = if mode == ApprovalMode::Confirm {
        output_key.dup()
    } else {
        None
    };
    state.waiting = Some(WaitingFor::Approval { mode, output_key: recorded_key });
    Some(
        Ok(
            PipelineAction::RequestApproval {
                scope,
                mode,
                prompt,
                remediation,
                action_hash,
                output_key,
                phase: state.phase,
            },
        ),
    )
}

fn branch_or_main(base_branch: Option<String>) -> (r: String)
    ensures
        r@ == base_or_main(base_branch.deep_view()),
{
    match base_branch {
        Some(b) => b,
        None => "main".to_owned(),
    }
}

fn ensure_worktree(
    state: &mut PipelineRunState,
    worktree_root: String,
    naming: String,
    base_branch: Option<String>,
    branch_name: String,
    require_approval: bool,
) -> (r: Option<Result<PipelineAction, PipelineError>>)
    ensures
        step_is(
            worktree_step(
                old(state)@,
                worktree_root@,
                naming@,
                base_branch.deep_view(),
                branch_name@,
                require_approval,
            ),
            final(state)@,
            r,
        ),
{
    let repo_root = match &state.ctx.repo_root {
        None => {
            return Some(Err(PipelineError::MissingRepoRoot));
        },
        Some(r) => r.clone(),
    };
    let worktree_root = match render_template_or_err(worktree_root.as_str(), state) {
        Err(e) => {
            return Some(Err(e));
        },
        Ok(t) => t,
    };
    let naming = match render_template_or_err(naming.as_str(), state) {
        Err(e) => {
            return Some(Err(e));
        },
        Ok(t) => t,
    };
    let base = branch_or_main(base_branch);
    let branch = match render_template_or_err(branch_name.as_str(), state) {
        Err(e) => {
            return Some(Err(e));
        },
        Ok(t) => t,
    };
    if require_approval {
        let payload = json_object(
            vec![
                ("base_branch".to_owned(), json_str(base.as_str())),
                ("branch_name".to_owned(), json_str(branch.as_str())),
                ("naming".to_owned(), json_str(naming.as_str())),
                ("op".to_owned(), json_str("ensure_worktree")),
                ("repo_root".to_owned(), json_str(repo_root.as_str())),
                ("worktree_root".to_owned(), json_str(worktree_root.as_str())),
            ],
        );
        assert(payload@->Obj_0 =~= worktree_payload(
            repo_root@,
            worktree_root@,
            naming@,
            branch@,
            base@,
        )->Obj_0);
        let action_hash = sha256_json(&payload);
        let prompt = cat2("Create/ensure a git worktree for this ", "task?");
        return ask_once(
            state,
            prompt.as_str(),
            "Deny to proceed without creating a worktree.",
            action_hash,
        );
    }
    let ghost expected = worktree_command(repo_root@, worktree_root@, naming@, branch@, base@);
    let command = vec![
        "codex-pr".to_owned(),
        "repo".to_owned(),
        "ensure-worktree".to_owned(),
        "--repo-root".to_owned(),
        repo_root.clone(),
        "--worktree-root".to_owned(),
        worktree_root,
        "--naming".to_owned(),
        naming,
        "--branch-name".to_owned(),
        branch,
        "--base-branch".to_owned(),
        base,
        "--apply".to_owned(),
    ];
    assert(command.deep_view() =~= expected);
    invoke(state, make_shell_call("pipeline-ensure-worktree", command, repo_root))
}

fn ensure_branch(
    state: &mut PipelineRunState,
    base_branch: Option<String>,
    branch_name: String,
    protected_branches: Vec<String>,
    require_approval: bool,
) -> (r: Option<Result<PipelineAction, PipelineError>>)
    ensures
        step_is(
            branch_step(
                old(state)@,
                base_branch.deep_view(),
                branch_name@,
                protected_branches.deep_view(),
                require_approval,
            ),
            final(state)@,
            r,
        ),
{
    let repo_root = match &state.ctx.repo_root {
        None => {
            return Some(Err(PipelineError::MissingRepoRoot));
        },
        Some(r) => r.clone(),
    };
    let base = branch_or_main(base_branch);
    let branch = match render_template_or_err(branch_name.as_str(), state) {
        Err(e) => {
            return Some(Err(e));
        },
        Ok(t) => t,
    };
    if require_approval {
        let payload = json_object(
            vec![
                ("base_branch".to_owned(), json_str(base.as_str())),
                ("branch_name".to_owned(), json_str(branch.as_str())),
                ("op".to_owned(), json_str("ensure_branch")),
                ("protected".to_owned(), json_strs(&protected_branches)),
                ("repo_root".to_owned(), json_str(repo_root.as_str())),
            ],
        );
        assert(payload@->Obj_0 =~= branch_payload(
            repo_root@,
            base@,
            branch@,
            protected_branches.deep_view(),
        )->Obj_0);
        let action_hash = sha256_json(&payload);
        let prompt = cat2("Create/switch to a git branch for this ", "task?");
        return ask_once(
            state,
            prompt.as_str(),
            "Deny to proceed without changing branches.",
            action_hash,
        );
    }
    let ghost protected = protected_branches.deep_view();
    let ghost head = seq![
        "codex-pr"@,
        "repo"@,
        "ensure-branch"@,
        "--repo-root"@,
        repo_root@,
        "--base-branch"@,
        base@,
        "--branch-name"@,
        branch@,
    ];
    let ghost expected = branch_command(repo_root@, base@, branch@, protected);
    let mut command = vec![
        "codex-pr".to_owned(),
        "repo".to_owned(),
        "ensure-branch".to_owned(),
        "--repo-root".to_owned(),
        repo_root.clone(),
        "--base-branch".to_owned(),
        base,
        "--branch-name".to_owned(),
        branch,
    ];
    let mut i: usize = 0;
    assert(command.deep_view() =~= head + protected_options(protected, 0));
    while i < protected_branches.len()
        invariant
            i <= protected_branches.len(),
            protected == protected_branches.deep_view(),
            command.deep_view() == head + protected_options(protected, i as nat),
        decreases protected_branches.len() - i,
    {
        let ghost before = command.deep_view();
        command.push("--protected".to_owned());
        command.push(protected_branches[i].clone());
        i = i + 1;
        assert(command.deep_view() =~= before.push("--protected"@).push(protected[i - 1]));
        assert(command.deep_view() =~= head + protected_options(protected, i as nat));
    }
    let ghost before = command.deep_view();
    command.push("--apply".to_owned());
    assert(command.deep_view() =~= before.push("--apply"@));
    assert(command.deep_view() == expected);
    invoke(state, make_shell_call("pipeline-ensure-branch", command, repo_root))
}

fn step_part<R: CommandResolver>(state: &mut PipelineRunState, part: Part, resolver: &R) -> (r:
    Option<Result<PipelineAction, PipelineError>>)
    ensures
        step_is(part_step(old(state)@, part@, resolver), final(state)@, r),
{
    match part {
        Part::RunTool { tool_call } => invoke(state, tool_call),
        Part::RunCommand { cwd, argv, command_id, timeout_ms, child_process_policy } =>
        run_command(state, cwd, argv, command_id, child_process_policy, resolver),
        Part::RequireApproval { scope, mode, prompt, remediation, action_hash, output_key } =>
        request_approval(state, scope, mode, prompt, remediation, action_hash, output_key),
        Part::ExtractValue { source, parser, output_key, normalize } => match extract_value(
            state,
            source,
            &parser,
        ) {
            None => None,
            Some(Err(e)) => Some(Err(e)),
            Some(Ok(t)) => {
                let value = apply_normalize(t, &normalize);
                state.facts.derived.insert(output_key, value);
                note(state, "extract_value: ok")
            },
        },
        Part::AssertFact { key, equals, matches_regex } => match assert_fact(
            &state.facts.derived,
            key.as_str(),
            &equals,
            &matches_regex,
        ) {
            Err(e) => Some(Err(e)),
            Ok(_) => note(state, "assert_fact: ok"),
        },
        Part::EnsureWorktree {
            worktree_root,
            naming,
            base_branch,
            branch_name,
            require_approval,
        } => ensure_worktree(
            state,
            worktree_root,
            naming,
            base_branch,
            branch_name,
            require_approval,
        ),
        Part::EnsureBranch { base_branch, branch_name, protected_branches, require_approval } =>
        ensure_branch(state, base_branch, branch_name, protected_branches, require_approval),
        Part::SetVar { key, value } => match render_template_or_err(value.as_str(), state) {
            Err(e) => Some(Err(e)),
            Ok(v) => {
                state.vars.insert(key, v);
                note(state, "set_var: ok")
            },
        },
        Part::Fail { message } => match render_template_or_err(message.as_str(), state) {
            Err(e) => Some(Err(e)),
            Ok(m) => {
                state.failed = true;
                state.failure_message = Some(m);
                note(state, "fail: set failed")
            },
        },
        Part::Defer { part } => {
            let ghost before = state.deferred.deep_view();
            state.deferred.push(*part);
            assert(state.deferred.deep_view() =~= before.push(part@));
            note(state, "defer: registered")
        },
        Part::UseComponent { id, args } => Some(
            Err(
                PipelineError::InvalidPart(
                    "use_component must be expanded before execution".to_owned(),
                ),
            ),
        ),
    }
}

/// Runs pipelines step by step. The engine does nothing itself: each step tells
/// the caller what to do, and the caller hands back what came of it.
pub struct PipelineEngine {
    pub limits: PipelineLimits,
}

/// What a cursor was found to lead to.
enum Found {
    Nowhere,
    Error(PipelineError),
    End,
    At(Part),
}

impl PipelineEngine {
    pub fn new(limits: PipelineLimits) -> (r: Self)
        ensures
            r.limits == limits,
    {
        PipelineEngine { limits }
    }

    fn begin_cleanup(&self, pipeline: &Pipeline, state: &mut PipelineRunState) -> (r: Result<
        (),
        PipelineError,
    >)
        ensures
            final(state)@ == cleanup_begun(pipeline@, old(state)@).0,
            (match r {
                Ok(_) => None,
                Err(e) => Some(e@),
            }) == cleanup_begun(pipeline@, old(state)@).1,
    {
        state.phase = PipelinePhase::Cleanup;
        let main = match pipeline.workflows.get(state.cursor.workflow_id.as_str()) {
            None => {
                return Err(PipelineError::UnknownWorkflow(state.cursor.workflow_id.clone()));
            },
            Some(w) => w,
        };
        state.cleanup_cursor = match &main.finally_workflow {
            Some(id) => Some(Cursor { workflow_id: id.clone(), part_index: 0 }),
            None => None,
        };
        Ok(())
    }

    /// Follows a cursor.
    fn follow(&self, pipeline: &Pipeline, state: &mut PipelineRunState, cursor: &Cursor) -> (r:
        Found)
        requires
            old(state)@.phase == PipelinePhase::Main ==> old(state)@.cursor == cursor@,
            old(state)@.phase == PipelinePhase::Cleanup ==> old(state)@.cleanup_cursor == Some(
                cursor@,
            ),
        ensures
            (match reach(self.limits.max_cycles, pipeline@, old(state)@, cursor@) {
                Reached::Nowhere => r is Nowhere,
                Reached::Error(t, e) => r is Error && r->Error_0@ == e && final(state)@ == t,
                Reached::End(t) => r is End && final(state)@ == t,
                Reached::At(t, part) => r is At && r->At_0@ == part && final(state)@ == t,
            }),
    {
        if state.cycles == u32::MAX {
            return Found::Nowhere;
        }
        state.cycles = state.cycles + 1;
        if state.cycles > self.limits.max_cycles {
            return Found::Error(PipelineError::MaxCyclesExceeded(self.limits.max_cycles));
        }
        let workflow = match pipeline.workflows.get(cursor.workflow_id.as_str()) {
            None => {
                return Found::Error(PipelineError::UnknownWorkflow(cursor.workflow_id.clone()));
            },
            Some(w) => w,
        };
        assert(workflow.parts.deep_view().len() == workflow.parts@.len());
        if cursor.part_index >= workflow.parts.len() {
            return Found::End;
        }
        let part = workflow.parts[cursor.part_index].dup();
        let next: usize = cursor.part_index + 1;
        if state.phase == PipelinePhase::Main {
            state.cursor.part_index = next;
        } else {
            state.cleanup_cursor = Some(
                Cursor { workflow_id: cursor.workflow_id.clone(), part_index: next },
            );
        }
        Found::At(part)
    }

    fn step_deferred<R: CommandResolver>(&self, state: &mut PipelineRunState, resolver: &R) -> (r:
        Option<Result<PipelineAction, PipelineError>>)
        ensures
            step_is(deferred_step(old(state)@, resolver), final(state)@, r),
    {
        let ghost before = state.deferred.deep_view();
        match state.deferred.pop() {
            Some(part) => {
                assert(state.deferred.deep_view() =~= before.drop_last());
                assert(before.last() == part@);
                step_part(state, part, resolver)
            },
            None => Some(
                Ok(
                    PipelineAction::Done {
                        failed: state.failed,
                        message: state.failure_message.dup(),
                    },
                ),
            ),
        }
    }

    fn step_cleanup<R: CommandResolver>(
        &self,
        pipeline: &Pipeline,
        state: &mut PipelineRunState,
        resolver: &R,
    ) -> (r: Option<Result<PipelineAction, PipelineError>>)
        requires
            old(state)@.phase == PipelinePhase::Cleanup,
        ensures
            step_is(
                cleanup_step(self.limits.max_cycles, pipeline@, old(state)@, resolver),
                final(state)@,
                r,
            ),
    {
        let cursor = match state.cleanup_cursor.dup() {
            None => {
                return self.step_deferred(state, resolver);
            },
            Some(c) => c,
        };
        match self.follow(pipeline, state, &cursor) {
            Found::Nowhere => None,
            Found::Error(e) => Some(Err(e)),
            Found::End => {
                state.cleanup_cursor = None;
                self.step_deferred(state, resolver)
            },
            Found::At(part) => step_part(state, part, resolver),
        }
    }

    fn step_into_cleanup<R: CommandResolver>(
        &self,
        pipeline: &Pipeline,
        state: &mut PipelineRunState,
        resolver: &R,
    ) -> (r: Option<Result<PipelineAction, PipelineError>>)
        ensures
            step_is(
                begin_cleanup_step(self.limits.max_cycles, pipeline@, old(state)@, resolver),
                final(state)@,
                r,
            ),
    {
        if let Err(e) = self.begin_cleanup(pipeline, state) {
            return Some(Err(e));
        }
        self.step_cleanup(pipeline, state, resolver)
    }

    fn step_cursor<R: CommandResolver>(
        &self,
        pipeline: &Pipeline,
        state: &mut PipelineRunState,
        resolver: &R,
    ) -> (r: Option<Result<PipelineAction, PipelineError>>)
        ensures
            step_is(
                run_step(self.limits.max_cycles, pipeline@, old(state)@, resolver),
                final(state)@,
                r,
            ),
    {
        if state.waiting.is_some() {
            return Some(Err(PipelineError::WaitingForExternalInput));
        }
        if let Some(tool_call) = state.pending_tool.take() {
            return invoke(state, tool_call);
        }
        if state.phase == PipelinePhase::Cleanup {
            return self.step_cleanup(pipeline, state, resolver);
        }
        if state.failed {
            return self.step_into_cleanup(pipeline, state, resolver);
        }
        let cursor = state.cursor.dup();
        match self.follow(pipeline, state, &cursor) {
            Found::Nowhere => None,
            Found::Error(e) => Some(Err(e)),
            Found::End => self.step_into_cleanup(pipeline, state, resolver),
            Found::At(part) => step_part(state, part, resolver),
        }
    }

    /// Whether the next step can be taken.
    fn can_step<R: CommandResolver>(
        &self,
        pipeline: &Pipeline,
        state: &PipelineRunState,
        resolver: &R,
    ) -> (r: bool)
        ensures
            r == run_step(self.limits.max_cycles, pipeline@, state@, resolver) is Some,
    {
        let mut trial = state.dup();
        self.step_cursor(pipeline, &mut trial, resolver).is_some()
    }

    /// Takes the next step of a run.
    pub fn step<R: CommandResolver>(
        &self,
        pipeline: &Pipeline,
        state: &mut PipelineRunState,
        resolver: &R,
    ) -> (r: Result<PipelineAction, PipelineError>)
        requires
            run_step(self.limits.max_cycles, pipeline@, old(state)@, resolver) is Some,
        ensures
            step_is(
                run_step(self.limits.max_cycles, pipeline@, old(state)@, resolver),
                final(state)@,
                Some(r),
            ),
    {
        match self.step_cursor(pipeline, state, resolver) {
            Some(r) => r,
            None => Err(PipelineError::WaitingForExternalInput),
        }
    }

    /// Takes the next step of a run, unless it would cut a text inside a character
    /// or the count of cycles is used up: the run then stays as it is.
    pub fn try_step<R: CommandResolver>(
        &self,
        pipeline: &Pipeline,
        state: &mut PipelineRunState,
        resolver: &R,
    ) -> (r: Option<Result<PipelineAction, PipelineError>>)
        ensures
            step_is(
                run_step(self.limits.max_cycles, pipeline@, old(state)@, resolver),
                final(state)@,
                r,
            ),
            r is None ==> final(state)@ == old(state)@,
    {
        if self.can_step(pipeline, state, resolver) {
            Some(self.step(pipeline, state, resolver))
        } else {
            None
        }
    }

    /// Hands a run what came of the tool that it waits for.
    pub fn provide_tool_outcome(
        &self,
        state: &mut PipelineRunState,
        outcome: ToolOutcome,
        stdout_preview: String,
        stderr_preview: String,
    ) -> (r: Result<(), PipelineError>)
        ensures
            final(state)@ == tool_provided(
                old(state)@,
                outcome@,
                stdout_preview@,
                stderr_preview@,
            ),
            r is Ok <==> old(state)@.waiting == Some(WaitingForView::Tool),
            r is Err ==> r->Err_0@ == PipelineErrorView::InvalidPart(
                "provide_tool_outcome called while not waiting for a tool"@,
            ),
    {
        match state.waiting.take() {
            Some(WaitingFor::Tool) => {
                state.facts.last_tool_outcome = Some(outcome);
                state.facts.last_tool_output_stdout = stdout_preview;
                state.facts.last_tool_output_stderr = stderr_preview;
                Ok(())
            },
            _ => Err(
                PipelineError::InvalidPart(
                    "provide_tool_outcome called while not waiting for a tool".to_owned(),
                ),
            ),
        }
    }

    /// Hands a run the answer to the approval that it waits for.
    pub fn provide_approval_result(&self, state: &mut PipelineRunState, approved: bool) -> (r:
        Result<(), PipelineError>)
        ensures
            final(state)@ == approval_provided(old(state)@, approved),
            r is Ok <==> old(state)@.waiting matches Some(WaitingForView::Approval { .. }),
            r is Err ==> r->Err_0@ == PipelineErrorView::InvalidPart(
                "provide_approval_result called while not waiting for approval"@,
            ),
    {
        match state.waiting.take() {
            Some(WaitingFor::Approval { mode, output_key }) => {
                match mode {
                    ApprovalMode::Gate => {
                        if !approved {
                            state.failed = true;
                            state.failure_message = Some("approval denied".to_owned());
                        }
                    },
                    ApprovalMode::Confirm => {
                        if let Some(key) = output_key {
                            let answer = if approved {
                                "true".to_owned()
                            } else {
                                "false".to_owned()
                            };
                            state.facts.derived.insert(key, answer);
                        }
                    },
                }
                Ok(())
            },
            _ => Err(
                PipelineError::InvalidPart(
                    "provide_approval_result called while not waiting for approval".to_owned(),
                ),
            ),
        }
    }
}

/// The state after a tool's outcome was handed in.
pub open spec fn tool_provided(
    s: PipelineRunStateView,
    outcome: ToolOutcomeView,
    stdout: Seq<char>,
    stderr: Seq<char>,
) -> PipelineRunStateView {
    let t = PipelineRunStateView { waiting: None, ..s };
    if s.waiting == Some(WaitingForView::Tool) {
        PipelineRunStateView {
            facts: PipelineFactsView {
                last_tool_outcome: Some(outcome),
                last_tool_output_stdout: stdout,
                last_tool_output_stderr: stderr,
                ..s.facts
            },
            ..t
        }
    } else {
        t
    }
}

/// The state after an approval was answered: a gate that was denied fails the run,
/// a confirmation is recorded as a fact.
pub open spec fn approval_provided(s: PipelineRunStateView, approved: bool) -> PipelineRunStateView {
    let t = PipelineRunStateView { waiting: None, ..s };
    match s.waiting {
        Some(WaitingForView::Approval { mode: ApprovalMode::Gate, output_key }) => if approved {
            t
        } else {
            PipelineRunStateView {
                failed: true,
                failure_message: Some("approval denied"@),
                ..t
            }
        },
        Some(WaitingForView::Approval { mode: ApprovalMode::Confirm, output_key: Some(key) }) =>
        set_fact(
            t,
            key,
            if approved {
                "true"@
            } else {
                "false"@
            },
        ),
        _ => t,
    }
}

} // verus!
