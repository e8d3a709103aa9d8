//! What a run of a pipeline does, part by part.

use vstd::prelude::*;
use crate::digest::json_digest;
use crate::json::{found_at, parsed, JsonView};
use crate::pattern::{pattern_error, pattern_groups, pattern_matches};
use crate::pipelines::engine::{
    approval_provided, branch_command, branch_payload, cleanup_begun, cleanup_step, deferred_step,
    initial_state, normalized, part_step, protected_options, reach, run_step, run_text,
    tool_provided, worktree_command, worktree_payload, CommandResolver, Outcome, Reached,
};
use crate::pipelines::laws::part_step_keeps;
use crate::pipelines::model::{
    ApprovalMode, ApprovalScope, CursorView, ExtractParserView, ExtractSource, NormalizeOp, PartView,
    PipelineActionView, PipelineErrorView, PipelinePhase, PipelineRunContextView,
    PipelineRunStateView, PipelineView, WaitingForView, WorkflowView,
};
use crate::strmap::{lookup, lookup_put, sorted};
use crate::text::{bytes_len, has_prefix, lowercased, trim};
use crate::types::commands::ChildProcessPolicy;
use crate::types::laws::{placeholder, placeholders_give_their_values};
use crate::types::templating::{rendered, template_error_text, TemplateContextView};
use crate::types::tool::{ToolCallView, ToolInputView, ToolKind, ToolOutcomeView};

verus! {

/// The state after a step.
pub open spec fn after(out: Outcome) -> PipelineRunStateView {
    let (t, _) = out->0;
    t
}

/// The result of a step.
pub open spec fn gave(out: Outcome) -> Result<PipelineActionView, PipelineErrorView> {
    let (_, r) = out->0;
    r
}

/// Whether a run is free to take a step in a phase: it waits for nothing and has announced
/// nothing.
pub open spec fn free_in(s: PipelineRunStateView, phase: PipelinePhase) -> bool {
    s.waiting is None && s.pending_tool is None && s.phase == phase
}

/// The parts of a workflow are taken up in their order: a run that has not failed takes the part
/// that its cursor stands at and moves the cursor to the next one.
pub proof fn parts_are_taken_in_order<R: CommandResolver>(
    max_cycles: u32,
    p: PipelineView,
    s: PipelineRunStateView,
    w: WorkflowView,
    resolver: &R,
)
    requires
        free_in(s, PipelinePhase::Main),
        !s.failed,
        lookup(p.workflows, s.cursor.workflow_id) == Some(w),
        s.cursor.part_index < w.parts.len(),
        s.cursor.part_index < usize::MAX,
        s.cycles < max_cycles,
    ensures
        run_step(max_cycles, p, s, resolver) == part_step(
            PipelineRunStateView {
                cycles: (s.cycles + 1) as u32,
                cursor: CursorView {
                    workflow_id: s.cursor.workflow_id,
                    part_index: (s.cursor.part_index + 1) as usize,
                },
                ..s
            },
            w.parts[s.cursor.part_index as int],
            resolver,
        ),
{
}

/// A run that has come to the end of its workflow, or has failed in it, turns to the clean-up
/// workflow that the workflow names, whether or not it has failed: its next step takes the first
/// part of that workflow, and the clean-up goes on behind it.
pub proof fn cleanup_starts_with_the_first_part<R: CommandResolver>(
    max_cycles: u32,
    p: PipelineView,
    s: PipelineRunStateView,
    w: WorkflowView,
    cleanup: WorkflowView,
    resolver: &R,
)
    requires
        free_in(s, PipelinePhase::Main),
        lookup(p.workflows, s.cursor.workflow_id) == Some(w),
        s.failed || s.cursor.part_index >= w.parts.len(),
        w.finally_workflow is Some,
        lookup(p.workflows, w.finally_workflow->0) == Some(cleanup),
        cleanup.parts.len() > 0,
        s.cycles + 2 <= max_cycles,
    ensures
        run_step(max_cycles, p, s, resolver) == part_step(
            PipelineRunStateView {
                phase: PipelinePhase::Cleanup,
                cleanup_cursor: Some(
                    CursorView { workflow_id: w.finally_workflow->0, part_index: 1 },
                ),
                cycles: (s.cycles + if s.failed {
                    1int
                } else {
                    2int
                }) as u32,
                ..s
            },
            cleanup.parts[0],
            resolver,
        ),
{
}

/// A run that turns to cleaning up and finds no clean-up workflow, or one without parts, takes
/// up what was deferred at once.
pub proof fn cleanup_without_parts_is_passed_over<R: CommandResolver>(
    max_cycles: u32,
    p: PipelineView,
    s: PipelineRunStateView,
    w: WorkflowView,
    resolver: &R,
)
    requires
        free_in(s, PipelinePhase::Main),
        lookup(p.workflows, s.cursor.workflow_id) == Some(w),
        s.failed || s.cursor.part_index >= w.parts.len(),
        w.finally_workflow matches Some(id) ==> lookup(p.workflows, id) is Some && lookup(
            p.workflows,
            id,
        )->0.parts.len() == 0,
        s.cycles + 2 <= max_cycles,
    ensures
        ({
            let t = PipelineRunStateView {
                phase: PipelinePhase::Cleanup,
                cleanup_cursor: None,
                cycles: (s.cycles + (if s.failed {
                    0int
                } else {
                    1int
                }) + (if w.finally_workflow is Some {
                    1int
                } else {
                    0int
                })) as u32,
                ..s
            };
            run_step(max_cycles, p, s, resolver) == deferred_outcome(t, resolver)
        }),
{
    reveal_deferred(
        PipelineRunStateView {
            phase: PipelinePhase::Cleanup,
            cleanup_cursor: None,
            cycles: (s.cycles + (if s.failed {
                0int
            } else {
                1int
            }) + (if w.finally_workflow is Some {
                1int
            } else {
                0int
            })) as u32,
            ..s
        },
        resolver,
    );
}

/// What comes of the deferred parts: the one deferred last is taken and is no longer deferred;
/// where none is left, the run is done, and reports whether it failed and why.
pub open spec fn deferred_outcome<R: CommandResolver>(
    s: PipelineRunStateView,
    resolver: &R,
) -> Outcome {
    if s.deferred.len() == 0 {
        Some((s, Ok(PipelineActionView::Done { failed: s.failed, message: s.failure_message })))
    } else {
        part_step(
            PipelineRunStateView {
                deferred: s.deferred.subrange(0, s.deferred.len() - 1),
                ..s
            },
            s.deferred[s.deferred.len() - 1],
            resolver,
        )
    }
}

proof fn reveal_deferred<R: CommandResolver>(s: PipelineRunStateView, resolver: &R)
    ensures
        deferred_step(s, resolver) == deferred_outcome(s, resolver),
{
    if s.deferred.len() > 0 {
        assert(s.deferred.drop_last() =~= s.deferred.subrange(0, s.deferred.len() - 1));
    }
}

/// The parts of a clean-up workflow are taken up in their order, whether or not the run has
/// failed; behind the last one comes what was deferred, the last first, and then the run is done.
pub proof fn cleanup_is_taken_in_order<R: CommandResolver>(
    max_cycles: u32,
    p: PipelineView,
    s: PipelineRunStateView,
    resolver: &R,
)
    requires
        free_in(s, PipelinePhase::Cleanup),
        s.cycles < max_cycles,
    ensures
        s.cleanup_cursor is None ==> run_step(max_cycles, p, s, resolver) == deferred_outcome(
            s,
            resolver,
        ),
        s.cleanup_cursor matches Some(c) ==> (lookup(p.workflows, c.workflow_id) matches Some(w)
            ==> {
            let counted = PipelineRunStateView { cycles: (s.cycles + 1) as u32, ..s };
            run_step(max_cycles, p, s, resolver) == if c.part_index < w.parts.len() {
                part_step(
                    PipelineRunStateView {
                        cleanup_cursor: Some(
                            CursorView {
                                workflow_id: c.workflow_id,
                                part_index: (c.part_index + 1) as usize,
                            },
                        ),
                        ..counted
                    },
                    w.parts[c.part_index as int],
                    resolver,
                )
            } else {
                deferred_outcome(PipelineRunStateView { cleanup_cursor: None, ..counted }, resolver)
            }
        }),
{
    reveal_deferred(s, resolver);
    reveal_deferred(
        PipelineRunStateView { cleanup_cursor: None, cycles: (s.cycles + 1) as u32, ..s },
        resolver,
    );
}

/// A run is done only where nothing is left to do: nothing is deferred, its clean-up workflow
/// is at its end, and where it only now leaves its workflow, that names no clean-up workflow
/// with parts.
pub proof fn done_only_when_nothing_is_left<R: CommandResolver>(
    max_cycles: u32,
    p: PipelineView,
    s: PipelineRunStateView,
    resolver: &R,
)
    requires
        run_step(max_cycles, p, s, resolver) is Some,
        gave(run_step(max_cycles, p, s, resolver)) matches Ok(PipelineActionView::Done { .. }),
    ensures
        s.waiting is None,
        s.pending_tool is None,
        s.deferred.len() == 0,
        gave(run_step(max_cycles, p, s, resolver)) == Ok::<PipelineActionView, PipelineErrorView>(
            PipelineActionView::Done { failed: s.failed, message: s.failure_message },
        ),
        s.phase == PipelinePhase::Cleanup ==> (s.cleanup_cursor matches Some(c) ==> lookup(
            p.workflows,
            c.workflow_id,
        ) is Some && c.part_index >= lookup(p.workflows, c.workflow_id)->0.parts.len()),
        s.phase == PipelinePhase::Main ==> lookup(p.workflows, s.cursor.workflow_id) is Some && (
        s.failed || s.cursor.part_index >= lookup(
            p.workflows,
            s.cursor.workflow_id,
        )->0.parts.len()) && (lookup(p.workflows, s.cursor.workflow_id)->0.finally_workflow matches Some(
            id,
        ) ==> lookup(p.workflows, id) is Some && lookup(p.workflows, id)->0.parts.len() == 0),
{
    if s.waiting is None && s.pending_tool is None {
        if s.phase == PipelinePhase::Cleanup {
            cleanup_done(max_cycles, p, s, resolver);
        } else if s.failed {
            cleanup_done(max_cycles, p, cleanup_begun(p, s).0, resolver);
        } else {
            match reach(max_cycles, p, s, s.cursor) {
                Reached::End(t) => {
                    cleanup_done(max_cycles, p, cleanup_begun(p, t).0, resolver);
                },
                Reached::At(t, part) => {
                    part_step_keeps(t, part, resolver);
                },
                _ => {},
            }
        }
    }
}

proof fn cleanup_done<R: CommandResolver>(
    max_cycles: u32,
    p: PipelineView,
    s: PipelineRunStateView,
    resolver: &R,
)
    ensures
        cleanup_step(max_cycles, p, s, resolver) is Some && (gave(
            cleanup_step(max_cycles, p, s, resolver),
        ) matches Ok(PipelineActionView::Done { .. })) ==> {
            &&& s.deferred.len() == 0
            &&& gave(cleanup_step(max_cycles, p, s, resolver)) == Ok::<
                PipelineActionView,
                PipelineErrorView,
            >(PipelineActionView::Done { failed: s.failed, message: s.failure_message })
            &&& s.cleanup_cursor matches Some(c) ==> lookup(p.workflows, c.workflow_id) is Some
                && c.part_index >= lookup(p.workflows, c.workflow_id)->0.parts.len()
        },
{
    match s.cleanup_cursor {
        None => {
            deferred_done(s, resolver);
        },
        Some(cursor) => match reach(max_cycles, p, s, cursor) {
            Reached::End(t) => {
                deferred_done(PipelineRunStateView { cleanup_cursor: None, ..t }, resolver);
            },
            Reached::At(t, part) => {
                part_step_keeps(t, part, resolver);
            },
            _ => {},
        },
    }
}

proof fn deferred_done<R: CommandResolver>(s: PipelineRunStateView, resolver: &R)
    ensures
        deferred_step(s, resolver) is Some && (gave(deferred_step(s, resolver)) matches Ok(
            PipelineActionView::Done { .. },
        )) ==> s.deferred.len() == 0 && gave(deferred_step(s, resolver)) == Ok::<
            PipelineActionView,
            PipelineErrorView,
        >(PipelineActionView::Done { failed: s.failed, message: s.failure_message }),
{
    if s.deferred.len() > 0 {
        part_step_keeps(
            PipelineRunStateView { deferred: s.deferred.drop_last(), ..s },
            s.deferred.last(),
            resolver,
        );
    }
}


/// A workflow that there is not, and a count of cycles that is used up, end a step in an error
/// that says so.
pub proof fn lost_runs_are_reported<R: CommandResolver>(
    max_cycles: u32,
    p: PipelineView,
    s: PipelineRunStateView,
    resolver: &R,
)
    requires
        free_in(s, PipelinePhase::Main),
        !s.failed,
        s.cycles < u32::MAX,
    ensures
        s.cycles >= max_cycles ==> run_step(max_cycles, p, s, resolver) is Some && gave(
            run_step(max_cycles, p, s, resolver),
        ) == Err::<PipelineActionView, PipelineErrorView>(
            PipelineErrorView::MaxCyclesExceeded(max_cycles),
        ),
        s.cycles < max_cycles && lookup(p.workflows, s.cursor.workflow_id) is None ==> run_step(
            max_cycles,
            p,
            s,
            resolver,
        ) is Some && gave(run_step(max_cycles, p, s, resolver)) == Err::<
            PipelineActionView,
            PipelineErrorView,
        >(PipelineErrorView::UnknownWorkflow(s.cursor.workflow_id)),
{
}

/// A run starts at the first part of the entry, with the variables it is given and nothing
/// else.
pub proof fn run_starts_at_the_entry(p: PipelineView, ctx: PipelineRunContextView)
    ensures
        ({
            let s = initial_state(p, ctx);
            &&& free_in(s, PipelinePhase::Main)
            &&& s.cursor.workflow_id == p.entry && s.cursor.part_index == 0
            &&& s.vars == ctx.vars
            &&& s.ctx == ctx
            &&& s.facts.derived.len() == 0 && s.facts.last_tool_outcome is None
            &&& s.deferred.len() == 0
            &&& s.cycles == 0
            &&& !s.failed && s.failure_message is None
            &&& s.cleanup_cursor is None
        }),
{
}

/// What templates of a run are rendered from: who runs it, its variables and its facts.
pub open spec fn told_by(s: PipelineRunStateView) -> TemplateContextView {
    TemplateContextView {
        session_id: s.ctx.session_id,
        task_id: s.ctx.task_id,
        turn_id: s.ctx.turn_id,
        vars: s.vars,
        facts: s.facts.derived,
    }
}

/// Whether a step ends in the error of a template that cannot be rendered, and changes nothing.
pub open spec fn template_fails(s: PipelineRunStateView, template: Seq<char>, out: Outcome) -> bool {
    rendered(template, told_by(s)) matches Err(e) ==> out == Some(
        (
            s,
            Err::<PipelineActionView, PipelineErrorView>(
                PipelineErrorView::TemplateError(template_error_text(e)),
            ),
        ),
    )
}

/// A variable that is set has, from then on, the value that its template renders to; all others
/// stay, and nothing else changes.
pub proof fn variable_is_set<R: CommandResolver>(
    s: PipelineRunStateView,
    key: Seq<char>,
    value: Seq<char>,
    other: Seq<char>,
    resolver: &R,
)
    requires
        sorted(s.vars),
    ensures
        ({
            let out = part_step(s, PartView::SetVar { key, value }, resolver);
            &&& template_fails(s, value, out)
            &&& rendered(value, told_by(s)) matches Ok(v) ==> {
                &&& out is Some && (gave(out) matches Ok(PipelineActionView::EmitNote { .. }))
                &&& lookup(after(out).vars, key) == Some(v)
                &&& other != key ==> lookup(after(out).vars, other) == lookup(s.vars, other)
                &&& after(out) == (PipelineRunStateView { vars: after(out).vars, ..s })
            }
        }),
{
    if let Ok(v) = rendered(value, told_by(s)) {
        lookup_put(s.vars, key, v, key);
        lookup_put(s.vars, key, v, other);
    }
}

/// A part that fails marks the run as failed, with the message that its template renders to.
pub proof fn failing_part_fails_the_run<R: CommandResolver>(
    s: PipelineRunStateView,
    message: Seq<char>,
    resolver: &R,
)
    ensures
        ({
            let out = part_step(s, PartView::Fail { message }, resolver);
            &&& template_fails(s, message, out)
            &&& rendered(message, told_by(s)) matches Ok(m) ==> {
                &&& out is Some && (gave(out) matches Ok(PipelineActionView::EmitNote { .. }))
                &&& after(out) == (PipelineRunStateView {
                    failed: true,
                    failure_message: Some(m),
                    ..s
                })
            }
        }),
{
}

/// A part that is deferred is kept behind those deferred before, and is not taken now.
pub proof fn deferred_part_is_kept<R: CommandResolver>(
    s: PipelineRunStateView,
    part: PartView,
    resolver: &R,
)
    ensures
        ({
            let out = part_step(s, PartView::Defer { part: Box::new(part) }, resolver);
            &&& out is Some && (gave(out) matches Ok(PipelineActionView::EmitNote { .. }))
            &&& after(out).deferred == s.deferred + seq![part]
            &&& after(out) == (PipelineRunStateView { deferred: after(out).deferred, ..s })
        }),
{
}

/// A tool is invoked as the part gives it, and the run waits for it.
pub proof fn tool_is_invoked_as_given<R: CommandResolver>(
    s: PipelineRunStateView,
    tool_call: ToolCallView,
    resolver: &R,
)
    ensures
        part_step(s, PartView::RunTool { tool_call }, resolver) == Some(
            (
                PipelineRunStateView { waiting: Some(WaitingForView::Tool), ..s },
                Ok::<PipelineActionView, PipelineErrorView>(
                    PipelineActionView::InvokeTool { tool_call, phase: s.phase },
                ),
            ),
        ),
{
}

/// Whether a call runs a command in a directory with the local shell.
pub open spec fn runs(call: ToolCallView, command: Seq<Seq<char>>, dir: Seq<char>) -> bool {
    &&& call.tool_kind == ToolKind::LocalShell
    &&& call.tool_name == "local_shell"@
    &&& call.input == (ToolInputView::LocalShell { command, workdir: Some(dir) })
}

/// A command is run as it is given, in its directory, else in the current one; a command that is
/// named is announced and kept to be run in its own directory. A command with another policy,
/// without words or with an unknown name is refused.
pub proof fn command_is_run_as_given<R: CommandResolver>(
    s: PipelineRunStateView,
    cwd: Option<Seq<char>>,
    argv: Option<Seq<Seq<char>>>,
    command_id: Option<Seq<char>>,
    timeout_ms: Option<u64>,
    child_process_policy: ChildProcessPolicy,
    resolver: &R,
)
    ensures
        ({
            let out = part_step(
                s,
                PartView::RunCommand { cwd, argv, command_id, timeout_ms, child_process_policy },
                resolver,
            );
            &&& out is Some
            &&& child_process_policy != ChildProcessPolicy::Inherit ==> out->0 == (
                s,
                Err::<PipelineActionView, PipelineErrorView>(
                    PipelineErrorView::UnsupportedChildProcessPolicy(child_process_policy),
                ),
            )
            &&& child_process_policy == ChildProcessPolicy::Inherit && command_id is None
                && argv is None ==> after(out) == s && (gave(out) matches Err(
                PipelineErrorView::InvalidPart(_),
            ))
            &&& child_process_policy == ChildProcessPolicy::Inherit && command_id is None
                && argv is Some ==> {
                &&& after(out) == (PipelineRunStateView { waiting: Some(WaitingForView::Tool), ..s })
                &&& gave(out) matches Ok(PipelineActionView::InvokeTool { .. })
                &&& gave(out)->Ok_0->InvokeTool_phase == s.phase
                &&& runs(
                    gave(out)->Ok_0->tool_call,
                    argv->0,
                    if cwd is Some {
                        cwd->0
                    } else {
                        "."@
                    },
                )
            }
            &&& child_process_policy == ChildProcessPolicy::Inherit && command_id is Some
                && resolver.resolves(command_id->0) is None ==> out->0 == (
                s,
                Err::<PipelineActionView, PipelineErrorView>(
                    PipelineErrorView::UnknownCommandId(command_id->0),
                ),
            )
            &&& child_process_policy == ChildProcessPolicy::Inherit && command_id is Some
                && resolver.resolves(command_id->0) is Some ==> {
                &&& gave(out) matches Ok(PipelineActionView::EmitNote { .. })
                &&& after(out).pending_tool is Some
                &&& runs(
                    after(out).pending_tool->0,
                    resolver.resolves(command_id->0)->0.argv,
                    resolver.resolves(command_id->0)->0.cwd,
                )
                &&& after(out) == (PipelineRunStateView { pending_tool: after(out).pending_tool, ..s })
            }
        }),
{
}

/// A tool that was announced is what the next step invokes, and is no longer announced.
pub proof fn announced_tool_is_next<R: CommandResolver>(
    max_cycles: u32,
    p: PipelineView,
    s: PipelineRunStateView,
    resolver: &R,
)
    requires
        s.waiting is None,
        s.pending_tool is Some,
    ensures
        run_step(max_cycles, p, s, resolver) == Some(
            (
                PipelineRunStateView {
                    pending_tool: None,
                    waiting: Some(WaitingForView::Tool),
                    ..s
                },
                Ok::<PipelineActionView, PipelineErrorView>(
                    PipelineActionView::InvokeTool { tool_call: s.pending_tool->0, phase: s.phase },
                ),
            ),
        ),
{
}

/// An approval is asked for as the part says, with its prompt rendered, and the run waits for an
/// answer of that mode; only a confirmation keeps the name under which its answer is recorded.
pub proof fn approval_is_asked_as_given<R: CommandResolver>(
    s: PipelineRunStateView,
    scope: ApprovalScope,
    mode: ApprovalMode,
    prompt: Seq<char>,
    remediation: Seq<Seq<char>>,
    action_hash: Seq<char>,
    output_key: Option<Seq<char>>,
    resolver: &R,
)
    ensures
        ({
            let out = part_step(
                s,
                PartView::RequireApproval {
                    scope,
                    mode,
                    prompt,
                    remediation,
                    action_hash,
                    output_key,
                },
                resolver,
            );
            &&& template_fails(s, prompt, out)
            &&& rendered(prompt, told_by(s)) matches Ok(text) ==> out == Some(
                (
                    PipelineRunStateView {
                        waiting: Some(
                            WaitingForView::Approval {
                                mode,
                                output_key: if mode == ApprovalMode::Confirm {
                                    output_key
                                } else {
                                    None
                                },
                            },
                        ),
                        ..s
                    },
                    Ok::<PipelineActionView, PipelineErrorView>(
                        PipelineActionView::RequestApproval {
                            scope,
                            mode,
                            prompt: text,
                            remediation,
                            action_hash,
                            output_key,
                            phase: s.phase,
                        },
                    ),
                ),
            )
        }),
{
}

/// An answer ends the waiting. A gate that is approved changes nothing more; one that is denied
/// fails the run; a confirmation that names no fact is not recorded; and of other facts none is
/// touched.
pub proof fn answer_ends_the_waiting(
    s: PipelineRunStateView,
    approved: bool,
    other: Seq<char>,
)
    requires
        sorted(s.facts.derived),
    ensures
        ({
            let t = approval_provided(s, approved);
            let plain = PipelineRunStateView { waiting: None, ..s };
            &&& t.waiting is None
            &&& s.waiting matches Some(WaitingForView::Approval { mode, output_key }) ==> {
                &&& mode == ApprovalMode::Gate && approved ==> t == plain
                &&& mode == ApprovalMode::Gate && !approved ==> t == (PipelineRunStateView {
                    failed: true,
                    failure_message: Some("approval denied"@),
                    ..plain
                })
                &&& mode == ApprovalMode::Confirm && output_key is None ==> t == plain
                &&& mode == ApprovalMode::Confirm && output_key is Some ==> {
                    &&& lookup(t.facts.derived, output_key->0) == Some(
                        if approved {
                            "true"@
                        } else {
                            "false"@
                        },
                    )
                    &&& other != output_key->0 ==> lookup(t.facts.derived, other) == lookup(
                        s.facts.derived,
                        other,
                    )
                    &&& t.failed == s.failed && t.vars == s.vars && t.deferred == s.deferred
                }
            }
        }),
{
    if let Some(WaitingForView::Approval { mode, output_key }) = s.waiting {
        if output_key is Some {
            let answer = if approved {
                "true"@
            } else {
                "false"@
            };
            lookup_put(s.facts.derived, output_key->0, answer, output_key->0);
            lookup_put(s.facts.derived, output_key->0, answer, other);
        }
    }
}

/// A fact is asserted exactly: it is there, is what is expected, and matches the pattern that is
/// given; otherwise the step ends in an error. The run does not change.
pub proof fn fact_is_asserted<R: CommandResolver>(
    s: PipelineRunStateView,
    key: Seq<char>,
    equals: Option<Seq<char>>,
    matches_regex: Option<Seq<char>>,
    resolver: &R,
)
    ensures
        ({
            let out = part_step(s, PartView::AssertFact { key, equals, matches_regex }, resolver);
            let holds = lookup(s.facts.derived, key) matches Some(v) && (equals is Some ==> equals->0
                == v) && (matches_regex is Some ==> pattern_error(matches_regex->0) is None
                && pattern_matches(matches_regex->0, v));
            &&& out is Some && after(out) == s
            &&& holds ==> (gave(out) matches Ok(PipelineActionView::EmitNote { .. }))
            &&& !holds ==> (gave(out) matches Err(PipelineErrorView::AssertFailed(_)))
        }),
{
}

/// The output that a value is extracted from.
pub open spec fn output_of(s: PipelineRunStateView, source: ExtractSource) -> Seq<char> {
    match source {
        ExtractSource::Stdout => s.facts.last_tool_output_stdout,
        ExtractSource::Stderr => s.facts.last_tool_output_stderr,
        ExtractSource::Combined => s.facts.last_tool_outcome->0.output_preview,
    }
}

/// Whether a value is what a parser is to find in a text: the text of what a JSON pointer leads
/// to, or a group of the first match of a pattern, the whole of it where no group is named.
pub open spec fn is_found(parser: ExtractParserView, text: Seq<char>, value: Seq<char>) -> bool {
    match parser {
        ExtractParserView::JsonPath { json_path } => {
            &&& has_prefix(json_path, "/"@)
            &&& parsed(text) is Ok
            &&& found_at(parsed(text)->Ok_0, json_path) is Some
            &&& match found_at(parsed(text)->Ok_0, json_path)->0 {
                JsonView::Str(s) => value == s,
                other => value == crate::json::compact_text(other),
            }
        },
        ExtractParserView::Regex { pattern, group } => {
            &&& bytes_len(pattern) <= 512
            &&& pattern_error(pattern) is None
            &&& pattern_groups(pattern, text) is Some
            &&& ({
                let gs = pattern_groups(pattern, text)->0;
                match group {
                    Some(i) => i < gs.len() && gs[i as int] == Some(value),
                    None => if gs.len() > 0 && gs[0] is Some {
                        gs[0] == Some(value)
                    } else {
                        value.len() == 0
                    },
                }
            })
        },
    }
}

/// A value is extracted from the output that the part names and recorded as a fact under its
/// key, after the clean-ups; where nothing is found, or no tool has run, the step ends in an
/// error and nothing is recorded. Texts short enough are looked at, and kept, as they are.
pub proof fn value_is_extracted<R: CommandResolver>(
    s: PipelineRunStateView,
    source: ExtractSource,
    parser: ExtractParserView,
    output_key: Seq<char>,
    normalize: Seq<NormalizeOp>,
    value: Seq<char>,
    other: Seq<char>,
    resolver: &R,
)
    requires
        sorted(s.facts.derived),
    ensures
        ({
            let out = part_step(
                s,
                PartView::ExtractValue { source, parser, output_key, normalize },
                resolver,
            );
            let text = output_of(s, source);
            &&& s.facts.last_tool_outcome is None ==> out == Some(
                (
                    s,
                    Err::<PipelineActionView, PipelineErrorView>(
                        PipelineErrorView::MissingToolOutcome,
                    ),
                ),
            )
            &&& s.facts.last_tool_outcome is Some && bytes_len(text) <= 32768 && is_found(
                parser,
                text,
                value,
            ) && bytes_len(value) <= 1024 ==> {
                &&& out is Some && (gave(out) matches Ok(PipelineActionView::EmitNote { .. }))
                &&& lookup(after(out).facts.derived, output_key) == Some(
                    normalized(value, normalize, 0),
                )
                &&& other != output_key ==> lookup(after(out).facts.derived, other) == lookup(
                    s.facts.derived,
                    other,
                )
                &&& after(out).vars == s.vars && after(out).failed == s.failed
                    && after(out).facts.last_tool_outcome == s.facts.last_tool_outcome
                    && after(out).deferred == s.deferred && after(out).waiting == s.waiting
            }
            &&& s.facts.last_tool_outcome is Some && bytes_len(text) <= 32768 && (forall|v: Seq<
                char,
            >| !#[trigger] is_found(parser, text, v)) ==> out is Some && after(out) == s && (
            gave(out) matches Err(PipelineErrorView::ExtractFailed(_)))
        }),
{
    let text = output_of(s, source);
    lookup_put(s.facts.derived, output_key, normalized(value, normalize, 0), output_key);
    lookup_put(s.facts.derived, output_key, normalized(value, normalize, 0), other);
    if let ExtractParserView::Regex { pattern, group } = parser {
        if group is None && pattern_groups(pattern, text) is Some {
            let none: Seq<char> = Seq::empty();
            let gs = pattern_groups(pattern, text)->0;
            if gs.len() > 0 && gs[0] is Some {
                assert(is_found(parser, text, gs[0]->0) == (bytes_len(pattern) <= 512
                    && pattern_error(pattern) is None));
            } else {
                assert(is_found(parser, text, none) == (bytes_len(pattern) <= 512 && pattern_error(
                    pattern,
                ) is None));
                if value.len() == 0 {
                    assert(value =~= none);
                }
            }
        } else if group is Some && pattern_groups(pattern, text) is Some {
            let gs = pattern_groups(pattern, text)->0;
            if group->0 < gs.len() && gs[group->0 as int] is Some {
                assert(is_found(parser, text, gs[group->0 as int]->0) == (bytes_len(pattern) <= 512
                    && pattern_error(pattern) is None));
            }
        }
    } else if let ExtractParserView::JsonPath { json_path } = parser {
        if parsed(text) is Ok && found_at(parsed(text)->Ok_0, json_path) is Some {
            let v = match found_at(parsed(text)->Ok_0, json_path)->0 {
                JsonView::Str(x) => x,
                other => crate::json::compact_text(other),
            };
            assert(is_found(parser, text, v) == has_prefix(json_path, "/"@));
        }
    }
}

/// The clean-ups of a value are applied one after the other, in their order.
pub proof fn cleanups_are_applied_in_order(s: Seq<char>, ops: Seq<NormalizeOp>, op: NormalizeOp)
    ensures
        normalized(s, Seq::empty(), 0) == s,
        normalized(s, ops.push(op), 0) == match op {
            NormalizeOp::Trim => trim(normalized(s, ops, 0)),
            NormalizeOp::Lowercase => lowercased(normalized(s, ops, 0)),
        },
{
    last_cleanup(s, ops, op, 0);
}

proof fn last_cleanup(s: Seq<char>, ops: Seq<NormalizeOp>, op: NormalizeOp, i: int)
    requires
        0 <= i <= ops.len(),
    ensures
        normalized(s, ops.push(op), i) == match op {
            NormalizeOp::Trim => trim(normalized(s, ops, i)),
            NormalizeOp::Lowercase => lowercased(normalized(s, ops, i)),
        },
    decreases ops.len() - i,
{
    let all = ops.push(op);
    if i < ops.len() {
        assert(all[i] == ops[i]);
        match ops[i] {
            NormalizeOp::Trim => {
                last_cleanup(trim(s), ops, op, i + 1);
            },
            NormalizeOp::Lowercase => {
                last_cleanup(lowercased(s), ops, op, i + 1);
            },
        }
    } else {
        assert(all[i] == op);
        reveal_with_fuel(normalized, 2);
    }
}

/// Whether a command gives an option, directly followed by its value.
pub open spec fn gives(command: Seq<Seq<char>>, option: Seq<char>, value: Seq<char>) -> bool {
    exists|i: int|
        0 <= i && i + 1 < command.len() && #[trigger] command[i] == option && command[i + 1]
            == value
}

/// A worktree is made sure of for the repository of the run, with the names that the part's
/// templates render to and `main` as the branch it starts from where the part names none. It is
/// asked for first where the part says so, as a gate, bound to the whole request; else the
/// command that applies it is run in the repository.
pub proof fn worktree_is_made_sure_of<R: CommandResolver>(
    s: PipelineRunStateView,
    worktree_root: Seq<char>,
    naming: Seq<char>,
    base_branch: Option<Seq<char>>,
    branch_name: Seq<char>,
    require_approval: bool,
    resolver: &R,
)
    ensures
        ({
            let out = part_step(
                s,
                PartView::EnsureWorktree {
                    worktree_root,
                    naming,
                    base_branch,
                    branch_name,
                    require_approval,
                },
                resolver,
            );
            let base = if base_branch is Some {
                base_branch->0
            } else {
                "main"@
            };
            &&& out is Some
            &&& s.ctx.repo_root is None ==> out->0 == (
                s,
                Err::<PipelineActionView, PipelineErrorView>(PipelineErrorView::MissingRepoRoot),
            )
            &&& s.ctx.repo_root is Some && (rendered(worktree_root, told_by(s)) is Err || rendered(
                naming,
                told_by(s),
            ) is Err || rendered(branch_name, told_by(s)) is Err) ==> after(out) == s && (
            gave(out) matches Err(PipelineErrorView::TemplateError(_)))
            &&& s.ctx.repo_root is Some && rendered(worktree_root, told_by(s)) is Ok && rendered(
                naming,
                told_by(s),
            ) is Ok && rendered(branch_name, told_by(s)) is Ok ==> {
                let repo = s.ctx.repo_root->0;
                let root = rendered(worktree_root, told_by(s))->Ok_0;
                let name = rendered(naming, told_by(s))->Ok_0;
                let branch = rendered(branch_name, told_by(s))->Ok_0;
                &&& require_approval ==> asks_for_gate(s, out) && gave(out)->Ok_0->action_hash
                    == json_digest(worktree_payload(repo, root, name, branch, base))
                &&& !require_approval ==> {
                    &&& after(out) == (PipelineRunStateView {
                        waiting: Some(WaitingForView::Tool),
                        ..s
                    })
                    &&& gave(out) matches Ok(PipelineActionView::InvokeTool { .. })
                    &&& gave(out)->Ok_0->InvokeTool_phase == s.phase
                    &&& ({
                        let command = gave(out)->Ok_0->tool_call.input->command;
                        &&& runs(gave(out)->Ok_0->tool_call, command, repo)
                        &&& command[0] == "codex-pr"@ && command[1] == "repo"@ && command[2]
                            == "ensure-worktree"@
                        &&& gives(command, "--repo-root"@, repo)
                        &&& gives(command, "--worktree-root"@, root)
                        &&& gives(command, "--naming"@, name)
                        &&& gives(command, "--branch-name"@, branch)
                        &&& gives(command, "--base-branch"@, base)
                        &&& command.last() == "--apply"@
                    })
                }
            }
        }),
{
    if s.ctx.repo_root is Some && rendered(worktree_root, told_by(s)) is Ok && rendered(
        naming,
        told_by(s),
    ) is Ok && rendered(branch_name, told_by(s)) is Ok {
        let base = if base_branch is Some {
            base_branch->0
        } else {
            "main"@
        };
        let c = worktree_command(
            s.ctx.repo_root->0,
            rendered(worktree_root, told_by(s))->Ok_0,
            rendered(naming, told_by(s))->Ok_0,
            rendered(branch_name, told_by(s))->Ok_0,
            base,
        );
        assert(c[3] == "--repo-root"@ && c[5] == "--worktree-root"@ && c[7] == "--naming"@ && c[9]
            == "--branch-name"@ && c[11] == "--base-branch"@);
        assert(c[4] == s.ctx.repo_root->0);
    }
}

/// Whether a step asks for a one-off gate and waits for the answer.
pub open spec fn asks_for_gate(s: PipelineRunStateView, out: Outcome) -> bool {
    &&& out is Some
    &&& after(out) == (PipelineRunStateView {
        waiting: Some(WaitingForView::Approval { mode: ApprovalMode::Gate, output_key: None }),
        ..s
    })
    &&& gave(out) matches Ok(PipelineActionView::RequestApproval { .. })
    &&& gave(out)->Ok_0->scope == ApprovalScope::OneOff
    &&& gave(out)->Ok_0->mode == ApprovalMode::Gate
    &&& gave(out)->Ok_0->output_key is None
    &&& gave(out)->Ok_0->RequestApproval_phase == s.phase
}

/// A branch is made sure of for the repository of the run, with the name that the part's
/// template renders to, the branch it starts from and the branches that are protected. It is
/// asked for first where the part says so, as a gate, bound to the whole request; else the
/// command that applies it is run in the repository.
pub proof fn branch_is_made_sure_of<R: CommandResolver>(
    s: PipelineRunStateView,
    base_branch: Option<Seq<char>>,
    branch_name: Seq<char>,
    protected: Seq<Seq<char>>,
    require_approval: bool,
    k: int,
    resolver: &R,
)
    ensures
        ({
            let out = part_step(
                s,
                PartView::EnsureBranch {
                    base_branch,
                    branch_name,
                    protected_branches: protected,
                    require_approval,
                },
                resolver,
            );
            let base = if base_branch is Some {
                base_branch->0
            } else {
                "main"@
            };
            &&& out is Some
            &&& s.ctx.repo_root is None ==> out->0 == (
                s,
                Err::<PipelineActionView, PipelineErrorView>(PipelineErrorView::MissingRepoRoot),
            )
            &&& s.ctx.repo_root is Some ==> template_fails(s, branch_name, out)
            &&& s.ctx.repo_root is Some && rendered(branch_name, told_by(s)) is Ok ==> {
                let repo = s.ctx.repo_root->0;
                let branch = rendered(branch_name, told_by(s))->Ok_0;
                &&& require_approval ==> asks_for_gate(s, out) && gave(out)->Ok_0->action_hash
                    == json_digest(branch_payload(repo, base, branch, protected))
                &&& !require_approval ==> {
                    &&& after(out) == (PipelineRunStateView {
                        waiting: Some(WaitingForView::Tool),
                        ..s
                    })
                    &&& gave(out) matches Ok(PipelineActionView::InvokeTool { .. })
                    &&& gave(out)->Ok_0->InvokeTool_phase == s.phase
                    &&& ({
                        let command = gave(out)->Ok_0->tool_call.input->command;
                        &&& runs(gave(out)->Ok_0->tool_call, command, repo)
                        &&& command[0] == "codex-pr"@ && command[1] == "repo"@ && command[2]
                            == "ensure-branch"@
                        &&& gives(command, "--repo-root"@, repo)
                        &&& gives(command, "--base-branch"@, base)
                        &&& gives(command, "--branch-name"@, branch)
                        &&& 0 <= k < protected.len() ==> gives(
                            command,
                            "--protected"@,
                            protected[k],
                        )
                        &&& command.last() == "--apply"@
                    })
                }
            }
        }),
{
    if s.ctx.repo_root is Some && rendered(branch_name, told_by(s)) is Ok {
        let base = if base_branch is Some {
            base_branch->0
        } else {
            "main"@
        };
        let c = branch_command(
            s.ctx.repo_root->0,
            base,
            rendered(branch_name, told_by(s))->Ok_0,
            protected,
        );
        let options = protected_options(protected, protected.len());
        assert(c[3] == "--repo-root"@ && c[5] == "--base-branch"@ && c[7] == "--branch-name"@);
        assert(c[4] == s.ctx.repo_root->0);
        if 0 <= k < protected.len() {
            option_of(protected, protected.len(), k);
            assert(c[9 + 2 * k] == options[2 * k]);
            assert(c[9 + 2 * k + 1] == options[2 * k + 1]);
        }
    }
}

proof fn option_of(protected: Seq<Seq<char>>, n: nat, k: int)
    requires
        0 <= k < n <= protected.len(),
    ensures
        protected_options(protected, n).len() == 2 * n,
        protected_options(protected, n)[2 * k] == "--protected"@,
        protected_options(protected, n)[2 * k + 1] == protected[k],
    decreases n,
{
    if n > 1 {
        option_of(
            protected,
            (n - 1) as nat,
            if k < n - 1 {
                k
            } else {
                0
            },
        );
    } else {
        assert(protected_options(protected, 0).len() == 0);
    }
}

/// An approval is bound to the whole request: requests that differ in anything are bound to
/// different documents.
pub proof fn approvals_are_bound_to_the_request(
    a: (Seq<char>, Seq<char>, Seq<char>, Seq<char>, Seq<char>),
    b: (Seq<char>, Seq<char>, Seq<char>, Seq<char>, Seq<char>),
    pa: Seq<Seq<char>>,
    pb: Seq<Seq<char>>,
)
    ensures
        worktree_payload(a.0, a.1, a.2, a.3, a.4) == worktree_payload(b.0, b.1, b.2, b.3, b.4)
            ==> a == b,
        branch_payload(a.0, a.1, a.2, pa) == branch_payload(b.0, b.1, b.2, pb) ==> a.0 == b.0
            && a.1 == b.1 && a.2 == b.2 && pa == pb,
        worktree_payload(a.0, a.1, a.2, a.3, a.4) != branch_payload(b.0, b.1, b.2, pb),
{
    let x = worktree_payload(a.0, a.1, a.2, a.3, a.4)->Obj_0;
    let y = worktree_payload(b.0, b.1, b.2, b.3, b.4)->Obj_0;
    let u = branch_payload(a.0, a.1, a.2, pa)->Obj_0;
    let v = branch_payload(b.0, b.1, b.2, pb)->Obj_0;
    if x == y {
        assert(x[0].1 == y[0].1 && x[1].1 == y[1].1 && x[2].1 == y[2].1 && x[4].1 == y[4].1
            && x[5].1 == y[5].1);
    }
    if u == v {
        assert(u[0].1 == v[0].1 && u[1].1 == v[1].1 && u[3].1 == v[3].1 && u[4].1 == v[4].1);
        crate::profiles::payload::str_arrays_differ(pa, pb);
    }
    assert(x.len() == 6 && v.len() == 5);
}

/// What a tool gives is taken by a run that waits for a tool, ends the waiting, and touches
/// neither variables, nor facts that were recorded, nor what is deferred.
pub proof fn outcome_ends_the_waiting(
    s: PipelineRunStateView,
    outcome: ToolOutcomeView,
    stdout: Seq<char>,
    stderr: Seq<char>,
)
    ensures
        ({
            let t = tool_provided(s, outcome, stdout, stderr);
            &&& t == (PipelineRunStateView { waiting: None, facts: t.facts, ..s })
            &&& t.facts.derived == s.facts.derived
            &&& s.waiting == Some(WaitingForView::Tool) ==> t.facts.last_tool_outcome == Some(
                outcome,
            ) && t.facts.last_tool_output_stdout == stdout && t.facts.last_tool_output_stderr
                == stderr
        }),
{
}

/// A part that still uses a component is refused.
pub proof fn unexpanded_part_is_refused<R: CommandResolver>(
    s: PipelineRunStateView,
    id: Seq<char>,
    args: Seq<(Seq<char>, Seq<char>)>,
    resolver: &R,
)
    ensures
        part_step(s, PartView::UseComponent { id, args }, resolver) matches Some((t, r)) && t == s
            && (r matches Err(PipelineErrorView::InvalidPart(_))),
{
}

/// A text of a run is rendered with what the run holds: its variables, the facts that were
/// derived in it, and the session, task and turn that it belongs to.
pub proof fn texts_see_the_run(s: PipelineRunStateView, name: Seq<char>)
    requires
        !name.contains('}'),
        bytes_len(name) + 32 <= 32768,
    ensures
        lookup(s.vars, name) matches Some(v) ==> bytes_len(v) <= 65536 ==> run_text(
            s,
            placeholder("var."@ + name),
        ) == Ok::<Seq<char>, PipelineErrorView>(v),
        lookup(s.vars, name) is None ==> run_text(s, placeholder("var."@ + name)) is Err,
        lookup(s.facts.derived, name) matches Some(v) ==> bytes_len(v) <= 65536 ==> run_text(
            s,
            placeholder("fact."@ + name),
        ) == Ok::<Seq<char>, PipelineErrorView>(v),
        lookup(s.facts.derived, name) is None ==> run_text(s, placeholder("fact."@ + name)) is Err,
        bytes_len(s.ctx.session_id) <= 65536 ==> run_text(s, placeholder("session_id"@)) == Ok::<
            Seq<char>,
            PipelineErrorView,
        >(s.ctx.session_id),
        s.ctx.task_id matches Some(v) ==> bytes_len(v) <= 65536 ==> run_text(
            s,
            placeholder("task_id"@),
        ) == Ok::<Seq<char>, PipelineErrorView>(v),
        s.ctx.turn_id matches Some(v) ==> bytes_len(v) <= 65536 ==> run_text(
            s,
            placeholder("turn_id"@),
        ) == Ok::<Seq<char>, PipelineErrorView>(v),
{
    placeholders_give_their_values(name, crate::pipelines::engine::run_context(s));
}

} // verus!
