//! What holds of every run of a pipeline.

use vstd::prelude::*;
use crate::pipelines::engine::{
    approval_provided, branch_step, cleanup_begun, cleanup_step, deferred_step, extracted, part_step,
    reach, run_command_step, run_step, shell_call, tool_provided, worktree_step, CommandResolver,
    Outcome, Reached,
};
use crate::pipelines::model::{
    ApprovalMode, PartView, PipelineActionView, PipelineErrorView, PipelinePhase,
    PipelineRunStateView, PipelineView, WaitingForView,
};
use crate::strmap::{lookup, lookup_put, sorted};
use crate::types::commands::ChildProcessPolicy;
use crate::types::tool::ToolOutcomeView;

verus! {

/// What every part keeps: the phase, the surroundings, the place in the pipeline and
/// the count of cycles stay; a failure stays; and the run waits afterwards exactly
/// where the part asked something of the caller.
pub open spec fn part_keeps(s: PipelineRunStateView, out: Outcome) -> bool {
    out matches Some((t, r)) ==> {
        &&& t.phase == s.phase
        &&& t.ctx == s.ctx
        &&& t.cycles == s.cycles
        &&& t.cursor == s.cursor
        &&& t.cleanup_cursor == s.cleanup_cursor
        &&& s.failed ==> t.failed
        &&& s.waiting is None ==> waits_as_asked(t, r)
        &&& !(r matches Ok(PipelineActionView::Done { .. }))
        &&& r is Err ==> t == s
    }
}

/// Whether a run waits exactly for what its step asked of the caller.
pub open spec fn waits_as_asked(
    t: PipelineRunStateView,
    r: Result<PipelineActionView, PipelineErrorView>,
) -> bool {
    match r {
        Ok(PipelineActionView::InvokeTool { phase, .. }) => {
            &&& t.waiting == Some(WaitingForView::Tool)
            &&& phase == t.phase
        },
        Ok(PipelineActionView::RequestApproval { mode, phase, .. }) => {
            &&& t.waiting matches Some(WaitingForView::Approval { mode: m, .. }) && m == mode
            &&& phase == t.phase
        },
        _ => t.waiting is None,
    }
}

proof fn worktree_step_keeps(
    s: PipelineRunStateView,
    worktree_root: Seq<char>,
    naming: Seq<char>,
    base_branch: Option<Seq<char>>,
    branch_name: Seq<char>,
    require_approval: bool,
)
    ensures
        part_keeps(
            s,
            worktree_step(s, worktree_root, naming, base_branch, branch_name, require_approval),
        ),
{
}

proof fn branch_step_keeps(
    s: PipelineRunStateView,
    base_branch: Option<Seq<char>>,
    branch_name: Seq<char>,
    protected: Seq<Seq<char>>,
    require_approval: bool,
)
    ensures
        part_keeps(s, branch_step(s, base_branch, branch_name, protected, require_approval)),
{
}

/// Every part keeps the run.
pub proof fn part_step_keeps<R: CommandResolver>(
    s: PipelineRunStateView,
    part: PartView,
    resolver: &R,
)
    ensures
        part_keeps(s, part_step(s, part, resolver)),
{
    match part {
        PartView::EnsureWorktree {
            worktree_root,
            naming,
            base_branch,
            branch_name,
            require_approval,
        } => {
            worktree_step_keeps(
                s,
                worktree_root,
                naming,
                base_branch,
                branch_name,
                require_approval,
            );
        },
        PartView::EnsureBranch {
            base_branch,
            branch_name,
            protected_branches,
            require_approval,
        } => {
            branch_step_keeps(s, base_branch, branch_name, protected_branches, require_approval);
        },
        _ => {},
    }
}

/// What every step keeps: the surroundings stay, a clean-up is not left again, a
/// failure stays, and the run waits afterwards exactly where the step asked
/// something of the caller.
pub proof fn step_keeps_the_run<R: CommandResolver>(
    max_cycles: u32,
    p: PipelineView,
    s: PipelineRunStateView,
    resolver: &R,
)
    requires
        s.waiting is None,
    ensures
        run_step(max_cycles, p, s, resolver) matches Some((t, r)) ==> {
            &&& t.ctx == s.ctx
            &&& s.phase == PipelinePhase::Cleanup ==> t.phase == PipelinePhase::Cleanup
            &&& s.failed ==> t.failed
            &&& waits_as_asked(t, r)
        },
{
    run_step_keeps(max_cycles, p, s, resolver);
}

proof fn deferred_step_keeps<R: CommandResolver>(s: PipelineRunStateView, resolver: &R)
    requires
        s.waiting is None,
    ensures
        deferred_step(s, resolver) matches Some((t, r)) ==> {
            &&& t.ctx == s.ctx
            &&& t.phase == s.phase
            &&& t.cleanup_cursor == s.cleanup_cursor
            &&& t.cycles == s.cycles
            &&& s.failed ==> t.failed
            &&& waits_as_asked(t, r)
            &&& r matches Ok(PipelineActionView::Done { failed, message }) ==> {
                &&& t == s
                &&& s.deferred.len() == 0
                &&& failed == s.failed
                &&& message == s.failure_message
            }
        },
{
    if s.deferred.len() > 0 {
        part_step_keeps(
            PipelineRunStateView { deferred: s.deferred.drop_last(), ..s },
            s.deferred.last(),
            resolver,
        );
    }
}

/// What a step of a clean-up keeps.
pub open spec fn cleanup_keeps(
    max_cycles: u32,
    s: PipelineRunStateView,
    out: Outcome,
) -> bool {
    out matches Some((t, r)) ==> {
        &&& t.ctx == s.ctx
        &&& t.phase == PipelinePhase::Cleanup
        &&& s.failed ==> t.failed
        &&& waits_as_asked(t, r)
        &&& r is Ok ==> t.cycles == s.cycles || t.cycles <= max_cycles
        &&& r matches Ok(PipelineActionView::Done { failed, message }) ==> {
            &&& t.cleanup_cursor is None
            &&& t.deferred.len() == 0
            &&& failed == t.failed
            &&& message == t.failure_message
        }
    }
}

proof fn cleanup_step_keeps<R: CommandResolver>(
    max_cycles: u32,
    p: PipelineView,
    s: PipelineRunStateView,
    resolver: &R,
)
    requires
        s.waiting is None,
        s.phase == PipelinePhase::Cleanup,
    ensures
        cleanup_keeps(max_cycles, s, cleanup_step(max_cycles, p, s, resolver)),
{
    match s.cleanup_cursor {
        None => {
            deferred_step_keeps(s, resolver);
        },
        Some(cursor) => match reach(max_cycles, p, s, cursor) {
            Reached::Nowhere => {},
            Reached::Error(t, e) => {},
            Reached::End(t) => {
                deferred_step_keeps(PipelineRunStateView { cleanup_cursor: None, ..t }, resolver);
            },
            Reached::At(t, part) => {
                part_step_keeps(t, part, resolver);
            },
        },
    }
}

proof fn run_step_keeps<R: CommandResolver>(
    max_cycles: u32,
    p: PipelineView,
    s: PipelineRunStateView,
    resolver: &R,
)
    requires
        s.waiting is None,
    ensures
        run_step(max_cycles, p, s, resolver) matches Some((t, r)) ==> {
            &&& t.ctx == s.ctx
            &&& s.phase == PipelinePhase::Cleanup ==> t.phase == PipelinePhase::Cleanup
            &&& s.failed ==> t.failed
            &&& waits_as_asked(t, r)
            &&& r is Ok ==> t.cycles == s.cycles || t.cycles <= max_cycles
            &&& s.failed && s.pending_tool is None ==> t.phase == PipelinePhase::Cleanup
            &&& r matches Ok(PipelineActionView::Done { failed, message }) ==> {
                &&& t.phase == PipelinePhase::Cleanup
                &&& t.cleanup_cursor is None
                &&& t.deferred.len() == 0
                &&& failed == t.failed
                &&& message == t.failure_message
            }
        },
{
    if s.pending_tool is Some {
    } else if s.phase == PipelinePhase::Cleanup {
        cleanup_step_keeps(max_cycles, p, s, resolver);
    } else if s.failed {
        cleanup_step_keeps(max_cycles, p, cleanup_begun(p, s).0, resolver);
    } else {
        match reach(max_cycles, p, s, s.cursor) {
            Reached::Nowhere => {},
            Reached::Error(t, e) => {},
            Reached::End(t) => {
                cleanup_step_keeps(max_cycles, p, cleanup_begun(p, t).0, resolver);
            },
            Reached::At(t, part) => {
                part_step_keeps(t, part, resolver);
            },
        }
    }
}

/// A run that waits takes no step and does not change.
pub proof fn waiting_run_takes_no_step<R: CommandResolver>(
    max_cycles: u32,
    p: PipelineView,
    s: PipelineRunStateView,
    resolver: &R,
)
    requires
        s.waiting is Some,
    ensures
        run_step(max_cycles, p, s, resolver) == Some(
            (
                s,
                Err::<PipelineActionView, PipelineErrorView>(
                    PipelineErrorView::WaitingForExternalInput,
                ),
            ),
        ),
{
}

/// A run is done only when it has cleaned up: its clean-up workflow is finished and
/// nothing deferred is left. What it reports is whether it failed, and why.
pub proof fn done_means_cleaned_up<R: CommandResolver>(
    max_cycles: u32,
    p: PipelineView,
    s: PipelineRunStateView,
    resolver: &R,
)
    requires
        s.waiting is None,
    ensures
        run_step(max_cycles, p, s, resolver) matches Some(
            (t, Ok(PipelineActionView::Done { failed, message })),
        ) ==> {
            &&& t.phase == PipelinePhase::Cleanup
            &&& t.cleanup_cursor is None
            &&& t.deferred.len() == 0
            &&& failed == t.failed
            &&& message == t.failure_message
        },
{
    run_step_keeps(max_cycles, p, s, resolver);
}

/// The next step of a run that has failed, and has no announced tool to invoke, is
/// one of its clean-up.
pub proof fn failed_run_cleans_up<R: CommandResolver>(
    max_cycles: u32,
    p: PipelineView,
    s: PipelineRunStateView,
    resolver: &R,
)
    requires
        s.waiting is None,
        s.pending_tool is None,
        s.failed,
    ensures
        run_step(max_cycles, p, s, resolver) matches Some((t, r)) ==> t.phase
            == PipelinePhase::Cleanup,
{
    run_step_keeps(max_cycles, p, s, resolver);
}

/// A step that succeeds has taken up no more cycles than the limit allows, or none.
pub proof fn cycles_are_bounded<R: CommandResolver>(
    max_cycles: u32,
    p: PipelineView,
    s: PipelineRunStateView,
    resolver: &R,
)
    requires
        s.waiting is None,
    ensures
        run_step(max_cycles, p, s, resolver) matches Some((t, Ok(_))) ==> t.cycles == s.cycles
            || t.cycles <= max_cycles,
{
    run_step_keeps(max_cycles, p, s, resolver);
}

/// A denied gate fails the run, and its next step cleans up.
pub proof fn denied_gate_leads_to_cleanup<R: CommandResolver>(
    max_cycles: u32,
    p: PipelineView,
    s: PipelineRunStateView,
    resolver: &R,
)
    requires
        s.waiting matches Some(WaitingForView::Approval { mode: ApprovalMode::Gate, .. }),
        s.pending_tool is None,
    ensures
        approval_provided(s, false).failed,
        approval_provided(s, false).failure_message == Some("approval denied"@),
        run_step(max_cycles, p, approval_provided(s, false), resolver) matches Some((t, r))
            ==> t.phase == PipelinePhase::Cleanup,
{
    failed_run_cleans_up(max_cycles, p, approval_provided(s, false), resolver);
}

/// The answer to a confirmation is found under the key that the part names, and
/// never fails the run.
pub proof fn confirmation_is_recorded(s: PipelineRunStateView, key: Seq<char>, approved: bool)
    requires
        sorted(s.facts.derived),
        s.waiting == Some(
            WaitingForView::Approval { mode: ApprovalMode::Confirm, output_key: Some(key) },
        ),
    ensures
        lookup(approval_provided(s, approved).facts.derived, key) == Some(
            if approved {
                "true"@
            } else {
                "false"@
            },
        ),
        approval_provided(s, approved).failed == s.failed,
        approval_provided(s, approved).waiting is None,
{
    let answer = if approved {
        "true"@
    } else {
        "false"@
    };
    lookup_put(s.facts.derived, key, answer, key);
}

/// A command named by its identifier is announced by one step and invoked, as it was
/// resolved, by the next.
pub proof fn announced_command_is_invoked<R: CommandResolver>(
    max_cycles: u32,
    p: PipelineView,
    s: PipelineRunStateView,
    cwd: Option<Seq<char>>,
    argv: Option<Seq<Seq<char>>>,
    id: Seq<char>,
    resolver: &R,
)
    requires
        s.waiting is None,
        resolver.resolves(id) is Some,
    ensures
        run_command_step(s, cwd, argv, Some(id), ChildProcessPolicy::Inherit, resolver) matches Some(
            (t, Ok(PipelineActionView::EmitNote { .. })),
        ) && run_step(max_cycles, p, t, resolver) matches Some(
            (u, Ok(PipelineActionView::InvokeTool { tool_call, phase })),
        ) && tool_call == shell_call(
            "pipeline-run-command"@,
            resolver.resolves(id)->0.argv,
            resolver.resolves(id)->0.cwd,
        ) && phase == s.phase && u.waiting == Some(WaitingForView::Tool),
{
}

/// A part deferred last is the first of the deferred parts to be taken up.
pub proof fn deferred_parts_run_last_first<R: CommandResolver>(
    s: PipelineRunStateView,
    part: PartView,
    resolver: &R,
)
    ensures
        part_step(s, PartView::Defer { part: Box::new(part) }, resolver) matches Some((t, Ok(_)))
            && deferred_step(t, resolver) == part_step(s, part, resolver),
{
    let t = PipelineRunStateView { deferred: s.deferred.push(part), ..s };
    assert(t.deferred.drop_last() =~= s.deferred);
    assert(PipelineRunStateView { deferred: t.deferred.drop_last(), ..t } == s);
}

/// A tool's outcome is taken only by a run that waits for a tool, and is then what
/// values are extracted from.
pub proof fn outcome_is_remembered(
    s: PipelineRunStateView,
    outcome: ToolOutcomeView,
    stdout: Seq<char>,
    stderr: Seq<char>,
)
    ensures
        tool_provided(s, outcome, stdout, stderr).waiting is None,
        s.waiting == Some(WaitingForView::Tool) ==> {
            let t = tool_provided(s, outcome, stdout, stderr);
            &&& t.facts.last_tool_outcome == Some(outcome)
            &&& t.facts.last_tool_output_stdout == stdout
            &&& t.facts.last_tool_output_stderr == stderr
            &&& t.facts.derived == s.facts.derived
        },
        s.waiting != Some(WaitingForView::Tool) ==> tool_provided(s, outcome, stdout, stderr).facts
            == s.facts,
{
}

} // verus!
