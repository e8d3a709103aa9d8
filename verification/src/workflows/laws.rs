//! What holds of every run of a workflow.

use vstd::prelude::*;
use crate::strmap::{lookup, lookup_put, lookup_some, sorted};
use crate::digest::hex_digest;
use crate::text::{bytes_len, has_prefix, is_blank};
use vstd::utf8::encode_utf8;
use crate::types::laws::{sound_file, sound_files_are_accepted};
use crate::types::time::TimestampView;
use crate::types::workflows::{
    next_refs, valid_workflows_are_closed, WorkflowGraphV1View, WorkflowStepV1View,
    WorkflowsFileV1View,
};
use crate::workflows::engine::{
    applied, checked_entry, graph_problem, materialized, next, pending_action, rejection_applied,
    revision_bound, revisions, started, Components,
};
use crate::workflows::model::{
    file_accepted, terminal, ArtifactRecordView, ArtifactStoreConfigView, PendingActionView,
    StoreWriteView, WorkflowActionResultView, WorkflowActionView, WorkflowErrorView, WorkflowRunStateView,
    WorkflowRunStatus,
};
use crate::workflows::store::{artifact_record, feedback_record, path_segment};

verus! {

/// A run that has come to its end asks for nothing more and does not change.
pub proof fn ended_run_stays(g: WorkflowGraphV1View, c: Components, s: WorkflowRunStateView)
    requires
        terminal(s),
    ensures
        next(g, c, s) == (s, Ok::<Option<WorkflowActionView>, WorkflowErrorView>(None)),
{
}

/// A run that waits gives no further action and does not change.
pub proof fn waiting_run_gives_no_action(
    g: WorkflowGraphV1View,
    c: Components,
    s: WorkflowRunStateView,
)
    requires
        !terminal(s),
        s.pending is Some,
    ensures
        next(g, c, s).0 == s,
        next(g, c, s).1 is Err,
{
}

/// The action that a run was given can be had again from its state alone, until its
/// result is taken.
pub proof fn asked_action_can_be_recovered(
    g: WorkflowGraphV1View,
    c: Components,
    s: WorkflowRunStateView,
    a: WorkflowActionView,
)
    requires
        next(g, c, s).1 == Ok::<Option<WorkflowActionView>, WorkflowErrorView>(Some(a)),
        !(a is Complete),
    ensures
        pending_action(g, c, next(g, c, s).0) == Ok::<
            Option<WorkflowActionView>,
            WorkflowErrorView,
        >(Some(a)),
        next(g, c, s).0.status == WorkflowRunStatus::Waiting,
{
}

/// An action that is refused changes nothing; an error on taking a result changes at
/// most what the run waits for, and that only where the feedback is too large.
pub proof fn errors_leave_the_run(
    g: WorkflowGraphV1View,
    c: Components,
    limit: u32,
    cfg: ArtifactStoreConfigView,
    now: TimestampView,
    s: WorkflowRunStateView,
    action: WorkflowActionView,
    result: WorkflowActionResultView,
)
    ensures
        next(g, c, s).1 is Err ==> next(g, c, s).0 == s,
        applied(g, c, limit, cfg, now, s, action, result).1 matches Err(e) ==> {
            let t = applied(g, c, limit, cfg, now, s, action, result).0;
            t == s || e is FeedbackTooLarge && t == (WorkflowRunStateView { pending: None, ..s })
        },
{
}

/// A result that is taken ends the waiting.
pub proof fn taken_result_ends_the_waiting(
    g: WorkflowGraphV1View,
    c: Components,
    limit: u32,
    cfg: ArtifactStoreConfigView,
    now: TimestampView,
    s: WorkflowRunStateView,
    action: WorkflowActionView,
    result: WorkflowActionResultView,
)
    ensures
        applied(g, c, limit, cfg, now, s, action, result).1 is Ok ==> s.pending is Some && applied(
            g,
            c,
            limit,
            cfg,
            now,
            s,
            action,
            result,
        ).0.pending is None,
{
}

/// A rejected review is counted, its feedback is kept, and the run goes on to the
/// revision only within the bound; past it the run ends and a human has to look.
pub proof fn revisions_are_bounded(
    limit: u32,
    cfg: ArtifactStoreConfigView,
    now: TimestampView,
    s: WorkflowRunStateView,
    step_id: Seq<char>,
    on_feedback: Seq<char>,
    max_revisions: u32,
    key: Seq<char>,
    feedback: Seq<char>,
)
    requires
        sorted(s.revision_counters),
        sorted(s.feedback),
        revisions(s, key) < u32::MAX,
        bytes_len(feedback) <= cfg.max_feedback_bytes,
    ensures
        ({
            let (t, r) = rejection_applied(
                limit,
                cfg,
                now,
                s,
                step_id,
                on_feedback,
                max_revisions,
                key,
                feedback,
            );
            &&& r is Ok
            &&& revisions(t, key) == revisions(s, key) + 1
            &&& lookup(t.feedback, key + ".feedback"@) == Some(feedback)
            &&& (t.status == WorkflowRunStatus::NeedsHuman <==> revisions(t, key)
                > revision_bound(limit, max_revisions))
            &&& t.status != WorkflowRunStatus::NeedsHuman ==> t.status
                == WorkflowRunStatus::Running && t.current_step_id == on_feedback
        }),
{
    let count = (revisions(s, key) + 1) as u32;
    lookup_put(s.revision_counters, key, count, key);
    lookup_put(s.feedback, key + ".feedback"@, feedback, key + ".feedback"@);
}

/// Whether a name is that of a step.
pub open spec fn is_step(g: WorkflowGraphV1View, name: Seq<char>) -> bool {
    lookup(g.steps, name) is Some
}

/// Whether components, used in a graph, lead only to steps of it.
pub open spec fn components_fit(g: WorkflowGraphV1View, c: Components) -> bool {
    forall|i: int, j: int|
        0 <= i < c.len() && 0 <= j < next_refs(c[i].1.step).len() ==> is_step(
            g,
            #[trigger] next_refs(c[i].1.step)[j],
        )
}

/// Whether a run stands at a step of its graph, and will go on to one.
pub open spec fn on_track(g: WorkflowGraphV1View, s: WorkflowRunStateView) -> bool {
    &&& is_step(g, s.current_step_id)
    &&& match s.pending {
        Some(PendingActionView::InvokeAgent { next_step: Some(n), .. }) => is_step(g, n),
        Some(PendingActionView::RunPipeline { next_step: Some(n), .. }) => is_step(g, n),
        _ => true,
    }
}

proof fn graph_is_closed(g: WorkflowGraphV1View)
    requires
        graph_problem(g) is None,
    ensures
        is_step(g, g.entry),
        forall|i: int, j: int|
            0 <= i < g.steps.len() && 0 <= j < next_refs(g.steps[i].1).len() ==> is_step(
                g,
                #[trigger] next_refs(g.steps[i].1)[j],
            ),
{
    let f = WorkflowsFileV1View {
        schema_version: "1"@,
        components: Seq::empty(),
        workflows: seq![("_validation"@, checked_entry(g))],
        profile_attachments: crate::types::workflows::no_workflows().profile_attachments,
    };
    reveal_with_fuel(crate::types::workflows::entries_problem, 2);
    valid_workflows_are_closed(f, 0);
}

proof fn step_leads_to_steps(g: WorkflowGraphV1View, c: Components, name: Seq<char>)
    requires
        graph_problem(g) is None,
        components_fit(g, c),
    ensures
        materialized(g, c, name) matches Ok(step) ==> forall|j: int|
            0 <= j < next_refs(step).len() ==> is_step(g, #[trigger] next_refs(step)[j]),
{
    graph_is_closed(g);
    lookup_some(g.steps, name);
    if let Some(step) = lookup(g.steps, name) {
        let i = crate::strmap::rank(g.steps, name);
        assert(g.steps[i].1 == step);
        if let WorkflowStepV1View::UseComponent { component_id, args, next_step } = step {
            lookup_some(c, component_id);
            if let Some(component) = lookup(c, component_id) {
                let k = crate::strmap::rank(c, component_id);
                assert(c[k].1 == component);
                if let Ok(made) = materialized(g, c, name) {
                    assert forall|j: int| 0 <= j < next_refs(made).len() implies is_step(
                        g,
                        #[trigger] next_refs(made)[j],
                    ) by {
                        if next_step is Some {
                            assert(next_refs(made)[j] == next_refs(g.steps[i].1)[0]);
                        } else {
                            assert(next_refs(made)[j] == next_refs(c[k].1.step)[j]);
                        }
                    }
                }
            }
        } else {
            assert forall|j: int| 0 <= j < next_refs(step).len() implies is_step(
                g,
                #[trigger] next_refs(step)[j],
            ) by {
                assert(next_refs(step)[j] == next_refs(g.steps[i].1)[j]);
            }
        }
    }
}

/// A run of a valid graph starts at one of its steps.
pub proof fn run_starts_on_track(g: WorkflowGraphV1View, run_id: Seq<char>)
    requires
        graph_problem(g) is None,
    ensures
        on_track(g, started(g, run_id)),
{
    graph_is_closed(g);
}

/// A run of a valid graph, whose components lead only to steps of the graph, stays at
/// steps of the graph, whatever its actions give.
pub proof fn run_stays_on_track(
    g: WorkflowGraphV1View,
    c: Components,
    limit: u32,
    cfg: ArtifactStoreConfigView,
    now: TimestampView,
    s: WorkflowRunStateView,
    action: WorkflowActionView,
    result: WorkflowActionResultView,
)
    requires
        graph_problem(g) is None,
        components_fit(g, c),
        on_track(g, s),
    ensures
        on_track(g, next(g, c, s).0),
        on_track(g, applied(g, c, limit, cfg, now, s, action, result).0),
{
    step_leads_to_steps(g, c, s.current_step_id);
    if let Ok(step) = materialized(g, c, s.current_step_id) {
        assert(next_refs(step).len() > 0 ==> is_step(g, next_refs(step)[0]));
    }
    if let Some(PendingActionView::ReviewArtifact { step_id }) = s.pending {
        step_leads_to_steps(g, c, step_id);
        if let Ok(step) = materialized(g, c, step_id) {
            if let WorkflowStepV1View::ReviewArtifact { on_approved, on_feedback, .. } = step {
                assert(next_refs(step)[0] == on_approved);
                assert(next_refs(step)[1] == on_feedback);
            }
        }
    }
}

/// Where a step goes on, where it says so itself.
pub open spec fn goes_on(step: WorkflowStepV1View) -> Option<Seq<char>> {
    match step {
        WorkflowStepV1View::GenerateArtifact { next_step, .. } => next_step,
        WorkflowStepV1View::ReviseArtifact { next_step, .. } => next_step,
        WorkflowStepV1View::RunPipeline { next_step, .. } => next_step,
        _ => None,
    }
}

/// Whether two steps do the same, wherever they go on.
pub open spec fn do_the_same(a: WorkflowStepV1View, b: WorkflowStepV1View) -> bool {
    match (a, b) {
        (
            WorkflowStepV1View::GenerateArtifact { template_id, artifact_kind, inputs, .. },
            WorkflowStepV1View::GenerateArtifact {
                template_id: t,
                artifact_kind: k,
                inputs: i,
                ..
            },
        ) => template_id == t && artifact_kind == k && inputs == i,
        (
            WorkflowStepV1View::ReviseArtifact { template_id, artifact_ref, feedback_key, .. },
            WorkflowStepV1View::ReviseArtifact {
                template_id: t,
                artifact_ref: r,
                feedback_key: f,
                ..
            },
        ) => template_id == t && artifact_ref == r && feedback_key == f,
        (
            WorkflowStepV1View::RunPipeline { pipeline_id, pipeline_scope, .. },
            WorkflowStepV1View::RunPipeline { pipeline_id: p, pipeline_scope: s, .. },
        ) => pipeline_id == p && pipeline_scope == s,
        _ => false,
    }
}

/// Whether the step of a name is, in effect, `step`: it is that step, or it uses a component
/// that does the same, and goes on where the use says, else where the component does.
pub open spec fn acts_as(
    g: WorkflowGraphV1View,
    c: Components,
    name: Seq<char>,
    step: WorkflowStepV1View,
) -> bool {
    match lookup(g.steps, name) {
        None => false,
        Some(WorkflowStepV1View::UseComponent { component_id, next_step, .. }) => {
            &&& lookup(c, component_id) is Some
            &&& do_the_same(lookup(c, component_id)->0.step, step)
            &&& goes_on(step) == if next_step is Some {
                next_step
            } else {
                goes_on(lookup(c, component_id)->0.step)
            }
        },
        Some(own) => step == own,
    }
}

/// A component stands for its step wherever it is used; what names no step, no component or
/// one that cannot be used has none.
pub proof fn components_stand_for_their_steps(
    g: WorkflowGraphV1View,
    c: Components,
    name: Seq<char>,
    step: WorkflowStepV1View,
)
    ensures
        materialized(g, c, name) == Ok::<WorkflowStepV1View, WorkflowErrorView>(step) <==> acts_as(
            g,
            c,
            name,
            step,
        ),
        lookup(g.steps, name) is None ==> materialized(g, c, name) == Err::<
            WorkflowStepV1View,
            WorkflowErrorView,
        >(WorkflowErrorView::MissingStep(name)),
{
}

/// A run that can go on asks for what its step says: the agent is given the step's template and
/// inputs, and a revision the feedback that is kept under the step's key; a review is given
/// what it is about and how often it was rejected; a pipeline is named; and a run at its last
/// step is complete. The run waits for what it asked, and nothing else about it changes.
pub proof fn step_asks_for_what_it_says(
    g: WorkflowGraphV1View,
    c: Components,
    s: WorkflowRunStateView,
    step: WorkflowStepV1View,
)
    requires
        !terminal(s),
        s.pending is None,
        acts_as(g, c, s.current_step_id, step),
    ensures
        ({
            let (t, r) = next(g, c, s);
            let here = s.current_step_id;
            &&& r is Ok && !(step is Complete) ==> t == (WorkflowRunStateView {
                status: WorkflowRunStatus::Waiting,
                pending: t.pending,
                ..s
            }) && t.pending is Some
            &&& match step {
                WorkflowStepV1View::GenerateArtifact {
                    template_id,
                    artifact_kind,
                    inputs,
                    next_step,
                } => {
                    &&& r matches Ok(Some(WorkflowActionView::InvokeAgent { .. }))
                    &&& r->Ok_0->0->InvokeAgent_run_id == s.run_id
                    &&& r->Ok_0->0->InvokeAgent_step_id == here
                    &&& r->Ok_0->0->template_id == template_id
                    &&& r->Ok_0->0->InvokeAgent_artifact_ref == artifact_kind
                    &&& r->Ok_0->0->artifact_kind == artifact_kind
                    &&& r->Ok_0->0->inputs == inputs
                    &&& r->Ok_0->0->feedback is None
                    &&& t.pending->0 is InvokeAgent
                    &&& t.pending->0->InvokeAgent_step_id == here
                    &&& t.pending->0->artifact_ref == artifact_kind
                    &&& t.pending->0->artifact_kind == artifact_kind
                    &&& t.pending->0->InvokeAgent_next_step == next_step
                },
                WorkflowStepV1View::ReviseArtifact {
                    template_id,
                    artifact_ref,
                    feedback_key,
                    next_step,
                } => {
                    &&& lookup(s.feedback, feedback_key) is None ==> t == s && r == Err::<
                        Option<WorkflowActionView>,
                        WorkflowErrorView,
                    >(WorkflowErrorView::MissingFeedbackKey(feedback_key))
                    &&& lookup(s.feedback, feedback_key) is Some ==> {
                        &&& r matches Ok(Some(WorkflowActionView::InvokeAgent { .. }))
                        &&& r->Ok_0->0->InvokeAgent_run_id == s.run_id
                        &&& r->Ok_0->0->InvokeAgent_step_id == here
                        &&& r->Ok_0->0->template_id == template_id
                        &&& r->Ok_0->0->InvokeAgent_artifact_ref == artifact_ref
                        &&& r->Ok_0->0->artifact_kind == artifact_ref
                        &&& r->Ok_0->0->inputs.len() == 0
                        &&& r->Ok_0->0->feedback == lookup(s.feedback, feedback_key)
                        &&& t.pending->0 is InvokeAgent
                        &&& t.pending->0->InvokeAgent_step_id == here
                        &&& t.pending->0->artifact_ref == artifact_ref
                        &&& t.pending->0->artifact_kind == artifact_ref
                        &&& t.pending->0->InvokeAgent_next_step == next_step
                    }
                },
                WorkflowStepV1View::ReviewArtifact {
                    artifact_ref,
                    prompt,
                    max_revisions,
                    revision_counter_key,
                    ..
                } => {
                    &&& r matches Ok(Some(WorkflowActionView::RequestReview { .. }))
                    &&& r->Ok_0->0->RequestReview_run_id == s.run_id
                    &&& r->Ok_0->0->RequestReview_step_id == here
                    &&& r->Ok_0->0->RequestReview_artifact_ref == artifact_ref
                    &&& r->Ok_0->0->prompt == prompt
                    &&& r->Ok_0->0->max_revisions == max_revisions
                    &&& r->Ok_0->0->current_revisions == rejections(
                        s,
                        if is_blank(revision_counter_key) {
                            here
                        } else {
                            revision_counter_key
                        },
                    )
                    &&& t.pending->0 is ReviewArtifact
                    &&& t.pending->0->ReviewArtifact_step_id == here
                },
                WorkflowStepV1View::RunPipeline { pipeline_id, pipeline_scope, next_step } => {
                    &&& r matches Ok(Some(WorkflowActionView::RunPipeline { .. }))
                    &&& r->Ok_0->0->RunPipeline_run_id == s.run_id
                    &&& r->Ok_0->0->RunPipeline_step_id == here
                    &&& r->Ok_0->0->pipeline_id == pipeline_id
                    &&& r->Ok_0->0->pipeline_scope == pipeline_scope
                    &&& t.pending->0 is RunPipeline
                    &&& t.pending->0->RunPipeline_step_id == here
                    &&& t.pending->0->RunPipeline_next_step == next_step
                },
                WorkflowStepV1View::Complete => {
                    &&& r matches Ok(Some(WorkflowActionView::Complete { .. }))
                    &&& r->Ok_0->0->Complete_run_id == s.run_id
                    &&& r->Ok_0->0->Complete_step_id == here
                    &&& t == (WorkflowRunStateView { status: WorkflowRunStatus::Completed, ..s })
                },
                WorkflowStepV1View::UseComponent { .. } => true,
            }
        }),
{
}

/// How often a review was rejected so far, counted under a name.
pub open spec fn rejections(s: WorkflowRunStateView, key: Seq<char>) -> nat {
    match lookup(s.revision_counters, key) {
        Some(n) => n as nat,
        None => 0,
    }
}

/// What an agent gives becomes the artifact that was asked for: it is recorded under its name,
/// with its kind, size and digest, and is to be written with its record; the run goes on to the
/// step that was noted, or is complete where there is none. Too large an output is refused and
/// the run still waits.
pub proof fn output_becomes_the_artifact(
    g: WorkflowGraphV1View,
    c: Components,
    limit: u32,
    cfg: ArtifactStoreConfigView,
    now: TimestampView,
    s: WorkflowRunStateView,
    action: WorkflowActionView,
    content: Seq<char>,
    other: Seq<char>,
)
    requires
        sorted(s.artifacts),
        s.pending matches Some(PendingActionView::InvokeAgent { .. }),
        action is InvokeAgent,
        action->InvokeAgent_step_id == s.pending->0->InvokeAgent_step_id,
    ensures
        ({
            let (t, r) = applied(
                g,
                c,
                limit,
                cfg,
                now,
                s,
                action,
                WorkflowActionResultView::AgentOutput { content },
            );
            let p = s.pending->0;
            &&& bytes_len(content) > cfg.max_artifact_bytes ==> t == s && r is Err
            &&& bytes_len(content) <= cfg.max_artifact_bytes ==> {
                &&& r matches Ok(Some(StoreWriteView::Artifact { .. }))
                &&& r->Ok_0->0->Artifact_content == content
                &&& lookup(t.artifacts, p->artifact_ref) == Some(r->Ok_0->0->Artifact_record)
                &&& other != p->artifact_ref ==> lookup(t.artifacts, other) == lookup(
                    s.artifacts,
                    other,
                )
                &&& records_artifact(
                    r->Ok_0->0->Artifact_record,
                    s.run_id,
                    p->artifact_ref,
                    p->artifact_kind,
                    content,
                    now,
                )
                &&& t == (WorkflowRunStateView {
                    artifacts: t.artifacts,
                    pending: None,
                    status: if p->InvokeAgent_next_step is Some {
                        WorkflowRunStatus::Running
                    } else {
                        WorkflowRunStatus::Completed
                    },
                    current_step_id: if p->InvokeAgent_next_step is Some {
                        p->InvokeAgent_next_step->0
                    } else {
                        s.current_step_id
                    },
                    ..s
                })
            }
        }),
{
    let p = s.pending->0;
    if let Ok(record) = artifact_record(
        cfg.max_artifact_bytes,
        s.run_id,
        p->artifact_ref,
        p->artifact_kind,
        content,
        now,
    ) {
        lookup_put(s.artifacts, p->artifact_ref, record, p->artifact_ref);
        lookup_put(s.artifacts, p->artifact_ref, record, other);
    }
}

/// Whether a record is that of an artifact: it names the run, the artifact and its kind, holds
/// the size and the digest of the content and when it was made, and addresses the content by
/// its digest alone and itself by the run and the artifact.
pub open spec fn records_artifact(
    record: ArtifactRecordView,
    run_id: Seq<char>,
    artifact_ref: Seq<char>,
    artifact_kind: Seq<char>,
    content: Seq<char>,
    now: TimestampView,
) -> bool {
    &&& record.run_id == run_id
    &&& record.artifact_ref == artifact_ref
    &&& record.artifact_kind == artifact_kind
    &&& record.bytes == bytes_len(content)
    &&& record.sha256 == hex_digest(encode_utf8(content))
    &&& record.created_at == now
    &&& record.object_rel_path == "objects/"@ + record.sha256 + ".txt"@
    &&& record.metadata_rel_path == "runs/"@ + run_id + "/artifacts/"@ + path_segment(artifact_ref)
        + ".meta.json"@
}

/// A review that approves leads to the step that is named for it, and changes nothing else.
pub proof fn approval_goes_on(
    g: WorkflowGraphV1View,
    c: Components,
    limit: u32,
    cfg: ArtifactStoreConfigView,
    now: TimestampView,
    s: WorkflowRunStateView,
    action: WorkflowActionView,
    step: WorkflowStepV1View,
    feedback: Option<Seq<char>>,
)
    requires
        s.pending matches Some(PendingActionView::ReviewArtifact { .. }),
        action is RequestReview,
        action->RequestReview_step_id == s.pending->0->ReviewArtifact_step_id,
        step is ReviewArtifact,
        acts_as(g, c, s.pending->0->ReviewArtifact_step_id, step),
    ensures
        applied(
            g,
            c,
            limit,
            cfg,
            now,
            s,
            action,
            WorkflowActionResultView::ReviewDecision { approved: true, feedback },
        ) == (
            WorkflowRunStateView {
                pending: None,
                status: WorkflowRunStatus::Running,
                current_step_id: step->on_approved,
                ..s
            },
            Ok::<Option<StoreWriteView>, WorkflowErrorView>(None),
        ),
{
}

/// A review that rejects is counted once, its feedback is kept under the name of its counter and
/// is to be written as it is; the run goes on to the step that is named for it, as long as the
/// review was not rejected more often than the step allows, else a human has to look. Where the
/// step sets no bound, that of the engine counts.
pub proof fn rejection_is_counted(
    g: WorkflowGraphV1View,
    c: Components,
    limit: u32,
    cfg: ArtifactStoreConfigView,
    now: TimestampView,
    s: WorkflowRunStateView,
    action: WorkflowActionView,
    step: WorkflowStepV1View,
    feedback: Option<Seq<char>>,
    other: Seq<char>,
)
    requires
        sorted(s.revision_counters),
        sorted(s.feedback),
        s.pending matches Some(PendingActionView::ReviewArtifact { .. }),
        action is RequestReview,
        action->RequestReview_step_id == s.pending->0->ReviewArtifact_step_id,
        step is ReviewArtifact,
        acts_as(g, c, s.pending->0->ReviewArtifact_step_id, step),
        rejections(s, review_key(s.pending->0->ReviewArtifact_step_id, step)) < u32::MAX,
    ensures
        ({
            let (t, r) = applied(
                g,
                c,
                limit,
                cfg,
                now,
                s,
                action,
                WorkflowActionResultView::ReviewDecision { approved: false, feedback },
            );
            let key = review_key(s.pending->0->ReviewArtifact_step_id, step);
            let text = if feedback is Some {
                feedback->0
            } else {
                Seq::empty()
            };
            let bound = if step->max_revisions == 0 {
                limit
            } else {
                step->max_revisions
            };
            &&& bytes_len(text) > cfg.max_feedback_bytes ==> r is Err && t.feedback == s.feedback
                && t.revision_counters == s.revision_counters
            &&& bytes_len(text) <= cfg.max_feedback_bytes ==> {
                &&& r matches Ok(Some(StoreWriteView::Feedback { .. }))
                &&& r->Ok_0->0->Feedback_content == text
                &&& r->Ok_0->0->Feedback_record.sha256 == hex_digest(encode_utf8(text))
                &&& r->Ok_0->0->Feedback_record.bytes == bytes_len(text)
                &&& r->Ok_0->0->Feedback_record.run_id == s.run_id
                &&& r->Ok_0->0->Feedback_record.step_id == s.pending->0->ReviewArtifact_step_id
                &&& r->Ok_0->0->Feedback_record.feedback_key == key + ".feedback"@
                &&& rejections(t, key) == rejections(s, key) + 1
                &&& other != key ==> rejections(t, other) == rejections(s, other)
                &&& lookup(t.feedback, key + ".feedback"@) == Some(text)
                &&& other != key + ".feedback"@ ==> lookup(t.feedback, other) == lookup(
                    s.feedback,
                    other,
                )
                &&& t.pending is None
                &&& t.artifacts == s.artifacts
                &&& rejections(t, key) > bound ==> t.status == WorkflowRunStatus::NeedsHuman
                    && t.current_step_id == s.current_step_id && t.last_error is Some
                &&& rejections(t, key) <= bound ==> t.status == WorkflowRunStatus::Running
                    && t.current_step_id == step->on_feedback && t.last_error == s.last_error
            }
        }),
{
    let key = review_key(s.pending->0->ReviewArtifact_step_id, step);
    let text = if feedback is Some {
        feedback->0
    } else {
        Seq::empty()
    };
    let count = (rejections(s, key) + 1) as u32;
    lookup_put(s.revision_counters, key, count, key);
    lookup_put(s.revision_counters, key, count, other);
    lookup_put(s.feedback, key + ".feedback"@, text, key + ".feedback"@);
    lookup_put(s.feedback, key + ".feedback"@, text, other);
}

/// The name under which the rejections of a review are counted: the one that the step gives,
/// else that of the step itself.
pub open spec fn review_key(step_id: Seq<char>, step: WorkflowStepV1View) -> Seq<char> {
    if is_blank(step->revision_counter_key) {
        step_id
    } else {
        step->revision_counter_key
    }
}

/// What a review says reaches the revision: where a review is rejected and leads to a step that
/// revises by what this review said, the next action gives the agent exactly that.
pub proof fn feedback_reaches_the_revision(
    g: WorkflowGraphV1View,
    c: Components,
    limit: u32,
    cfg: ArtifactStoreConfigView,
    now: TimestampView,
    s: WorkflowRunStateView,
    action: WorkflowActionView,
    review: WorkflowStepV1View,
    revision: WorkflowStepV1View,
    feedback: Seq<char>,
)
    requires
        sorted(s.revision_counters),
        sorted(s.feedback),
        s.pending matches Some(PendingActionView::ReviewArtifact { .. }),
        action is RequestReview,
        action->RequestReview_step_id == s.pending->0->ReviewArtifact_step_id,
        review is ReviewArtifact,
        acts_as(g, c, s.pending->0->ReviewArtifact_step_id, review),
        revision is ReviseArtifact,
        acts_as(g, c, review->on_feedback, revision),
        revision->feedback_key == review_key(s.pending->0->ReviewArtifact_step_id, review)
            + ".feedback"@,
        bytes_len(feedback) <= cfg.max_feedback_bytes,
        rejections(s, review_key(s.pending->0->ReviewArtifact_step_id, review)) < (if review->max_revisions
            == 0 {
            limit
        } else {
            review->max_revisions
        }),
    ensures
        ({
            let (t, _) = applied(
                g,
                c,
                limit,
                cfg,
                now,
                s,
                action,
                WorkflowActionResultView::ReviewDecision {
                    approved: false,
                    feedback: Some(feedback),
                },
            );
            let (_, r) = next(g, c, t);
            &&& r matches Ok(Some(WorkflowActionView::InvokeAgent { .. }))
            &&& r->Ok_0->0->InvokeAgent_step_id == review->on_feedback
            &&& r->Ok_0->0->template_id == revision->ReviseArtifact_template_id
            &&& r->Ok_0->0->InvokeAgent_artifact_ref == revision->ReviseArtifact_artifact_ref
            &&& r->Ok_0->0->feedback == Some(feedback)
        }),
{
    rejection_is_counted(
        g,
        c,
        limit,
        cfg,
        now,
        s,
        action,
        review,
        Some(feedback),
        Seq::empty(),
    );
    let (t, _) = applied(
        g,
        c,
        limit,
        cfg,
        now,
        s,
        action,
        WorkflowActionResultView::ReviewDecision { approved: false, feedback: Some(feedback) },
    );
    step_asks_for_what_it_says(g, c, t, revision);
}

/// A pipeline that succeeds lets the run go on to the step that was noted, or completes it; one
/// that fails ends it, with what the pipeline said.
pub proof fn pipeline_decides_the_run(
    g: WorkflowGraphV1View,
    c: Components,
    limit: u32,
    cfg: ArtifactStoreConfigView,
    now: TimestampView,
    s: WorkflowRunStateView,
    action: WorkflowActionView,
    success: bool,
    summary: Option<Seq<char>>,
)
    requires
        s.pending matches Some(PendingActionView::RunPipeline { .. }),
        action is RunPipeline,
        action->RunPipeline_step_id == s.pending->0->RunPipeline_step_id,
    ensures
        ({
            let (t, r) = applied(
                g,
                c,
                limit,
                cfg,
                now,
                s,
                action,
                WorkflowActionResultView::PipelineOutput { success, summary },
            );
            let next_step = s.pending->0->RunPipeline_next_step;
            &&& r == Ok::<Option<StoreWriteView>, WorkflowErrorView>(None)
            &&& t == (WorkflowRunStateView {
                pending: None,
                status: t.status,
                current_step_id: t.current_step_id,
                last_error: t.last_error,
                ..s
            })
            &&& !success ==> t.status == WorkflowRunStatus::Failed && t.last_error == summary
                && t.current_step_id == s.current_step_id
            &&& success && next_step is Some ==> t.status == WorkflowRunStatus::Running
                && t.current_step_id == next_step->0 && t.last_error == s.last_error
            &&& success && next_step is None ==> t.status == WorkflowRunStatus::Completed
                && t.current_step_id == s.current_step_id && t.last_error == s.last_error
        }),
{
}

/// A result is taken only for the action that the run waits for: one of another kind, or for
/// another step, is refused and changes nothing, and so is any where nothing is waited for.
pub proof fn other_results_are_refused(
    g: WorkflowGraphV1View,
    c: Components,
    limit: u32,
    cfg: ArtifactStoreConfigView,
    now: TimestampView,
    s: WorkflowRunStateView,
    action: WorkflowActionView,
    result: WorkflowActionResultView,
)
    ensures
        ({
            let (t, r) = applied(g, c, limit, cfg, now, s, action, result);
            let fits = match s.pending {
                Some(PendingActionView::InvokeAgent { step_id, .. }) => action is InvokeAgent
                    && result is AgentOutput && action->InvokeAgent_step_id == step_id,
                Some(PendingActionView::ReviewArtifact { step_id }) => action is RequestReview
                    && result is ReviewDecision && action->RequestReview_step_id == step_id,
                Some(PendingActionView::RunPipeline { step_id, .. }) => action is RunPipeline
                    && result is PipelineOutput && action->RunPipeline_step_id == step_id,
                None => false,
            };
            !fits ==> t == s && (r matches Err(WorkflowErrorView::InvalidRunState(_)))
        }),
{
}

/// A run starts at the entry of its graph, with nothing done and nothing waited for.
pub proof fn run_starts_at_the_entry(g: WorkflowGraphV1View, run_id: Seq<char>)
    ensures
        started(g, run_id).run_id == run_id,
        started(g, run_id).current_step_id == g.entry,
        started(g, run_id).status == WorkflowRunStatus::Running,
        started(g, run_id).pending is None,
        started(g, run_id).artifacts.len() == 0,
        started(g, run_id).feedback.len() == 0,
        started(g, run_id).revision_counters.len() == 0,
        started(g, run_id).last_error is None,
        started(g, run_id).workflow_id is None,
{
}

/// A run that is complete, needs a human or has failed asks for nothing more; one that runs or
/// waits has not come to its end.
pub proof fn ended_runs_ask_for_nothing(
    g: WorkflowGraphV1View,
    c: Components,
    s: WorkflowRunStateView,
)
    ensures
        s.status == WorkflowRunStatus::Completed || s.status == WorkflowRunStatus::NeedsHuman
            || s.status == WorkflowRunStatus::Failed ==> next(g, c, s) == (
            s,
            Ok::<Option<WorkflowActionView>, WorkflowErrorView>(None),
        ) && terminal(s),
        s.status == WorkflowRunStatus::Running || s.status == WorkflowRunStatus::Waiting
            ==> !terminal(s),
{
}

/// What is kept of an artifact: who made it and when, how many bytes it has, and the digest of
/// its content, under which it is kept. Too large an artifact is refused.
pub proof fn artifacts_are_recorded_as_they_are(
    max_bytes: u64,
    run_id: Seq<char>,
    artifact_ref: Seq<char>,
    artifact_kind: Seq<char>,
    content: Seq<char>,
    created_at: TimestampView,
)
    ensures
        ({
            let r = artifact_record(
                max_bytes,
                run_id,
                artifact_ref,
                artifact_kind,
                content,
                created_at,
            );
            let digest = hex_digest(encode_utf8(content));
            &&& r is Ok <==> encode_utf8(content).len() <= max_bytes
            &&& r is Ok ==> {
                let a = r->Ok_0;
                &&& a.run_id == run_id
                &&& a.artifact_ref == artifact_ref
                &&& a.artifact_kind == artifact_kind
                &&& a.created_at == created_at
                &&& a.bytes == encode_utf8(content).len()
                &&& a.sha256 == digest
                &&& a.object_rel_path == "objects/"@ + digest + ".txt"@
                &&& has_prefix(a.metadata_rel_path, "runs/"@ + run_id + "/artifacts/"@)
            }
        }),
{
    let head = "runs/"@ + run_id + "/artifacts/"@;
    let path = head + path_segment(artifact_ref) + ".meta.json"@;
    assert(path.subrange(0, head.len() as int) =~= head);
}

/// What is kept of feedback: what it is about and when it was given, how many bytes it has, and
/// its digest. The feedback and its record lie side by side with the run's other feedback. Too
/// large a feedback is refused.
pub proof fn feedback_is_recorded_as_it_is(
    max_bytes: u64,
    run_id: Seq<char>,
    step_id: Seq<char>,
    feedback_key: Seq<char>,
    feedback: Seq<char>,
    created_at: TimestampView,
)
    ensures
        ({
            let r = feedback_record(
                max_bytes,
                run_id,
                step_id,
                feedback_key,
                feedback,
                created_at,
            );
            &&& r is Ok <==> encode_utf8(feedback).len() <= max_bytes
            &&& r is Ok ==> {
                let f = r->Ok_0;
                &&& f.run_id == run_id
                &&& f.step_id == step_id
                &&& f.feedback_key == feedback_key
                &&& f.created_at == created_at
                &&& f.bytes == encode_utf8(feedback).len()
                &&& f.sha256 == hex_digest(encode_utf8(feedback))
                &&& has_prefix(f.content_rel_path, "runs/"@ + run_id + "/feedback/"@)
                &&& has_prefix(f.metadata_rel_path, "runs/"@ + run_id + "/feedback/"@)
                &&& exists|stem: Seq<char>|
                    f.content_rel_path == stem + ".txt"@ && f.metadata_rel_path == #[trigger] (stem
                        + ".meta.json"@)
            }
        }),
{
    let head = "runs/"@ + run_id + "/feedback/"@;
    let stem = head + path_segment(step_id) + "-"@ + crate::workflows::store::short(
        hex_digest(encode_utf8(feedback)),
    );
    assert((stem + ".txt"@).subrange(0, head.len() as int) =~= head);
    assert((stem + ".meta.json"@).subrange(0, head.len() as int) =~= head);
    if feedback_record(max_bytes, run_id, step_id, feedback_key, feedback, created_at) is Ok {
        let f = feedback_record(
            max_bytes,
            run_id,
            step_id,
            feedback_key,
            feedback,
            created_at,
        )->Ok_0;
        assert(f.metadata_rel_path == stem + ".meta.json"@);
    }
}

/// A workflows file counts where it is sound, as it is; one that is not there holds nothing.
pub proof fn sound_files_count(f: Option<WorkflowsFileV1View>)
    ensures
        f is None ==> file_accepted(f) is Ok && file_accepted(f)->Ok_0.workflows.len() == 0
            && file_accepted(f)->Ok_0.components.len() == 0,
        f matches Some(x) ==> (file_accepted(f) is Ok <==> sound_file(x)),
        f matches Some(x) ==> file_accepted(f) is Ok ==> file_accepted(f)->Ok_0 == x,
{
    if let Some(x) = f {
        sound_files_are_accepted(x);
    }
}

} // verus!
