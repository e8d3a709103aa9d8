//! Stepwise execution of an artifact workflow.

use vstd::prelude::*;
use crate::strmap::{lookup, put, StrMap};
use crate::text::{
    blank, bytes_len, cat2, cat3, cat4, cat6, decimal, decimal_string, is_blank, str_eq, Duplicate,
};
use crate::types::profile::{no_refs, ProfileRefs};
use crate::types::time::{Timestamp, TimestampView};
use crate::types::workflows::{
    entries_problem, entry_problem, WorkflowComponentV1, WorkflowComponentV1View, WorkflowEntryV1,
    WorkflowEntryV1View, WorkflowGraphV1, WorkflowGraphV1View, WorkflowStepV1, WorkflowStepV1View,
    WorkflowsFileV1,
};
use crate::workflows::model::{
    terminal, ArtifactStoreConfigView, PendingAction, PendingActionView, StoreWrite,
    StoreWriteView, WorkflowAction, WorkflowActionResult, WorkflowActionResultView,
    WorkflowActionView, WorkflowEngineLimits, WorkflowError, WorkflowErrorView, WorkflowRunState,
    WorkflowRunStateView, WorkflowRunStatus,
};
use crate::workflows::store::{
    artifact_record, feedback_record, ArtifactStore, PersistArtifactRequest,
    PersistFeedbackRequest,
};

verus! {

/// Components by name.
pub type Components = Seq<(Seq<char>, WorkflowComponentV1View)>;

/// A run state that makes no sense.
pub open spec fn invalid(message: Seq<char>) -> WorkflowErrorView {
    WorkflowErrorView::InvalidRunState(message)
}

/// `over` where it is given, else `own`.
pub open spec fn override_next(own: Option<Seq<char>>, over: Option<Seq<char>>) -> Option<Seq<char>> {
    match over {
        Some(s) => Some(s),
        None => own,
    }
}

/// The step that a component gives where it is used: its own, going on where the
/// use says. A component that reviews, completes or uses another component cannot
/// be used.
pub open spec fn component_step(
    component_id: Seq<char>,
    component: WorkflowComponentV1View,
    over: Option<Seq<char>>,
) -> Result<WorkflowStepV1View, WorkflowErrorView> {
    match component.step {
        WorkflowStepV1View::GenerateArtifact { template_id, artifact_kind, inputs, next_step } =>
        Ok(
            WorkflowStepV1View::GenerateArtifact {
                template_id,
                artifact_kind,
                inputs,
                next_step: override_next(next_step, over),
            },
        ),
        WorkflowStepV1View::ReviseArtifact {
            template_id,
            artifact_ref,
            feedback_key,
            next_step,
        } => Ok(
            WorkflowStepV1View::ReviseArtifact {
                template_id,
                artifact_ref,
                feedback_key,
                next_step: override_next(next_step, over),
            },
        ),
        WorkflowStepV1View::RunPipeline { pipeline_id, pipeline_scope, next_step } => Ok(
            WorkflowStepV1View::RunPipeline {
                pipeline_id,
                pipeline_scope,
                next_step: override_next(next_step, over),
            },
        ),
        _ => Err(
            invalid(
                "component "@ + component_id + " has unsupported step for use_component"@,
            ),
        ),
    }
}

/// The step of a name, with the component that it uses put in its place.
pub open spec fn materialized(g: WorkflowGraphV1View, c: Components, step_id: Seq<char>) -> Result<
    WorkflowStepV1View,
    WorkflowErrorView,
> {
    match lookup(g.steps, step_id) {
        None => Err(WorkflowErrorView::MissingStep(step_id)),
        Some(step) => match step {
            WorkflowStepV1View::UseComponent { component_id, args, next_step } => match lookup(
                c,
                component_id,
            ) {
                None => Err(WorkflowErrorView::MissingStep(component_id)),
                Some(component) => component_step(component_id, component, next_step),
            },
            other => Ok(other),
        },
    }
}

/// The name under which the revisions of a step are counted.
pub open spec fn counter_key(step_id: Seq<char>, raw: Seq<char>) -> Seq<char> {
    if is_blank(raw) {
        step_id
    } else {
        raw
    }
}

/// The revisions counted so far under a name.
pub open spec fn revisions(s: WorkflowRunStateView, key: Seq<char>) -> u32 {
    match lookup(s.revision_counters, key) {
        Some(n) => n,
        None => 0,
    }
}

/// The action that a run waits for.
pub open spec fn pending_action(
    g: WorkflowGraphV1View,
    c: Components,
    s: WorkflowRunStateView,
) -> Result<Option<WorkflowActionView>, WorkflowErrorView> {
    match s.pending {
        None => Ok(None),
        Some(p) => match materialized(g, c, s.current_step_id) {
            Err(e) => Err(e),
            Ok(step) => match (p, step) {
                (
                    PendingActionView::InvokeAgent { step_id, artifact_ref, artifact_kind, .. },
                    WorkflowStepV1View::GenerateArtifact { template_id, inputs, .. },
                ) => Ok(
                    Some(
                        WorkflowActionView::InvokeAgent {
                            run_id: s.run_id,
                            step_id,
                            template_id,
                            artifact_ref,
                            artifact_kind,
                            inputs,
                            feedback: None,
                        },
                    ),
                ),
                (
                    PendingActionView::InvokeAgent { step_id, artifact_ref, artifact_kind, .. },
                    WorkflowStepV1View::ReviseArtifact { template_id, feedback_key, .. },
                ) => Ok(
                    Some(
                        WorkflowActionView::InvokeAgent {
                            run_id: s.run_id,
                            step_id,
                            template_id,
                            artifact_ref,
                            artifact_kind,
                            inputs: Seq::empty(),
                            feedback: lookup(s.feedback, feedback_key),
                        },
                    ),
                ),
                (
                    PendingActionView::ReviewArtifact { step_id },
                    WorkflowStepV1View::ReviewArtifact {
                        artifact_ref,
                        prompt,
                        max_revisions,
                        revision_counter_key,
                        ..
                    },
                ) => Ok(
                    Some(
                        WorkflowActionView::RequestReview {
                            run_id: s.run_id,
                            step_id,
                            artifact_ref,
                            prompt,
                            max_revisions,
                            current_revisions: revisions(
                                s,
                                counter_key(step_id, revision_counter_key),
                            ),
                        },
                    ),
                ),
                (
                    PendingActionView::RunPipeline { step_id, .. },
                    WorkflowStepV1View::RunPipeline { pipeline_id, pipeline_scope, .. },
                ) => Ok(
                    Some(
                        WorkflowActionView::RunPipeline {
                            run_id: s.run_id,
                            step_id,
                            pipeline_id,
                            pipeline_scope,
                        },
                    ),
                ),
                _ => Err(invalid("pending action does not match current step"@)),
            },
        },
    }
}

/// The state of a run that waits for what it asked.
pub open spec fn waiting(s: WorkflowRunStateView, p: PendingActionView) -> WorkflowRunStateView {
    WorkflowRunStateView { status: WorkflowRunStatus::Waiting, pending: Some(p), ..s }
}

/// The next action of a run, and the state in which it is asked for.
pub open spec fn next(g: WorkflowGraphV1View, c: Components, s: WorkflowRunStateView) -> (
    WorkflowRunStateView,
    Result<Option<WorkflowActionView>, WorkflowErrorView>,
) {
    if terminal(s) {
        (s, Ok(None))
    } else if s.pending is Some {
        (
            s,
            Err(invalid("cannot produce next action while a previous action is pending"@)),
        )
    } else {
        match materialized(g, c, s.current_step_id) {
            Err(e) => (s, Err(e)),
            Ok(step) => match step {
                WorkflowStepV1View::GenerateArtifact {
                    template_id,
                    artifact_kind,
                    inputs,
                    next_step,
                } => (
                    waiting(
                        s,
                        PendingActionView::InvokeAgent {
                            step_id: s.current_step_id,
                            artifact_ref: artifact_kind,
                            artifact_kind,
                            next_step,
                        },
                    ),
                    Ok(
                        Some(
                            WorkflowActionView::InvokeAgent {
                                run_id: s.run_id,
                                step_id: s.current_step_id,
                                template_id,
                                artifact_ref: artifact_kind,
                                artifact_kind,
                                inputs,
                                feedback: None,
                            },
                        ),
                    ),
                ),
                WorkflowStepV1View::ReviewArtifact {
                    artifact_ref,
                    prompt,
                    max_revisions,
                    revision_counter_key,
                    ..
                } => (
                    waiting(
                        s,
                        PendingActionView::ReviewArtifact { step_id: s.current_step_id },
                    ),
                    Ok(
                        Some(
                            WorkflowActionView::RequestReview {
                                run_id: s.run_id,
                                step_id: s.current_step_id,
                                artifact_ref,
                                prompt,
                                max_revisions,
                                current_revisions: revisions(
                                    s,
                                    counter_key(s.current_step_id, revision_counter_key),
                                ),
                            },
                        ),
                    ),
                ),
                WorkflowStepV1View::ReviseArtifact {
                    template_id,
                    artifact_ref,
                    feedback_key,
                    next_step,
                } => match lookup(s.feedback, feedback_key) {
                    None => (s, Err(WorkflowErrorView::MissingFeedbackKey(feedback_key))),
                    Some(feedback) => (
                        waiting(
                            s,
                            PendingActionView::InvokeAgent {
                                step_id: s.current_step_id,
                                artifact_ref,
                                artifact_kind: artifact_ref,
                                next_step,
                            },
                        ),
                        Ok(
                            Some(
                                WorkflowActionView::InvokeAgent {
                                    run_id: s.run_id,
                                    step_id: s.current_step_id,
                                    template_id,
                                    artifact_ref,
                                    artifact_kind: artifact_ref,
                                    inputs: Seq::empty(),
                                    feedback: Some(feedback),
                                },
                            ),
                        ),
                    ),
                },
                WorkflowStepV1View::RunPipeline { pipeline_id, pipeline_scope, next_step } => (
                    waiting(
                        s,
                        PendingActionView::RunPipeline { step_id: s.current_step_id, next_step },
                    ),
                    Ok(
                        Some(
                            WorkflowActionView::RunPipeline {
                                run_id: s.run_id,
                                step_id: s.current_step_id,
                                pipeline_id,
                                pipeline_scope,
                            },
                        ),
                    ),
                ),
                WorkflowStepV1View::Complete => (
                    WorkflowRunStateView { status: WorkflowRunStatus::Completed, ..s },
                    Ok(
                        Some(
                            WorkflowActionView::Complete {
                                run_id: s.run_id,
                                step_id: s.current_step_id,
                            },
                        ),
                    ),
                ),
                WorkflowStepV1View::UseComponent { .. } => (
                    s,
                    Err(invalid("use_component must be materialized before execution"@)),
                ),
            },
        }
    }
}

/// The state that goes on to the next step, or is complete where there is none.
pub open spec fn moved_on(s: WorkflowRunStateView, next_step: Option<Seq<char>>) -> WorkflowRunStateView {
    match next_step {
        Some(step) => WorkflowRunStateView {
            current_step_id: step,
            status: WorkflowRunStatus::Running,
            ..s
        },
        None => WorkflowRunStateView { status: WorkflowRunStatus::Completed, ..s },
    }
}

/// The outcome of a result: the state after it, and what is to be written, if
/// anything.
pub type Applied = (WorkflowRunStateView, Result<Option<StoreWriteView>, WorkflowErrorView>);

/// The outcome of an agent's output: it becomes an artifact.
pub open spec fn agent_output_applied(
    cfg: ArtifactStoreConfigView,
    now: TimestampView,
    s: WorkflowRunStateView,
    artifact_ref: Seq<char>,
    artifact_kind: Seq<char>,
    next_step: Option<Seq<char>>,
    content: Seq<char>,
) -> Applied {
    match artifact_record(
        cfg.max_artifact_bytes,
        s.run_id,
        artifact_ref,
        artifact_kind,
        content,
        now,
    ) {
        Err(e) => (s, Err(e)),
        Ok(record) => (
            moved_on(
                WorkflowRunStateView {
                    artifacts: put(s.artifacts, artifact_ref, record),
                    pending: None,
                    ..s
                },
                next_step,
            ),
            Ok(Some(StoreWriteView::Artifact { record, content })),
        ),
    }
}

/// The bound on the revisions of a review.
pub open spec fn revision_bound(limit: u32, max_revisions: u32) -> u32 {
    if max_revisions == 0 {
        limit
    } else {
        max_revisions
    }
}

/// The outcome of a review that asks for a revision: the feedback is kept and the
/// revision counted, and past the bound a human has to look.
pub open spec fn rejection_applied(
    limit: u32,
    cfg: ArtifactStoreConfigView,
    now: TimestampView,
    s: WorkflowRunStateView,
    step_id: Seq<char>,
    on_feedback: Seq<char>,
    max_revisions: u32,
    key: Seq<char>,
    feedback: Seq<char>,
) -> Applied {
    let freed = WorkflowRunStateView { pending: None, ..s };
    match feedback_record(
        cfg.max_feedback_bytes,
        s.run_id,
        step_id,
        key + ".feedback"@,
        feedback,
        now,
    ) {
        Err(e) => (freed, Err(e)),
        Ok(record) => {
            let count = (revisions(s, key) + 1) as u32;
            let bound = revision_bound(limit, max_revisions);
            let counted = WorkflowRunStateView {
                revision_counters: put(s.revision_counters, key, count),
                feedback: put(s.feedback, key + ".feedback"@, feedback),
                ..freed
            };
            let after = if count > bound {
                WorkflowRunStateView {
                    status: WorkflowRunStatus::NeedsHuman,
                    last_error: Some(
                        "revision bound exceeded at "@ + step_id + ": "@ + decimal(count as nat)
                            + " > "@ + decimal(bound as nat),
                    ),
                    ..counted
                }
            } else {
                WorkflowRunStateView {
                    status: WorkflowRunStatus::Running,
                    current_step_id: on_feedback,
                    ..counted
                }
            };
            (after, Ok(Some(StoreWriteView::Feedback { record, content: feedback })))
        },
    }
}

/// The feedback of a review, empty where there is none.
pub open spec fn given_feedback(feedback: Option<Seq<char>>) -> Seq<char> {
    match feedback {
        Some(f) => f,
        None => Seq::empty(),
    }
}

/// The outcome of a review.
pub open spec fn review_applied(
    g: WorkflowGraphV1View,
    c: Components,
    limit: u32,
    cfg: ArtifactStoreConfigView,
    now: TimestampView,
    s: WorkflowRunStateView,
    step_id: Seq<char>,
    approved: bool,
    feedback: Option<Seq<char>>,
) -> Applied {
    match materialized(g, c, step_id) {
        Err(e) => (s, Err(e)),
        Ok(step) => match step {
            WorkflowStepV1View::ReviewArtifact {
                artifact_ref,
                prompt,
                on_approved,
                on_feedback,
                max_revisions,
                revision_counter_key,
            } => if approved {
                (
                    WorkflowRunStateView {
                        pending: None,
                        status: WorkflowRunStatus::Running,
                        current_step_id: on_approved,
                        ..s
                    },
                    Ok(None),
                )
            } else {
                rejection_applied(
                    limit,
                    cfg,
                    now,
                    s,
                    step_id,
                    on_feedback,
                    max_revisions,
                    counter_key(step_id, revision_counter_key),
                    given_feedback(feedback),
                )
            },
            _ => (s, Err(invalid("step "@ + step_id + " is not review_artifact"@))),
        },
    }
}

/// The outcome of a result that was obtained for an action.
pub open spec fn applied(
    g: WorkflowGraphV1View,
    c: Components,
    limit: u32,
    cfg: ArtifactStoreConfigView,
    now: TimestampView,
    s: WorkflowRunStateView,
    action: WorkflowActionView,
    result: WorkflowActionResultView,
) -> Applied {
    match s.pending {
        None => (s, Err(invalid("no pending action to apply a result to"@))),
        Some(pending) => match (pending, action, result) {
            (
                PendingActionView::InvokeAgent { step_id, artifact_ref, artifact_kind, next_step },
                WorkflowActionView::InvokeAgent { step_id: asked, .. },
                WorkflowActionResultView::AgentOutput { content },
            ) => if step_id != asked {
                (
                    s,
                    Err(
                        invalid(
                            "invoke_agent result step mismatch: pending="@ + step_id + " action="@
                                + asked,
                        ),
                    ),
                )
            } else {
                agent_output_applied(cfg, now, s, artifact_ref, artifact_kind, next_step, content)
            },
            (
                PendingActionView::ReviewArtifact { step_id },
                WorkflowActionView::RequestReview { step_id: asked, .. },
                WorkflowActionResultView::ReviewDecision { approved, feedback },
            ) => if step_id != asked {
                (
                    s,
                    Err(
                        invalid(
                            "review result step mismatch: pending="@ + step_id + " action="@
                                + asked,
                        ),
                    ),
                )
            } else {
                review_applied(g, c, limit, cfg, now, s, step_id, approved, feedback)
            },
            (
                PendingActionView::RunPipeline { step_id, next_step },
                WorkflowActionView::RunPipeline { step_id: asked, .. },
                WorkflowActionResultView::PipelineOutput { success, summary },
            ) => if step_id != asked {
                (
                    s,
                    Err(
                        invalid(
                            "run_pipeline result step mismatch: pending="@ + step_id + " action="@
                                + asked,
                        ),
                    ),
                )
            } else if success {
                (moved_on(WorkflowRunStateView { pending: None, ..s }, next_step), Ok(None))
            } else {
                (
                    WorkflowRunStateView {
                        pending: None,
                        status: WorkflowRunStatus::Failed,
                        last_error: summary,
                        ..s
                    },
                    Ok(None),
                )
            },
            _ => (s, Err(invalid("action/result pair does not match pending step"@))),
        },
    }
}

/// The counter of revisions that a result is to be counted in: that of the step under review,
/// where the review rejects it with feedback that can be kept.
pub open spec fn counted_in(
    g: WorkflowGraphV1View,
    c: Components,
    cfg: ArtifactStoreConfigView,
    s: WorkflowRunStateView,
    action: WorkflowActionView,
    result: WorkflowActionResultView,
) -> Option<Seq<char>> {
    match (s.pending, action, result) {
        (
            Some(PendingActionView::ReviewArtifact { step_id }),
            WorkflowActionView::RequestReview { step_id: asked, .. },
            WorkflowActionResultView::ReviewDecision { approved, feedback },
        ) => if approved || step_id != asked || bytes_len(given_feedback(feedback))
            > cfg.max_feedback_bytes {
            None
        } else {
            match materialized(g, c, step_id) {
                Ok(WorkflowStepV1View::ReviewArtifact { revision_counter_key, .. }) => Some(
                    counter_key(step_id, revision_counter_key),
                ),
                _ => None,
            }
        },
        _ => None,
    }
}

/// Whether a result can be taken: the counter of revisions that it is to be counted in, if
/// any, has not come to its end.
pub open spec fn countable(
    g: WorkflowGraphV1View,
    c: Components,
    cfg: ArtifactStoreConfigView,
    s: WorkflowRunStateView,
    action: WorkflowActionView,
    result: WorkflowActionResultView,
) -> bool {
    counted_in(g, c, cfg, s, action, result) matches Some(key) ==> revisions(s, key) < u32::MAX
}

/// The state of a run that has not started.
pub open spec fn started(g: WorkflowGraphV1View, run_id: Seq<char>) -> WorkflowRunStateView {
    WorkflowRunStateView {
        run_id,
        workflow_id: None,
        current_step_id: g.entry,
        status: WorkflowRunStatus::Running,
        revision_counters: Seq::empty(),
        feedback: Seq::empty(),
        artifacts: Seq::empty(),
        pending: None,
        last_error: None,
    }
}

/// The entry under which a graph is checked.
pub open spec fn checked_entry(g: WorkflowGraphV1View) -> WorkflowEntryV1View {
    WorkflowEntryV1View {
        id: "_validation"@,
        name: "Validation"@,
        enabled: true,
        profile_refs: no_refs(),
        workflow: g,
    }
}

/// What is wrong with a graph.
pub open spec fn graph_problem(g: WorkflowGraphV1View) -> Option<Seq<char>> {
    entry_problem("_validation"@, checked_entry(g))
}

/// Runs one workflow.
#[derive(Debug)]
pub struct WorkflowEngine {
    pub graph: WorkflowGraphV1,
    pub components: StrMap<WorkflowComponentV1>,
    pub limits: WorkflowEngineLimits,
}

fn validate_graph(graph: &WorkflowGraphV1) -> (r: Result<(), WorkflowError>)
    ensures
        (match r {
            Ok(_) => None,
            Err(e) => Some(e@),
        }) == (match graph_problem(graph@) {
            Some(p) => Some(WorkflowErrorView::Validation(p)),
            None => None,
        }),
{
    let mut file = WorkflowsFileV1::default();
    let entry = WorkflowEntryV1 {
        id: "_validation".to_owned(),
        name: "Validation".to_owned(),
        enabled: true,
        profile_refs: ProfileRefs::default(),
        workflow: graph.dup(),
    };
    file.workflows.insert("_validation".to_owned(), entry);
    proof {
        let none = Seq::<(Seq<char>, WorkflowEntryV1View)>::empty();
        assert(put(none, "_validation"@, entry@) =~= seq![("_validation"@, entry@)]);
        reveal_with_fuel(entries_problem, 2);
    }
    match file.validate() {
        Ok(_) => Ok(()),
        Err(p) => Err(WorkflowError::Validation(p)),
    }
}

fn transition_to_next_step(state: &mut WorkflowRunState, next_step: Option<String>)
    ensures
        final(state)@ == moved_on(old(state)@, next_step.deep_view()),
{
    match next_step {
        Some(step) => {
            state.current_step_id = step;
            state.status = WorkflowRunStatus::Running;
        },
        None => {
            state.status = WorkflowRunStatus::Completed;
        },
    }
}

fn revision_counter_lookup_key(step_id: &str, raw: &str) -> (r: String)
    ensures
        r@ == counter_key(step_id@, raw@),
{
    if blank(raw) {
        step_id.to_owned()
    } else {
        raw.to_owned()
    }
}

fn counted_revisions(state: &WorkflowRunState, key: &str) -> (r: u32)
    ensures
        r == revisions(state@, key@),
{
    match state.revision_counters.get(key) {
        Some(n) => *n,
        None => 0,
    }
}

fn next_or(own: &Option<String>, over: &Option<String>) -> (r: Option<String>)
    ensures
        r.deep_view() == override_next(own.deep_view(), over.deep_view()),
{
    match over {
        Some(s) => Some(s.clone()),
        None => own.dup(),
    }
}

fn invalid_state(message: &str) -> (r: WorkflowError)
    ensures
        r@ == invalid(message@),
{
    WorkflowError::InvalidRunState(message.to_owned())
}

impl WorkflowEngine {
    /// An engine for a graph that uses no components.
    pub fn new(graph: WorkflowGraphV1, limits: WorkflowEngineLimits) -> (r: Result<
        Self,
        WorkflowError,
    >)
        ensures
            match graph_problem(graph@) {
                Some(p) => r is Err && r->Err_0@ == WorkflowErrorView::Validation(p),
                None => r is Ok && r->Ok_0.graph@ == graph@ && r->Ok_0.components@ == Seq::<
                    (Seq<char>, WorkflowComponentV1View),
                >::empty() && r->Ok_0.limits == limits,
            },
    {
        WorkflowEngine::new_with_components(graph, StrMap::new(), limits)
    }

    /// An engine for a valid graph and the components that it may use.
    pub fn new_with_components(
        graph: WorkflowGraphV1,
        components: StrMap<WorkflowComponentV1>,
        limits: WorkflowEngineLimits,
    ) -> (r: Result<Self, WorkflowError>)
        ensures
            match graph_problem(graph@) {
                Some(p) => r is Err && r->Err_0@ == WorkflowErrorView::Validation(p),
                None => r is Ok && r->Ok_0.graph@ == graph@ && r->Ok_0.components@ == components@
                    && r->Ok_0.limits == limits,
            },
    {
        validate_graph(&graph)?;
        Ok(WorkflowEngine { graph, components, limits })
    }

    fn materialize_step(&self, step_id: &str) -> (r: Result<WorkflowStepV1, WorkflowError>)
        ensures
            (match r {
                Ok(s) => Ok(s@),
                Err(e) => Err(e@),
            }) == materialized(self.graph@, self.components@, step_id@),
    {
        let step = match self.graph.steps.get(step_id) {
            None => {
                return Err(WorkflowError::MissingStep(step_id.to_owned()));
            },
            Some(s) => s,
        };
        let (component_id, over) = match step {
            WorkflowStepV1::UseComponent { component_id, args, next_step } => (
                component_id,
                next_step,
            ),
            other => {
                return Ok(other.dup());
            },
        };
        let component = match self.components.get(component_id.as_str()) {
            None => {
                return Err(WorkflowError::MissingStep(component_id.clone()));
            },
            Some(c) => c,
        };
        match &component.step {
            WorkflowStepV1::GenerateArtifact { template_id, artifact_kind, inputs, next_step } =>
            Ok(
                WorkflowStepV1::GenerateArtifact {
                    template_id: template_id.clone(),
                    artifact_kind: artifact_kind.clone(),
                    inputs: inputs.dup(),
                    next_step: next_or(next_step, over),
                },
            ),
            WorkflowStepV1::ReviseArtifact {
                template_id,
                artifact_ref,
                feedback_key,
                next_step,
            } => Ok(
                WorkflowStepV1::ReviseArtifact {
                    template_id: template_id.clone(),
                    artifact_ref: artifact_ref.clone(),
                    feedback_key: feedback_key.clone(),
                    next_step: next_or(next_step, over),
                },
            ),
            WorkflowStepV1::RunPipeline { pipeline_id, pipeline_scope, next_step } => Ok(
                WorkflowStepV1::RunPipeline {
                    pipeline_id: pipeline_id.clone(),
                    pipeline_scope: pipeline_scope.dup(),
                    next_step: next_or(next_step, over),
                },
            ),
            _ => Err(
                WorkflowError::InvalidRunState(
                    cat3(
                        "component ",
                        component_id.as_str(),
                        " has unsupported step for use_component",
                    ),
                ),
            ),
        }
    }

    /// A run that has not started.
    pub fn start(&self, run_id: &str) -> (r: WorkflowRunState)
        ensures
            r@ == started(self.graph@, run_id@),
    {
        WorkflowRunState {
            run_id: run_id.to_owned(),
            workflow_id: None,
            current_step_id: self.graph.entry.clone(),
            status: WorkflowRunStatus::Running,
            revision_counters: StrMap::new(),
            feedback: StrMap::new(),
            artifacts: StrMap::new(),
            pending: None,
            last_error: None,
        }
    }

    /// The action that a run waits for.
    pub fn action_for_pending(&self, state: &WorkflowRunState) -> (r: Result<
        Option<WorkflowAction>,
        WorkflowError,
    >)
        ensures
            (match r {
                Ok(a) => Ok(a.deep_view()),
                Err(e) => Err(e@),
            }) == pending_action(self.graph@, self.components@, state@),
    {
        let pending = match &state.pending {
            None => {
                return Ok(None);
            },
            Some(p) => p,
        };
        let step = self.materialize_step(state.current_step_id.as_str())?;
        match (pending, step) {
            (
                PendingAction::InvokeAgent { step_id, artifact_ref, artifact_kind, .. },
                WorkflowStepV1::GenerateArtifact { template_id, inputs, .. },
            ) => Ok(
                Some(
                    WorkflowAction::InvokeAgent {
                        run_id: state.run_id.clone(),
                        step_id: step_id.clone(),
                        template_id,
                        artifact_ref: artifact_ref.clone(),
                        artifact_kind: artifact_kind.clone(),
                        inputs,
                        feedback: None,
                    },
                ),
            ),
            (
                PendingAction::InvokeAgent { step_id, artifact_ref, artifact_kind, .. },
                WorkflowStepV1::ReviseArtifact { template_id, feedback_key, .. },
            ) => {
                let feedback = match state.feedback.get(feedback_key.as_str()) {
                    Some(f) => Some(f.clone()),
                    None => None,
                };
                Ok(
                    Some(
                        WorkflowAction::InvokeAgent {
                            run_id: state.run_id.clone(),
                            step_id: step_id.clone(),
                            template_id,
                            artifact_ref: artifact_ref.clone(),
                            artifact_kind: artifact_kind.clone(),
                            inputs: StrMap::new(),
                            feedback,
                        },
                    ),
                )
            },
            (
                PendingAction::ReviewArtifact { step_id },
                WorkflowStepV1::ReviewArtifact {
                    artifact_ref,
                    prompt,
                    max_revisions,
                    revision_counter_key,
                    ..
                },
            ) => {
                let key = revision_counter_lookup_key(
                    step_id.as_str(),
                    revision_counter_key.as_str(),
                );
                let current_revisions: u32 = counted_revisions(state, key.as_str());
                Ok(
                    Some(
                        WorkflowAction::RequestReview {
                            run_id: state.run_id.clone(),
                            step_id: step_id.clone(),
                            artifact_ref,
                            prompt,
                            max_revisions,
                            current_revisions,
                        },
                    ),
                )
            },
            (
                PendingAction::RunPipeline { step_id, .. },
                WorkflowStepV1::RunPipeline { pipeline_id, pipeline_scope, .. },
            ) => Ok(
                Some(
                    WorkflowAction::RunPipeline {
                        run_id: state.run_id.clone(),
                        step_id: step_id.clone(),
                        pipeline_id,
                        pipeline_scope,
                    },
                ),
            ),
            _ => Err(invalid_state("pending action does not match current step")),
        }
    }

    /// The next action of a run; nothing where the run has come to its end.
    pub fn next_action(&self, state: &mut WorkflowRunState) -> (r: Result<
        Option<WorkflowAction>,
        WorkflowError,
    >)
        ensures
            (
                final(state)@,
                match r {
                    Ok(a) => Ok(a.deep_view()),
                    Err(e) => Err(e@),
                },
            ) == next(self.graph@, self.components@, old(state)@),
    {
        if state.is_terminal() {
            return Ok(None);
        }
        if state.pending.is_some() {
            return Err(
                invalid_state("cannot produce next action while a previous action is pending"),
            );
        }
        let step = match self.materialize_step(state.current_step_id.as_str()) {
            Err(e) => {
                return Err(e);
            },
            Ok(s) => s,
        };
        match step {
            WorkflowStepV1::GenerateArtifact { template_id, artifact_kind, inputs, next_step } => {
                state.status = WorkflowRunStatus::Waiting;
                state.pending = Some(
                    PendingAction::InvokeAgent {
                        step_id: state.current_step_id.clone(),
                        artifact_ref: artifact_kind.clone(),
                        artifact_kind: artifact_kind.clone(),
                        next_step,
                    },
                );
                Ok(
                    Some(
                        WorkflowAction::InvokeAgent {
                            run_id: state.run_id.clone(),
                            step_id: state.current_step_id.clone(),
                            template_id,
                            artifact_ref: artifact_kind.clone(),
                            artifact_kind,
                            inputs,
                            feedback: None,
                        },
                    ),
                )
            },
            WorkflowStepV1::ReviewArtifact {
                artifact_ref,
                prompt,
                max_revisions,
                revision_counter_key,
                ..
            } => {
                let key = revision_counter_lookup_key(
                    state.current_step_id.as_str(),
                    revision_counter_key.as_str(),
                );
                let current_revisions: u32 = counted_revisions(state, key.as_str());
                state.status = WorkflowRunStatus::Waiting;
                state.pending = Some(
                    PendingAction::ReviewArtifact { step_id: state.current_step_id.clone() },
                );
                Ok(
                    Some(
                        WorkflowAction::RequestReview {
                            run_id: state.run_id.clone(),
                            step_id: state.current_step_id.clone(),
                            artifact_ref,
                            prompt,
                            max_revisions,
                            current_revisions,
                        },
                    ),
                )
            },
            WorkflowStepV1::ReviseArtifact {
                template_id,
                artifact_ref,
                feedback_key,
                next_step,
            } => {
                let feedback = match state.feedback.get(feedback_key.as_str()) {
                    Some(f) => f.clone(),
                    None => {
                        return Err(WorkflowError::MissingFeedbackKey(feedback_key));
                    },
                };
                state.status = WorkflowRunStatus::Waiting;
                state.pending = Some(
                    PendingAction::InvokeAgent {
                        step_id: state.current_step_id.clone(),
                        artifact_ref: artifact_ref.clone(),
                        artifact_kind: artifact_ref.clone(),
                        next_step,
                    },
                );
                Ok(
                    Some(
                        WorkflowAction::InvokeAgent {
                            run_id: state.run_id.clone(),
                            step_id: state.current_step_id.clone(),
                            template_id,
                            artifact_ref: artifact_ref.clone(),
                            artifact_kind: artifact_ref,
                            inputs: StrMap::new(),
                            feedback: Some(feedback),
                        },
                    ),
                )
            },
            WorkflowStepV1::RunPipeline { pipeline_id, pipeline_scope, next_step } => {
                state.status = WorkflowRunStatus::Waiting;
                state.pending = Some(
                    PendingAction::RunPipeline {
                        step_id: state.current_step_id.clone(),
                        next_step,
                    },
                );
                Ok(
                    Some(
                        WorkflowAction::RunPipeline {
                            run_id: state.run_id.clone(),
                            step_id: state.current_step_id.clone(),
                            pipeline_id,
                            pipeline_scope,
                        },
                    ),
                )
            },
            WorkflowStepV1::Complete => {
                state.status = WorkflowRunStatus::Completed;
                Ok(
                    Some(
                        WorkflowAction::Complete {
                            run_id: state.run_id.clone(),
                            step_id: state.current_step_id.clone(),
                        },
                    ),
                )
            },
            WorkflowStepV1::UseComponent { .. } => Err(
                invalid_state("use_component must be materialized before execution"),
            ),
        }
    }

    fn apply_agent_output(
        &self,
        state: &mut WorkflowRunState,
        artifact_ref: String,
        artifact_kind: String,
        next_step: Option<String>,
        content: String,
        store: &ArtifactStore,
        now: &Timestamp,
    ) -> (r: Result<Option<StoreWrite>, WorkflowError>)
        ensures
            (
                final(state)@,
                match r {
                    Ok(w) => Ok(w.deep_view()),
                    Err(e) => Err(e@),
                },
            ) == agent_output_applied(
                store.cfg@,
                now@,
                old(state)@,
                artifact_ref@,
                artifact_kind@,
                next_step.deep_view(),
                content@,
            ),
    {
        let record = match store.persist_artifact(
            PersistArtifactRequest {
                run_id: state.run_id.as_str(),
                artifact_ref: artifact_ref.as_str(),
                artifact_kind: artifact_kind.as_str(),
                content: content.as_str(),
            },
            now,
        ) {
            Err(e) => {
                return Err(e);
            },
            Ok(r) => r,
        };
        state.artifacts.insert(artifact_ref, record.dup());
        state.pending = None;
        transition_to_next_step(state, next_step);
        Ok(Some(StoreWrite::Artifact { record, content }))
    }

    fn apply_rejection(
        &self,
        state: &mut WorkflowRunState,
        step_id: &str,
        on_feedback: String,
        max_revisions: u32,
        key: String,
        feedback: String,
        store: &ArtifactStore,
        now: &Timestamp,
    ) -> (r: Result<Option<StoreWrite>, WorkflowError>)
        requires
            bytes_len(feedback@) <= store.cfg.max_feedback_bytes ==> revisions(old(state)@, key@)
                < u32::MAX,
        ensures
            (
                final(state)@,
                match r {
                    Ok(w) => Ok(w.deep_view()),
                    Err(e) => Err(e@),
                },
            ) == rejection_applied(
                self.limits.default_max_revisions,
                store.cfg@,
                now@,
                old(state)@,
                step_id@,
                on_feedback@,
                max_revisions,
                key@,
                feedback@,
            ),
    {
        state.pending = None;
        let feedback_key = cat2(key.as_str(), ".feedback");
        let record = match store.persist_feedback(
            PersistFeedbackRequest {
                run_id: state.run_id.as_str(),
                step_id,
                feedback_key: feedback_key.as_str(),
                feedback: feedback.as_str(),
            },
            now,
        ) {
            Err(e) => {
                return Err(e);
            },
            Ok(r) => r,
        };
        let count: u32 = counted_revisions(state, key.as_str()) + 1;
        state.revision_counters.insert(key, count);
        state.feedback.insert(feedback_key, feedback.clone());
        let bound: u32 = if max_revisions == 0 {
            self.limits.default_max_revisions
        } else {
            max_revisions
        };
        if count > bound {
            state.status = WorkflowRunStatus::NeedsHuman;
            let count_text = decimal_string(count as u64);
            let bound_text = decimal_string(bound as u64);
            state.last_error = Some(
                cat6(
                    "revision bound exceeded at ",
                    step_id,
                    ": ",
                    count_text.as_str(),
                    " > ",
                    bound_text.as_str(),
                ),
            );
        } else {
            state.status = WorkflowRunStatus::Running;
            state.current_step_id = on_feedback;
        }
        Ok(Some(StoreWrite::Feedback { record, content: feedback }))
    }

    fn apply_review(
        &self,
        state: &mut WorkflowRunState,
        step_id: String,
        approved: bool,
        feedback: Option<String>,
        store: &ArtifactStore,
        now: &Timestamp,
    ) -> (r: Result<Option<StoreWrite>, WorkflowError>)
        requires
            !approved && bytes_len(given_feedback(feedback.deep_view()))
                <= store.cfg.max_feedback_bytes ==> (materialized(
                self.graph@,
                self.components@,
                step_id@,
            ) matches Ok(WorkflowStepV1View::ReviewArtifact { revision_counter_key, .. })
                ==> revisions(old(state)@, counter_key(step_id@, revision_counter_key)) < u32::MAX),
        ensures
            (
                final(state)@,
                match r {
                    Ok(w) => Ok(w.deep_view()),
                    Err(e) => Err(e@),
                },
            ) == review_applied(
                self.graph@,
                self.components@,
                self.limits.default_max_revisions,
                store.cfg@,
                now@,
                old(state)@,
                step_id@,
                approved,
                feedback.deep_view(),
            ),
    {
        let step = match self.materialize_step(step_id.as_str()) {
            Err(e) => {
                return Err(e);
            },
            Ok(s) => s,
        };
        match step {
            WorkflowStepV1::ReviewArtifact {
                on_approved,
                on_feedback,
                max_revisions,
                revision_counter_key,
                ..
            } => {
                if approved {
                    state.pending = None;
                    state.status = WorkflowRunStatus::Running;
                    state.current_step_id = on_approved;
                    return Ok(None);
                }
                let text = match feedback {
                    Some(f) => f,
                    None => String::new(),
                };
                assert(feedback is None ==> text@ =~= Seq::empty());
                let key = revision_counter_lookup_key(
                    step_id.as_str(),
                    revision_counter_key.as_str(),
                );
                self.apply_rejection(
                    state,
                    step_id.as_str(),
                    on_feedback,
                    max_revisions,
                    key,
                    text,
                    store,
                    now,
                )
            },
            _ => Err(
                WorkflowError::InvalidRunState(
                    cat3("step ", step_id.as_str(), " is not review_artifact"),
                ),
            ),
        }
    }

    /// Whether a result can be taken: the counter of revisions that it is to be counted in,
    /// if any, has not come to its end.
    pub fn can_count(
        &self,
        state: &WorkflowRunState,
        action: &WorkflowAction,
        result: &WorkflowActionResult,
        artifact_store: &ArtifactStore,
    ) -> (r: bool)
        ensures
            r == countable(
                self.graph@,
                self.components@,
                artifact_store.cfg@,
                state@,
                action@,
                result@,
            ),
    {
        match (&state.pending, action, result) {
            (
                Some(PendingAction::ReviewArtifact { step_id }),
                WorkflowAction::RequestReview { step_id: asked, .. },
                WorkflowActionResult::ReviewDecision { approved, feedback },
            ) => {
                let bytes: u64 = match feedback {
                    Some(f) => f.as_str().as_bytes().len() as u64,
                    None => 0,
                };
                assert(bytes == bytes_len(given_feedback(feedback.deep_view())));
                if *approved || !str_eq(step_id.as_str(), asked.as_str()) || bytes
                    > artifact_store.cfg.max_feedback_bytes {
                    return true;
                }
                match self.materialize_step(step_id.as_str()) {
                    Ok(WorkflowStepV1::ReviewArtifact { revision_counter_key, .. }) => {
                        let key = revision_counter_lookup_key(
                            step_id.as_str(),
                            revision_counter_key.as_str(),
                        );
                        counted_revisions(state, key.as_str()) < u32::MAX
                    },
                    _ => true,
                }
            },
            _ => true,
        }
    }

    /// Takes the result of an action. What is returned is to be written to the store
    /// before the new state counts.
    pub fn apply_action_result(
        &self,
        state: &mut WorkflowRunState,
        action: &WorkflowAction,
        result: WorkflowActionResult,
        artifact_store: &ArtifactStore,
        now: &Timestamp,
    ) -> (r: Result<Option<StoreWrite>, WorkflowError>)
        requires
            countable(
                self.graph@,
                self.components@,
                artifact_store.cfg@,
                old(state)@,
                action@,
                result@,
            ),
        ensures
            (
                final(state)@,
                match r {
                    Ok(w) => Ok(w.deep_view()),
                    Err(e) => Err(e@),
                },
            ) == applied(
                self.graph@,
                self.components@,
                self.limits.default_max_revisions,
                artifact_store.cfg@,
                now@,
                old(state)@,
                action@,
                result@,
            ),
    {
        let pending = match state.pending.dup() {
            None => {
                return Err(invalid_state("no pending action to apply a result to"));
            },
            Some(p) => p,
        };
        match (pending, action, result) {
            (
                PendingAction::InvokeAgent { step_id, artifact_ref, artifact_kind, next_step },
                WorkflowAction::InvokeAgent { step_id: asked, .. },
                WorkflowActionResult::AgentOutput { content },
            ) => {
                if !str_eq(step_id.as_str(), asked.as_str()) {
                    return Err(
                        WorkflowError::InvalidRunState(
                            cat4(
                                "invoke_agent result step mismatch: pending=",
                                step_id.as_str(),
                                " action=",
                                asked.as_str(),
                            ),
                        ),
                    );
                }
                self.apply_agent_output(
                    state,
                    artifact_ref,
                    artifact_kind,
                    next_step,
                    content,
                    artifact_store,
                    now,
                )
            },
            (
                PendingAction::ReviewArtifact { step_id },
                WorkflowAction::RequestReview { step_id: asked, .. },
                WorkflowActionResult::ReviewDecision { approved, feedback },
            ) => {
                if !str_eq(step_id.as_str(), asked.as_str()) {
                    return Err(
                        WorkflowError::InvalidRunState(
                            cat4(
                                "review result step mismatch: pending=",
                                step_id.as_str(),
                                " action=",
                                asked.as_str(),
                            ),
                        ),
                    );
                }
                self.apply_review(state, step_id, approved, feedback, artifact_store, now)
            },
            (
                PendingAction::RunPipeline { step_id, next_step },
                WorkflowAction::RunPipeline { step_id: asked, .. },
                WorkflowActionResult::PipelineOutput { success, summary },
            ) => {
                if !str_eq(step_id.as_str(), asked.as_str()) {
                    return Err(
                        WorkflowError::InvalidRunState(
                            cat4(
                                "run_pipeline result step mismatch: pending=",
                                step_id.as_str(),
                                " action=",
                                asked.as_str(),
                            ),
                        ),
                    );
                }
                state.pending = None;
                if success {
                    transition_to_next_step(state, next_step);
                } else {
                    state.status = WorkflowRunStatus::Failed;
                    state.last_error = summary;
                }
                Ok(None)
            },
            _ => Err(invalid_state("action/result pair does not match pending step")),
        }
    }
}

} // verus!
