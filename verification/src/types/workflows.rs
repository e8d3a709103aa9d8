//! Artifact workflows as they are stored, and what makes them valid.

use vstd::prelude::*;
use crate::strmap::{lookup, lookup_put_all, put_all, sorted, StrMap};
use crate::text::{blank, cat3, cat4, cat5, cat6, cat7, is_blank, str_eq, Duplicate};
use crate::types::profile::{ProfileRefs, ProfileRefsView};

verus! {

/// One step of an artifact workflow.
#[derive(Debug, PartialEq, Eq)]
pub enum WorkflowStepV1 {
    GenerateArtifact {
        template_id: String,
        artifact_kind: String,
        inputs: StrMap<String>,
        next_step: Option<String>,
    },
    ReviewArtifact {
        artifact_ref: String,
        prompt: String,
        on_approved: String,
        on_feedback: String,
        max_revisions: u32,
        revision_counter_key: String,
    },
    ReviseArtifact {
        template_id: String,
        artifact_ref: String,
        feedback_key: String,
        next_step: Option<String>,
    },
    RunPipeline {
        pipeline_id: String,
        pipeline_scope: Option<String>,
        next_step: Option<String>,
    },
    UseComponent {
        component_id: String,
        args: StrMap<String>,
        next_step: Option<String>,
    },
    Complete,
}

/// What a [`WorkflowStepV1`] stands for.
#[verifier::ext_equal]
pub enum WorkflowStepV1View {
    GenerateArtifact {
        template_id: Seq<char>,
        artifact_kind: Seq<char>,
        inputs: Seq<(Seq<char>, Seq<char>)>,
        next_step: Option<Seq<char>>,
    },
    ReviewArtifact {
        artifact_ref: Seq<char>,
        prompt: Seq<char>,
        on_approved: Seq<char>,
        on_feedback: Seq<char>,
        max_revisions: u32,
        revision_counter_key: Seq<char>,
    },
    ReviseArtifact {
        template_id: Seq<char>,
        artifact_ref: Seq<char>,
        feedback_key: Seq<char>,
        next_step: Option<Seq<char>>,
    },
    RunPipeline {
        pipeline_id: Seq<char>,
        pipeline_scope: Option<Seq<char>>,
        next_step: Option<Seq<char>>,
    },
    UseComponent {
        component_id: Seq<char>,
        args: Seq<(Seq<char>, Seq<char>)>,
        next_step: Option<Seq<char>>,
    },
    Complete,
}

impl View for WorkflowStepV1 {
    type V = WorkflowStepV1View;

    open spec fn view(&self) -> WorkflowStepV1View {
        match self {
            WorkflowStepV1::GenerateArtifact { template_id, artifact_kind, inputs, next_step } => WorkflowStepV1View::GenerateArtifact {
                template_id: template_id@,
                artifact_kind: artifact_kind@,
                inputs: inputs.deep_view(),
                next_step: next_step.deep_view(),
            },
            WorkflowStepV1::ReviewArtifact { artifact_ref, prompt, on_approved, on_feedback, max_revisions, revision_counter_key } => WorkflowStepV1View::ReviewArtifact {
                artifact_ref: artifact_ref@,
                prompt: prompt@,
                on_approved: on_approved@,
                on_feedback: on_feedback@,
                max_revisions: *max_revisions,
                revision_counter_key: revision_counter_key@,
            },
            WorkflowStepV1::ReviseArtifact { template_id, artifact_ref, feedback_key, next_step } => WorkflowStepV1View::ReviseArtifact {
                template_id: template_id@,
                artifact_ref: artifact_ref@,
                feedback_key: feedback_key@,
                next_step: next_step.deep_view(),
            },
            WorkflowStepV1::RunPipeline { pipeline_id, pipeline_scope, next_step } => WorkflowStepV1View::RunPipeline {
                pipeline_id: pipeline_id@,
                pipeline_scope: pipeline_scope.deep_view(),
                next_step: next_step.deep_view(),
            },
            WorkflowStepV1::UseComponent { component_id, args, next_step } => WorkflowStepV1View::UseComponent {
                component_id: component_id@,
                args: args.deep_view(),
                next_step: next_step.deep_view(),
            },
            WorkflowStepV1::Complete => WorkflowStepV1View::Complete,
        }
    }
}

impl DeepView for WorkflowStepV1 {
    type V = WorkflowStepV1View;

    open spec fn deep_view(&self) -> WorkflowStepV1View {
        self@
    }
}

impl Duplicate for WorkflowStepV1 {
    fn dup(&self) -> (r: Self) {
        match self {
            WorkflowStepV1::GenerateArtifact { template_id, artifact_kind, inputs, next_step } => WorkflowStepV1::GenerateArtifact {
                template_id: template_id.clone(),
                artifact_kind: artifact_kind.clone(),
                inputs: inputs.dup(),
                next_step: next_step.dup(),
            },
            WorkflowStepV1::ReviewArtifact { artifact_ref, prompt, on_approved, on_feedback, max_revisions, revision_counter_key } => WorkflowStepV1::ReviewArtifact {
                artifact_ref: artifact_ref.clone(),
                prompt: prompt.clone(),
                on_approved: on_approved.clone(),
                on_feedback: on_feedback.clone(),
                max_revisions: *max_revisions,
                revision_counter_key: revision_counter_key.clone(),
            },
            WorkflowStepV1::ReviseArtifact { template_id, artifact_ref, feedback_key, next_step } => WorkflowStepV1::ReviseArtifact {
                template_id: template_id.clone(),
                artifact_ref: artifact_ref.clone(),
                feedback_key: feedback_key.clone(),
                next_step: next_step.dup(),
            },
            WorkflowStepV1::RunPipeline { pipeline_id, pipeline_scope, next_step } => WorkflowStepV1::RunPipeline {
                pipeline_id: pipeline_id.clone(),
                pipeline_scope: pipeline_scope.dup(),
                next_step: next_step.dup(),
            },
            WorkflowStepV1::UseComponent { component_id, args, next_step } => WorkflowStepV1::UseComponent {
                component_id: component_id.clone(),
                args: args.dup(),
                next_step: next_step.dup(),
            },
            WorkflowStepV1::Complete => WorkflowStepV1::Complete,
        }
    }
}

impl Clone for WorkflowStepV1 {
    fn clone(&self) -> (r: Self)
        ensures
            r@ == self@,
    {
        self.dup()
    }
}

/// A step that workflows can share.
#[derive(Debug, PartialEq, Eq)]
pub struct WorkflowComponentV1 {
    pub params: StrMap<String>,
    pub profile_refs: ProfileRefs,
    pub step: WorkflowStepV1,
}

/// What a [`WorkflowComponentV1`] stands for.
#[verifier::ext_equal]
pub struct WorkflowComponentV1View {
    pub params: Seq<(Seq<char>, Seq<char>)>,
    pub profile_refs: ProfileRefsView,
    pub step: WorkflowStepV1View,
}

impl View for WorkflowComponentV1 {
    type V = WorkflowComponentV1View;

    open spec fn view(&self) -> WorkflowComponentV1View {
        WorkflowComponentV1View {
            params: self.params.deep_view(),
            profile_refs: self.profile_refs@,
            step: self.step@,
        }
    }
}

impl DeepView for WorkflowComponentV1 {
    type V = WorkflowComponentV1View;

    open spec fn deep_view(&self) -> WorkflowComponentV1View {
        self@
    }
}

impl Duplicate for WorkflowComponentV1 {
    fn dup(&self) -> (r: Self) {
        WorkflowComponentV1 {
            params: self.params.dup(),
            profile_refs: self.profile_refs.dup(),
            step: self.step.dup(),
        }
    }
}

impl Clone for WorkflowComponentV1 {
    fn clone(&self) -> (r: Self)
        ensures
            r@ == self@,
    {
        self.dup()
    }
}

/// The steps of a workflow, and the one it starts with.
#[derive(Debug, PartialEq, Eq)]
pub struct WorkflowGraphV1 {
    pub entry: String,
    pub steps: StrMap<WorkflowStepV1>,
}

/// What a [`WorkflowGraphV1`] stands for.
#[verifier::ext_equal]
pub struct WorkflowGraphV1View {
    pub entry: Seq<char>,
    pub steps: Seq<(Seq<char>, WorkflowStepV1View)>,
}

impl View for WorkflowGraphV1 {
    type V = WorkflowGraphV1View;

    open spec fn view(&self) -> WorkflowGraphV1View {
        WorkflowGraphV1View {
            entry: self.entry@,
            steps: self.steps.deep_view(),
        }
    }
}

impl DeepView for WorkflowGraphV1 {
    type V = WorkflowGraphV1View;

    open spec fn deep_view(&self) -> WorkflowGraphV1View {
        self@
    }
}

impl Duplicate for WorkflowGraphV1 {
    fn dup(&self) -> (r: Self) {
        WorkflowGraphV1 {
            entry: self.entry.clone(),
            steps: self.steps.dup(),
        }
    }
}

impl Clone for WorkflowGraphV1 {
    fn clone(&self) -> (r: Self)
        ensures
            r@ == self@,
    {
        self.dup()
    }
}

/// A workflow as it is stored.
#[derive(Debug, PartialEq, Eq)]
pub struct WorkflowEntryV1 {
    pub id: String,
    pub name: String,
    pub enabled: bool,
    pub profile_refs: ProfileRefs,
    pub workflow: WorkflowGraphV1,
}

/// What a [`WorkflowEntryV1`] stands for.
#[verifier::ext_equal]
pub struct WorkflowEntryV1View {
    pub id: Seq<char>,
    pub name: Seq<char>,
    pub enabled: bool,
    pub profile_refs: ProfileRefsView,
    pub workflow: WorkflowGraphV1View,
}

impl View for WorkflowEntryV1 {
    type V = WorkflowEntryV1View;

    open spec fn view(&self) -> WorkflowEntryV1View {
        WorkflowEntryV1View {
            id: self.id@,
            name: self.name@,
            enabled: self.enabled,
            profile_refs: self.profile_refs@,
            workflow: self.workflow@,
        }
    }
}

impl DeepView for WorkflowEntryV1 {
    type V = WorkflowEntryV1View;

    open spec fn deep_view(&self) -> WorkflowEntryV1View {
        self@
    }
}

impl Duplicate for WorkflowEntryV1 {
    fn dup(&self) -> (r: Self) {
        WorkflowEntryV1 {
            id: self.id.clone(),
            name: self.name.clone(),
            enabled: self.enabled,
            profile_refs: self.profile_refs.dup(),
            workflow: self.workflow.dup(),
        }
    }
}

impl Clone for WorkflowEntryV1 {
    fn clone(&self) -> (r: Self)
        ensures
            r@ == self@,
    {
        self.dup()
    }
}

/// Profiles attached to the pieces of workflows, by the path of the piece.
#[derive(Debug, PartialEq, Eq)]
pub struct WorkflowProfileAttachmentsV1 {
    pub steps: StrMap<ProfileRefs>,
    pub components: StrMap<ProfileRefs>,
}

/// What a [`WorkflowProfileAttachmentsV1`] stands for.
#[verifier::ext_equal]
pub struct WorkflowProfileAttachmentsV1View {
    pub steps: Seq<(Seq<char>, ProfileRefsView)>,
    pub components: Seq<(Seq<char>, ProfileRefsView)>,
}

impl View for WorkflowProfileAttachmentsV1 {
    type V = WorkflowProfileAttachmentsV1View;

    open spec fn view(&self) -> WorkflowProfileAttachmentsV1View {
        WorkflowProfileAttachmentsV1View {
            steps: self.steps.deep_view(),
            components: self.components.deep_view(),
        }
    }
}

impl DeepView for WorkflowProfileAttachmentsV1 {
    type V = WorkflowProfileAttachmentsV1View;

    open spec fn deep_view(&self) -> WorkflowProfileAttachmentsV1View {
        self@
    }
}

impl Duplicate for WorkflowProfileAttachmentsV1 {
    fn dup(&self) -> (r: Self) {
        WorkflowProfileAttachmentsV1 {
            steps: self.steps.dup(),
            components: self.components.dup(),
        }
    }
}

impl Clone for WorkflowProfileAttachmentsV1 {
    fn clone(&self) -> (r: Self)
        ensures
            r@ == self@,
    {
        self.dup()
    }
}

/// The contents of a workflows file.
#[derive(Debug, PartialEq, Eq)]
pub struct WorkflowsFileV1 {
    pub schema_version: String,
    pub components: StrMap<WorkflowComponentV1>,
    pub workflows: StrMap<WorkflowEntryV1>,
    pub profile_attachments: WorkflowProfileAttachmentsV1,
}

/// What a [`WorkflowsFileV1`] stands for.
#[verifier::ext_equal]
pub struct WorkflowsFileV1View {
    pub schema_version: Seq<char>,
    pub components: Seq<(Seq<char>, WorkflowComponentV1View)>,
    pub workflows: Seq<(Seq<char>, WorkflowEntryV1View)>,
    pub profile_attachments: WorkflowProfileAttachmentsV1View,
}

impl View for WorkflowsFileV1 {
    type V = WorkflowsFileV1View;

    open spec fn view(&self) -> WorkflowsFileV1View {
        WorkflowsFileV1View {
            schema_version: self.schema_version@,
            components: self.components.deep_view(),
            workflows: self.workflows.deep_view(),
            profile_attachments: self.profile_attachments@,
        }
    }
}

impl DeepView for WorkflowsFileV1 {
    type V = WorkflowsFileV1View;

    open spec fn deep_view(&self) -> WorkflowsFileV1View {
        self@
    }
}

impl Duplicate for WorkflowsFileV1 {
    fn dup(&self) -> (r: Self) {
        WorkflowsFileV1 {
            schema_version: self.schema_version.clone(),
            components: self.components.dup(),
            workflows: self.workflows.dup(),
            profile_attachments: self.profile_attachments.dup(),
        }
    }
}

impl Clone for WorkflowsFileV1 {
    fn clone(&self) -> (r: Self)
        ensures
            r@ == self@,
    {
        self.dup()
    }
}

/// The contents of a file without workflows.
pub open spec fn no_workflows() -> WorkflowsFileV1View {
    WorkflowsFileV1View {
        schema_version: "1"@,
        components: Seq::empty(),
        workflows: Seq::empty(),
        profile_attachments: WorkflowProfileAttachmentsV1View {
            steps: Seq::empty(),
            components: Seq::empty(),
        },
    }
}

impl Default for WorkflowsFileV1 {
    fn default() -> (r: Self)
        ensures
            r@ == no_workflows(),
    {
        WorkflowsFileV1 {
            schema_version: "1".to_owned(),
            components: StrMap::new(),
            workflows: StrMap::new(),
            profile_attachments: WorkflowProfileAttachmentsV1 {
                steps: StrMap::new(),
                components: StrMap::new(),
            },
        }
    }
}

/// The steps of a workflow, by name.
pub type Steps = Seq<(Seq<char>, WorkflowStepV1View)>;

/// The names of the steps that a step leads to.
pub open spec fn next_refs(step: WorkflowStepV1View) -> Seq<Seq<char>> {
    match step {
        WorkflowStepV1View::GenerateArtifact { next_step, .. } => opt_ref(next_step),
        WorkflowStepV1View::ReviseArtifact { next_step, .. } => opt_ref(next_step),
        WorkflowStepV1View::RunPipeline { next_step, .. } => opt_ref(next_step),
        WorkflowStepV1View::UseComponent { next_step, .. } => opt_ref(next_step),
        WorkflowStepV1View::ReviewArtifact { on_approved, on_feedback, .. } => seq![
            on_approved,
            on_feedback,
        ],
        WorkflowStepV1View::Complete => Seq::empty(),
    }
}

/// At most one name.
pub open spec fn opt_ref(o: Option<Seq<char>>) -> Seq<Seq<char>> {
    match o {
        Some(s) => seq![s],
        None => Seq::empty(),
    }
}

/// The first name from position `i` on that no step has.
pub open spec fn dangling(steps: Steps, refs: Seq<Seq<char>>, i: int) -> Option<Seq<char>>
    decreases refs.len() - i,
{
    if i < 0 || i >= refs.len() {
        None
    } else if lookup(steps, refs[i]) is None {
        Some(refs[i])
    } else {
        dangling(steps, refs, i + 1)
    }
}

/// Whether a scope names where a pipeline is looked for.
pub open spec fn known_scope(scope: Seq<char>) -> bool {
    scope == "global"@ || scope == "project"@ || scope == "effective"@
}

/// What is wrong with one step.
pub open spec fn step_problem(
    id: Seq<char>,
    steps: Steps,
    key: Seq<char>,
    step: WorkflowStepV1View,
) -> Option<Seq<char>> {
    if is_blank(key) {
        Some("workflow "@ + id + " has empty step id"@)
    } else if step matches WorkflowStepV1View::ReviewArtifact { max_revisions, .. }
        && max_revisions == 0 {
        Some("workflow "@ + id + " step "@ + key + " max_revisions must be >= 1"@)
    } else if step matches WorkflowStepV1View::RunPipeline { pipeline_scope: Some(scope), .. }
        && !known_scope(scope) {
        Some(
            "workflow "@ + id + " step "@ + key + " has invalid pipeline_scope="@
                + step->RunPipeline_pipeline_scope->0 + " (expected global|project|effective)"@,
        )
    } else {
        match dangling(steps, next_refs(step), 0) {
            Some(name) => Some(
                "workflow "@ + id + " step "@ + key + " references missing step "@ + name,
            ),
            None => None,
        }
    }
}

/// The first problem with the steps from position `i` on.
pub open spec fn steps_problem(id: Seq<char>, steps: Steps, i: int) -> Option<Seq<char>>
    decreases steps.len() - i,
{
    if i < 0 || i >= steps.len() {
        None
    } else {
        match step_problem(id, steps, steps[i].0, steps[i].1) {
            Some(p) => Some(p),
            None => steps_problem(id, steps, i + 1),
        }
    }
}

/// Whether some step among the first `n` completes the workflow.
pub open spec fn completes(steps: Steps, n: int) -> bool {
    exists|k: int| 0 <= k < n && #[trigger] steps[k].1 is Complete
}

/// What is wrong with one workflow.
pub open spec fn entry_problem(key: Seq<char>, w: WorkflowEntryV1View) -> Option<Seq<char>> {
    if is_blank(key) {
        Some("workflow key cannot be empty"@)
    } else if is_blank(w.id) {
        Some("workflow id cannot be empty"@)
    } else if w.id != key {
        Some("workflow key/id mismatch: key="@ + key + " id="@ + w.id)
    } else if is_blank(w.name) {
        Some("workflow "@ + w.id + " name cannot be empty"@)
    } else if is_blank(w.workflow.entry) {
        Some("workflow "@ + w.id + " entry cannot be empty"@)
    } else if w.workflow.steps.len() == 0 {
        Some("workflow "@ + w.id + " steps cannot be empty"@)
    } else if lookup(w.workflow.steps, w.workflow.entry) is None {
        Some("workflow "@ + w.id + " entry step not found: "@ + w.workflow.entry)
    } else if steps_problem(w.id, w.workflow.steps, 0) is Some {
        steps_problem(w.id, w.workflow.steps, 0)
    } else if !completes(w.workflow.steps, w.workflow.steps.len() as int) {
        Some("workflow "@ + w.id + " must contain at least one complete step"@)
    } else {
        None
    }
}

/// The first problem with the workflows from position `i` on.
pub open spec fn entries_problem(s: Seq<(Seq<char>, WorkflowEntryV1View)>, i: int) -> Option<
    Seq<char>,
>
    decreases s.len() - i,
{
    if i < 0 || i >= s.len() {
        None
    } else {
        match entry_problem(s[i].0, s[i].1) {
            Some(p) => Some(p),
            None => entries_problem(s, i + 1),
        }
    }
}

/// What is wrong with a workflows file.
pub open spec fn file_problem(f: WorkflowsFileV1View) -> Option<Seq<char>> {
    if f.schema_version != "1"@ {
        Some(
            "unknown workflows.json schema_version: "@ + f.schema_version + " (expected 1)"@,
        )
    } else {
        entries_problem(f.workflows, 0)
    }
}

/// What two workflows files give together: an entry of `over` takes the place of
/// one of `base` with the same key.
pub open spec fn layered(base: WorkflowsFileV1View, over: WorkflowsFileV1View) -> WorkflowsFileV1View {
    WorkflowsFileV1View {
        schema_version: "1"@,
        components: put_all(base.components, over.components),
        workflows: put_all(base.workflows, over.workflows),
        profile_attachments: WorkflowProfileAttachmentsV1View {
            steps: put_all(base.profile_attachments.steps, over.profile_attachments.steps),
            components: put_all(
                base.profile_attachments.components,
                over.profile_attachments.components,
            ),
        },
    }
}

/// The workflows in effect: those of the repository before the global ones.
pub open spec fn effective_workflows(
    global: Option<WorkflowsFileV1View>,
    repo: Option<WorkflowsFileV1View>,
) -> Result<WorkflowsFileV1View, Seq<char>> {
    let base = match global {
        None => Ok(no_workflows()),
        Some(g) => match file_problem(g) {
            Some(p) => Err(p),
            None => Ok(layered(no_workflows(), g)),
        },
    };
    match base {
        Err(p) => Err(p),
        Ok(b) => match repo {
            None => Ok(b),
            Some(r) => match file_problem(r) {
                Some(p) => Err(p),
                None => Ok(layered(b, r)),
            },
        },
    }
}

fn first_dangling(steps: &StrMap<WorkflowStepV1>, refs: &Vec<String>) -> (r: Option<String>)
    ensures
        r.deep_view() == dangling(steps@, refs.deep_view(), 0),
{
    let mut i: usize = 0;
    while i < refs.len()
        invariant
            i <= refs.len(),
            dangling(steps@, refs.deep_view(), 0) == dangling(
                steps@,
                refs.deep_view(),
                i as int,
            ),
        decreases refs.len() - i,
    {
        if !steps.contains_key(refs[i].as_str()) {
            return Some(refs[i].clone());
        }
        i = i + 1;
    }
    None
}

fn one_ref(next_step: &Option<String>) -> (r: Vec<String>)
    ensures
        r.deep_view() == opt_ref(next_step.deep_view()),
{
    let mut refs: Vec<String> = Vec::new();
    if let Some(s) = next_step {
        refs.push(s.clone());
    }
    assert(refs.deep_view() =~= opt_ref(next_step.deep_view()));
    refs
}

impl WorkflowStepV1 {
    /// The names of the steps that this step leads to.
    pub fn next_steps(&self) -> (r: Vec<String>)
        ensures
            r.deep_view() == next_refs(self@),
    {
        match self {
            WorkflowStepV1::GenerateArtifact { next_step, .. } => one_ref(next_step),
            WorkflowStepV1::ReviseArtifact { next_step, .. } => one_ref(next_step),
            WorkflowStepV1::RunPipeline { next_step, .. } => one_ref(next_step),
            WorkflowStepV1::UseComponent { next_step, .. } => one_ref(next_step),
            WorkflowStepV1::ReviewArtifact { on_approved, on_feedback, .. } => {
                let refs = vec![on_approved.clone(), on_feedback.clone()];
                assert(refs.deep_view() =~= seq![on_approved@, on_feedback@]);
                refs
            },
            WorkflowStepV1::Complete => {
                let refs: Vec<String> = Vec::new();
                assert(refs.deep_view() =~= Seq::empty());
                refs
            },
        }
    }
}

fn validate_step(
    id: &str,
    steps: &StrMap<WorkflowStepV1>,
    key: &str,
    step: &WorkflowStepV1,
) -> (r: Result<(), String>)
    ensures
        (match r {
            Ok(_) => None,
            Err(p) => Some(p@),
        }) == step_problem(id@, steps@, key@, step@),
{
    if blank(key) {
        return Err(cat3("workflow ", id, " has empty step id"));
    }
    if let WorkflowStepV1::ReviewArtifact { max_revisions, .. } = step {
        if *max_revisions == 0 {
            return Err(
                cat5("workflow ", id, " step ", key, " max_revisions must be >= 1"),
            );
        }
    }
    if let WorkflowStepV1::RunPipeline { pipeline_scope: Some(scope), .. } = step {
        let s = scope.as_str();
        if !str_eq(s, "global") && !str_eq(s, "project") && !str_eq(s, "effective") {
            return Err(
                cat7(
                    "workflow ",
                    id,
                    " step ",
                    key,
                    " has invalid pipeline_scope=",
                    s,
                    " (expected global|project|effective)",
                ),
            );
        }
    }
    let refs = step.next_steps();
    match first_dangling(steps, &refs) {
        Some(name) => Err(
            cat6("workflow ", id, " step ", key, " references missing step ", name.as_str()),
        ),
        None => Ok(()),
    }
}

fn validate_steps(id: &str, steps: &StrMap<WorkflowStepV1>) -> (r: Result<bool, String>)
    ensures
        match steps_problem(id@, steps@, 0) {
            None => r is Ok && r->Ok_0 == completes(steps@, steps@.len() as int),
            Some(p) => r is Err && r->Err_0@ == p,
        },
{
    let mut has_complete = false;
    let mut i: usize = 0;
    while i < steps.len()
        invariant
            i <= steps@.len(),
            has_complete == completes(steps@, i as int),
            steps_problem(id@, steps@, 0) == steps_problem(id@, steps@, i as int),
        decreases steps@.len() - i,
    {
        let step = steps.value_at(i);
        let complete = matches!(step, WorkflowStepV1::Complete);
        validate_step(id, steps, steps.key_at(i).as_str(), step)?;
        proof {
            if complete {
                assert(steps@[i as int].1 is Complete);
            }
        }
        has_complete = has_complete || complete;
        i = i + 1;
        proof {
            if completes(steps@, i as int) {
                let k = choose|k: int| 0 <= k < i && #[trigger] steps@[k].1 is Complete;
                assert(k == i - 1 || completes(steps@, i - 1));
            }
        }
    }
    Ok(has_complete)
}

fn validate_entry(key: &str, w: &WorkflowEntryV1) -> (r: Result<(), String>)
    ensures
        (match r {
            Ok(_) => None,
            Err(p) => Some(p@),
        }) == entry_problem(key@, w@),
{
    let id = w.id.as_str();
    if blank(key) {
        return Err("workflow key cannot be empty".to_owned());
    }
    if blank(id) {
        return Err("workflow id cannot be empty".to_owned());
    }
    if !str_eq(id, key) {
        return Err(cat4("workflow key/id mismatch: key=", key, " id=", id));
    }
    if blank(w.name.as_str()) {
        return Err(cat3("workflow ", id, " name cannot be empty"));
    }
    let entry = w.workflow.entry.as_str();
    if blank(entry) {
        return Err(cat3("workflow ", id, " entry cannot be empty"));
    }
    if w.workflow.steps.is_empty() {
        return Err(cat3("workflow ", id, " steps cannot be empty"));
    }
    if !w.workflow.steps.contains_key(entry) {
        return Err(cat4("workflow ", id, " entry step not found: ", entry));
    }
    let has_complete = validate_steps(id, &w.workflow.steps)?;
    if !has_complete {
        return Err(cat3("workflow ", id, " must contain at least one complete step"));
    }
    Ok(())
}

impl WorkflowsFileV1 {
    /// Whether the file is valid, and otherwise the first thing wrong with it.
    pub fn validate(&self) -> (r: Result<(), String>)
        ensures
            (match r {
                Ok(_) => None,
                Err(p) => Some(p@),
            }) == file_problem(self@),
    {
        if !str_eq(self.schema_version.as_str(), "1") {
            return Err(
                cat3(
                    "unknown workflows.json schema_version: ",
                    self.schema_version.as_str(),
                    " (expected 1)",
                ),
            );
        }
        let mut i: usize = 0;
        while i < self.workflows.len()
            invariant
                i <= self.workflows@.len(),
                file_problem(self@) == entries_problem(self.workflows@, i as int),
            decreases self.workflows@.len() - i,
        {
            validate_entry(self.workflows.key_at(i).as_str(), self.workflows.value_at(i))?;
            i = i + 1;
        }
        Ok(())
    }

    /// Stores everything that `over` holds.
    fn layer(&mut self, over: &WorkflowsFileV1)
        requires
            old(self)@.schema_version == "1"@,
        ensures
            final(self)@ == layered(old(self)@, over@),
    {
        self.components.extend_from(&over.components);
        self.workflows.extend_from(&over.workflows);
        self.profile_attachments.steps.extend_from(&over.profile_attachments.steps);
        self.profile_attachments.components.extend_from(&over.profile_attachments.components);
    }

    /// The workflows in effect: those of the repository before the global ones.
    pub fn merge_effective(global: Option<Self>, repo: Option<Self>) -> (r: Result<Self, String>)
        ensures
            (match r {
                Ok(f) => Ok(f@),
                Err(p) => Err(p@),
            }) == effective_workflows(global.deep_view(), repo.deep_view()),
    {
        let mut out = WorkflowsFileV1::default();
        if let Some(g) = &global {
            g.validate()?;
            out.layer(g);
        }
        if let Some(r) = &repo {
            r.validate()?;
            out.layer(r);
        }
        Ok(out)
    }
}

proof fn dangling_none(steps: Steps, refs: Seq<Seq<char>>, i: int, k: int)
    requires
        dangling(steps, refs, i) is None,
        0 <= i <= k < refs.len(),
    ensures
        lookup(steps, refs[k]) is Some,
    decreases k - i,
{
    if i < k {
        dangling_none(steps, refs, i + 1, k);
    }
}

proof fn steps_problem_none(id: Seq<char>, steps: Steps, i: int, k: int)
    requires
        steps_problem(id, steps, i) is None,
        0 <= i <= k < steps.len(),
    ensures
        step_problem(id, steps, steps[k].0, steps[k].1) is None,
    decreases k - i,
{
    if i < k {
        steps_problem_none(id, steps, i + 1, k);
    }
}

proof fn entries_problem_none(s: Seq<(Seq<char>, WorkflowEntryV1View)>, i: int, k: int)
    requires
        entries_problem(s, i) is None,
        0 <= i <= k < s.len(),
    ensures
        entry_problem(s[k].0, s[k].1) is None,
    decreases k - i,
{
    if i < k {
        entries_problem_none(s, i + 1, k);
    }
}

/// Of a valid file every workflow starts at one of its steps, every step leads only
/// to steps of the same workflow, some step completes it, and every review allows at
/// least one revision.
pub proof fn valid_workflows_are_closed(f: WorkflowsFileV1View, k: int)
    requires
        file_problem(f) is None,
        0 <= k < f.workflows.len(),
    ensures
        ({
            let w = f.workflows[k].1;
            let steps = w.workflow.steps;
            &&& w.id == f.workflows[k].0
            &&& lookup(steps, w.workflow.entry) is Some
            &&& completes(steps, steps.len() as int)
            &&& forall|i: int, j: int|
                0 <= i < steps.len() && 0 <= j < next_refs(steps[i].1).len() ==> lookup(
                    steps,
                    #[trigger] next_refs(steps[i].1)[j],
                ) is Some
            &&& forall|i: int|
                0 <= i < steps.len() && (#[trigger] steps[i]).1 is ReviewArtifact
                    ==> steps[i].1->max_revisions >= 1
        }),
{
    entries_problem_none(f.workflows, 0, k);
    let w = f.workflows[k].1;
    let steps = w.workflow.steps;
    assert forall|i: int, j: int|
        0 <= i < steps.len() && 0 <= j < next_refs(steps[i].1).len() implies lookup(
        steps,
        #[trigger] next_refs(steps[i].1)[j],
    ) is Some by {
        steps_problem_none(w.id, steps, 0, i);
        dangling_none(steps, next_refs(steps[i].1), 0, j);
    }
    assert forall|i: int|
        0 <= i < steps.len() && (#[trigger] steps[i]).1 is ReviewArtifact implies steps[i].1->max_revisions
        >= 1 by {
        steps_problem_none(w.id, steps, 0, i);
    }
}

/// A workflow of the repository takes the place of a global one with the same key;
/// every other global workflow stays.
pub proof fn repo_workflows_override_global(
    global: WorkflowsFileV1View,
    repo: WorkflowsFileV1View,
    key: Seq<char>,
)
    requires
        file_problem(global) is None,
        file_problem(repo) is None,
        sorted(global.workflows),
        sorted(repo.workflows),
    ensures
        effective_workflows(Some(global), Some(repo)) matches Ok(f) && lookup(f.workflows, key)
            == match lookup(repo.workflows, key) {
            Some(w) => Some(w),
            None => lookup(global.workflows, key),
        },
{
    let none = Seq::<(Seq<char>, WorkflowEntryV1View)>::empty();
    crate::strmap::put_all_sorted(none, global.workflows);
    lookup_put_all(none, global.workflows, key);
    lookup_put_all(put_all(none, global.workflows), repo.workflows, key);
}

} // verus!
