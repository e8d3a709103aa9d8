//! Runs of artifact workflows, and what they ask of their caller.

use vstd::prelude::*;
use crate::strmap::StrMap;
use crate::text::{cat2, cat4, decimal, decimal_string, outcome, Duplicate, Same};
use crate::types::time::{Timestamp, TimestampView};
use crate::types::workflows::{
    file_problem, no_workflows, WorkflowsFileV1, WorkflowsFileV1View,
};

verus! {

/// Why a workflow cannot go on.
#[derive(Debug, PartialEq, Eq)]
pub enum WorkflowError {
    Validation(String),
    InvalidRunState(String),
    MissingStep(String),
    MissingFeedbackKey(String),
    ArtifactTooLarge {
        actual_bytes: u64,
        max_bytes: u64,
    },
    FeedbackTooLarge {
        actual_bytes: u64,
        max_bytes: u64,
    },
}

/// What a [`WorkflowError`] stands for.
#[verifier::ext_equal]
pub enum WorkflowErrorView {
    Validation(Seq<char>),
    InvalidRunState(Seq<char>),
    MissingStep(Seq<char>),
    MissingFeedbackKey(Seq<char>),
    ArtifactTooLarge {
        actual_bytes: u64,
        max_bytes: u64,
    },
    FeedbackTooLarge {
        actual_bytes: u64,
        max_bytes: u64,
    },
}

impl View for WorkflowError {
    type V = WorkflowErrorView;

    open spec fn view(&self) -> WorkflowErrorView {
        match self {
            WorkflowError::Validation(a) => WorkflowErrorView::Validation(a@),
            WorkflowError::InvalidRunState(a) => WorkflowErrorView::InvalidRunState(a@),
            WorkflowError::MissingStep(a) => WorkflowErrorView::MissingStep(a@),
            WorkflowError::MissingFeedbackKey(a) => WorkflowErrorView::MissingFeedbackKey(a@),
            WorkflowError::ArtifactTooLarge { actual_bytes, max_bytes } => WorkflowErrorView::ArtifactTooLarge {
                actual_bytes: *actual_bytes,
                max_bytes: *max_bytes,
            },
            WorkflowError::FeedbackTooLarge { actual_bytes, max_bytes } => WorkflowErrorView::FeedbackTooLarge {
                actual_bytes: *actual_bytes,
                max_bytes: *max_bytes,
            },
        }
    }
}

impl DeepView for WorkflowError {
    type V = WorkflowErrorView;

    open spec fn deep_view(&self) -> WorkflowErrorView {
        self@
    }
}

impl Duplicate for WorkflowError {
    fn dup(&self) -> (r: Self) {
        match self {
            WorkflowError::Validation(a) => WorkflowError::Validation(a.clone()),
            WorkflowError::InvalidRunState(a) => WorkflowError::InvalidRunState(a.clone()),
            WorkflowError::MissingStep(a) => WorkflowError::MissingStep(a.clone()),
            WorkflowError::MissingFeedbackKey(a) => WorkflowError::MissingFeedbackKey(a.clone()),
            WorkflowError::ArtifactTooLarge { actual_bytes, max_bytes } => WorkflowError::ArtifactTooLarge {
                actual_bytes: *actual_bytes,
                max_bytes: *max_bytes,
            },
            WorkflowError::FeedbackTooLarge { actual_bytes, max_bytes } => WorkflowError::FeedbackTooLarge {
                actual_bytes: *actual_bytes,
                max_bytes: *max_bytes,
            },
        }
    }
}

impl Clone for WorkflowError {
    fn clone(&self) -> (r: Self)
        ensures
            r@ == self@,
    {
        self.dup()
    }
}

/// Where artifacts are kept, and how large they may be.
#[derive(Debug, PartialEq, Eq)]
pub struct ArtifactStoreConfig {
    pub root: String,
    pub max_artifact_bytes: u64,
    pub max_feedback_bytes: u64,
}

/// What a [`ArtifactStoreConfig`] stands for.
#[verifier::ext_equal]
pub struct ArtifactStoreConfigView {
    pub root: Seq<char>,
    pub max_artifact_bytes: u64,
    pub max_feedback_bytes: u64,
}

impl View for ArtifactStoreConfig {
    type V = ArtifactStoreConfigView;

    open spec fn view(&self) -> ArtifactStoreConfigView {
        ArtifactStoreConfigView {
            root: self.root@,
            max_artifact_bytes: self.max_artifact_bytes,
            max_feedback_bytes: self.max_feedback_bytes,
        }
    }
}

impl DeepView for ArtifactStoreConfig {
    type V = ArtifactStoreConfigView;

    open spec fn deep_view(&self) -> ArtifactStoreConfigView {
        self@
    }
}

impl Duplicate for ArtifactStoreConfig {
    fn dup(&self) -> (r: Self) {
        ArtifactStoreConfig {
            root: self.root.clone(),
            max_artifact_bytes: self.max_artifact_bytes,
            max_feedback_bytes: self.max_feedback_bytes,
        }
    }
}

impl Clone for ArtifactStoreConfig {
    fn clone(&self) -> (r: Self)
        ensures
            r@ == self@,
    {
        self.dup()
    }
}

/// What is kept about an artifact.
#[derive(Debug, PartialEq, Eq)]
pub struct ArtifactRecord {
    pub run_id: String,
    pub artifact_ref: String,
    pub artifact_kind: String,
    pub sha256: String,
    pub bytes: u64,
    pub created_at: Timestamp,
    pub object_rel_path: String,
    pub metadata_rel_path: String,
}

/// What a [`ArtifactRecord`] stands for.
#[verifier::ext_equal]
pub struct ArtifactRecordView {
    pub run_id: Seq<char>,
    pub artifact_ref: Seq<char>,
    pub artifact_kind: Seq<char>,
    pub sha256: Seq<char>,
    pub bytes: u64,
    pub created_at: TimestampView,
    pub object_rel_path: Seq<char>,
    pub metadata_rel_path: Seq<char>,
}

impl View for ArtifactRecord {
    type V = ArtifactRecordView;

    open spec fn view(&self) -> ArtifactRecordView {
        ArtifactRecordView {
            run_id: self.run_id@,
            artifact_ref: self.artifact_ref@,
            artifact_kind: self.artifact_kind@,
            sha256: self.sha256@,
            bytes: self.bytes,
            created_at: self.created_at@,
            object_rel_path: self.object_rel_path@,
            metadata_rel_path: self.metadata_rel_path@,
        }
    }
}

impl DeepView for ArtifactRecord {
    type V = ArtifactRecordView;

    open spec fn deep_view(&self) -> ArtifactRecordView {
        self@
    }
}

impl Duplicate for ArtifactRecord {
    fn dup(&self) -> (r: Self) {
        ArtifactRecord {
            run_id: self.run_id.clone(),
            artifact_ref: self.artifact_ref.clone(),
            artifact_kind: self.artifact_kind.clone(),
            sha256: self.sha256.clone(),
            bytes: self.bytes,
            created_at: self.created_at.dup(),
            object_rel_path: self.object_rel_path.clone(),
            metadata_rel_path: self.metadata_rel_path.clone(),
        }
    }
}

impl Clone for ArtifactRecord {
    fn clone(&self) -> (r: Self)
        ensures
            r@ == self@,
    {
        self.dup()
    }
}

/// What is kept about feedback.
#[derive(Debug, PartialEq, Eq)]
pub struct FeedbackRecord {
    pub run_id: String,
    pub step_id: String,
    pub feedback_key: String,
    pub sha256: String,
    pub bytes: u64,
    pub created_at: Timestamp,
    pub content_rel_path: String,
    pub metadata_rel_path: String,
}

/// What a [`FeedbackRecord`] stands for.
#[verifier::ext_equal]
pub struct FeedbackRecordView {
    pub run_id: Seq<char>,
    pub step_id: Seq<char>,
    pub feedback_key: Seq<char>,
    pub sha256: Seq<char>,
    pub bytes: u64,
    pub created_at: TimestampView,
    pub content_rel_path: Seq<char>,
    pub metadata_rel_path: Seq<char>,
}

impl View for FeedbackRecord {
    type V = FeedbackRecordView;

    open spec fn view(&self) -> FeedbackRecordView {
        FeedbackRecordView {
            run_id: self.run_id@,
            step_id: self.step_id@,
            feedback_key: self.feedback_key@,
            sha256: self.sha256@,
            bytes: self.bytes,
            created_at: self.created_at@,
            content_rel_path: self.content_rel_path@,
            metadata_rel_path: self.metadata_rel_path@,
        }
    }
}

impl DeepView for FeedbackRecord {
    type V = FeedbackRecordView;

    open spec fn deep_view(&self) -> FeedbackRecordView {
        self@
    }
}

impl Duplicate for FeedbackRecord {
    fn dup(&self) -> (r: Self) {
        FeedbackRecord {
            run_id: self.run_id.clone(),
            step_id: self.step_id.clone(),
            feedback_key: self.feedback_key.clone(),
            sha256: self.sha256.clone(),
            bytes: self.bytes,
            created_at: self.created_at.dup(),
            content_rel_path: self.content_rel_path.clone(),
            metadata_rel_path: self.metadata_rel_path.clone(),
        }
    }
}

impl Clone for FeedbackRecord {
    fn clone(&self) -> (r: Self)
        ensures
            r@ == self@,
    {
        self.dup()
    }
}

/// Something that is to be written to the store.
#[allow(inconsistent_fields)]
#[derive(Debug, PartialEq, Eq)]
pub enum StoreWrite {
    Artifact {
        record: ArtifactRecord,
        content: String,
    },
    Feedback {
        record: FeedbackRecord,
        content: String,
    },
}

/// What a [`StoreWrite`] stands for.
#[allow(inconsistent_fields)]
#[verifier::ext_equal]
pub enum StoreWriteView {
    Artifact {
        record: ArtifactRecordView,
        content: Seq<char>,
    },
    Feedback {
        record: FeedbackRecordView,
        content: Seq<char>,
    },
}

impl View for StoreWrite {
    type V = StoreWriteView;

    open spec fn view(&self) -> StoreWriteView {
        match self {
            StoreWrite::Artifact { record, content } => StoreWriteView::Artifact {
                record: record@,
                content: content@,
            },
            StoreWrite::Feedback { record, content } => StoreWriteView::Feedback {
                record: record@,
                content: content@,
            },
        }
    }
}

impl DeepView for StoreWrite {
    type V = StoreWriteView;

    open spec fn deep_view(&self) -> StoreWriteView {
        self@
    }
}

impl Duplicate for StoreWrite {
    fn dup(&self) -> (r: Self) {
        match self {
            StoreWrite::Artifact { record, content } => StoreWrite::Artifact {
                record: record.dup(),
                content: content.clone(),
            },
            StoreWrite::Feedback { record, content } => StoreWrite::Feedback {
                record: record.dup(),
                content: content.clone(),
            },
        }
    }
}

impl Clone for StoreWrite {
    fn clone(&self) -> (r: Self)
        ensures
            r@ == self@,
    {
        self.dup()
    }
}

/// The bounds of an engine.
#[derive(Debug, PartialEq, Eq)]
pub struct WorkflowEngineLimits {
    pub default_max_revisions: u32,
}

/// What a [`WorkflowEngineLimits`] stands for.
#[verifier::ext_equal]
pub struct WorkflowEngineLimitsView {
    pub default_max_revisions: u32,
}

impl View for WorkflowEngineLimits {
    type V = WorkflowEngineLimitsView;

    open spec fn view(&self) -> WorkflowEngineLimitsView {
        WorkflowEngineLimitsView {
            default_max_revisions: self.default_max_revisions,
        }
    }
}

impl DeepView for WorkflowEngineLimits {
    type V = WorkflowEngineLimitsView;

    open spec fn deep_view(&self) -> WorkflowEngineLimitsView {
        self@
    }
}

impl Duplicate for WorkflowEngineLimits {
    fn dup(&self) -> (r: Self) {
        WorkflowEngineLimits {
            default_max_revisions: self.default_max_revisions,
        }
    }
}

impl Clone for WorkflowEngineLimits {
    fn clone(&self) -> (r: Self)
        ensures
            r@ == self@,
    {
        self.dup()
    }
}

/// Where a run stands.
#[derive(Debug, Clone, Copy, PartialEq, Eq, Structural)]
pub enum WorkflowRunStatus {
    Running,
    Waiting,
    Completed,
    NeedsHuman,
    Failed,
}

impl View for WorkflowRunStatus {
    type V = WorkflowRunStatus;

    open spec fn view(&self) -> WorkflowRunStatus {
        *self
    }
}

impl DeepView for WorkflowRunStatus {
    type V = WorkflowRunStatus;

    open spec fn deep_view(&self) -> WorkflowRunStatus {
        *self
    }
}

impl Duplicate for WorkflowRunStatus {
    fn dup(&self) -> (r: Self) {
        *self
    }
}

impl Same for WorkflowRunStatus {
    fn same(&self, other: &Self) -> (b: bool) {
        *self == *other
    }
}

/// What a run is waiting for.
#[allow(inconsistent_fields)]
#[derive(Debug, PartialEq, Eq)]
pub enum PendingAction {
    InvokeAgent {
        step_id: String,
        artifact_ref: String,
        artifact_kind: String,
        next_step: Option<String>,
    },
    ReviewArtifact {
        step_id: String,
    },
    RunPipeline {
        step_id: String,
        next_step: Option<String>,
    },
}

/// What a [`PendingAction`] stands for.
#[allow(inconsistent_fields)]
#[verifier::ext_equal]
pub enum PendingActionView {
    InvokeAgent {
        step_id: Seq<char>,
        artifact_ref: Seq<char>,
        artifact_kind: Seq<char>,
        next_step: Option<Seq<char>>,
    },
    ReviewArtifact {
        step_id: Seq<char>,
    },
    RunPipeline {
        step_id: Seq<char>,
        next_step: Option<Seq<char>>,
    },
}

impl View for PendingAction {
    type V = PendingActionView;

    open spec fn view(&self) -> PendingActionView {
        match self {
            PendingAction::InvokeAgent { step_id, artifact_ref, artifact_kind, next_step } => PendingActionView::InvokeAgent {
                step_id: step_id@,
                artifact_ref: artifact_ref@,
                artifact_kind: artifact_kind@,
                next_step: next_step.deep_view(),
            },
            PendingAction::ReviewArtifact { step_id } => PendingActionView::ReviewArtifact {
                step_id: step_id@,
            },
            PendingAction::RunPipeline { step_id, next_step } => PendingActionView::RunPipeline {
                step_id: step_id@,
                next_step: next_step.deep_view(),
            },
        }
    }
}

impl DeepView for PendingAction {
    type V = PendingActionView;

    open spec fn deep_view(&self) -> PendingActionView {
        self@
    }
}

impl Duplicate for PendingAction {
    fn dup(&self) -> (r: Self) {
        match self {
            PendingAction::InvokeAgent { step_id, artifact_ref, artifact_kind, next_step } => PendingAction::InvokeAgent {
                step_id: step_id.clone(),
                artifact_ref: artifact_ref.clone(),
                artifact_kind: artifact_kind.clone(),
                next_step: next_step.dup(),
            },
            PendingAction::ReviewArtifact { step_id } => PendingAction::ReviewArtifact {
                step_id: step_id.clone(),
            },
            PendingAction::RunPipeline { step_id, next_step } => PendingAction::RunPipeline {
                step_id: step_id.clone(),
                next_step: next_step.dup(),
            },
        }
    }
}

impl Clone for PendingAction {
    fn clone(&self) -> (r: Self)
        ensures
            r@ == self@,
    {
        self.dup()
    }
}

/// The state of a run.
#[derive(Debug, PartialEq, Eq)]
pub struct WorkflowRunState {
    pub run_id: String,
    pub workflow_id: Option<String>,
    pub current_step_id: String,
    pub status: WorkflowRunStatus,
    pub revision_counters: StrMap<u32>,
    pub feedback: StrMap<String>,
    pub artifacts: StrMap<ArtifactRecord>,
    pub pending: Option<PendingAction>,
    pub last_error: Option<String>,
}

/// What a [`WorkflowRunState`] stands for.
#[verifier::ext_equal]
pub struct WorkflowRunStateView {
    pub run_id: Seq<char>,
    pub workflow_id: Option<Seq<char>>,
    pub current_step_id: Seq<char>,
    pub status: WorkflowRunStatus,
    pub revision_counters: Seq<(Seq<char>, u32)>,
    pub feedback: Seq<(Seq<char>, Seq<char>)>,
    pub artifacts: Seq<(Seq<char>, ArtifactRecordView)>,
    pub pending: Option<PendingActionView>,
    pub last_error: Option<Seq<char>>,
}

impl View for WorkflowRunState {
    type V = WorkflowRunStateView;

    open spec fn view(&self) -> WorkflowRunStateView {
        WorkflowRunStateView {
            run_id: self.run_id@,
            workflow_id: self.workflow_id.deep_view(),
            current_step_id: self.current_step_id@,
            status: self.status,
            revision_counters: self.revision_counters.deep_view(),
            feedback: self.feedback.deep_view(),
            artifacts: self.artifacts.deep_view(),
            pending: self.pending.deep_view(),
            last_error: self.last_error.deep_view(),
        }
    }
}

impl DeepView for WorkflowRunState {
    type V = WorkflowRunStateView;

    open spec fn deep_view(&self) -> WorkflowRunStateView {
        self@
    }
}

impl Duplicate for WorkflowRunState {
    fn dup(&self) -> (r: Self) {
        WorkflowRunState {
            run_id: self.run_id.clone(),
            workflow_id: self.workflow_id.dup(),
            current_step_id: self.current_step_id.clone(),
            status: self.status,
            revision_counters: self.revision_counters.dup(),
            feedback: self.feedback.dup(),
            artifacts: self.artifacts.dup(),
            pending: self.pending.dup(),
            last_error: self.last_error.dup(),
        }
    }
}

impl Clone for WorkflowRunState {
    fn clone(&self) -> (r: Self)
        ensures
            r@ == self@,
    {
        self.dup()
    }
}

/// What the caller of the engine does next.
#[allow(inconsistent_fields)]
#[derive(Debug, PartialEq, Eq)]
pub enum WorkflowAction {
    InvokeAgent {
        run_id: String,
        step_id: String,
        template_id: String,
        artifact_ref: String,
        artifact_kind: String,
        inputs: StrMap<String>,
        feedback: Option<String>,
    },
    RequestReview {
        run_id: String,
        step_id: String,
        artifact_ref: String,
        prompt: String,
        max_revisions: u32,
        current_revisions: u32,
    },
    RunPipeline {
        run_id: String,
        step_id: String,
        pipeline_id: String,
        pipeline_scope: Option<String>,
    },
    Complete {
        run_id: String,
        step_id: String,
    },
}

/// What a [`WorkflowAction`] stands for.
#[allow(inconsistent_fields)]
#[verifier::ext_equal]
pub enum WorkflowActionView {
    InvokeAgent {
        run_id: Seq<char>,
        step_id: Seq<char>,
        template_id: Seq<char>,
        artifact_ref: Seq<char>,
        artifact_kind: Seq<char>,
        inputs: Seq<(Seq<char>, Seq<char>)>,
        feedback: Option<Seq<char>>,
    },
    RequestReview {
        run_id: Seq<char>,
        step_id: Seq<char>,
        artifact_ref: Seq<char>,
        prompt: Seq<char>,
        max_revisions: u32,
        current_revisions: u32,
    },
    RunPipeline {
        run_id: Seq<char>,
        step_id: Seq<char>,
        pipeline_id: Seq<char>,
        pipeline_scope: Option<Seq<char>>,
    },
    Complete {
        run_id: Seq<char>,
        step_id: Seq<char>,
    },
}

impl View for WorkflowAction {
    type V = WorkflowActionView;

    open spec fn view(&self) -> WorkflowActionView {
        match self {
            WorkflowAction::InvokeAgent { run_id, step_id, template_id, artifact_ref, artifact_kind, inputs, feedback } => WorkflowActionView::InvokeAgent {
                run_id: run_id@,
                step_id: step_id@,
                template_id: template_id@,
                artifact_ref: artifact_ref@,
                artifact_kind: artifact_kind@,
                inputs: inputs.deep_view(),
                feedback: feedback.deep_view(),
            },
            WorkflowAction::RequestReview { run_id, step_id, artifact_ref, prompt, max_revisions, current_revisions } => WorkflowActionView::RequestReview {
                run_id: run_id@,
                step_id: step_id@,
                artifact_ref: artifact_ref@,
                prompt: prompt@,
                max_revisions: *max_revisions,
                current_revisions: *current_revisions,
            },
            WorkflowAction::RunPipeline { run_id, step_id, pipeline_id, pipeline_scope } => WorkflowActionView::RunPipeline {
                run_id: run_id@,
                step_id: step_id@,
                pipeline_id: pipeline_id@,
                pipeline_scope: pipeline_scope.deep_view(),
            },
            WorkflowAction::Complete { run_id, step_id } => WorkflowActionView::Complete {
                run_id: run_id@,
                step_id: step_id@,
            },
        }
    }
}

impl DeepView for WorkflowAction {
    type V = WorkflowActionView;

    open spec fn deep_view(&self) -> WorkflowActionView {
        self@
    }
}

impl Duplicate for WorkflowAction {
    fn dup(&self) -> (r: Self) {
        match self {
            WorkflowAction::InvokeAgent { run_id, step_id, template_id, artifact_ref, artifact_kind, inputs, feedback } => WorkflowAction::InvokeAgent {
                run_id: run_id.clone(),
                step_id: step_id.clone(),
                template_id: template_id.clone(),
                artifact_ref: artifact_ref.clone(),
                artifact_kind: artifact_kind.clone(),
                inputs: inputs.dup(),
                feedback: feedback.dup(),
            },
            WorkflowAction::RequestReview { run_id, step_id, artifact_ref, prompt, max_revisions, current_revisions } => WorkflowAction::RequestReview {
                run_id: run_id.clone(),
                step_id: step_id.clone(),
                artifact_ref: artifact_ref.clone(),
                prompt: prompt.clone(),
                max_revisions: *max_revisions,
                current_revisions: *current_revisions,
            },
            WorkflowAction::RunPipeline { run_id, step_id, pipeline_id, pipeline_scope } => WorkflowAction::RunPipeline {
                run_id: run_id.clone(),
                step_id: step_id.clone(),
                pipeline_id: pipeline_id.clone(),
                pipeline_scope: pipeline_scope.dup(),
            },
            WorkflowAction::Complete { run_id, step_id } => WorkflowAction::Complete {
                run_id: run_id.clone(),
                step_id: step_id.clone(),
            },
        }
    }
}

impl Clone for WorkflowAction {
    fn clone(&self) -> (r: Self)
        ensures
            r@ == self@,
    {
        self.dup()
    }
}

/// What came of an action.
#[derive(Debug, PartialEq, Eq)]
pub enum WorkflowActionResult {
    AgentOutput {
        content: String,
    },
    ReviewDecision {
        approved: bool,
        feedback: Option<String>,
    },
    PipelineOutput {
        success: bool,
        summary: Option<String>,
    },
}

/// What a [`WorkflowActionResult`] stands for.
#[verifier::ext_equal]
pub enum WorkflowActionResultView {
    AgentOutput {
        content: Seq<char>,
    },
    ReviewDecision {
        approved: bool,
        feedback: Option<Seq<char>>,
    },
    PipelineOutput {
        success: bool,
        summary: Option<Seq<char>>,
    },
}

impl View for WorkflowActionResult {
    type V = WorkflowActionResultView;

    open spec fn view(&self) -> WorkflowActionResultView {
        match self {
            WorkflowActionResult::AgentOutput { content } => WorkflowActionResultView::AgentOutput {
                content: content@,
            },
            WorkflowActionResult::ReviewDecision { approved, feedback } => WorkflowActionResultView::ReviewDecision {
                approved: *approved,
                feedback: feedback.deep_view(),
            },
            WorkflowActionResult::PipelineOutput { success, summary } => WorkflowActionResultView::PipelineOutput {
                success: *success,
                summary: summary.deep_view(),
            },
        }
    }
}

impl DeepView for WorkflowActionResult {
    type V = WorkflowActionResultView;

    open spec fn deep_view(&self) -> WorkflowActionResultView {
        self@
    }
}

impl Duplicate for WorkflowActionResult {
    fn dup(&self) -> (r: Self) {
        match self {
            WorkflowActionResult::AgentOutput { content } => WorkflowActionResult::AgentOutput {
                content: content.clone(),
            },
            WorkflowActionResult::ReviewDecision { approved, feedback } => WorkflowActionResult::ReviewDecision {
                approved: *approved,
                feedback: feedback.dup(),
            },
            WorkflowActionResult::PipelineOutput { success, summary } => WorkflowActionResult::PipelineOutput {
                success: *success,
                summary: summary.dup(),
            },
        }
    }
}

impl Clone for WorkflowActionResult {
    fn clone(&self) -> (r: Self)
        ensures
            r@ == self@,
    {
        self.dup()
    }
}

impl Default for WorkflowEngineLimits {
    fn default() -> (r: Self)
        ensures
            r.default_max_revisions == 3,
    {
        WorkflowEngineLimits { default_max_revisions: 3 }
    }
}

impl ArtifactStoreConfig {
    /// The configuration of a store under `root`, with the usual bounds.
    pub fn with_root(root: String) -> (r: Self)
        ensures
            r.root == root,
            r.max_artifact_bytes == 262144,
            r.max_feedback_bytes == 8192,
    {
        ArtifactStoreConfig { root, max_artifact_bytes: 262_144, max_feedback_bytes: 8_192 }
    }
}

/// Whether a run has come to its end.
pub open spec fn terminal(s: WorkflowRunStateView) -> bool {
    s.status == WorkflowRunStatus::Completed || s.status == WorkflowRunStatus::NeedsHuman
        || s.status == WorkflowRunStatus::Failed
}

impl WorkflowRunState {
    /// Whether the run has come to its end.
    pub fn is_terminal(&self) -> (r: bool)
        ensures
            r == terminal(self@),
    {
        match self.status {
            WorkflowRunStatus::Completed | WorkflowRunStatus::NeedsHuman
            | WorkflowRunStatus::Failed => true,
            WorkflowRunStatus::Running | WorkflowRunStatus::Waiting => false,
        }
    }
}

/// A workflows file as it counts: one that is not there holds nothing, and one that is
/// must be valid.
pub open spec fn file_accepted(f: Option<WorkflowsFileV1View>) -> Result<
    WorkflowsFileV1View,
    WorkflowErrorView,
> {
    match f {
        None => Ok(no_workflows()),
        Some(f) => match file_problem(f) {
            Some(p) => Err(WorkflowErrorView::Validation(p)),
            None => Ok(f),
        },
    }
}

pub fn accept_workflows_file(file: Option<WorkflowsFileV1>) -> (r: Result<
    WorkflowsFileV1,
    WorkflowError,
>)
    ensures
        outcome(r) == file_accepted(file.deep_view()),
{
    match file {
        None => Ok(WorkflowsFileV1::default()),
        Some(f) => match f.validate() {
            Ok(_) => Ok(f),
            Err(p) => Err(WorkflowError::Validation(p)),
        },
    }
}

/// The text of an error.
pub open spec fn workflow_error_text(e: WorkflowErrorView) -> Seq<char> {
    match e {
        WorkflowErrorView::Validation(m) => "validation error: "@ + m,
        WorkflowErrorView::InvalidRunState(m) => "invalid run state: "@ + m,
        WorkflowErrorView::MissingStep(m) => "missing step: "@ + m,
        WorkflowErrorView::MissingFeedbackKey(m) => "missing feedback key: "@ + m,
        WorkflowErrorView::ArtifactTooLarge { actual_bytes, max_bytes } => "artifact too large: "@ + decimal(actual_bytes as nat) + " > "@ + decimal(max_bytes as nat),
        WorkflowErrorView::FeedbackTooLarge { actual_bytes, max_bytes } => "feedback too large: "@ + decimal(actual_bytes as nat) + " > "@ + decimal(max_bytes as nat),
    }
}

impl WorkflowError {
    /// The error in words.
    pub fn message(&self) -> (r: String)
        ensures
            r@ == workflow_error_text(self@),
    {
        match self {
            WorkflowError::Validation(m) => cat2("validation error: ", m.as_str()),
            WorkflowError::InvalidRunState(m) => cat2("invalid run state: ", m.as_str()),
            WorkflowError::MissingStep(m) => cat2("missing step: ", m.as_str()),
            WorkflowError::MissingFeedbackKey(m) => cat2("missing feedback key: ", m.as_str()),
            WorkflowError::ArtifactTooLarge { actual_bytes, max_bytes } => {
                let actual_bytes_text = decimal_string(*actual_bytes);
                let max_bytes_text = decimal_string(*max_bytes);
                cat4("artifact too large: ", actual_bytes_text.as_str(), " > ", max_bytes_text.as_str())
            },
            WorkflowError::FeedbackTooLarge { actual_bytes, max_bytes } => {
                let actual_bytes_text = decimal_string(*actual_bytes);
                let max_bytes_text = decimal_string(*max_bytes);
                cat4("feedback too large: ", actual_bytes_text.as_str(), " > ", max_bytes_text.as_str())
            },
        }
    }
}

} // verus!
