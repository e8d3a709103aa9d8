//! Settings, and what is told about a session.

use vstd::prelude::*;
use crate::strmap::{lookup, StrMap};
use crate::text::{Duplicate, Same};
use crate::types::time::{Timestamp, TimestampView};
use crate::types::tool::{
    LifecycleEventKind, ToolCall, ToolCallDecision, ToolCallDecisionView, ToolCallView,
    ToolOutcome, ToolOutcomeView,
};

verus! {

/// When the user is asked to pick a template.
#[derive(Debug, Clone, Copy, PartialEq, Eq, Structural)]
pub enum TemplateSelectionMode {
    Off,
    Once,
    EveryTime,
}

impl View for TemplateSelectionMode {
    type V = TemplateSelectionMode;

    open spec fn view(&self) -> TemplateSelectionMode {
        *self
    }
}

impl DeepView for TemplateSelectionMode {
    type V = TemplateSelectionMode;

    open spec fn deep_view(&self) -> TemplateSelectionMode {
        *self
    }
}

impl Duplicate for TemplateSelectionMode {
    fn dup(&self) -> (r: Self) {
        *self
    }
}

impl Same for TemplateSelectionMode {
    fn same(&self, other: &Self) -> (b: bool) {
        *self == *other
    }
}

impl Default for TemplateSelectionMode {
    fn default() -> (r: Self)
        ensures
            r == TemplateSelectionMode::Off,
    {
        TemplateSelectionMode::Off
    }
}

/// How templates are offered.
#[derive(Debug, PartialEq, Eq)]
pub struct TemplatesUiConfig {
    pub selection_mode: TemplateSelectionMode,
    /// The template highlighted in the picker; empty for none.
    pub default_for_picker_template_id: String,
}

/// What a [`TemplatesUiConfig`] stands for.
#[verifier::ext_equal]
pub struct TemplatesUiConfigView {
    pub selection_mode: TemplateSelectionMode,
    pub default_for_picker_template_id: Seq<char>,
}

impl View for TemplatesUiConfig {
    type V = TemplatesUiConfigView;

    open spec fn view(&self) -> TemplatesUiConfigView {
        TemplatesUiConfigView {
            selection_mode: self.selection_mode,
            default_for_picker_template_id: self.default_for_picker_template_id@,
        }
    }
}

impl DeepView for TemplatesUiConfig {
    type V = TemplatesUiConfigView;

    open spec fn deep_view(&self) -> TemplatesUiConfigView {
        self@
    }
}

impl Duplicate for TemplatesUiConfig {
    fn dup(&self) -> (r: Self) {
        TemplatesUiConfig {
            selection_mode: self.selection_mode,
            default_for_picker_template_id: self.default_for_picker_template_id.clone(),
        }
    }
}

impl Clone for TemplatesUiConfig {
    fn clone(&self) -> (r: Self)
        ensures
            r@ == self@,
    {
        self.dup()
    }
}

/// What an agent changes in how templates are offered.
#[derive(Debug, PartialEq, Eq)]
pub struct TemplatesUiOverrides {
    pub selection_mode: Option<TemplateSelectionMode>,
    pub default_for_picker_template_id: Option<String>,
}

/// What a [`TemplatesUiOverrides`] stands for.
#[verifier::ext_equal]
pub struct TemplatesUiOverridesView {
    pub selection_mode: Option<TemplateSelectionMode>,
    pub default_for_picker_template_id: Option<Seq<char>>,
}

impl View for TemplatesUiOverrides {
    type V = TemplatesUiOverridesView;

    open spec fn view(&self) -> TemplatesUiOverridesView {
        TemplatesUiOverridesView {
            selection_mode: self.selection_mode.deep_view(),
            default_for_picker_template_id: self.default_for_picker_template_id.deep_view(),
        }
    }
}

impl DeepView for TemplatesUiOverrides {
    type V = TemplatesUiOverridesView;

    open spec fn deep_view(&self) -> TemplatesUiOverridesView {
        self@
    }
}

impl Duplicate for TemplatesUiOverrides {
    fn dup(&self) -> (r: Self) {
        TemplatesUiOverrides {
            selection_mode: self.selection_mode.dup(),
            default_for_picker_template_id: self.default_for_picker_template_id.dup(),
        }
    }
}

impl Clone for TemplatesUiOverrides {
    fn clone(&self) -> (r: Self)
        ensures
            r@ == self@,
    {
        self.dup()
    }
}

/// The interface.
#[derive(Debug, PartialEq, Eq)]
pub struct UiConfig {
    /// Groups of slash commands that a supervising interface has switched off.
    pub disabled_slash_commands: Vec<String>,
}

/// What a [`UiConfig`] stands for.
#[verifier::ext_equal]
pub struct UiConfigView {
    pub disabled_slash_commands: Seq<Seq<char>>,
}

impl View for UiConfig {
    type V = UiConfigView;

    open spec fn view(&self) -> UiConfigView {
        UiConfigView {
            disabled_slash_commands: self.disabled_slash_commands.deep_view(),
        }
    }
}

impl DeepView for UiConfig {
    type V = UiConfigView;

    open spec fn deep_view(&self) -> UiConfigView {
        self@
    }
}

impl Duplicate for UiConfig {
    fn dup(&self) -> (r: Self) {
        UiConfig {
            disabled_slash_commands: self.disabled_slash_commands.dup(),
        }
    }
}

impl Clone for UiConfig {
    fn clone(&self) -> (r: Self)
        ensures
            r@ == self@,
    {
        self.dup()
    }
}

/// The settings of one agent.
#[derive(Debug, PartialEq, Eq)]
pub struct AgentConfig {
    pub templates: TemplatesUiOverrides,
}

/// What a [`AgentConfig`] stands for.
#[verifier::ext_equal]
pub struct AgentConfigView {
    pub templates: TemplatesUiOverridesView,
}

impl View for AgentConfig {
    type V = AgentConfigView;

    open spec fn view(&self) -> AgentConfigView {
        AgentConfigView {
            templates: self.templates@,
        }
    }
}

impl DeepView for AgentConfig {
    type V = AgentConfigView;

    open spec fn deep_view(&self) -> AgentConfigView {
        self@
    }
}

impl Duplicate for AgentConfig {
    fn dup(&self) -> (r: Self) {
        AgentConfig {
            templates: self.templates.dup(),
        }
    }
}

impl Clone for AgentConfig {
    fn clone(&self) -> (r: Self)
        ensures
            r@ == self@,
    {
        self.dup()
    }
}

/// Whether work has to be verified before it is finished, and by which commands.
#[derive(Debug, PartialEq, Eq)]
pub struct VerifyPolicy {
    pub required: bool,
    pub max_age_ms: u64,
    pub command_prefixes: Vec<Vec<String>>,
}

/// What a [`VerifyPolicy`] stands for.
#[verifier::ext_equal]
pub struct VerifyPolicyView {
    pub required: bool,
    pub max_age_ms: u64,
    pub command_prefixes: Seq<Seq<Seq<char>>>,
}

impl View for VerifyPolicy {
    type V = VerifyPolicyView;

    open spec fn view(&self) -> VerifyPolicyView {
        VerifyPolicyView {
            required: self.required,
            max_age_ms: self.max_age_ms,
            command_prefixes: self.command_prefixes.deep_view(),
        }
    }
}

impl DeepView for VerifyPolicy {
    type V = VerifyPolicyView;

    open spec fn deep_view(&self) -> VerifyPolicyView {
        self@
    }
}

impl Duplicate for VerifyPolicy {
    fn dup(&self) -> (r: Self) {
        VerifyPolicy {
            required: self.required,
            max_age_ms: self.max_age_ms,
            command_prefixes: self.command_prefixes.dup(),
        }
    }
}

impl Clone for VerifyPolicy {
    fn clone(&self) -> (r: Self)
        ensures
            r@ == self@,
    {
        self.dup()
    }
}

impl Same for VerifyPolicy {
    fn same(&self, other: &Self) -> (b: bool) {
        self.required == other.required
            && self.max_age_ms == other.max_age_ms
            && self.command_prefixes.same(&other.command_prefixes)
    }
}

/// What tools may do.
#[derive(Debug, PartialEq, Eq)]
pub struct PolicyConfig {
    pub enabled: bool,
    pub deny_dangerous_always: bool,
    pub verify: VerifyPolicy,
}

/// What a [`PolicyConfig`] stands for.
#[verifier::ext_equal]
pub struct PolicyConfigView {
    pub enabled: bool,
    pub deny_dangerous_always: bool,
    pub verify: VerifyPolicyView,
}

impl View for PolicyConfig {
    type V = PolicyConfigView;

    open spec fn view(&self) -> PolicyConfigView {
        PolicyConfigView {
            enabled: self.enabled,
            deny_dangerous_always: self.deny_dangerous_always,
            verify: self.verify@,
        }
    }
}

impl DeepView for PolicyConfig {
    type V = PolicyConfigView;

    open spec fn deep_view(&self) -> PolicyConfigView {
        self@
    }
}

impl Duplicate for PolicyConfig {
    fn dup(&self) -> (r: Self) {
        PolicyConfig {
            enabled: self.enabled,
            deny_dangerous_always: self.deny_dangerous_always,
            verify: self.verify.dup(),
        }
    }
}

impl Clone for PolicyConfig {
    fn clone(&self) -> (r: Self)
        ensures
            r@ == self@,
    {
        self.dup()
    }
}

impl Same for PolicyConfig {
    fn same(&self, other: &Self) -> (b: bool) {
        self.enabled == other.enabled
            && self.deny_dangerous_always == other.deny_dangerous_always
            && self.verify.same(&other.verify)
    }
}

/// A program that is asked about an event.
#[derive(Debug, PartialEq, Eq)]
pub struct HookDefinition {
    pub argv: Vec<String>,
    pub timeout_ms: u64,
    pub headless_only: bool,
    pub is_repo_provided: bool,
}

/// What a [`HookDefinition`] stands for.
#[verifier::ext_equal]
pub struct HookDefinitionView {
    pub argv: Seq<Seq<char>>,
    pub timeout_ms: u64,
    pub headless_only: bool,
    pub is_repo_provided: bool,
}

impl View for HookDefinition {
    type V = HookDefinitionView;

    open spec fn view(&self) -> HookDefinitionView {
        HookDefinitionView {
            argv: self.argv.deep_view(),
            timeout_ms: self.timeout_ms,
            headless_only: self.headless_only,
            is_repo_provided: self.is_repo_provided,
        }
    }
}

impl DeepView for HookDefinition {
    type V = HookDefinitionView;

    open spec fn deep_view(&self) -> HookDefinitionView {
        self@
    }
}

impl Duplicate for HookDefinition {
    fn dup(&self) -> (r: Self) {
        HookDefinition {
            argv: self.argv.dup(),
            timeout_ms: self.timeout_ms,
            headless_only: self.headless_only,
            is_repo_provided: self.is_repo_provided,
        }
    }
}

impl Clone for HookDefinition {
    fn clone(&self) -> (r: Self)
        ensures
            r@ == self@,
    {
        self.dup()
    }
}

/// Which hooks run.
#[derive(Debug, PartialEq, Eq)]
pub struct HookConfig {
    pub enabled: bool,
    pub trusted_repo_roots: Vec<String>,
    pub before_tool: Option<HookDefinition>,
}

/// What a [`HookConfig`] stands for.
#[verifier::ext_equal]
pub struct HookConfigView {
    pub enabled: bool,
    pub trusted_repo_roots: Seq<Seq<char>>,
    pub before_tool: Option<HookDefinitionView>,
}

impl View for HookConfig {
    type V = HookConfigView;

    open spec fn view(&self) -> HookConfigView {
        HookConfigView {
            enabled: self.enabled,
            trusted_repo_roots: self.trusted_repo_roots.deep_view(),
            before_tool: self.before_tool.deep_view(),
        }
    }
}

impl DeepView for HookConfig {
    type V = HookConfigView;

    open spec fn deep_view(&self) -> HookConfigView {
        self@
    }
}

impl Duplicate for HookConfig {
    fn dup(&self) -> (r: Self) {
        HookConfig {
            enabled: self.enabled,
            trusted_repo_roots: self.trusted_repo_roots.dup(),
            before_tool: self.before_tool.dup(),
        }
    }
}

impl Clone for HookConfig {
    fn clone(&self) -> (r: Self)
        ensures
            r@ == self@,
    {
        self.dup()
    }
}

/// The audit log.
#[derive(Debug, PartialEq, Eq)]
pub struct AuditConfig {
    pub enabled: bool,
    pub max_file_bytes: u64,
    pub max_files: usize,
    pub redact_patterns: Vec<String>,
}

/// What a [`AuditConfig`] stands for.
#[verifier::ext_equal]
pub struct AuditConfigView {
    pub enabled: bool,
    pub max_file_bytes: u64,
    pub max_files: usize,
    pub redact_patterns: Seq<Seq<char>>,
}

impl View for AuditConfig {
    type V = AuditConfigView;

    open spec fn view(&self) -> AuditConfigView {
        AuditConfigView {
            enabled: self.enabled,
            max_file_bytes: self.max_file_bytes,
            max_files: self.max_files,
            redact_patterns: self.redact_patterns.deep_view(),
        }
    }
}

impl DeepView for AuditConfig {
    type V = AuditConfigView;

    open spec fn deep_view(&self) -> AuditConfigView {
        self@
    }
}

impl Duplicate for AuditConfig {
    fn dup(&self) -> (r: Self) {
        AuditConfig {
            enabled: self.enabled,
            max_file_bytes: self.max_file_bytes,
            max_files: self.max_files,
            redact_patterns: self.redact_patterns.dup(),
        }
    }
}

impl Clone for AuditConfig {
    fn clone(&self) -> (r: Self)
        ensures
            r@ == self@,
    {
        self.dup()
    }
}

/// Pipelines.
#[derive(Debug, PartialEq, Eq)]
pub struct PipelinesConfig {
    pub enabled: bool,
    pub max_cycles: u32,
}

/// What a [`PipelinesConfig`] stands for.
#[verifier::ext_equal]
pub struct PipelinesConfigView {
    pub enabled: bool,
    pub max_cycles: u32,
}

impl View for PipelinesConfig {
    type V = PipelinesConfigView;

    open spec fn view(&self) -> PipelinesConfigView {
        PipelinesConfigView {
            enabled: self.enabled,
            max_cycles: self.max_cycles,
        }
    }
}

impl DeepView for PipelinesConfig {
    type V = PipelinesConfigView;

    open spec fn deep_view(&self) -> PipelinesConfigView {
        self@
    }
}

impl Duplicate for PipelinesConfig {
    fn dup(&self) -> (r: Self) {
        PipelinesConfig {
            enabled: self.enabled,
            max_cycles: self.max_cycles,
        }
    }
}

impl Clone for PipelinesConfig {
    fn clone(&self) -> (r: Self)
        ensures
            r@ == self@,
    {
        self.dup()
    }
}

/// Artifact workflows.
#[derive(Debug, PartialEq, Eq)]
pub struct WorkflowsConfig {
    pub enabled: bool,
    pub max_revisions: u32,
    pub max_artifact_bytes: u64,
    pub max_feedback_bytes: u64,
}

/// What a [`WorkflowsConfig`] stands for.
#[verifier::ext_equal]
pub struct WorkflowsConfigView {
    pub enabled: bool,
    pub max_revisions: u32,
    pub max_artifact_bytes: u64,
    pub max_feedback_bytes: u64,
}

impl View for WorkflowsConfig {
    type V = WorkflowsConfigView;

    open spec fn view(&self) -> WorkflowsConfigView {
        WorkflowsConfigView {
            enabled: self.enabled,
            max_revisions: self.max_revisions,
            max_artifact_bytes: self.max_artifact_bytes,
            max_feedback_bytes: self.max_feedback_bytes,
        }
    }
}

impl DeepView for WorkflowsConfig {
    type V = WorkflowsConfigView;

    open spec fn deep_view(&self) -> WorkflowsConfigView {
        self@
    }
}

impl Duplicate for WorkflowsConfig {
    fn dup(&self) -> (r: Self) {
        WorkflowsConfig {
            enabled: self.enabled,
            max_revisions: self.max_revisions,
            max_artifact_bytes: self.max_artifact_bytes,
            max_feedback_bytes: self.max_feedback_bytes,
        }
    }
}

impl Clone for WorkflowsConfig {
    fn clone(&self) -> (r: Self)
        ensures
            r@ == self@,
    {
        self.dup()
    }
}

/// All settings.
#[derive(Debug, PartialEq, Eq)]
pub struct PrintRevoltConfig {
    pub enabled: bool,
    pub policy: PolicyConfig,
    pub hooks: HookConfig,
    pub audit: AuditConfig,
    pub pipelines: PipelinesConfig,
    pub workflows: WorkflowsConfig,
    pub templates: TemplatesUiConfig,
    pub ui: UiConfig,
    pub agents: StrMap<AgentConfig>,
    pub vars: StrMap<String>,
    pub policy_profiles: Vec<String>,
    pub guideline_profiles: Vec<String>,
}

/// What a [`PrintRevoltConfig`] stands for.
#[verifier::ext_equal]
pub struct PrintRevoltConfigView {
    pub enabled: bool,
    pub policy: PolicyConfigView,
    pub hooks: HookConfigView,
    pub audit: AuditConfigView,
    pub pipelines: PipelinesConfigView,
    pub workflows: WorkflowsConfigView,
    pub templates: TemplatesUiConfigView,
    pub ui: UiConfigView,
    pub agents: Seq<(Seq<char>, AgentConfigView)>,
    pub vars: Seq<(Seq<char>, Seq<char>)>,
    pub policy_profiles: Seq<Seq<char>>,
    pub guideline_profiles: Seq<Seq<char>>,
}

impl View for PrintRevoltConfig {
    type V = PrintRevoltConfigView;

    open spec fn view(&self) -> PrintRevoltConfigView {
        PrintRevoltConfigView {
            enabled: self.enabled,
            policy: self.policy@,
            hooks: self.hooks@,
            audit: self.audit@,
            pipelines: self.pipelines@,
            workflows: self.workflows@,
            templates: self.templates@,
            ui: self.ui@,
            agents: self.agents.deep_view(),
            vars: self.vars.deep_view(),
            policy_profiles: self.policy_profiles.deep_view(),
            guideline_profiles: self.guideline_profiles.deep_view(),
        }
    }
}

impl DeepView for PrintRevoltConfig {
    type V = PrintRevoltConfigView;

    open spec fn deep_view(&self) -> PrintRevoltConfigView {
        self@
    }
}

impl Duplicate for PrintRevoltConfig {
    fn dup(&self) -> (r: Self) {
        PrintRevoltConfig {
            enabled: self.enabled,
            policy: self.policy.dup(),
            hooks: self.hooks.dup(),
            audit: self.audit.dup(),
            pipelines: self.pipelines.dup(),
            workflows: self.workflows.dup(),
            templates: self.templates.dup(),
            ui: self.ui.dup(),
            agents: self.agents.dup(),
            vars: self.vars.dup(),
            policy_profiles: self.policy_profiles.dup(),
            guideline_profiles: self.guideline_profiles.dup(),
        }
    }
}

impl Clone for PrintRevoltConfig {
    fn clone(&self) -> (r: Self)
        ensures
            r@ == self@,
    {
        self.dup()
    }
}

/// Where and when an event happened.
#[derive(Debug, PartialEq, Eq)]
pub struct SessionContext {
    pub session_id: String,
    pub turn_id: Option<String>,
    pub triggered_at: Timestamp,
    pub cwd: String,
    pub repo_root: Option<String>,
}

/// What a [`SessionContext`] stands for.
#[verifier::ext_equal]
pub struct SessionContextView {
    pub session_id: Seq<char>,
    pub turn_id: Option<Seq<char>>,
    pub triggered_at: TimestampView,
    pub cwd: Seq<char>,
    pub repo_root: Option<Seq<char>>,
}

impl View for SessionContext {
    type V = SessionContextView;

    open spec fn view(&self) -> SessionContextView {
        SessionContextView {
            session_id: self.session_id@,
            turn_id: self.turn_id.deep_view(),
            triggered_at: self.triggered_at@,
            cwd: self.cwd@,
            repo_root: self.repo_root.deep_view(),
        }
    }
}

impl DeepView for SessionContext {
    type V = SessionContextView;

    open spec fn deep_view(&self) -> SessionContextView {
        self@
    }
}

impl Duplicate for SessionContext {
    fn dup(&self) -> (r: Self) {
        SessionContext {
            session_id: self.session_id.clone(),
            turn_id: self.turn_id.dup(),
            triggered_at: self.triggered_at.dup(),
            cwd: self.cwd.clone(),
            repo_root: self.repo_root.dup(),
        }
    }
}

impl Clone for SessionContext {
    fn clone(&self) -> (r: Self)
        ensures
            r@ == self@,
    {
        self.dup()
    }
}

/// That a verify command was run, and how it ended.
#[derive(Debug, PartialEq, Eq)]
pub struct VerifyEvidence {
    pub recorded_at: Timestamp,
    pub command: Vec<String>,
    pub success: bool,
}

/// What a [`VerifyEvidence`] stands for.
#[verifier::ext_equal]
pub struct VerifyEvidenceView {
    pub recorded_at: TimestampView,
    pub command: Seq<Seq<char>>,
    pub success: bool,
}

impl View for VerifyEvidence {
    type V = VerifyEvidenceView;

    open spec fn view(&self) -> VerifyEvidenceView {
        VerifyEvidenceView {
            recorded_at: self.recorded_at@,
            command: self.command.deep_view(),
            success: self.success,
        }
    }
}

impl DeepView for VerifyEvidence {
    type V = VerifyEvidenceView;

    open spec fn deep_view(&self) -> VerifyEvidenceView {
        self@
    }
}

impl Duplicate for VerifyEvidence {
    fn dup(&self) -> (r: Self) {
        VerifyEvidence {
            recorded_at: self.recorded_at.dup(),
            command: self.command.dup(),
            success: self.success,
        }
    }
}

impl Clone for VerifyEvidence {
    fn clone(&self) -> (r: Self)
        ensures
            r@ == self@,
    {
        self.dup()
    }
}

/// What a hook is told.
#[derive(Debug, PartialEq, Eq)]
pub struct HookPayloadV2 {
    pub ctx: SessionContext,
    pub event_kind: LifecycleEventKind,
    pub tool_call: Option<ToolCall>,
    pub tool_outcome: Option<ToolOutcome>,
    pub vars: StrMap<String>,
}

/// What a [`HookPayloadV2`] stands for.
#[verifier::ext_equal]
pub struct HookPayloadV2View {
    pub ctx: SessionContextView,
    pub event_kind: LifecycleEventKind,
    pub tool_call: Option<ToolCallView>,
    pub tool_outcome: Option<ToolOutcomeView>,
    pub vars: Seq<(Seq<char>, Seq<char>)>,
}

impl View for HookPayloadV2 {
    type V = HookPayloadV2View;

    open spec fn view(&self) -> HookPayloadV2View {
        HookPayloadV2View {
            ctx: self.ctx@,
            event_kind: self.event_kind,
            tool_call: self.tool_call.deep_view(),
            tool_outcome: self.tool_outcome.deep_view(),
            vars: self.vars.deep_view(),
        }
    }
}

impl DeepView for HookPayloadV2 {
    type V = HookPayloadV2View;

    open spec fn deep_view(&self) -> HookPayloadV2View {
        self@
    }
}

impl Duplicate for HookPayloadV2 {
    fn dup(&self) -> (r: Self) {
        HookPayloadV2 {
            ctx: self.ctx.dup(),
            event_kind: self.event_kind,
            tool_call: self.tool_call.dup(),
            tool_outcome: self.tool_outcome.dup(),
            vars: self.vars.dup(),
        }
    }
}

impl Clone for HookPayloadV2 {
    fn clone(&self) -> (r: Self)
        ensures
            r@ == self@,
    {
        self.dup()
    }
}

/// What a hook answers.
#[derive(Debug, PartialEq, Eq)]
pub struct HookResponseV2 {
    pub decision: ToolCallDecision,
}

/// What a [`HookResponseV2`] stands for.
#[verifier::ext_equal]
pub struct HookResponseV2View {
    pub decision: ToolCallDecisionView,
}

impl View for HookResponseV2 {
    type V = HookResponseV2View;

    open spec fn view(&self) -> HookResponseV2View {
        HookResponseV2View {
            decision: self.decision@,
        }
    }
}

impl DeepView for HookResponseV2 {
    type V = HookResponseV2View;

    open spec fn deep_view(&self) -> HookResponseV2View {
        self@
    }
}

impl Duplicate for HookResponseV2 {
    fn dup(&self) -> (r: Self) {
        HookResponseV2 {
            decision: self.decision.dup(),
        }
    }
}

impl Clone for HookResponseV2 {
    fn clone(&self) -> (r: Self)
        ensures
            r@ == self@,
    {
        self.dup()
    }
}

/// The default [`TemplatesUiConfig`].
pub open spec fn default_templates_ui_config() -> TemplatesUiConfigView {
    TemplatesUiConfigView {
        selection_mode: TemplateSelectionMode::Off,
        default_for_picker_template_id: Seq::empty(),
    }
}

impl Default for TemplatesUiConfig {
    fn default() -> (r: Self)
        ensures
            r@ == default_templates_ui_config(),
    {
        let r = TemplatesUiConfig {
            selection_mode: TemplateSelectionMode::Off,
            default_for_picker_template_id: String::new(),
        };
        assert(r@ =~= default_templates_ui_config());
        r
    }
}

/// The default [`TemplatesUiOverrides`].
pub open spec fn default_templates_ui_overrides() -> TemplatesUiOverridesView {
    TemplatesUiOverridesView {
        selection_mode: None,
        default_for_picker_template_id: None,
    }
}

impl Default for TemplatesUiOverrides {
    fn default() -> (r: Self)
        ensures
            r@ == default_templates_ui_overrides(),
    {
        let r = TemplatesUiOverrides {
            selection_mode: None,
            default_for_picker_template_id: None,
        };
        assert(r@ =~= default_templates_ui_overrides());
        r
    }
}

/// The default [`UiConfig`].
pub open spec fn default_ui_config() -> UiConfigView {
    UiConfigView {
        disabled_slash_commands: Seq::empty(),
    }
}

impl Default for UiConfig {
    fn default() -> (r: Self)
        ensures
            r@ == default_ui_config(),
    {
        let r = UiConfig {
            disabled_slash_commands: Vec::new(),
        };
        assert(r@ =~= default_ui_config());
        r
    }
}

/// The default [`AgentConfig`].
pub open spec fn default_agent_config() -> AgentConfigView {
    AgentConfigView {
        templates: default_templates_ui_overrides(),
    }
}

impl Default for AgentConfig {
    fn default() -> (r: Self)
        ensures
            r@ == default_agent_config(),
    {
        let r = AgentConfig {
            templates: TemplatesUiOverrides::default(),
        };
        assert(r@ =~= default_agent_config());
        r
    }
}

/// The default [`VerifyPolicy`].
pub open spec fn default_verify_policy() -> VerifyPolicyView {
    VerifyPolicyView {
        required: false,
        max_age_ms: 1800000,
        command_prefixes: Seq::empty(),
    }
}

impl Default for VerifyPolicy {
    fn default() -> (r: Self)
        ensures
            r@ == default_verify_policy(),
    {
        let r = VerifyPolicy {
            required: false,
            max_age_ms: 1_800_000,
            command_prefixes: Vec::new(),
        };
        assert(r@ =~= default_verify_policy());
        r
    }
}

/// The default [`PolicyConfig`].
pub open spec fn default_policy_config() -> PolicyConfigView {
    PolicyConfigView {
        enabled: true,
        deny_dangerous_always: true,
        verify: default_verify_policy(),
    }
}

impl Default for PolicyConfig {
    fn default() -> (r: Self)
        ensures
            r@ == default_policy_config(),
    {
        let r = PolicyConfig {
            enabled: true,
            deny_dangerous_always: true,
            verify: VerifyPolicy::default(),
        };
        assert(r@ =~= default_policy_config());
        r
    }
}

/// The default [`HookConfig`].
pub open spec fn default_hook_config() -> HookConfigView {
    HookConfigView {
        enabled: true,
        trusted_repo_roots: Seq::empty(),
        before_tool: None,
    }
}

impl Default for HookConfig {
    fn default() -> (r: Self)
        ensures
            r@ == default_hook_config(),
    {
        let r = HookConfig {
            enabled: true,
            trusted_repo_roots: Vec::new(),
            before_tool: None,
        };
        assert(r@ =~= default_hook_config());
        r
    }
}

/// The default [`AuditConfig`].
pub open spec fn default_audit_config() -> AuditConfigView {
    AuditConfigView {
        enabled: true,
        max_file_bytes: 5242880,
        max_files: 5,
        redact_patterns: seq!["(?i)(api[_-]?key|token|secret|password|pwd)\\s*=\\s*\\S+"@, "(?i)bearer\\s+[a-z0-9._\\\\-]+"@],
    }
}

impl Default for AuditConfig {
    fn default() -> (r: Self)
        ensures
            r@ == default_audit_config(),
    {
        let r = AuditConfig {
            enabled: true,
            max_file_bytes: 5_242_880,
            max_files: 5,
            redact_patterns: vec!["(?i)(api[_-]?key|token|secret|password|pwd)\\s*=\\s*\\S+".to_owned(), "(?i)bearer\\s+[a-z0-9._\\\\-]+".to_owned()],
        };
        assert(r@ =~= default_audit_config());
        r
    }
}

/// The default [`PipelinesConfig`].
pub open spec fn default_pipelines_config() -> PipelinesConfigView {
    PipelinesConfigView {
        enabled: false,
        max_cycles: 3,
    }
}

impl Default for PipelinesConfig {
    fn default() -> (r: Self)
        ensures
            r@ == default_pipelines_config(),
    {
        let r = PipelinesConfig {
            enabled: false,
            max_cycles: 3,
        };
        assert(r@ =~= default_pipelines_config());
        r
    }
}

/// The default [`WorkflowsConfig`].
pub open spec fn default_workflows_config() -> WorkflowsConfigView {
    WorkflowsConfigView {
        enabled: false,
        max_revisions: 3,
        max_artifact_bytes: 262144,
        max_feedback_bytes: 8192,
    }
}

impl Default for WorkflowsConfig {
    fn default() -> (r: Self)
        ensures
            r@ == default_workflows_config(),
    {
        let r = WorkflowsConfig {
            enabled: false,
            max_revisions: 3,
            max_artifact_bytes: 262_144,
            max_feedback_bytes: 8_192,
        };
        assert(r@ =~= default_workflows_config());
        r
    }
}

/// The default [`PrintRevoltConfig`].
pub open spec fn default_print_revolt_config() -> PrintRevoltConfigView {
    PrintRevoltConfigView {
        enabled: true,
        policy: default_policy_config(),
        hooks: default_hook_config(),
        audit: default_audit_config(),
        pipelines: default_pipelines_config(),
        workflows: default_workflows_config(),
        templates: default_templates_ui_config(),
        ui: default_ui_config(),
        agents: Seq::empty(),
        vars: Seq::empty(),
        policy_profiles: Seq::empty(),
        guideline_profiles: Seq::empty(),
    }
}

impl Default for PrintRevoltConfig {
    fn default() -> (r: Self)
        ensures
            r@ == default_print_revolt_config(),
    {
        let r = PrintRevoltConfig {
            enabled: true,
            policy: PolicyConfig::default(),
            hooks: HookConfig::default(),
            audit: AuditConfig::default(),
            pipelines: PipelinesConfig::default(),
            workflows: WorkflowsConfig::default(),
            templates: TemplatesUiConfig::default(),
            ui: UiConfig::default(),
            agents: StrMap::new(),
            vars: StrMap::new(),
            policy_profiles: Vec::new(),
            guideline_profiles: Vec::new(),
        };
        assert(r@ =~= default_print_revolt_config());
        r
    }
}

/// How templates are offered to an agent: the general settings, with what the agent
/// changes in them.
pub open spec fn effective_ui(cfg: PrintRevoltConfigView, agent_id: Option<Seq<char>>) -> TemplatesUiConfigView {
    match agent_id {
        None => cfg.templates,
        Some(id) => match lookup(cfg.agents, id) {
            None => cfg.templates,
            Some(agent) => TemplatesUiConfigView {
                selection_mode: match agent.templates.selection_mode {
                    Some(m) => m,
                    None => cfg.templates.selection_mode,
                },
                default_for_picker_template_id: match agent.templates.default_for_picker_template_id {
                    Some(t) => t,
                    None => cfg.templates.default_for_picker_template_id,
                },
            },
        },
    }
}

impl PrintRevoltConfig {
    /// How templates are offered to an agent.
    pub fn effective_templates_ui(&self, agent_id: Option<&str>) -> (r: TemplatesUiConfig)
        ensures
            r@ == effective_ui(self@, agent_id.deep_view()),
    {
        let mut out = self.templates.dup();
        if let Some(id) = agent_id {
            if let Some(agent) = self.agents.get(id) {
                if let Some(mode) = &agent.templates.selection_mode {
                    out.selection_mode = *mode;
                }
                if let Some(t) = &agent.templates.default_for_picker_template_id {
                    out.default_for_picker_template_id = t.clone();
                }
            }
        }
        out
    }
}

/// The time that a hook has where it names none, in milliseconds.
pub fn default_hook_timeout_ms() -> (r: u64)
    ensures
        r == 2000,
{
    2_000
}

} // verus!
