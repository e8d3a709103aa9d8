//! Pipelines, the state of a run and what a run asks of its caller.

use vstd::prelude::*;
use crate::strmap::StrMap;
use crate::text::{
    cat2, cat3, cat4, cat6, debug_list, debug_strings, decimal, decimal_string, Duplicate, Same,
};
use crate::types::commands::ChildProcessPolicy;
use crate::types::profile::{ProfileRefs, ProfileRefsView};
use crate::types::tool::{ToolCall, ToolCallView, ToolOutcome, ToolOutcomeView};

verus! {

/// Whether a run does its work or cleans up after it.
#[derive(Debug, Clone, Copy, PartialEq, Eq, Structural)]
pub enum PipelinePhase {
    Main,
    Cleanup,
}

impl View for PipelinePhase {
    type V = PipelinePhase;

    open spec fn view(&self) -> PipelinePhase {
        *self
    }
}

impl DeepView for PipelinePhase {
    type V = PipelinePhase;

    open spec fn deep_view(&self) -> PipelinePhase {
        *self
    }
}

impl Duplicate for PipelinePhase {
    fn dup(&self) -> (r: Self) {
        *self
    }
}

impl Same for PipelinePhase {
    fn same(&self, other: &Self) -> (b: bool) {
        *self == *other
    }
}

/// How far an approval reaches.
#[derive(Debug, Clone, Copy, PartialEq, Eq, Structural)]
pub enum ApprovalScope {
    OneOff,
    Session,
}

impl View for ApprovalScope {
    type V = ApprovalScope;

    open spec fn view(&self) -> ApprovalScope {
        *self
    }
}

impl DeepView for ApprovalScope {
    type V = ApprovalScope;

    open spec fn deep_view(&self) -> ApprovalScope {
        *self
    }
}

impl Duplicate for ApprovalScope {
    fn dup(&self) -> (r: Self) {
        *self
    }
}

impl Same for ApprovalScope {
    fn same(&self, other: &Self) -> (b: bool) {
        *self == *other
    }
}

/// Whether a refusal fails the run or is only recorded.
#[derive(Debug, Clone, Copy, PartialEq, Eq, Structural)]
pub enum ApprovalMode {
    Gate,
    Confirm,
}

impl View for ApprovalMode {
    type V = ApprovalMode;

    open spec fn view(&self) -> ApprovalMode {
        *self
    }
}

impl DeepView for ApprovalMode {
    type V = ApprovalMode;

    open spec fn deep_view(&self) -> ApprovalMode {
        *self
    }
}

impl Duplicate for ApprovalMode {
    fn dup(&self) -> (r: Self) {
        *self
    }
}

impl Same for ApprovalMode {
    fn same(&self, other: &Self) -> (b: bool) {
        *self == *other
    }
}

impl Default for ApprovalMode {
    fn default() -> (r: Self)
        ensures
            r == ApprovalMode::Gate,
    {
        ApprovalMode::Gate
    }
}

/// Which output of the last tool a value is taken from.
#[derive(Debug, Clone, Copy, PartialEq, Eq, Structural)]
pub enum ExtractSource {
    Stdout,
    Stderr,
    Combined,
}

impl View for ExtractSource {
    type V = ExtractSource;

    open spec fn view(&self) -> ExtractSource {
        *self
    }
}

impl DeepView for ExtractSource {
    type V = ExtractSource;

    open spec fn deep_view(&self) -> ExtractSource {
        *self
    }
}

impl Duplicate for ExtractSource {
    fn dup(&self) -> (r: Self) {
        *self
    }
}

impl Same for ExtractSource {
    fn same(&self, other: &Self) -> (b: bool) {
        *self == *other
    }
}

impl Default for ExtractSource {
    fn default() -> (r: Self)
        ensures
            r == ExtractSource::Combined,
    {
        ExtractSource::Combined
    }
}

/// How a value is found in an output.
#[derive(Debug, PartialEq, Eq)]
pub enum ExtractParser {
    JsonPath {
        json_path: String,
    },
    Regex {
        pattern: String,
        group: Option<usize>,
    },
}

/// What a [`ExtractParser`] stands for.
#[verifier::ext_equal]
pub enum ExtractParserView {
    JsonPath {
        json_path: Seq<char>,
    },
    Regex {
        pattern: Seq<char>,
        group: Option<usize>,
    },
}

impl View for ExtractParser {
    type V = ExtractParserView;

    open spec fn view(&self) -> ExtractParserView {
        match self {
            ExtractParser::JsonPath { json_path } => ExtractParserView::JsonPath {
                json_path: json_path@,
            },
            ExtractParser::Regex { pattern, group } => ExtractParserView::Regex {
                pattern: pattern@,
                group: group.deep_view(),
            },
        }
    }
}

impl DeepView for ExtractParser {
    type V = ExtractParserView;

    open spec fn deep_view(&self) -> ExtractParserView {
        self@
    }
}

impl Duplicate for ExtractParser {
    fn dup(&self) -> (r: Self) {
        match self {
            ExtractParser::JsonPath { json_path } => ExtractParser::JsonPath {
                json_path: json_path.clone(),
            },
            ExtractParser::Regex { pattern, group } => ExtractParser::Regex {
                pattern: pattern.clone(),
                group: group.dup(),
            },
        }
    }
}

impl Clone for ExtractParser {
    fn clone(&self) -> (r: Self)
        ensures
            r@ == self@,
    {
        self.dup()
    }
}

/// A clean-up of an extracted value.
#[derive(Debug, Clone, Copy, PartialEq, Eq, Structural)]
pub enum NormalizeOp {
    Trim,
    Lowercase,
}

impl View for NormalizeOp {
    type V = NormalizeOp;

    open spec fn view(&self) -> NormalizeOp {
        *self
    }
}

impl DeepView for NormalizeOp {
    type V = NormalizeOp;

    open spec fn deep_view(&self) -> NormalizeOp {
        *self
    }
}

impl Duplicate for NormalizeOp {
    fn dup(&self) -> (r: Self) {
        *self
    }
}

impl Same for NormalizeOp {
    fn same(&self, other: &Self) -> (b: bool) {
        *self == *other
    }
}

/// One step of a pipeline workflow.
#[allow(inconsistent_fields)]
#[derive(Debug, PartialEq, Eq)]
pub enum Part {
    RunTool {
        tool_call: ToolCall,
    },
    RunCommand {
        cwd: Option<String>,
        argv: Option<Vec<String>>,
        command_id: Option<String>,
        timeout_ms: Option<u64>,
        child_process_policy: ChildProcessPolicy,
    },
    RequireApproval {
        scope: ApprovalScope,
        mode: ApprovalMode,
        prompt: String,
        remediation: Vec<String>,
        action_hash: String,
        output_key: Option<String>,
    },
    ExtractValue {
        source: ExtractSource,
        parser: ExtractParser,
        output_key: String,
        normalize: Vec<NormalizeOp>,
    },
    AssertFact {
        key: String,
        equals: Option<String>,
        matches_regex: Option<String>,
    },
    EnsureWorktree {
        worktree_root: String,
        naming: String,
        base_branch: Option<String>,
        branch_name: String,
        require_approval: bool,
    },
    EnsureBranch {
        base_branch: Option<String>,
        branch_name: String,
        protected_branches: Vec<String>,
        require_approval: bool,
    },
    SetVar {
        key: String,
        value: String,
    },
    Fail {
        message: String,
    },
    Defer {
        part: Box<Part>,
    },
    UseComponent {
        id: String,
        args: StrMap<String>,
    },
}

/// What a [`Part`] stands for.
#[allow(inconsistent_fields)]
#[verifier::ext_equal]
pub enum PartView {
    RunTool {
        tool_call: ToolCallView,
    },
    RunCommand {
        cwd: Option<Seq<char>>,
        argv: Option<Seq<Seq<char>>>,
        command_id: Option<Seq<char>>,
        timeout_ms: Option<u64>,
        child_process_policy: ChildProcessPolicy,
    },
    RequireApproval {
        scope: ApprovalScope,
        mode: ApprovalMode,
        prompt: Seq<char>,
        remediation: Seq<Seq<char>>,
        action_hash: Seq<char>,
        output_key: Option<Seq<char>>,
    },
    ExtractValue {
        source: ExtractSource,
        parser: ExtractParserView,
        output_key: Seq<char>,
        normalize: Seq<NormalizeOp>,
    },
    AssertFact {
        key: Seq<char>,
        equals: Option<Seq<char>>,
        matches_regex: Option<Seq<char>>,
    },
    EnsureWorktree {
        worktree_root: Seq<char>,
        naming: Seq<char>,
        base_branch: Option<Seq<char>>,
        branch_name: Seq<char>,
        require_approval: bool,
    },
    EnsureBranch {
        base_branch: Option<Seq<char>>,
        branch_name: Seq<char>,
        protected_branches: Seq<Seq<char>>,
        require_approval: bool,
    },
    SetVar {
        key: Seq<char>,
        value: Seq<char>,
    },
    Fail {
        message: Seq<char>,
    },
    Defer {
        part: Box<PartView>,
    },
    UseComponent {
        id: Seq<char>,
        args: Seq<(Seq<char>, Seq<char>)>,
    },
}

/// The meaning of a [`Part`].
pub open spec fn part_view(x: Part) -> PartView
    decreases x,
{
    match x {
        Part::RunTool { tool_call } => PartView::RunTool {
            tool_call: tool_call@,
        },
        Part::RunCommand { cwd, argv, command_id, timeout_ms, child_process_policy } => PartView::RunCommand {
            cwd: cwd.deep_view(),
            argv: argv.deep_view(),
            command_id: command_id.deep_view(),
            timeout_ms: timeout_ms.deep_view(),
            child_process_policy: child_process_policy,
        },
        Part::RequireApproval { scope, mode, prompt, remediation, action_hash, output_key } => PartView::RequireApproval {
            scope: scope,
            mode: mode,
            prompt: prompt@,
            remediation: remediation.deep_view(),
            action_hash: action_hash@,
            output_key: output_key.deep_view(),
        },
        Part::ExtractValue { source, parser, output_key, normalize } => PartView::ExtractValue {
            source: source,
            parser: parser@,
            output_key: output_key@,
            normalize: normalize.deep_view(),
        },
        Part::AssertFact { key, equals, matches_regex } => PartView::AssertFact {
            key: key@,
            equals: equals.deep_view(),
            matches_regex: matches_regex.deep_view(),
        },
        Part::EnsureWorktree { worktree_root, naming, base_branch, branch_name, require_approval } => PartView::EnsureWorktree {
            worktree_root: worktree_root@,
            naming: naming@,
            base_branch: base_branch.deep_view(),
            branch_name: branch_name@,
            require_approval: require_approval,
        },
        Part::EnsureBranch { base_branch, branch_name, protected_branches, require_approval } => PartView::EnsureBranch {
            base_branch: base_branch.deep_view(),
            branch_name: branch_name@,
            protected_branches: protected_branches.deep_view(),
            require_approval: require_approval,
        },
        Part::SetVar { key, value } => PartView::SetVar {
            key: key@,
            value: value@,
        },
        Part::Fail { message } => PartView::Fail {
            message: message@,
        },
        Part::Defer { part } => PartView::Defer {
            part: Box::new(part_view(*part)),
        },
        Part::UseComponent { id, args } => PartView::UseComponent {
            id: id@,
            args: args.deep_view(),
        },
    }
}

impl View for Part {
    type V = PartView;

    open spec fn view(&self) -> PartView {
        part_view(*self)
    }
}

impl DeepView for Part {
    type V = PartView;

    open spec fn deep_view(&self) -> PartView {
        self@
    }
}

impl Duplicate for Part {
    fn dup(&self) -> (r: Self)
        decreases self,
    {
        match self {
            Part::RunTool { tool_call } => Part::RunTool {
                tool_call: tool_call.dup(),
            },
            Part::RunCommand { cwd, argv, command_id, timeout_ms, child_process_policy } => Part::RunCommand {
                cwd: cwd.dup(),
                argv: argv.dup(),
                command_id: command_id.dup(),
                timeout_ms: timeout_ms.dup(),
                child_process_policy: *child_process_policy,
            },
            Part::RequireApproval { scope, mode, prompt, remediation, action_hash, output_key } => Part::RequireApproval {
                scope: *scope,
                mode: *mode,
                prompt: prompt.clone(),
                remediation: remediation.dup(),
                action_hash: action_hash.clone(),
                output_key: output_key.dup(),
            },
            Part::ExtractValue { source, parser, output_key, normalize } => Part::ExtractValue {
                source: *source,
                parser: parser.dup(),
                output_key: output_key.clone(),
                normalize: normalize.dup(),
            },
            Part::AssertFact { key, equals, matches_regex } => Part::AssertFact {
                key: key.clone(),
                equals: equals.dup(),
                matches_regex: matches_regex.dup(),
            },
            Part::EnsureWorktree { worktree_root, naming, base_branch, branch_name, require_approval } => Part::EnsureWorktree {
                worktree_root: worktree_root.clone(),
                naming: naming.clone(),
                base_branch: base_branch.dup(),
                branch_name: branch_name.clone(),
                require_approval: *require_approval,
            },
            Part::EnsureBranch { base_branch, branch_name, protected_branches, require_approval } => Part::EnsureBranch {
                base_branch: base_branch.dup(),
                branch_name: branch_name.clone(),
                protected_branches: protected_branches.dup(),
                require_approval: *require_approval,
            },
            Part::SetVar { key, value } => Part::SetVar {
                key: key.clone(),
                value: value.clone(),
            },
            Part::Fail { message } => Part::Fail {
                message: message.clone(),
            },
            Part::Defer { part } => Part::Defer {
                part: Box::new(part.dup()),
            },
            Part::UseComponent { id, args } => Part::UseComponent {
                id: id.clone(),
                args: args.dup(),
            },
        }
    }
}

impl Clone for Part {
    fn clone(&self) -> (r: Self)
        ensures
            r@ == self@,
    {
        self.dup()
    }
}

/// A parameter of a component.
#[derive(Debug, PartialEq, Eq)]
pub struct ParamSpecV2 {
    pub default: Option<String>,
}

/// What a [`ParamSpecV2`] stands for.
#[verifier::ext_equal]
pub struct ParamSpecV2View {
    pub default: Option<Seq<char>>,
}

impl View for ParamSpecV2 {
    type V = ParamSpecV2View;

    open spec fn view(&self) -> ParamSpecV2View {
        ParamSpecV2View {
            default: self.default.deep_view(),
        }
    }
}

impl DeepView for ParamSpecV2 {
    type V = ParamSpecV2View;

    open spec fn deep_view(&self) -> ParamSpecV2View {
        self@
    }
}

impl Duplicate for ParamSpecV2 {
    fn dup(&self) -> (r: Self) {
        ParamSpecV2 {
            default: self.default.dup(),
        }
    }
}

impl Clone for ParamSpecV2 {
    fn clone(&self) -> (r: Self)
        ensures
            r@ == self@,
    {
        self.dup()
    }
}

/// A reusable, parameterised list of parts.
#[derive(Debug, PartialEq, Eq)]
pub struct ComponentV2 {
    pub params: StrMap<ParamSpecV2>,
    pub profile_refs: ProfileRefs,
    pub parts: Vec<Part>,
}

/// What a [`ComponentV2`] stands for.
#[verifier::ext_equal]
pub struct ComponentV2View {
    pub params: Seq<(Seq<char>, ParamSpecV2View)>,
    pub profile_refs: ProfileRefsView,
    pub parts: Seq<PartView>,
}

impl View for ComponentV2 {
    type V = ComponentV2View;

    open spec fn view(&self) -> ComponentV2View {
        ComponentV2View {
            params: self.params.deep_view(),
            profile_refs: self.profile_refs@,
            parts: self.parts.deep_view(),
        }
    }
}

impl DeepView for ComponentV2 {
    type V = ComponentV2View;

    open spec fn deep_view(&self) -> ComponentV2View {
        self@
    }
}

impl Duplicate for ComponentV2 {
    fn dup(&self) -> (r: Self) {
        ComponentV2 {
            params: self.params.dup(),
            profile_refs: self.profile_refs.dup(),
            parts: self.parts.dup(),
        }
    }
}

impl Clone for ComponentV2 {
    fn clone(&self) -> (r: Self)
        ensures
            r@ == self@,
    {
        self.dup()
    }
}

/// A list of parts, with the workflow that cleans up after it.
#[derive(Debug, PartialEq, Eq)]
pub struct Workflow {
    pub parts: Vec<Part>,
    pub finally_workflow: Option<String>,
}

/// What a [`Workflow`] stands for.
#[verifier::ext_equal]
pub struct WorkflowView {
    pub parts: Seq<PartView>,
    pub finally_workflow: Option<Seq<char>>,
}

impl View for Workflow {
    type V = WorkflowView;

    open spec fn view(&self) -> WorkflowView {
        WorkflowView {
            parts: self.parts.deep_view(),
            finally_workflow: self.finally_workflow.deep_view(),
        }
    }
}

impl DeepView for Workflow {
    type V = WorkflowView;

    open spec fn deep_view(&self) -> WorkflowView {
        self@
    }
}

impl Duplicate for Workflow {
    fn dup(&self) -> (r: Self) {
        Workflow {
            parts: self.parts.dup(),
            finally_workflow: self.finally_workflow.dup(),
        }
    }
}

impl Clone for Workflow {
    fn clone(&self) -> (r: Self)
        ensures
            r@ == self@,
    {
        self.dup()
    }
}

/// Workflows, and the one that a run starts with.
#[derive(Debug, PartialEq, Eq)]
pub struct Pipeline {
    pub workflows: StrMap<Workflow>,
    pub entry: String,
}

/// What a [`Pipeline`] stands for.
#[verifier::ext_equal]
pub struct PipelineView {
    pub workflows: Seq<(Seq<char>, WorkflowView)>,
    pub entry: Seq<char>,
}

impl View for Pipeline {
    type V = PipelineView;

    open spec fn view(&self) -> PipelineView {
        PipelineView {
            workflows: self.workflows.deep_view(),
            entry: self.entry@,
        }
    }
}

impl DeepView for Pipeline {
    type V = PipelineView;

    open spec fn deep_view(&self) -> PipelineView {
        self@
    }
}

impl Duplicate for Pipeline {
    fn dup(&self) -> (r: Self) {
        Pipeline {
            workflows: self.workflows.dup(),
            entry: self.entry.clone(),
        }
    }
}

impl Clone for Pipeline {
    fn clone(&self) -> (r: Self)
        ensures
            r@ == self@,
    {
        self.dup()
    }
}

/// A pipeline as it is stored.
#[derive(Debug, PartialEq, Eq)]
pub struct PipelineEntryV2 {
    pub id: String,
    pub name: String,
    pub enabled: bool,
    pub profile_refs: ProfileRefs,
    pub pipeline: Pipeline,
}

/// What a [`PipelineEntryV2`] stands for.
#[verifier::ext_equal]
pub struct PipelineEntryV2View {
    pub id: Seq<char>,
    pub name: Seq<char>,
    pub enabled: bool,
    pub profile_refs: ProfileRefsView,
    pub pipeline: PipelineView,
}

impl View for PipelineEntryV2 {
    type V = PipelineEntryV2View;

    open spec fn view(&self) -> PipelineEntryV2View {
        PipelineEntryV2View {
            id: self.id@,
            name: self.name@,
            enabled: self.enabled,
            profile_refs: self.profile_refs@,
            pipeline: self.pipeline@,
        }
    }
}

impl DeepView for PipelineEntryV2 {
    type V = PipelineEntryV2View;

    open spec fn deep_view(&self) -> PipelineEntryV2View {
        self@
    }
}

impl Duplicate for PipelineEntryV2 {
    fn dup(&self) -> (r: Self) {
        PipelineEntryV2 {
            id: self.id.clone(),
            name: self.name.clone(),
            enabled: self.enabled,
            profile_refs: self.profile_refs.dup(),
            pipeline: self.pipeline.dup(),
        }
    }
}

impl Clone for PipelineEntryV2 {
    fn clone(&self) -> (r: Self)
        ensures
            r@ == self@,
    {
        self.dup()
    }
}

/// The contents of a pipelines file.
#[derive(Debug, PartialEq, Eq)]
pub struct PipelineBundleV2 {
    pub schema_version: String,
    pub components: StrMap<ComponentV2>,
    pub pipelines: StrMap<PipelineEntryV2>,
}

/// What a [`PipelineBundleV2`] stands for.
#[verifier::ext_equal]
pub struct PipelineBundleV2View {
    pub schema_version: Seq<char>,
    pub components: Seq<(Seq<char>, ComponentV2View)>,
    pub pipelines: Seq<(Seq<char>, PipelineEntryV2View)>,
}

impl View for PipelineBundleV2 {
    type V = PipelineBundleV2View;

    open spec fn view(&self) -> PipelineBundleV2View {
        PipelineBundleV2View {
            schema_version: self.schema_version@,
            components: self.components.deep_view(),
            pipelines: self.pipelines.deep_view(),
        }
    }
}

impl DeepView for PipelineBundleV2 {
    type V = PipelineBundleV2View;

    open spec fn deep_view(&self) -> PipelineBundleV2View {
        self@
    }
}

impl Duplicate for PipelineBundleV2 {
    fn dup(&self) -> (r: Self) {
        PipelineBundleV2 {
            schema_version: self.schema_version.clone(),
            components: self.components.dup(),
            pipelines: self.pipelines.dup(),
        }
    }
}

impl Clone for PipelineBundleV2 {
    fn clone(&self) -> (r: Self)
        ensures
            r@ == self@,
    {
        self.dup()
    }
}

/// Profiles attached to the pieces of pipelines, by the path of the piece.
#[derive(Debug, PartialEq, Eq)]
pub struct PipelineProfileAttachmentsV1 {
    pub workflows: StrMap<ProfileRefs>,
    pub parts: StrMap<ProfileRefs>,
    pub components: StrMap<ProfileRefs>,
}

/// What a [`PipelineProfileAttachmentsV1`] stands for.
#[verifier::ext_equal]
pub struct PipelineProfileAttachmentsV1View {
    pub workflows: Seq<(Seq<char>, ProfileRefsView)>,
    pub parts: Seq<(Seq<char>, ProfileRefsView)>,
    pub components: Seq<(Seq<char>, ProfileRefsView)>,
}

impl View for PipelineProfileAttachmentsV1 {
    type V = PipelineProfileAttachmentsV1View;

    open spec fn view(&self) -> PipelineProfileAttachmentsV1View {
        PipelineProfileAttachmentsV1View {
            workflows: self.workflows.deep_view(),
            parts: self.parts.deep_view(),
            components: self.components.deep_view(),
        }
    }
}

impl DeepView for PipelineProfileAttachmentsV1 {
    type V = PipelineProfileAttachmentsV1View;

    open spec fn deep_view(&self) -> PipelineProfileAttachmentsV1View {
        self@
    }
}

impl Duplicate for PipelineProfileAttachmentsV1 {
    fn dup(&self) -> (r: Self) {
        PipelineProfileAttachmentsV1 {
            workflows: self.workflows.dup(),
            parts: self.parts.dup(),
            components: self.components.dup(),
        }
    }
}

impl Clone for PipelineProfileAttachmentsV1 {
    fn clone(&self) -> (r: Self)
        ensures
            r@ == self@,
    {
        self.dup()
    }
}

/// The bound on the parts that a run may take.
#[derive(Debug, PartialEq, Eq)]
pub struct PipelineLimits {
    pub max_cycles: u32,
}

/// What a [`PipelineLimits`] stands for.
#[verifier::ext_equal]
pub struct PipelineLimitsView {
    pub max_cycles: u32,
}

impl View for PipelineLimits {
    type V = PipelineLimitsView;

    open spec fn view(&self) -> PipelineLimitsView {
        PipelineLimitsView {
            max_cycles: self.max_cycles,
        }
    }
}

impl DeepView for PipelineLimits {
    type V = PipelineLimitsView;

    open spec fn deep_view(&self) -> PipelineLimitsView {
        self@
    }
}

impl Duplicate for PipelineLimits {
    fn dup(&self) -> (r: Self) {
        PipelineLimits {
            max_cycles: self.max_cycles,
        }
    }
}

impl Clone for PipelineLimits {
    fn clone(&self) -> (r: Self)
        ensures
            r@ == self@,
    {
        self.dup()
    }
}

/// What a run has learned so far.
#[derive(Debug, PartialEq, Eq)]
pub struct PipelineFacts {
    pub derived: StrMap<String>,
    pub last_tool_outcome: Option<ToolOutcome>,
    pub last_tool_output_stdout: String,
    pub last_tool_output_stderr: String,
}

/// What a [`PipelineFacts`] stands for.
#[verifier::ext_equal]
pub struct PipelineFactsView {
    pub derived: Seq<(Seq<char>, Seq<char>)>,
    pub last_tool_outcome: Option<ToolOutcomeView>,
    pub last_tool_output_stdout: Seq<char>,
    pub last_tool_output_stderr: Seq<char>,
}

impl View for PipelineFacts {
    type V = PipelineFactsView;

    open spec fn view(&self) -> PipelineFactsView {
        PipelineFactsView {
            derived: self.derived.deep_view(),
            last_tool_outcome: self.last_tool_outcome.deep_view(),
            last_tool_output_stdout: self.last_tool_output_stdout@,
            last_tool_output_stderr: self.last_tool_output_stderr@,
        }
    }
}

impl DeepView for PipelineFacts {
    type V = PipelineFactsView;

    open spec fn deep_view(&self) -> PipelineFactsView {
        self@
    }
}

impl Duplicate for PipelineFacts {
    fn dup(&self) -> (r: Self) {
        PipelineFacts {
            derived: self.derived.dup(),
            last_tool_outcome: self.last_tool_outcome.dup(),
            last_tool_output_stdout: self.last_tool_output_stdout.clone(),
            last_tool_output_stderr: self.last_tool_output_stderr.clone(),
        }
    }
}

impl Clone for PipelineFacts {
    fn clone(&self) -> (r: Self)
        ensures
            r@ == self@,
    {
        self.dup()
    }
}

/// The surroundings of a run.
#[derive(Debug, PartialEq, Eq)]
pub struct PipelineRunContext {
    pub session_id: String,
    pub task_id: Option<String>,
    pub turn_id: Option<String>,
    pub vars: StrMap<String>,
    pub repo_root: Option<String>,
}

/// What a [`PipelineRunContext`] stands for.
#[verifier::ext_equal]
pub struct PipelineRunContextView {
    pub session_id: Seq<char>,
    pub task_id: Option<Seq<char>>,
    pub turn_id: Option<Seq<char>>,
    pub vars: Seq<(Seq<char>, Seq<char>)>,
    pub repo_root: Option<Seq<char>>,
}

impl View for PipelineRunContext {
    type V = PipelineRunContextView;

    open spec fn view(&self) -> PipelineRunContextView {
        PipelineRunContextView {
            session_id: self.session_id@,
            task_id: self.task_id.deep_view(),
            turn_id: self.turn_id.deep_view(),
            vars: self.vars.deep_view(),
            repo_root: self.repo_root.deep_view(),
        }
    }
}

impl DeepView for PipelineRunContext {
    type V = PipelineRunContextView;

    open spec fn deep_view(&self) -> PipelineRunContextView {
        self@
    }
}

impl Duplicate for PipelineRunContext {
    fn dup(&self) -> (r: Self) {
        PipelineRunContext {
            session_id: self.session_id.clone(),
            task_id: self.task_id.dup(),
            turn_id: self.turn_id.dup(),
            vars: self.vars.dup(),
            repo_root: self.repo_root.dup(),
        }
    }
}

impl Clone for PipelineRunContext {
    fn clone(&self) -> (r: Self)
        ensures
            r@ == self@,
    {
        self.dup()
    }
}

/// A place in a pipeline.
#[derive(Debug, PartialEq, Eq)]
pub struct Cursor {
    pub workflow_id: String,
    pub part_index: usize,
}

/// What a [`Cursor`] stands for.
#[verifier::ext_equal]
pub struct CursorView {
    pub workflow_id: Seq<char>,
    pub part_index: usize,
}

impl View for Cursor {
    type V = CursorView;

    open spec fn view(&self) -> CursorView {
        CursorView {
            workflow_id: self.workflow_id@,
            part_index: self.part_index,
        }
    }
}

impl DeepView for Cursor {
    type V = CursorView;

    open spec fn deep_view(&self) -> CursorView {
        self@
    }
}

impl Duplicate for Cursor {
    fn dup(&self) -> (r: Self) {
        Cursor {
            workflow_id: self.workflow_id.clone(),
            part_index: self.part_index,
        }
    }
}

impl Clone for Cursor {
    fn clone(&self) -> (r: Self)
        ensures
            r@ == self@,
    {
        self.dup()
    }
}

/// What a run is waiting for.
#[derive(Debug, PartialEq, Eq)]
pub enum WaitingFor {
    Tool,
    Approval {
        mode: ApprovalMode,
        output_key: Option<String>,
    },
}

/// What a [`WaitingFor`] stands for.
#[verifier::ext_equal]
pub enum WaitingForView {
    Tool,
    Approval {
        mode: ApprovalMode,
        output_key: Option<Seq<char>>,
    },
}

impl View for WaitingFor {
    type V = WaitingForView;

    open spec fn view(&self) -> WaitingForView {
        match self {
            WaitingFor::Tool => WaitingForView::Tool,
            WaitingFor::Approval { mode, output_key } => WaitingForView::Approval {
                mode: *mode,
                output_key: output_key.deep_view(),
            },
        }
    }
}

impl DeepView for WaitingFor {
    type V = WaitingForView;

    open spec fn deep_view(&self) -> WaitingForView {
        self@
    }
}

impl Duplicate for WaitingFor {
    fn dup(&self) -> (r: Self) {
        match self {
            WaitingFor::Tool => WaitingFor::Tool,
            WaitingFor::Approval { mode, output_key } => WaitingFor::Approval {
                mode: *mode,
                output_key: output_key.dup(),
            },
        }
    }
}

impl Clone for WaitingFor {
    fn clone(&self) -> (r: Self)
        ensures
            r@ == self@,
    {
        self.dup()
    }
}

/// The state of a run.
#[derive(Debug, PartialEq, Eq)]
pub struct PipelineRunState {
    pub phase: PipelinePhase,
    pub vars: StrMap<String>,
    pub facts: PipelineFacts,
    pub deferred: Vec<Part>,
    pub cycles: u32,
    pub failed: bool,
    pub failure_message: Option<String>,
    pub cursor: Cursor,
    pub cleanup_cursor: Option<Cursor>,
    pub waiting: Option<WaitingFor>,
    pub pending_tool: Option<ToolCall>,
    pub ctx: PipelineRunContext,
}

/// What a [`PipelineRunState`] stands for.
#[verifier::ext_equal]
pub struct PipelineRunStateView {
    pub phase: PipelinePhase,
    pub vars: Seq<(Seq<char>, Seq<char>)>,
    pub facts: PipelineFactsView,
    pub deferred: Seq<PartView>,
    pub cycles: u32,
    pub failed: bool,
    pub failure_message: Option<Seq<char>>,
    pub cursor: CursorView,
    pub cleanup_cursor: Option<CursorView>,
    pub waiting: Option<WaitingForView>,
    pub pending_tool: Option<ToolCallView>,
    pub ctx: PipelineRunContextView,
}

impl View for PipelineRunState {
    type V = PipelineRunStateView;

    open spec fn view(&self) -> PipelineRunStateView {
        PipelineRunStateView {
            phase: self.phase,
            vars: self.vars.deep_view(),
            facts: self.facts@,
            deferred: self.deferred.deep_view(),
            cycles: self.cycles,
            failed: self.failed,
            failure_message: self.failure_message.deep_view(),
            cursor: self.cursor@,
            cleanup_cursor: self.cleanup_cursor.deep_view(),
            waiting: self.waiting.deep_view(),
            pending_tool: self.pending_tool.deep_view(),
            ctx: self.ctx@,
        }
    }
}

impl DeepView for PipelineRunState {
    type V = PipelineRunStateView;

    open spec fn deep_view(&self) -> PipelineRunStateView {
        self@
    }
}

impl Duplicate for PipelineRunState {
    fn dup(&self) -> (r: Self) {
        PipelineRunState {
            phase: self.phase,
            vars: self.vars.dup(),
            facts: self.facts.dup(),
            deferred: self.deferred.dup(),
            cycles: self.cycles,
            failed: self.failed,
            failure_message: self.failure_message.dup(),
            cursor: self.cursor.dup(),
            cleanup_cursor: self.cleanup_cursor.dup(),
            waiting: self.waiting.dup(),
            pending_tool: self.pending_tool.dup(),
            ctx: self.ctx.dup(),
        }
    }
}

impl Clone for PipelineRunState {
    fn clone(&self) -> (r: Self)
        ensures
            r@ == self@,
    {
        self.dup()
    }
}

/// What the caller of the engine does next.
#[allow(inconsistent_fields)]
#[derive(Debug, PartialEq, Eq)]
pub enum PipelineAction {
    InvokeTool {
        tool_call: ToolCall,
        phase: PipelinePhase,
    },
    EmitNote {
        message: String,
    },
    RequestApproval {
        scope: ApprovalScope,
        mode: ApprovalMode,
        prompt: String,
        remediation: Vec<String>,
        action_hash: String,
        output_key: Option<String>,
        phase: PipelinePhase,
    },
    Done {
        failed: bool,
        message: Option<String>,
    },
}

/// What a [`PipelineAction`] stands for.
#[allow(inconsistent_fields)]
#[verifier::ext_equal]
pub enum PipelineActionView {
    InvokeTool {
        tool_call: ToolCallView,
        phase: PipelinePhase,
    },
    EmitNote {
        message: Seq<char>,
    },
    RequestApproval {
        scope: ApprovalScope,
        mode: ApprovalMode,
        prompt: Seq<char>,
        remediation: Seq<Seq<char>>,
        action_hash: Seq<char>,
        output_key: Option<Seq<char>>,
        phase: PipelinePhase,
    },
    Done {
        failed: bool,
        message: Option<Seq<char>>,
    },
}

impl View for PipelineAction {
    type V = PipelineActionView;

    open spec fn view(&self) -> PipelineActionView {
        match self {
            PipelineAction::InvokeTool { tool_call, phase } => PipelineActionView::InvokeTool {
                tool_call: tool_call@,
                phase: *phase,
            },
            PipelineAction::EmitNote { message } => PipelineActionView::EmitNote {
                message: message@,
            },
            PipelineAction::RequestApproval { scope, mode, prompt, remediation, action_hash, output_key, phase } => PipelineActionView::RequestApproval {
                scope: *scope,
                mode: *mode,
                prompt: prompt@,
                remediation: remediation.deep_view(),
                action_hash: action_hash@,
                output_key: output_key.deep_view(),
                phase: *phase,
            },
            PipelineAction::Done { failed, message } => PipelineActionView::Done {
                failed: *failed,
                message: message.deep_view(),
            },
        }
    }
}

impl DeepView for PipelineAction {
    type V = PipelineActionView;

    open spec fn deep_view(&self) -> PipelineActionView {
        self@
    }
}

impl Duplicate for PipelineAction {
    fn dup(&self) -> (r: Self) {
        match self {
            PipelineAction::InvokeTool { tool_call, phase } => PipelineAction::InvokeTool {
                tool_call: tool_call.dup(),
                phase: *phase,
            },
            PipelineAction::EmitNote { message } => PipelineAction::EmitNote {
                message: message.clone(),
            },
            PipelineAction::RequestApproval { scope, mode, prompt, remediation, action_hash, output_key, phase } => PipelineAction::RequestApproval {
                scope: *scope,
                mode: *mode,
                prompt: prompt.clone(),
                remediation: remediation.dup(),
                action_hash: action_hash.clone(),
                output_key: output_key.dup(),
                phase: *phase,
            },
            PipelineAction::Done { failed, message } => PipelineAction::Done {
                failed: *failed,
                message: message.dup(),
            },
        }
    }
}

impl Clone for PipelineAction {
    fn clone(&self) -> (r: Self)
        ensures
            r@ == self@,
    {
        self.dup()
    }
}

/// Why a pipeline cannot be expanded or go on.
#[derive(Debug, PartialEq, Eq)]
pub enum PipelineError {
    UnknownWorkflow(String),
    MaxCyclesExceeded(u32),
    WaitingForExternalInput,
    MissingToolOutcome,
    ExtractFailed(String),
    AssertFailed(String),
    InvalidPart(String),
    TemplateError(String),
    UnsupportedChildProcessPolicy(ChildProcessPolicy),
    UnknownCommandId(String),
    MissingRepoRoot,
    UnknownComponent(String),
    ComponentCycle(Vec<String>),
    MissingComponentParam {
        component_id: String,
        param: String,
    },
    UnknownComponentParamReference {
        component_id: String,
        param: String,
    },
    InvalidComponentArg {
        component_id: String,
        param: String,
        message: String,
    },
    ExpandLimitsExceeded(String),
}

/// What a [`PipelineError`] stands for.
#[verifier::ext_equal]
pub enum PipelineErrorView {
    UnknownWorkflow(Seq<char>),
    MaxCyclesExceeded(u32),
    WaitingForExternalInput,
    MissingToolOutcome,
    ExtractFailed(Seq<char>),
    AssertFailed(Seq<char>),
    InvalidPart(Seq<char>),
    TemplateError(Seq<char>),
    UnsupportedChildProcessPolicy(ChildProcessPolicy),
    UnknownCommandId(Seq<char>),
    MissingRepoRoot,
    UnknownComponent(Seq<char>),
    ComponentCycle(Seq<Seq<char>>),
    MissingComponentParam {
        component_id: Seq<char>,
        param: Seq<char>,
    },
    UnknownComponentParamReference {
        component_id: Seq<char>,
        param: Seq<char>,
    },
    InvalidComponentArg {
        component_id: Seq<char>,
        param: Seq<char>,
        message: Seq<char>,
    },
    ExpandLimitsExceeded(Seq<char>),
}

impl View for PipelineError {
    type V = PipelineErrorView;

    open spec fn view(&self) -> PipelineErrorView {
        match self {
            PipelineError::UnknownWorkflow(a) => PipelineErrorView::UnknownWorkflow(a@),
            PipelineError::MaxCyclesExceeded(a) => PipelineErrorView::MaxCyclesExceeded(*a),
            PipelineError::WaitingForExternalInput => PipelineErrorView::WaitingForExternalInput,
            PipelineError::MissingToolOutcome => PipelineErrorView::MissingToolOutcome,
            PipelineError::ExtractFailed(a) => PipelineErrorView::ExtractFailed(a@),
            PipelineError::AssertFailed(a) => PipelineErrorView::AssertFailed(a@),
            PipelineError::InvalidPart(a) => PipelineErrorView::InvalidPart(a@),
            PipelineError::TemplateError(a) => PipelineErrorView::TemplateError(a@),
            PipelineError::UnsupportedChildProcessPolicy(a) => PipelineErrorView::UnsupportedChildProcessPolicy(*a),
            PipelineError::UnknownCommandId(a) => PipelineErrorView::UnknownCommandId(a@),
            PipelineError::MissingRepoRoot => PipelineErrorView::MissingRepoRoot,
            PipelineError::UnknownComponent(a) => PipelineErrorView::UnknownComponent(a@),
            PipelineError::ComponentCycle(a) => PipelineErrorView::ComponentCycle(a.deep_view()),
            PipelineError::MissingComponentParam { component_id, param } => PipelineErrorView::MissingComponentParam {
                component_id: component_id@,
                param: param@,
            },
            PipelineError::UnknownComponentParamReference { component_id, param } => PipelineErrorView::UnknownComponentParamReference {
                component_id: component_id@,
                param: param@,
            },
            PipelineError::InvalidComponentArg { component_id, param, message } => PipelineErrorView::InvalidComponentArg {
                component_id: component_id@,
                param: param@,
                message: message@,
            },
            PipelineError::ExpandLimitsExceeded(a) => PipelineErrorView::ExpandLimitsExceeded(a@),
        }
    }
}

impl DeepView for PipelineError {
    type V = PipelineErrorView;

    open spec fn deep_view(&self) -> PipelineErrorView {
        self@
    }
}

impl Duplicate for PipelineError {
    fn dup(&self) -> (r: Self) {
        match self {
            PipelineError::UnknownWorkflow(a) => PipelineError::UnknownWorkflow(a.clone()),
            PipelineError::MaxCyclesExceeded(a) => PipelineError::MaxCyclesExceeded(*a),
            PipelineError::WaitingForExternalInput => PipelineError::WaitingForExternalInput,
            PipelineError::MissingToolOutcome => PipelineError::MissingToolOutcome,
            PipelineError::ExtractFailed(a) => PipelineError::ExtractFailed(a.clone()),
            PipelineError::AssertFailed(a) => PipelineError::AssertFailed(a.clone()),
            PipelineError::InvalidPart(a) => PipelineError::InvalidPart(a.clone()),
            PipelineError::TemplateError(a) => PipelineError::TemplateError(a.clone()),
            PipelineError::UnsupportedChildProcessPolicy(a) => PipelineError::UnsupportedChildProcessPolicy(*a),
            PipelineError::UnknownCommandId(a) => PipelineError::UnknownCommandId(a.clone()),
            PipelineError::MissingRepoRoot => PipelineError::MissingRepoRoot,
            PipelineError::UnknownComponent(a) => PipelineError::UnknownComponent(a.clone()),
            PipelineError::ComponentCycle(a) => PipelineError::ComponentCycle(a.dup()),
            PipelineError::MissingComponentParam { component_id, param } => PipelineError::MissingComponentParam {
                component_id: component_id.clone(),
                param: param.clone(),
            },
            PipelineError::UnknownComponentParamReference { component_id, param } => PipelineError::UnknownComponentParamReference {
                component_id: component_id.clone(),
                param: param.clone(),
            },
            PipelineError::InvalidComponentArg { component_id, param, message } => PipelineError::InvalidComponentArg {
                component_id: component_id.clone(),
                param: param.clone(),
                message: message.clone(),
            },
            PipelineError::ExpandLimitsExceeded(a) => PipelineError::ExpandLimitsExceeded(a.clone()),
        }
    }
}

impl Clone for PipelineError {
    fn clone(&self) -> (r: Self)
        ensures
            r@ == self@,
    {
        self.dup()
    }
}

/// How far the expansion of components may go.
#[derive(Debug, Clone, Copy, PartialEq, Eq)]
pub struct ExpandLimits {
    pub max_depth: usize,
    pub max_expanded_parts: usize,
    pub max_total_string_bytes: usize,
}

impl Default for ExpandLimits {
    fn default() -> (r: Self)
        ensures
            r.max_depth == 8,
            r.max_expanded_parts == 5000,
            r.max_total_string_bytes == 1000000,
    {
        ExpandLimits { max_depth: 8, max_expanded_parts: 5_000, max_total_string_bytes: 1_000_000 }
    }
}

impl Default for PipelineLimits {
    fn default() -> (r: Self)
        ensures
            r.max_cycles == 3,
    {
        PipelineLimits { max_cycles: 3 }
    }
}

impl Default for PipelineFacts {
    fn default() -> (r: Self)
        ensures
            r@ == no_facts(),
    {
        let r = PipelineFacts {
            derived: StrMap::new(),
            last_tool_outcome: None,
            last_tool_output_stdout: String::new(),
            last_tool_output_stderr: String::new(),
        };
        assert(r@ =~= no_facts());
        r
    }
}

/// The facts of a run that has not started.
pub open spec fn no_facts() -> PipelineFactsView {
    PipelineFactsView {
        derived: Seq::empty(),
        last_tool_outcome: None,
        last_tool_output_stdout: Seq::empty(),
        last_tool_output_stderr: Seq::empty(),
    }
}

/// The name of a policy for child processes.
pub open spec fn policy_name(p: ChildProcessPolicy) -> Seq<char> {
    match p {
        ChildProcessPolicy::Inherit => "Inherit"@,
        ChildProcessPolicy::AuditAllowlist => "AuditAllowlist"@,
        ChildProcessPolicy::EnforceAllowlist => "EnforceAllowlist"@,
    }
}

fn policy_name_of(p: ChildProcessPolicy) -> (r: &'static str)
    ensures
        r@ == policy_name(p),
{
    match p {
        ChildProcessPolicy::Inherit => "Inherit",
        ChildProcessPolicy::AuditAllowlist => "AuditAllowlist",
        ChildProcessPolicy::EnforceAllowlist => "EnforceAllowlist",
    }
}

/// The text of an error.
pub open spec fn pipeline_error_text(e: PipelineErrorView) -> Seq<char> {
    match e {
        PipelineErrorView::UnknownWorkflow(m) => "unknown workflow: "@ + m,
        PipelineErrorView::MaxCyclesExceeded(n) => "pipeline exceeded max_cycles="@ + decimal(n as nat),
        PipelineErrorView::WaitingForExternalInput => "engine is waiting for external input"@,
        PipelineErrorView::MissingToolOutcome => "missing tool outcome for extract/assert"@,
        PipelineErrorView::ExtractFailed(m) => "extract failed: "@ + m,
        PipelineErrorView::AssertFailed(m) => "assert failed: "@ + m,
        PipelineErrorView::InvalidPart(m) => "invalid part: "@ + m,
        PipelineErrorView::TemplateError(m) => "template error: "@ + m,
        PipelineErrorView::UnsupportedChildProcessPolicy(p) => "unsupported child_process_policy="@ + policy_name(p) + " on this platform"@,
        PipelineErrorView::UnknownCommandId(m) => "unknown command_id: "@ + m,
        PipelineErrorView::MissingRepoRoot => "missing repo_root for git operation"@,
        PipelineErrorView::UnknownComponent(m) => "unknown component_id: "@ + m,
        PipelineErrorView::ComponentCycle(ids) => "component cycle: "@ + debug_list(ids),
        PipelineErrorView::MissingComponentParam { component_id, param } => "missing component param: component_id="@ + component_id + " param="@ + param,
        PipelineErrorView::UnknownComponentParamReference { component_id, param } => "unknown component param reference: component_id="@ + component_id + " param="@ + param,
        PipelineErrorView::InvalidComponentArg { component_id, param, message } => "invalid component arg: component_id="@ + component_id + " param="@ + param + ": "@ + message,
        PipelineErrorView::ExpandLimitsExceeded(m) => "component expansion limit exceeded: "@ + m,
    }
}

impl PipelineError {
    /// The error in words.
    pub fn message(&self) -> (r: String)
        ensures
            r@ == pipeline_error_text(self@),
    {
        match self {
            PipelineError::UnknownWorkflow(m) => cat2("unknown workflow: ", m.as_str()),
            PipelineError::MaxCyclesExceeded(n) => {
                let n_text = decimal_string(*n as u64);
                cat2("pipeline exceeded max_cycles=", n_text.as_str())
            },
            PipelineError::WaitingForExternalInput => "engine is waiting for external input".to_owned(),
            PipelineError::MissingToolOutcome => "missing tool outcome for extract/assert".to_owned(),
            PipelineError::ExtractFailed(m) => cat2("extract failed: ", m.as_str()),
            PipelineError::AssertFailed(m) => cat2("assert failed: ", m.as_str()),
            PipelineError::InvalidPart(m) => cat2("invalid part: ", m.as_str()),
            PipelineError::TemplateError(m) => cat2("template error: ", m.as_str()),
            PipelineError::UnsupportedChildProcessPolicy(p) => cat3("unsupported child_process_policy=", policy_name_of(*p), " on this platform"),
            PipelineError::UnknownCommandId(m) => cat2("unknown command_id: ", m.as_str()),
            PipelineError::MissingRepoRoot => "missing repo_root for git operation".to_owned(),
            PipelineError::UnknownComponent(m) => cat2("unknown component_id: ", m.as_str()),
            PipelineError::ComponentCycle(ids) => {
                let ids_text = debug_strings(ids);
                cat2("component cycle: ", ids_text.as_str())
            },
            PipelineError::MissingComponentParam { component_id, param } => cat4("missing component param: component_id=", component_id.as_str(), " param=", param.as_str()),
            PipelineError::UnknownComponentParamReference { component_id, param } => cat4("unknown component param reference: component_id=", component_id.as_str(), " param=", param.as_str()),
            PipelineError::InvalidComponentArg { component_id, param, message } => cat6("invalid component arg: component_id=", component_id.as_str(), " param=", param.as_str(), ": ", message.as_str()),
            PipelineError::ExpandLimitsExceeded(m) => cat2("component expansion limit exceeded: ", m.as_str()),
        }
    }
}

} // verus!
