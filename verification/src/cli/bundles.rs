//! The pipelines and workflows in effect, layer over layer.

use vstd::prelude::*;
use crate::attach::refs::{PipelinesFileV2, PipelinesFileV2View};
use crate::cli::scope::{LayerScope, Scope};
use crate::json::{field, parse, parsed, text_of, Json, JsonView};
use crate::pipelines::expand::{expand_pipeline, expanded_pipeline};
use crate::pipelines::model::{
    pipeline_error_text, ComponentV2, ComponentV2View, ExpandLimits, Pipeline, PipelineEntryV2,
    PipelineEntryV2View, PipelineProfileAttachmentsV1, PipelineProfileAttachmentsV1View,
    PipelineView,
};
use crate::strmap::{
    lookup, lookup_mapped, lookup_put_all, put_all, put_all_sorted, sorted, StrMap,
};
use crate::text::{cat2, cat3, outcome, str_eq, Duplicate};
use crate::types::profile::{no_refs, ProfileRefs, ProfileRefsView};
use crate::types::workflows::{
    effective_workflows, file_problem, WorkflowComponentV1, WorkflowComponentV1View, WorkflowEntryV1,
    WorkflowEntryV1View, WorkflowGraphV1, WorkflowGraphV1View, WorkflowsFileV1,
    WorkflowsFileV1View,
};

verus! {

/// A pipeline of a bundle of the first version.
#[derive(Debug, PartialEq, Eq)]
pub struct PipelineEntryV1 {
    pub id: String,
    pub name: String,
    pub enabled: bool,
    pub pipeline: Pipeline,
}

/// What a [`PipelineEntryV1`] stands for.
#[verifier::ext_equal]
pub struct PipelineEntryV1View {
    pub id: Seq<char>,
    pub name: Seq<char>,
    pub enabled: bool,
    pub pipeline: PipelineView,
}

impl View for PipelineEntryV1 {
    type V = PipelineEntryV1View;

    open spec fn view(&self) -> PipelineEntryV1View {
        PipelineEntryV1View {
            id: self.id@,
            name: self.name@,
            enabled: self.enabled,
            pipeline: self.pipeline@,
        }
    }
}

impl DeepView for PipelineEntryV1 {
    type V = PipelineEntryV1View;

    open spec fn deep_view(&self) -> PipelineEntryV1View {
        self@
    }
}

impl Duplicate for PipelineEntryV1 {
    fn dup(&self) -> (r: Self) {
        PipelineEntryV1 {
            id: self.id.clone(),
            name: self.name.clone(),
            enabled: self.enabled,
            pipeline: self.pipeline.dup(),
        }
    }
}

impl Clone for PipelineEntryV1 {
    fn clone(&self) -> (r: Self)
        ensures
            r@ == self@,
    {
        self.dup()
    }
}

/// A pipelines file of the first version.
#[derive(Debug, PartialEq, Eq)]
pub struct PipelinesFileV1 {
    pub schema_version: String,
    pub pipelines: StrMap<PipelineEntryV1>,
}

/// What a [`PipelinesFileV1`] stands for.
#[verifier::ext_equal]
pub struct PipelinesFileV1View {
    pub schema_version: Seq<char>,
    pub pipelines: Seq<(Seq<char>, PipelineEntryV1View)>,
}

impl View for PipelinesFileV1 {
    type V = PipelinesFileV1View;

    open spec fn view(&self) -> PipelinesFileV1View {
        PipelinesFileV1View {
            schema_version: self.schema_version@,
            pipelines: self.pipelines.deep_view(),
        }
    }
}

impl DeepView for PipelinesFileV1 {
    type V = PipelinesFileV1View;

    open spec fn deep_view(&self) -> PipelinesFileV1View {
        self@
    }
}

impl Duplicate for PipelinesFileV1 {
    fn dup(&self) -> (r: Self) {
        PipelinesFileV1 {
            schema_version: self.schema_version.clone(),
            pipelines: self.pipelines.dup(),
        }
    }
}

impl Clone for PipelinesFileV1 {
    fn clone(&self) -> (r: Self)
        ensures
            r@ == self@,
    {
        self.dup()
    }
}

/// A pipelines file of either version.
#[derive(Debug, PartialEq, Eq)]
pub enum PipelinesFile {
    V1(PipelinesFileV1),
    V2(PipelinesFileV2),
}

/// What a [`PipelinesFile`] stands for.
#[verifier::ext_equal]
pub enum PipelinesFileView {
    V1(PipelinesFileV1View),
    V2(PipelinesFileV2View),
}

impl View for PipelinesFile {
    type V = PipelinesFileView;

    open spec fn view(&self) -> PipelinesFileView {
        match self {
            PipelinesFile::V1(a) => PipelinesFileView::V1(a@),
            PipelinesFile::V2(a) => PipelinesFileView::V2(a@),
        }
    }
}

impl DeepView for PipelinesFile {
    type V = PipelinesFileView;

    open spec fn deep_view(&self) -> PipelinesFileView {
        self@
    }
}

impl Duplicate for PipelinesFile {
    fn dup(&self) -> (r: Self) {
        match self {
            PipelinesFile::V1(a) => PipelinesFile::V1(a.dup()),
            PipelinesFile::V2(a) => PipelinesFile::V2(a.dup()),
        }
    }
}

impl Clone for PipelinesFile {
    fn clone(&self) -> (r: Self)
        ensures
            r@ == self@,
    {
        self.dup()
    }
}

/// A pipeline in effect, and the layer it comes from.
#[derive(Debug, PartialEq, Eq)]
pub struct PipelineResolvedEntryV1 {
    pub id: String,
    pub name: String,
    pub enabled: bool,
    pub profile_refs: ProfileRefs,
    pub source: LayerScope,
    pub pipeline: Pipeline,
}

/// What a [`PipelineResolvedEntryV1`] stands for.
#[verifier::ext_equal]
pub struct PipelineResolvedEntryV1View {
    pub id: Seq<char>,
    pub name: Seq<char>,
    pub enabled: bool,
    pub profile_refs: ProfileRefsView,
    pub source: LayerScope,
    pub pipeline: PipelineView,
}

impl View for PipelineResolvedEntryV1 {
    type V = PipelineResolvedEntryV1View;

    open spec fn view(&self) -> PipelineResolvedEntryV1View {
        PipelineResolvedEntryV1View {
            id: self.id@,
            name: self.name@,
            enabled: self.enabled,
            profile_refs: self.profile_refs@,
            source: self.source,
            pipeline: self.pipeline@,
        }
    }
}

impl DeepView for PipelineResolvedEntryV1 {
    type V = PipelineResolvedEntryV1View;

    open spec fn deep_view(&self) -> PipelineResolvedEntryV1View {
        self@
    }
}

impl Duplicate for PipelineResolvedEntryV1 {
    fn dup(&self) -> (r: Self) {
        PipelineResolvedEntryV1 {
            id: self.id.clone(),
            name: self.name.clone(),
            enabled: self.enabled,
            profile_refs: self.profile_refs.dup(),
            source: self.source,
            pipeline: self.pipeline.dup(),
        }
    }
}

impl Clone for PipelineResolvedEntryV1 {
    fn clone(&self) -> (r: Self)
        ensures
            r@ == self@,
    {
        self.dup()
    }
}

/// A workflow in effect, and the layer it comes from.
#[derive(Debug, PartialEq, Eq)]
pub struct WorkflowResolvedEntryV1 {
    pub id: String,
    pub name: String,
    pub enabled: bool,
    pub profile_refs: ProfileRefs,
    pub source: LayerScope,
    pub workflow: WorkflowGraphV1,
}

/// What a [`WorkflowResolvedEntryV1`] stands for.
#[verifier::ext_equal]
pub struct WorkflowResolvedEntryV1View {
    pub id: Seq<char>,
    pub name: Seq<char>,
    pub enabled: bool,
    pub profile_refs: ProfileRefsView,
    pub source: LayerScope,
    pub workflow: WorkflowGraphV1View,
}

impl View for WorkflowResolvedEntryV1 {
    type V = WorkflowResolvedEntryV1View;

    open spec fn view(&self) -> WorkflowResolvedEntryV1View {
        WorkflowResolvedEntryV1View {
            id: self.id@,
            name: self.name@,
            enabled: self.enabled,
            profile_refs: self.profile_refs@,
            source: self.source,
            workflow: self.workflow@,
        }
    }
}

impl DeepView for WorkflowResolvedEntryV1 {
    type V = WorkflowResolvedEntryV1View;

    open spec fn deep_view(&self) -> WorkflowResolvedEntryV1View {
        self@
    }
}

impl Duplicate for WorkflowResolvedEntryV1 {
    fn dup(&self) -> (r: Self) {
        WorkflowResolvedEntryV1 {
            id: self.id.clone(),
            name: self.name.clone(),
            enabled: self.enabled,
            profile_refs: self.profile_refs.dup(),
            source: self.source,
            workflow: self.workflow.dup(),
        }
    }
}

impl Clone for WorkflowResolvedEntryV1 {
    fn clone(&self) -> (r: Self)
        ensures
            r@ == self@,
    {
        self.dup()
    }
}

/// The workflows in effect.
#[derive(Debug, PartialEq, Eq)]
pub struct MergedWorkflows {
    pub entries: StrMap<WorkflowResolvedEntryV1>,
    pub components: StrMap<WorkflowComponentV1>,
    pub warnings: Vec<String>,
}

/// What a [`MergedWorkflows`] stands for.
#[verifier::ext_equal]
pub struct MergedWorkflowsView {
    pub entries: Seq<(Seq<char>, WorkflowResolvedEntryV1View)>,
    pub components: Seq<(Seq<char>, WorkflowComponentV1View)>,
    pub warnings: Seq<Seq<char>>,
}

impl View for MergedWorkflows {
    type V = MergedWorkflowsView;

    open spec fn view(&self) -> MergedWorkflowsView {
        MergedWorkflowsView {
            entries: self.entries.deep_view(),
            components: self.components.deep_view(),
            warnings: self.warnings.deep_view(),
        }
    }
}

impl DeepView for MergedWorkflows {
    type V = MergedWorkflowsView;

    open spec fn deep_view(&self) -> MergedWorkflowsView {
        self@
    }
}

impl Duplicate for MergedWorkflows {
    fn dup(&self) -> (r: Self) {
        MergedWorkflows {
            entries: self.entries.dup(),
            components: self.components.dup(),
            warnings: self.warnings.dup(),
        }
    }
}

impl Clone for MergedWorkflows {
    fn clone(&self) -> (r: Self)
        ensures
            r@ == self@,
    {
        self.dup()
    }
}

/// The pipelines in effect.
#[derive(Debug, PartialEq, Eq)]
pub struct MergedPipelines {
    pub entries: StrMap<PipelineResolvedEntryV1>,
    pub warnings: Vec<String>,
}

/// What a [`MergedPipelines`] stands for.
#[verifier::ext_equal]
pub struct MergedPipelinesView {
    pub entries: Seq<(Seq<char>, PipelineResolvedEntryV1View)>,
    pub warnings: Seq<Seq<char>>,
}

impl View for MergedPipelines {
    type V = MergedPipelinesView;

    open spec fn view(&self) -> MergedPipelinesView {
        MergedPipelinesView {
            entries: self.entries.deep_view(),
            warnings: self.warnings.deep_view(),
        }
    }
}

impl DeepView for MergedPipelines {
    type V = MergedPipelinesView;

    open spec fn deep_view(&self) -> MergedPipelinesView {
        self@
    }
}

impl Duplicate for MergedPipelines {
    fn dup(&self) -> (r: Self) {
        MergedPipelines {
            entries: self.entries.dup(),
            warnings: self.warnings.dup(),
        }
    }
}

impl Clone for MergedPipelines {
    fn clone(&self) -> (r: Self)
        ensures
            r@ == self@,
    {
        self.dup()
    }
}

/// Attachments that attach nothing.
pub open spec fn no_attachments() -> PipelineProfileAttachmentsV1View {
    PipelineProfileAttachmentsV1View {
        workflows: Seq::empty(),
        parts: Seq::empty(),
        components: Seq::empty(),
    }
}

/// The contents of a file without pipelines.
pub open spec fn no_pipelines() -> PipelinesFileV2View {
    PipelinesFileV2View {
        schema_version: "2"@,
        components: Seq::empty(),
        pipelines: Seq::empty(),
        profile_attachments: no_attachments(),
    }
}

/// What a pipelines file that is not there stands for.
pub fn empty_pipelines_file() -> (r: PipelinesFileV2)
    ensures
        r@ == no_pipelines(),
{
    PipelinesFileV2 {
        schema_version: "2".to_owned(),
        components: StrMap::new(),
        pipelines: StrMap::new(),
        profile_attachments: PipelineProfileAttachmentsV1 {
            workflows: StrMap::new(),
            parts: StrMap::new(),
            components: StrMap::new(),
        },
    }
}

/// The version of a pipelines file.
#[derive(Debug, Clone, Copy, PartialEq, Eq, Structural)]
pub enum PipelinesVersion {
    V1,
    V2,
}

/// The version that a pipelines file says it has; one that says nothing is of the first.
pub open spec fn version_of(v: JsonView) -> Result<PipelinesVersion, Seq<char>> {
    let said = match field(v, "schema_version"@) {
        None => "1"@,
        Some(f) => match text_of(f) {
            None => "1"@,
            Some(t) => t,
        },
    };
    if said == "1"@ {
        Ok(PipelinesVersion::V1)
    } else if said == "2"@ {
        Ok(PipelinesVersion::V2)
    } else {
        Err("unknown pipelines.json schema_version: "@ + said + " (expected 1 or 2)"@)
    }
}

pub fn pipelines_version(value: &Json) -> (r: Result<PipelinesVersion, String>)
    ensures
        (match r {
            Ok(v) => Ok(v),
            Err(e) => Err(e@),
        }) == version_of(value@),
{
    let said = match value.get("schema_version") {
        None => "1",
        Some(f) => match f.as_str() {
            None => "1",
            Some(t) => t,
        },
    };
    if str_eq(said, "1") {
        Ok(PipelinesVersion::V1)
    } else if str_eq(said, "2") {
        Ok(PipelinesVersion::V2)
    } else {
        Err(cat3("unknown pipelines.json schema_version: ", said, " (expected 1 or 2)"))
    }
}

/// The version of the pipelines file with a text, or what is wrong with the text.
pub open spec fn version_in(raw: Seq<char>) -> Result<PipelinesVersion, Seq<char>> {
    match parsed(raw) {
        Err(e) => Err(e),
        Ok(v) => version_of(v),
    }
}

/// The version of the pipelines file with a text.
pub fn read_pipelines_version(raw: &str) -> (r: Result<PipelinesVersion, String>)
    ensures
        (match r {
            Ok(v) => Ok(v),
            Err(e) => Err(e@),
        }) == version_in(raw@),
{
    match parse(raw) {
        Err(e) => Err(e),
        Ok(v) => pipelines_version(&v),
    }
}

/// An entry of the first version as one of the second: without profiles.
pub open spec fn upgraded_entry(e: PipelineEntryV1View) -> PipelineEntryV2View {
    PipelineEntryV2View {
        id: e.id,
        name: e.name,
        enabled: e.enabled,
        profile_refs: no_refs(),
        pipeline: e.pipeline,
    }
}

pub open spec fn upgraded_entries(s: Seq<(Seq<char>, PipelineEntryV1View)>) -> Seq<
    (Seq<char>, PipelineEntryV2View),
> {
    s.map_values(|e: (Seq<char>, PipelineEntryV1View)| (e.0, upgraded_entry(e.1)))
}

/// A pipelines file as one of the second version.
pub open spec fn upgraded(f: PipelinesFileView) -> PipelinesFileV2View {
    match f {
        PipelinesFileView::V2(v2) => v2,
        PipelinesFileView::V1(v1) => PipelinesFileV2View {
            pipelines: put_all(Seq::empty(), upgraded_entries(v1.pipelines)),
            ..no_pipelines()
        },
    }
}

impl PipelinesFile {
    pub fn into_v2(self) -> (r: PipelinesFileV2)
        ensures
            r@ == upgraded(self@),
    {
        match self {
            PipelinesFile::V2(v2) => v2,
            PipelinesFile::V1(v1) => {
                let mut out: StrMap<PipelineEntryV2> = StrMap::new();
                let ghost all = upgraded_entries(v1.pipelines@);
                let mut i: usize = 0;
                assert(all.subrange(0, 0) =~= Seq::empty());
                while i < v1.pipelines.len()
                    invariant
                        i <= v1.pipelines@.len(),
                        all == upgraded_entries(v1.pipelines@),
                        out@ == put_all(Seq::empty(), all.subrange(0, i as int)),
                    decreases v1.pipelines@.len() - i,
                {
                    let e = v1.pipelines.value_at(i);
                    let entry = PipelineEntryV2 {
                        id: e.id.clone(),
                        name: e.name.clone(),
                        enabled: e.enabled,
                        profile_refs: ProfileRefs::default(),
                        pipeline: e.pipeline.dup(),
                    };
                    assert(entry@ == upgraded_entry(e@));
                    out.insert(v1.pipelines.key_at(i).clone(), entry);
                    i = i + 1;
                    assert(all.subrange(0, i as int).drop_last() =~= all.subrange(0, i - 1));
                    assert(all.subrange(0, i as int).last() == all[i - 1]);
                }
                assert(all.subrange(0, i as int) =~= all);
                let mut file = empty_pipelines_file();
                file.pipelines = out;
                file
            },
        }
    }
}

/// Whether the global layer is read.
pub open spec fn global_counts(scope: Scope) -> bool {
    scope != Scope::Project
}

pub fn reads_global(scope: Scope) -> (r: bool)
    ensures
        r == global_counts(scope),
{
    match scope {
        Scope::Project => false,
        _ => true,
    }
}

/// Whether there is a project's layer to read, trusted or not.
pub open spec fn project_counts(scope: Scope, root: Option<Seq<char>>) -> bool {
    scope != Scope::Global && root is Some
}

pub fn reads_project(scope: Scope, project_root: &Option<String>) -> (r: bool)
    ensures
        r == project_counts(scope, project_root.deep_view()),
{
    match scope {
        Scope::Global => false,
        _ => project_root.is_some(),
    }
}

/// What is said of a project that is not trusted.
pub open spec fn layer_warnings(
    head: Seq<char>,
    scope: Scope,
    root: Option<Seq<char>>,
    trusted: bool,
) -> Seq<Seq<char>> {
    if project_counts(scope, root) && !trusted {
        seq![head + root->0]
    } else {
        Seq::empty()
    }
}

fn trust_warnings(head: &str, scope: Scope, project_root: &Option<String>, trusted: bool) -> (r:
    Vec<String>)
    ensures
        r.deep_view() == layer_warnings(head@, scope, project_root.deep_view(), trusted),
{
    let mut out: Vec<String> = Vec::new();
    assert(out.deep_view() =~= Seq::empty());
    if reads_project(scope, project_root) && !trusted {
        if let Some(root) = project_root {
            out.push(cat2(head, root.as_str()));
            assert(out.deep_view() =~= seq![head@ + root@]);
        }
    }
    out
}

pub open spec fn pipeline_in(e: PipelineEntryV2View, source: LayerScope) -> PipelineResolvedEntryV1View {
    PipelineResolvedEntryV1View {
        id: e.id,
        name: e.name,
        enabled: e.enabled,
        profile_refs: e.profile_refs,
        source,
        pipeline: e.pipeline,
    }
}

/// The pipelines of one layer.
pub open spec fn pipelines_in(s: Seq<(Seq<char>, PipelineEntryV2View)>, source: LayerScope) -> Seq<
    (Seq<char>, PipelineResolvedEntryV1View),
> {
    s.map_values(|e: (Seq<char>, PipelineEntryV2View)| (e.0, pipeline_in(e.1, source)))
}

fn add_pipelines(
    out: &mut StrMap<PipelineResolvedEntryV1>,
    pipelines: &StrMap<PipelineEntryV2>,
    source: LayerScope,
)
    ensures
        final(out)@ == put_all(old(out)@, pipelines_in(pipelines@, source)),
{
    let ghost all = pipelines_in(pipelines@, source);
    let mut i: usize = 0;
    assert(all.subrange(0, 0) =~= Seq::empty());
    while i < pipelines.len()
        invariant
            i <= pipelines@.len(),
            all == pipelines_in(pipelines@, source),
            out@ == put_all(old(out)@, all.subrange(0, i as int)),
        decreases pipelines@.len() - i,
    {
        let e = pipelines.value_at(i);
        let entry = PipelineResolvedEntryV1 {
            id: e.id.clone(),
            name: e.name.clone(),
            enabled: e.enabled,
            profile_refs: e.profile_refs.dup(),
            source,
            pipeline: e.pipeline.dup(),
        };
        assert(entry@ == pipeline_in(e@, source));
        out.insert(pipelines.key_at(i).clone(), entry);
        i = i + 1;
        assert(all.subrange(0, i as int).drop_last() =~= all.subrange(0, i - 1));
        assert(all.subrange(0, i as int).last() == all[i - 1]);
    }
    assert(all.subrange(0, i as int) =~= all);
}

/// The pipelines in effect: the global layer's, and over them those of the project's
/// layer, where it is trusted.
pub open spec fn pipelines_in_effect(
    scope: Scope,
    root: Option<Seq<char>>,
    trusted: bool,
    global: PipelinesFileV2View,
    project: PipelinesFileV2View,
) -> MergedPipelinesView {
    let base = if global_counts(scope) {
        put_all(Seq::empty(), pipelines_in(global.pipelines, LayerScope::Global))
    } else {
        Seq::empty()
    };
    MergedPipelinesView {
        entries: if project_counts(scope, root) && trusted {
            put_all(base, pipelines_in(project.pipelines, LayerScope::Project))
        } else {
            base
        },
        warnings: layer_warnings(
            "Repo pipelines bundle ignored (repo not trusted): "@,
            scope,
            root,
            trusted,
        ),
    }
}

/// The pipelines in effect. `global` and `project` hold what the layers' files hold.
pub fn merged_pipelines(
    scope: Scope,
    project_root: &Option<String>,
    trusted: bool,
    global: &PipelinesFileV2,
    project: &PipelinesFileV2,
) -> (r: MergedPipelines)
    ensures
        r@ == pipelines_in_effect(scope, project_root.deep_view(), trusted, global@, project@),
{
    let mut entries: StrMap<PipelineResolvedEntryV1> = StrMap::new();
    if reads_global(scope) {
        add_pipelines(&mut entries, &global.pipelines, LayerScope::Global);
    }
    if reads_project(scope, project_root) && trusted {
        add_pipelines(&mut entries, &project.pipelines, LayerScope::Project);
    }
    let warnings = trust_warnings(
        "Repo pipelines bundle ignored (repo not trusted): ",
        scope,
        project_root,
        trusted,
    );
    MergedPipelines { entries, warnings }
}

pub open spec fn workflow_in(e: WorkflowEntryV1View, source: LayerScope) -> WorkflowResolvedEntryV1View {
    WorkflowResolvedEntryV1View {
        id: e.id,
        name: e.name,
        enabled: e.enabled,
        profile_refs: e.profile_refs,
        source,
        workflow: e.workflow,
    }
}

/// The workflows of one layer.
pub open spec fn workflows_in(s: Seq<(Seq<char>, WorkflowEntryV1View)>, source: LayerScope) -> Seq<
    (Seq<char>, WorkflowResolvedEntryV1View),
> {
    s.map_values(|e: (Seq<char>, WorkflowEntryV1View)| (e.0, workflow_in(e.1, source)))
}

fn add_workflows(
    out: &mut StrMap<WorkflowResolvedEntryV1>,
    workflows: &StrMap<WorkflowEntryV1>,
    source: LayerScope,
)
    ensures
        final(out)@ == put_all(old(out)@, workflows_in(workflows@, source)),
{
    let ghost all = workflows_in(workflows@, source);
    let mut i: usize = 0;
    assert(all.subrange(0, 0) =~= Seq::empty());
    while i < workflows.len()
        invariant
            i <= workflows@.len(),
            all == workflows_in(workflows@, source),
            out@ == put_all(old(out)@, all.subrange(0, i as int)),
        decreases workflows@.len() - i,
    {
        let e = workflows.value_at(i);
        let entry = WorkflowResolvedEntryV1 {
            id: e.id.clone(),
            name: e.name.clone(),
            enabled: e.enabled,
            profile_refs: e.profile_refs.dup(),
            source,
            workflow: e.workflow.dup(),
        };
        assert(entry@ == workflow_in(e@, source));
        out.insert(workflows.key_at(i).clone(), entry);
        i = i + 1;
        assert(all.subrange(0, i as int).drop_last() =~= all.subrange(0, i - 1));
        assert(all.subrange(0, i as int).last() == all[i - 1]);
    }
    assert(all.subrange(0, i as int) =~= all);
}

/// The file of a layer, where the layer counts.
pub open spec fn counted(f: WorkflowsFileV1View, counts: bool) -> Option<WorkflowsFileV1View> {
    if counts {
        Some(f)
    } else {
        None
    }
}

/// The workflows in effect: the global layer's, and over them those of the project's
/// layer, where it is trusted. Every layer that counts must be valid.
pub open spec fn workflows_in_effect(
    scope: Scope,
    root: Option<Seq<char>>,
    trusted: bool,
    global: WorkflowsFileV1View,
    project: WorkflowsFileV1View,
) -> Result<MergedWorkflowsView, Seq<char>> {
    let base = if global_counts(scope) {
        put_all(Seq::empty(), workflows_in(global.workflows, LayerScope::Global))
    } else {
        Seq::empty()
    };
    let over = project_counts(scope, root) && trusted;
    match effective_workflows(counted(global, global_counts(scope)), counted(project, over)) {
        Err(p) => Err("invalid effective workflows file: "@ + p),
        Ok(merged) => Ok(
            MergedWorkflowsView {
                entries: if over {
                    put_all(base, workflows_in(project.workflows, LayerScope::Project))
                } else {
                    base
                },
                components: merged.components,
                warnings: layer_warnings(
                    "Repo workflows bundle ignored (repo not trusted): "@,
                    scope,
                    root,
                    trusted,
                ),
            },
        ),
    }
}

/// The workflows in effect. `global` and `project` hold what the layers' files hold.
pub fn merged_workflows(
    scope: Scope,
    project_root: &Option<String>,
    trusted: bool,
    global: WorkflowsFileV1,
    project: WorkflowsFileV1,
) -> (r: Result<MergedWorkflows, String>)
    ensures
        outcome(r) == workflows_in_effect(
            scope,
            project_root.deep_view(),
            trusted,
            global@,
            project@,
        ),
{
    let mut entries: StrMap<WorkflowResolvedEntryV1> = StrMap::new();
    let mut global_file: Option<WorkflowsFileV1> = None;
    let mut project_file: Option<WorkflowsFileV1> = None;
    if reads_global(scope) {
        add_workflows(&mut entries, &global.workflows, LayerScope::Global);
        global_file = Some(global);
    }
    if reads_project(scope, project_root) && trusted {
        add_workflows(&mut entries, &project.workflows, LayerScope::Project);
        project_file = Some(project);
    }
    let warnings = trust_warnings(
        "Repo workflows bundle ignored (repo not trusted): ",
        scope,
        project_root,
        trusted,
    );
    match WorkflowsFileV1::merge_effective(global_file, project_file) {
        Err(p) => Err(cat2("invalid effective workflows file: ", p.as_str())),
        Ok(merged) => Ok(MergedWorkflows { entries, components: merged.components, warnings }),
    }
}

/// The components that pipelines can use: the global ones, and over them those of a
/// trusted project.
pub open spec fn components_in_effect(
    root: Option<Seq<char>>,
    trusted: bool,
    global: PipelinesFileV2View,
    project: PipelinesFileV2View,
) -> Seq<(Seq<char>, ComponentV2View)> {
    if root is Some && trusted {
        put_all(global.components, project.components)
    } else {
        global.components
    }
}

pub fn effective_pipeline_components(
    project_root: &Option<String>,
    trusted: bool,
    global: &PipelinesFileV2,
    project: &PipelinesFileV2,
) -> (r: StrMap<ComponentV2>)
    ensures
        r@ == components_in_effect(project_root.deep_view(), trusted, global@, project@),
{
    let mut components = global.components.dup();
    if project_root.is_some() && trusted {
        components.extend_from(&project.components);
    }
    components
}

/// A pipeline in effect as it is run, with its components put in: those of the layers
/// that its own layer can see.
pub open spec fn shown(
    e: PipelineResolvedEntryV1View,
    root: Option<Seq<char>>,
    trusted: bool,
    global: PipelinesFileV2View,
    project: PipelinesFileV2View,
    limits: ExpandLimits,
) -> Result<PipelineView, Seq<char>> {
    if e.source == LayerScope::Project && root is None {
        Err("project pipeline selected but no project root detected; pass --project-root"@)
    } else {
        let components = if e.source == LayerScope::Project {
            components_in_effect(root, trusted, global, project)
        } else {
            global.components
        };
        match expanded_pipeline(e.pipeline, components, limits) {
            Ok(p) => Ok(p),
            Err(err) => Err(pipeline_error_text(err)),
        }
    }
}

pub fn show_expanded(
    entry: &PipelineResolvedEntryV1,
    project_root: &Option<String>,
    trusted: bool,
    global: &PipelinesFileV2,
    project: &PipelinesFileV2,
    limits: ExpandLimits,
) -> (r: Result<Pipeline, String>)
    ensures
        outcome(r) == shown(
            entry@,
            project_root.deep_view(),
            trusted,
            global@,
            project@,
            limits,
        ),
{
    let components = match entry.source {
        LayerScope::Global => global.components.dup(),
        LayerScope::Project => {
            if project_root.is_none() {
                return Err(
                    "project pipeline selected but no project root detected; pass --project-root".to_owned(),
                );
            }
            effective_pipeline_components(project_root, trusted, global, project)
        },
    };
    match expand_pipeline(&entry.pipeline, &components, limits) {
        Ok(p) => Ok(p),
        Err(e) => Err(e.message()),
    }
}

/// The layers that a step's pipeline is looked for in.
pub open spec fn named_scope(raw: Option<Seq<char>>) -> Scope {
    if raw == Some("global"@) {
        Scope::Global
    } else if raw == Some("project"@) {
        Scope::Project
    } else {
        Scope::Both
    }
}

pub fn pipeline_scope_to_scope(raw: &Option<String>) -> (r: Scope)
    ensures
        r == named_scope(raw.deep_view()),
{
    match raw {
        None => Scope::Both,
        Some(s) => {
            if str_eq(s.as_str(), "global") {
                Scope::Global
            } else if str_eq(s.as_str(), "project") {
                Scope::Project
            } else {
                Scope::Both
            }
        },
    }
}

/// A trusted project's pipeline takes the place of a global one with the same name, every
/// other global one stays, and of each it is known which layer it comes from.
pub proof fn project_pipelines_override_global(
    root: Seq<char>,
    global: PipelinesFileV2View,
    project: PipelinesFileV2View,
    id: Seq<char>,
)
    requires
        sorted(global.pipelines),
        sorted(project.pipelines),
    ensures
        lookup(pipelines_in_effect(Scope::Both, Some(root), true, global, project).entries, id)
            == match lookup(project.pipelines, id) {
            Some(e) => Some(pipeline_in(e, LayerScope::Project)),
            None => match lookup(global.pipelines, id) {
                Some(e) => Some(pipeline_in(e, LayerScope::Global)),
                None => None,
            },
        },
{
    let none = Seq::<(Seq<char>, PipelineResolvedEntryV1View)>::empty();
    let g = pipelines_in(global.pipelines, LayerScope::Global);
    let p = pipelines_in(project.pipelines, LayerScope::Project);
    let fg = |e: PipelineEntryV2View| pipeline_in(e, LayerScope::Global);
    let fp = |e: PipelineEntryV2View| pipeline_in(e, LayerScope::Project);
    assert(g =~= global.pipelines.map_values(|e: (Seq<char>, PipelineEntryV2View)| (e.0, fg(e.1))));
    assert(p =~= project.pipelines.map_values(|e: (Seq<char>, PipelineEntryV2View)| (e.0, fp(e.1))));
    lookup_mapped(global.pipelines, g, fg, id);
    lookup_mapped(project.pipelines, p, fp, id);
    put_all_sorted(none, g);
    lookup_put_all(none, g, id);
    lookup_put_all(put_all(none, g), p, id);
}

/// A trusted project's workflow takes the place of a global one with the same name, every
/// other global one stays, and of each it is known which layer it comes from.
pub proof fn project_workflows_override_global(
    root: Seq<char>,
    global: WorkflowsFileV1View,
    project: WorkflowsFileV1View,
    id: Seq<char>,
)
    requires
        sorted(global.workflows),
        sorted(project.workflows),
    ensures
        workflows_in_effect(Scope::Both, Some(root), true, global, project) matches Ok(m)
            ==> lookup(m.entries, id) == match lookup(project.workflows, id) {
            Some(e) => Some(workflow_in(e, LayerScope::Project)),
            None => match lookup(global.workflows, id) {
                Some(e) => Some(workflow_in(e, LayerScope::Global)),
                None => None,
            },
        },
{
    let none = Seq::<(Seq<char>, WorkflowResolvedEntryV1View)>::empty();
    let g = workflows_in(global.workflows, LayerScope::Global);
    let p = workflows_in(project.workflows, LayerScope::Project);
    let fg = |e: WorkflowEntryV1View| workflow_in(e, LayerScope::Global);
    let fp = |e: WorkflowEntryV1View| workflow_in(e, LayerScope::Project);
    assert(g =~= global.workflows.map_values(|e: (Seq<char>, WorkflowEntryV1View)| (e.0, fg(e.1))));
    assert(p =~= project.workflows.map_values(|e: (Seq<char>, WorkflowEntryV1View)| (e.0, fp(e.1))));
    lookup_mapped(global.workflows, g, fg, id);
    lookup_mapped(project.workflows, p, fp, id);
    put_all_sorted(none, g);
    lookup_put_all(none, g, id);
    lookup_put_all(put_all(none, g), p, id);
}

/// Whatever the files of a project that is not trusted hold, nothing of them is in
/// effect.
pub proof fn untrusted_projects_are_ignored(
    scope: Scope,
    root: Option<Seq<char>>,
    global: PipelinesFileV2View,
    project: PipelinesFileV2View,
    global_workflows: WorkflowsFileV1View,
    project_workflows: WorkflowsFileV1View,
)
    ensures
        pipelines_in_effect(scope, root, false, global, project) == pipelines_in_effect(
            scope,
            root,
            false,
            global,
            no_pipelines(),
        ),
        components_in_effect(root, false, global, project) == global.components,
        workflows_in_effect(scope, root, false, global_workflows, project_workflows)
            == workflows_in_effect(
            scope,
            root,
            false,
            global_workflows,
            crate::types::workflows::no_workflows(),
        ),
{
}

/// Whether a workflows file that profiles were attached to, or detached from, is still
/// valid.
pub fn check_changed_workflows(file: &WorkflowsFileV1, detach: bool) -> (r: Result<(), String>)
    ensures
        outcome(r) == match file_problem(file@) {
            None => Ok(()),
            Some(p) => Err(
                (if detach {
                    "invalid workflows file after detach: "@
                } else {
                    "invalid workflows file after attachment: "@
                }) + p,
            ),
        },
{
    match file.validate() {
        Ok(_) => Ok(()),
        Err(p) => {
            let head = if detach {
                "invalid workflows file after detach: "
            } else {
                "invalid workflows file after attachment: "
            };
            Err(cat2(head, p.as_str()))
        },
    }
}

} // verus!
