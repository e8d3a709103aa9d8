//! Profiles attached to pipelines and workflows.

use vstd::prelude::*;
use crate::pipelines::model::{
    ComponentV2, ComponentV2View, PipelineEntryV2, PipelineEntryV2View,
    PipelineProfileAttachmentsV1, PipelineProfileAttachmentsV1View,
};
use crate::strmap::{lookup, put, StrMap};
use crate::text::{
    blank, cat2, cat3, cat5, chars_of, decimal, decimal_string, find_char, has_prefix, is_blank,
    list_contains, next_char, rest, slice_string, str_eq, strip_prefix, Duplicate, Same,
};
use crate::number::{number, number_error_message, number_error_text, parse_number};
use crate::types::profile::{no_refs, ProfileRefs, ProfileRefsView};
use crate::types::workflows::{
    WorkflowComponentV1View, WorkflowEntryV1View, WorkflowProfileAttachmentsV1View,
    WorkflowsFileV1, WorkflowsFileV1View,
};

verus! {

/// What kind of profile is meant.
#[derive(Debug, Clone, Copy, PartialEq, Eq, Structural)]
pub enum ProfileKind {
    Policy,
    Guideline,
}

impl View for ProfileKind {
    type V = ProfileKind;

    open spec fn view(&self) -> ProfileKind {
        *self
    }
}

impl DeepView for ProfileKind {
    type V = ProfileKind;

    open spec fn deep_view(&self) -> ProfileKind {
        *self
    }
}

impl Duplicate for ProfileKind {
    fn dup(&self) -> (r: Self) {
        *self
    }
}

impl Same for ProfileKind {
    fn same(&self, other: &Self) -> (b: bool) {
        *self == *other
    }
}

/// Whether a profile joins those attached or takes their place.
#[derive(Debug, Clone, Copy, PartialEq, Eq, Structural)]
pub enum ProfileMode {
    Merge,
    Replace,
}

impl View for ProfileMode {
    type V = ProfileMode;

    open spec fn view(&self) -> ProfileMode {
        *self
    }
}

impl DeepView for ProfileMode {
    type V = ProfileMode;

    open spec fn deep_view(&self) -> ProfileMode {
        *self
    }
}

impl Duplicate for ProfileMode {
    fn dup(&self) -> (r: Self) {
        *self
    }
}

impl Same for ProfileMode {
    fn same(&self, other: &Self) -> (b: bool) {
        *self == *other
    }
}

/// What a profile is attached to.
#[derive(Debug, PartialEq, Eq)]
pub enum ProfileSubject {
    Template {
        template_id: String,
    },
    Pipeline {
        pipeline_id: String,
    },
    PipelineWorkflow {
        pipeline_id: String,
        workflow_id: String,
    },
    PipelinePart {
        pipeline_id: String,
        workflow_id: String,
        part_index: usize,
    },
    PipelineComponent {
        component_id: String,
    },
    Workflow {
        workflow_id: String,
    },
    WorkflowStep {
        workflow_id: String,
        step_id: String,
    },
    WorkflowComponent {
        component_id: String,
    },
}

/// What a [`ProfileSubject`] stands for.
#[verifier::ext_equal]
pub enum ProfileSubjectView {
    Template {
        template_id: Seq<char>,
    },
    Pipeline {
        pipeline_id: Seq<char>,
    },
    PipelineWorkflow {
        pipeline_id: Seq<char>,
        workflow_id: Seq<char>,
    },
    PipelinePart {
        pipeline_id: Seq<char>,
        workflow_id: Seq<char>,
        part_index: usize,
    },
    PipelineComponent {
        component_id: Seq<char>,
    },
    Workflow {
        workflow_id: Seq<char>,
    },
    WorkflowStep {
        workflow_id: Seq<char>,
        step_id: Seq<char>,
    },
    WorkflowComponent {
        component_id: Seq<char>,
    },
}

impl View for ProfileSubject {
    type V = ProfileSubjectView;

    open spec fn view(&self) -> ProfileSubjectView {
        match self {
            ProfileSubject::Template { template_id } => ProfileSubjectView::Template {
                template_id: template_id@,
            },
            ProfileSubject::Pipeline { pipeline_id } => ProfileSubjectView::Pipeline {
                pipeline_id: pipeline_id@,
            },
            ProfileSubject::PipelineWorkflow { pipeline_id, workflow_id } => ProfileSubjectView::PipelineWorkflow {
                pipeline_id: pipeline_id@,
                workflow_id: workflow_id@,
            },
            ProfileSubject::PipelinePart { pipeline_id, workflow_id, part_index } => ProfileSubjectView::PipelinePart {
                pipeline_id: pipeline_id@,
                workflow_id: workflow_id@,
                part_index: *part_index,
            },
            ProfileSubject::PipelineComponent { component_id } => ProfileSubjectView::PipelineComponent {
                component_id: component_id@,
            },
            ProfileSubject::Workflow { workflow_id } => ProfileSubjectView::Workflow {
                workflow_id: workflow_id@,
            },
            ProfileSubject::WorkflowStep { workflow_id, step_id } => ProfileSubjectView::WorkflowStep {
                workflow_id: workflow_id@,
                step_id: step_id@,
            },
            ProfileSubject::WorkflowComponent { component_id } => ProfileSubjectView::WorkflowComponent {
                component_id: component_id@,
            },
        }
    }
}

impl DeepView for ProfileSubject {
    type V = ProfileSubjectView;

    open spec fn deep_view(&self) -> ProfileSubjectView {
        self@
    }
}

impl Duplicate for ProfileSubject {
    fn dup(&self) -> (r: Self) {
        match self {
            ProfileSubject::Template { template_id } => ProfileSubject::Template {
                template_id: template_id.clone(),
            },
            ProfileSubject::Pipeline { pipeline_id } => ProfileSubject::Pipeline {
                pipeline_id: pipeline_id.clone(),
            },
            ProfileSubject::PipelineWorkflow { pipeline_id, workflow_id } => ProfileSubject::PipelineWorkflow {
                pipeline_id: pipeline_id.clone(),
                workflow_id: workflow_id.clone(),
            },
            ProfileSubject::PipelinePart { pipeline_id, workflow_id, part_index } => ProfileSubject::PipelinePart {
                pipeline_id: pipeline_id.clone(),
                workflow_id: workflow_id.clone(),
                part_index: *part_index,
            },
            ProfileSubject::PipelineComponent { component_id } => ProfileSubject::PipelineComponent {
                component_id: component_id.clone(),
            },
            ProfileSubject::Workflow { workflow_id } => ProfileSubject::Workflow {
                workflow_id: workflow_id.clone(),
            },
            ProfileSubject::WorkflowStep { workflow_id, step_id } => ProfileSubject::WorkflowStep {
                workflow_id: workflow_id.clone(),
                step_id: step_id.clone(),
            },
            ProfileSubject::WorkflowComponent { component_id } => ProfileSubject::WorkflowComponent {
                component_id: component_id.clone(),
            },
        }
    }
}

impl Clone for ProfileSubject {
    fn clone(&self) -> (r: Self)
        ensures
            r@ == self@,
    {
        self.dup()
    }
}

/// The contents of a pipelines file.
#[derive(Debug, PartialEq, Eq)]
pub struct PipelinesFileV2 {
    pub schema_version: String,
    pub components: StrMap<ComponentV2>,
    pub pipelines: StrMap<PipelineEntryV2>,
    pub profile_attachments: PipelineProfileAttachmentsV1,
}

/// What a [`PipelinesFileV2`] stands for.
#[verifier::ext_equal]
pub struct PipelinesFileV2View {
    pub schema_version: Seq<char>,
    pub components: Seq<(Seq<char>, ComponentV2View)>,
    pub pipelines: Seq<(Seq<char>, PipelineEntryV2View)>,
    pub profile_attachments: PipelineProfileAttachmentsV1View,
}

impl View for PipelinesFileV2 {
    type V = PipelinesFileV2View;

    open spec fn view(&self) -> PipelinesFileV2View {
        PipelinesFileV2View {
            schema_version: self.schema_version@,
            components: self.components.deep_view(),
            pipelines: self.pipelines.deep_view(),
            profile_attachments: self.profile_attachments@,
        }
    }
}

impl DeepView for PipelinesFileV2 {
    type V = PipelinesFileV2View;

    open spec fn deep_view(&self) -> PipelinesFileV2View {
        self@
    }
}

impl Duplicate for PipelinesFileV2 {
    fn dup(&self) -> (r: Self) {
        PipelinesFileV2 {
            schema_version: self.schema_version.clone(),
            components: self.components.dup(),
            pipelines: self.pipelines.dup(),
            profile_attachments: self.profile_attachments.dup(),
        }
    }
}

impl Clone for PipelinesFileV2 {
    fn clone(&self) -> (r: Self)
        ensures
            r@ == self@,
    {
        self.dup()
    }
}

/// The names with `id` attached: joined to them, once, or in their place.
pub open spec fn attached(names: Seq<Seq<char>>, id: Seq<char>, mode: ProfileMode) -> Seq<Seq<char>> {
    match mode {
        ProfileMode::Merge => if names.contains(id) {
            names
        } else {
            names.push(id)
        },
        ProfileMode::Replace => seq![id],
    }
}

/// The names from position `i` on without `id`, behind `acc`.
pub open spec fn without(names: Seq<Seq<char>>, i: int, acc: Seq<Seq<char>>, id: Seq<char>) -> Seq<
    Seq<char>,
>
    decreases names.len() - i,
{
    if i < 0 || i >= names.len() {
        acc
    } else if names[i] == id {
        without(names, i + 1, acc, id)
    } else {
        without(names, i + 1, acc.push(names[i]), id)
    }
}

/// The names with `id` detached.
pub open spec fn detached(names: Seq<Seq<char>>, id: Seq<char>) -> Seq<Seq<char>> {
    without(names, 0, Seq::empty(), id)
}

/// The names after a change.
pub open spec fn changed_names(
    names: Seq<Seq<char>>,
    id: Seq<char>,
    mode: ProfileMode,
    detach: bool,
) -> Seq<Seq<char>> {
    if detach {
        detached(names, id)
    } else {
        attached(names, id, mode)
    }
}

/// References after a change.
pub open spec fn changed_refs(
    refs: ProfileRefsView,
    kind: ProfileKind,
    id: Seq<char>,
    mode: ProfileMode,
    detach: bool,
) -> ProfileRefsView {
    match kind {
        ProfileKind::Policy => ProfileRefsView {
            policy_profiles: changed_names(refs.policy_profiles, id, mode, detach),
            ..refs
        },
        ProfileKind::Guideline => ProfileRefsView {
            guideline_profiles: changed_names(refs.guideline_profiles, id, mode, detach),
            ..refs
        },
    }
}

fn attach_name(names: &mut Vec<String>, id: &str, mode: ProfileMode)
    ensures
        final(names).deep_view() == attached(old(names).deep_view(), id@, mode),
{
    match mode {
        ProfileMode::Merge => {
            if !list_contains(names, id) {
                let ghost before = names.deep_view();
                names.push(id.to_owned());
                assert(names.deep_view() =~= before.push(id@));
            }
        },
        ProfileMode::Replace => {
            names.clear();
            names.push(id.to_owned());
            assert(names.deep_view() =~= seq![id@]);
        },
    }
}

fn detach_name(names: &mut Vec<String>, id: &str)
    ensures
        final(names).deep_view() == detached(old(names).deep_view(), id@),
{
    let ghost all = names.deep_view();
    let mut out: Vec<String> = Vec::new();
    let mut i: usize = 0;
    assert(out.deep_view() =~= Seq::empty());
    while i < names.len()
        invariant
            i <= names.len(),
            all == names.deep_view(),
            detached(all, id@) == without(all, i as int, out.deep_view(), id@),
        decreases names.len() - i,
    {
        assert(all[i as int] == names[i as int]@);
        if !str_eq(names[i].as_str(), id) {
            let ghost before = out.deep_view();
            out.push(names[i].clone());
            assert(out.deep_view() =~= before.push(all[i as int]));
        }
        i = i + 1;
    }
    *names = out;
}

/// Attaches a profile.
pub fn apply_profile_ref_attach(
    refs: &mut ProfileRefs,
    kind: ProfileKind,
    profile_id: &str,
    mode: ProfileMode,
)
    ensures
        final(refs)@ == changed_refs(old(refs)@, kind, profile_id@, mode, false),
{
    match kind {
        ProfileKind::Policy => attach_name(&mut refs.policy_profiles, profile_id, mode),
        ProfileKind::Guideline => attach_name(&mut refs.guideline_profiles, profile_id, mode),
    }
}

/// Detaches a profile.
pub fn apply_profile_ref_detach(refs: &mut ProfileRefs, kind: ProfileKind, profile_id: &str)
    ensures
        forall|mode: ProfileMode|
            final(refs)@ == #[trigger] changed_refs(old(refs)@, kind, profile_id@, mode, true),
{
    match kind {
        ProfileKind::Policy => detach_name(&mut refs.policy_profiles, profile_id),
        ProfileKind::Guideline => detach_name(&mut refs.guideline_profiles, profile_id),
    }
}

fn change_refs(
    refs: &mut ProfileRefs,
    kind: ProfileKind,
    profile_id: &str,
    mode: ProfileMode,
    detach: bool,
)
    ensures
        final(refs)@ == changed_refs(old(refs)@, kind, profile_id@, mode, detach),
{
    if detach {
        apply_profile_ref_detach(refs, kind, profile_id);
        assert(refs@ == changed_refs(old(refs)@, kind, profile_id@, mode, true));
    } else {
        apply_profile_ref_attach(refs, kind, profile_id, mode);
    }
}

/// The references stored under a key, none where there are none, after a change.
pub open spec fn changed_entry(
    m: Seq<(Seq<char>, ProfileRefsView)>,
    key: Seq<char>,
    kind: ProfileKind,
    id: Seq<char>,
    mode: ProfileMode,
    detach: bool,
) -> Seq<(Seq<char>, ProfileRefsView)> {
    let refs = match lookup(m, key) {
        Some(r) => r,
        None => no_refs(),
    };
    put(m, key, changed_refs(refs, kind, id, mode, detach))
}

fn change_entry(
    m: &mut StrMap<ProfileRefs>,
    key: String,
    kind: ProfileKind,
    profile_id: &str,
    mode: ProfileMode,
    detach: bool,
)
    ensures
        final(m)@ == changed_entry(old(m)@, key@, kind, profile_id@, mode, detach),
{
    let mut refs = match m.get(key.as_str()) {
        Some(r) => r.dup(),
        None => ProfileRefs::default(),
    };
    change_refs(&mut refs, kind, profile_id, mode, detach);
    m.insert(key, refs);
}

/// A pipelines file after a change of what is attached to a subject.
pub open spec fn changed_pipelines(
    f: PipelinesFileV2View,
    subject: ProfileSubjectView,
    kind: ProfileKind,
    id: Seq<char>,
    mode: ProfileMode,
    detach: bool,
) -> Result<PipelinesFileV2View, Seq<char>> {
    match subject {
        ProfileSubjectView::Pipeline { pipeline_id } => match lookup(f.pipelines, pipeline_id) {
            None => Err("pipeline not found: "@ + pipeline_id),
            Some(e) => Ok(
                PipelinesFileV2View {
                    pipelines: put(
                        f.pipelines,
                        pipeline_id,
                        PipelineEntryV2View {
                            profile_refs: changed_refs(e.profile_refs, kind, id, mode, detach),
                            ..e
                        },
                    ),
                    ..f
                },
            ),
        },
        ProfileSubjectView::PipelineWorkflow { pipeline_id, workflow_id } => Ok(
            PipelinesFileV2View {
                profile_attachments: PipelineProfileAttachmentsV1View {
                    workflows: changed_entry(
                        f.profile_attachments.workflows,
                        pipeline_id + "."@ + workflow_id,
                        kind,
                        id,
                        mode,
                        detach,
                    ),
                    ..f.profile_attachments
                },
                ..f
            },
        ),
        ProfileSubjectView::PipelinePart { pipeline_id, workflow_id, part_index } => Ok(
            PipelinesFileV2View {
                profile_attachments: PipelineProfileAttachmentsV1View {
                    parts: changed_entry(
                        f.profile_attachments.parts,
                        pipeline_id + "."@ + workflow_id + "."@ + decimal(part_index as nat),
                        kind,
                        id,
                        mode,
                        detach,
                    ),
                    ..f.profile_attachments
                },
                ..f
            },
        ),
        ProfileSubjectView::PipelineComponent { component_id } => match lookup(
            f.components,
            component_id,
        ) {
            Some(c) => Ok(
                PipelinesFileV2View {
                    components: put(
                        f.components,
                        component_id,
                        ComponentV2View {
                            profile_refs: changed_refs(c.profile_refs, kind, id, mode, detach),
                            ..c
                        },
                    ),
                    ..f
                },
            ),
            None => Ok(
                PipelinesFileV2View {
                    profile_attachments: PipelineProfileAttachmentsV1View {
                        components: changed_entry(
                            f.profile_attachments.components,
                            component_id,
                            kind,
                            id,
                            mode,
                            detach,
                        ),
                        ..f.profile_attachments
                    },
                    ..f
                },
            ),
        },
        _ => Err("subject is not a pipeline subject"@),
    }
}

/// Changes what is attached to a subject in a pipelines file.
pub fn mutate_pipelines_attachment(
    file: &mut PipelinesFileV2,
    subject: &ProfileSubject,
    kind: ProfileKind,
    profile_id: &str,
    mode: ProfileMode,
    detach: bool,
) -> (r: Result<(), String>)
    ensures
        match changed_pipelines(old(file)@, subject@, kind, profile_id@, mode, detach) {
            Ok(f) => r is Ok && final(file)@ == f,
            Err(e) => r is Err && r->Err_0@ == e && final(file)@ == old(file)@,
        },
{
    match subject {
        ProfileSubject::Pipeline { pipeline_id } => {
            let mut entry = match file.pipelines.get(pipeline_id.as_str()) {
                None => {
                    return Err(cat2("pipeline not found: ", pipeline_id.as_str()));
                },
                Some(e) => e.dup(),
            };
            change_refs(&mut entry.profile_refs, kind, profile_id, mode, detach);
            file.pipelines.insert(pipeline_id.clone(), entry);
        },
        ProfileSubject::PipelineWorkflow { pipeline_id, workflow_id } => {
            let key = cat3(pipeline_id.as_str(), ".", workflow_id.as_str());
            change_entry(
                &mut file.profile_attachments.workflows,
                key,
                kind,
                profile_id,
                mode,
                detach,
            );
        },
        ProfileSubject::PipelinePart { pipeline_id, workflow_id, part_index } => {
            let n = decimal_string(*part_index as u64);
            let key = cat5(pipeline_id.as_str(), ".", workflow_id.as_str(), ".", n.as_str());
            change_entry(
                &mut file.profile_attachments.parts,
                key,
                kind,
                profile_id,
                mode,
                detach,
            );
        },
        ProfileSubject::PipelineComponent { component_id } => {
            match file.components.get(component_id.as_str()) {
                Some(c) => {
                    let mut component = c.dup();
                    change_refs(&mut component.profile_refs, kind, profile_id, mode, detach);
                    file.components.insert(component_id.clone(), component);
                },
                None => {
                    change_entry(
                        &mut file.profile_attachments.components,
                        component_id.clone(),
                        kind,
                        profile_id,
                        mode,
                        detach,
                    );
                },
            }
        },
        _ => {
            return Err("subject is not a pipeline subject".to_owned());
        },
    }
    Ok(())
}

/// A workflows file after a change of what is attached to a subject.
pub open spec fn changed_workflows(
    f: WorkflowsFileV1View,
    subject: ProfileSubjectView,
    kind: ProfileKind,
    id: Seq<char>,
    mode: ProfileMode,
    detach: bool,
) -> Result<WorkflowsFileV1View, Seq<char>> {
    match subject {
        ProfileSubjectView::Workflow { workflow_id } => match lookup(f.workflows, workflow_id) {
            None => Err("workflow not found: "@ + workflow_id),
            Some(e) => Ok(
                WorkflowsFileV1View {
                    workflows: put(
                        f.workflows,
                        workflow_id,
                        WorkflowEntryV1View {
                            profile_refs: changed_refs(e.profile_refs, kind, id, mode, detach),
                            ..e
                        },
                    ),
                    ..f
                },
            ),
        },
        ProfileSubjectView::WorkflowStep { workflow_id, step_id } => Ok(
            WorkflowsFileV1View {
                profile_attachments: WorkflowProfileAttachmentsV1View {
                    steps: changed_entry(
                        f.profile_attachments.steps,
                        workflow_id + "."@ + step_id,
                        kind,
                        id,
                        mode,
                        detach,
                    ),
                    ..f.profile_attachments
                },
                ..f
            },
        ),
        ProfileSubjectView::WorkflowComponent { component_id } => match lookup(
            f.components,
            component_id,
        ) {
            Some(c) => Ok(
                WorkflowsFileV1View {
                    components: put(
                        f.components,
                        component_id,
                        WorkflowComponentV1View {
                            profile_refs: changed_refs(c.profile_refs, kind, id, mode, detach),
                            ..c
                        },
                    ),
                    ..f
                },
            ),
            None => Ok(
                WorkflowsFileV1View {
                    profile_attachments: WorkflowProfileAttachmentsV1View {
                        components: changed_entry(
                            f.profile_attachments.components,
                            component_id,
                            kind,
                            id,
                            mode,
                            detach,
                        ),
                        ..f.profile_attachments
                    },
                    ..f
                },
            ),
        },
        _ => Err("subject is not a workflow subject"@),
    }
}

/// Changes what is attached to a subject in a workflows file.
pub fn mutate_workflows_attachment(
    file: &mut WorkflowsFileV1,
    subject: &ProfileSubject,
    kind: ProfileKind,
    profile_id: &str,
    mode: ProfileMode,
    detach: bool,
) -> (r: Result<(), String>)
    ensures
        match changed_workflows(old(file)@, subject@, kind, profile_id@, mode, detach) {
            Ok(f) => r is Ok && final(file)@ == f,
            Err(e) => r is Err && r->Err_0@ == e && final(file)@ == old(file)@,
        },
{
    match subject {
        ProfileSubject::Workflow { workflow_id } => {
            let mut entry = match file.workflows.get(workflow_id.as_str()) {
                None => {
                    return Err(cat2("workflow not found: ", workflow_id.as_str()));
                },
                Some(e) => e.dup(),
            };
            change_refs(&mut entry.profile_refs, kind, profile_id, mode, detach);
            file.workflows.insert(workflow_id.clone(), entry);
        },
        ProfileSubject::WorkflowStep { workflow_id, step_id } => {
            let key = cat3(workflow_id.as_str(), ".", step_id.as_str());
            change_entry(
                &mut file.profile_attachments.steps,
                key,
                kind,
                profile_id,
                mode,
                detach,
            );
        },
        ProfileSubject::WorkflowComponent { component_id } => {
            match file.components.get(component_id.as_str()) {
                Some(c) => {
                    let mut component = c.dup();
                    change_refs(&mut component.profile_refs, kind, profile_id, mode, detach);
                    file.components.insert(component_id.clone(), component);
                },
                None => {
                    change_entry(
                        &mut file.profile_attachments.components,
                        component_id.clone(),
                        kind,
                        profile_id,
                        mode,
                        detach,
                    );
                },
            }
        },
        _ => {
            return Err("subject is not a workflow subject".to_owned());
        },
    }
    Ok(())
}

proof fn without_laws(names: Seq<Seq<char>>, i: int, acc: Seq<Seq<char>>, id: Seq<char>)
    requires
        0 <= i <= names.len(),
        !acc.contains(id),
    ensures
        !without(names, i, acc, id).contains(id),
        (forall|k: int| i <= k < names.len() ==> names[k] != id) ==> without(names, i, acc, id)
            == acc + names.subrange(i, names.len() as int),
    decreases names.len() - i,
{
    if i < names.len() {
        if names[i] == id {
            without_laws(names, i + 1, acc, id);
        } else {
            let next = acc.push(names[i]);
            assert(!next.contains(id)) by {
                if next.contains(id) {
                    let p = choose|p: int| 0 <= p < next.len() && next[p] == id;
                    if p < acc.len() {
                        assert(acc[p] == id);
                    }
                }
            }
            without_laws(names, i + 1, next, id);
            assert(next + names.subrange(i + 1, names.len() as int) =~= acc + names.subrange(
                i,
                names.len() as int,
            ));
        }
    } else {
        assert(acc + names.subrange(i, names.len() as int) =~= acc);
    }
}

/// A profile that was detached is no longer there.
pub proof fn detached_is_gone(names: Seq<Seq<char>>, id: Seq<char>)
    ensures
        !detached(names, id).contains(id),
{
    without_laws(names, 0, Seq::empty(), id);
}

/// A profile that was attached is there; attaching it again changes nothing; and merging
/// keeps what was attached.
pub proof fn attached_is_there(names: Seq<Seq<char>>, id: Seq<char>, mode: ProfileMode)
    ensures
        attached(names, id, mode).contains(id),
        attached(attached(names, id, mode), id, mode) == attached(names, id, mode),
        mode == ProfileMode::Merge ==> forall|x: Seq<char>|
            names.contains(x) ==> attached(names, id, mode).contains(x),
{
    let a = attached(names, id, mode);
    match mode {
        ProfileMode::Merge => {
            if !names.contains(id) {
                assert(a[names.len() as int] == id);
                assert forall|x: Seq<char>| names.contains(x) implies a.contains(x) by {
                    let p = choose|p: int| 0 <= p < names.len() && names[p] == x;
                    assert(a[p] == x);
                }
            }
        },
        ProfileMode::Replace => {
            assert(a[0] == id);
        },
    }
}

/// Detaching undoes attaching.
pub proof fn detaching_undoes_attaching(names: Seq<Seq<char>>, id: Seq<char>)
    requires
        !names.contains(id),
    ensures
        detached(attached(names, id, ProfileMode::Merge), id) == names,
{
    let a = names.push(id);
    assert(names.subrange(0, 0) =~= Seq::empty());
    without_prefix(names, a, 0, Seq::empty(), id);
}

proof fn without_prefix(
    names: Seq<Seq<char>>,
    a: Seq<Seq<char>>,
    i: int,
    acc: Seq<Seq<char>>,
    id: Seq<char>,
)
    requires
        a == names.push(id),
        !names.contains(id),
        0 <= i <= names.len(),
        acc == names.subrange(0, i),
    ensures
        without(a, i, acc, id) == names,
    decreases names.len() - i,
{
    if i < names.len() {
        assert(names.contains(names[i]));
        assert(acc.push(names[i]) =~= names.subrange(0, i + 1));
        without_prefix(names, a, i + 1, acc.push(names[i]), id);
    } else {
        assert(acc =~= names);
        reveal_with_fuel(without, 2);
    }
}

/// The two sides of the first dot.
pub open spec fn around_dot(s: Seq<char>) -> Option<(Seq<char>, Seq<char>)> {
    let n = next_char(s, 0, '.');
    if n < s.len() {
        Some((s.subrange(0, n), rest(s, n + 1)))
    } else {
        None
    }
}

fn split_at_dot(s: &str) -> (r: Option<(String, String)>)
    ensures
        r.deep_view() == around_dot(s@),
{
    let v = chars_of(s);
    let n = find_char(&v, 0, '.');
    if n < v.len() {
        Some((slice_string(&v, 0, n), slice_string(&v, n + 1, v.len())))
    } else {
        None
    }
}

/// The subject of a part of a pipeline: a pipeline, a workflow and a number, with dots
/// between them. What follows a third dot is passed over.
pub open spec fn part_subject(s: Seq<char>) -> Result<ProfileSubjectView, Seq<char>> {
    match around_dot(s) {
        None => Err("missing workflow_id"@),
        Some((pipeline_id, below)) => {
            match around_dot(below) {
                None => Err("missing part_index"@),
                Some((workflow_id, last)) => {
                    let index = match around_dot(last) {
                        Some((n, _)) => n,
                        None => last,
                    };
                    match number(index, usize::MAX as nat) {
                        Ok(n) => Ok(
                            ProfileSubjectView::PipelinePart {
                                pipeline_id,
                                workflow_id,
                                part_index: n as usize,
                            },
                        ),
                        Err(e) => Err("invalid part_index: "@ + number_error_text(e)),
                    }
                },
            }
        },
    }
}

/// What follows a prefix, where there is one.
pub open spec fn after_prefix(s: Seq<char>, p: Seq<char>) -> Option<Seq<char>> {
    if has_prefix(s, p) {
        Some(rest(s, p.len() as int))
    } else {
        None
    }
}

/// The subject that a text names.
pub open spec fn subject_of(raw: Seq<char>) -> Result<ProfileSubjectView, Seq<char>> {
    if let Some(id) = after_prefix(raw, "template:"@) {
        if is_blank(id) {
            Err("template subject requires id: template:<template_id>"@)
        } else {
            Ok(ProfileSubjectView::Template { template_id: id })
        }
    } else if let Some(id) = after_prefix(raw, "pipeline:"@) {
        Ok(ProfileSubjectView::Pipeline { pipeline_id: id })
    } else if let Some(s) = after_prefix(raw, "pipeline_workflow:"@) {
        match around_dot(s) {
            None => Err(
                "pipeline_workflow subject must be pipeline_workflow:<pipeline_id>.<workflow_id>"@,
            ),
            Some((pipeline_id, workflow_id)) => Ok(
                ProfileSubjectView::PipelineWorkflow { pipeline_id, workflow_id },
            ),
        }
    } else if let Some(s) = after_prefix(raw, "pipeline_part:"@) {
        part_subject(s)
    } else if let Some(id) = after_prefix(raw, "pipeline_component:"@) {
        Ok(ProfileSubjectView::PipelineComponent { component_id: id })
    } else if let Some(id) = after_prefix(raw, "workflow:"@) {
        Ok(ProfileSubjectView::Workflow { workflow_id: id })
    } else if let Some(s) = after_prefix(raw, "workflow_step:"@) {
        match around_dot(s) {
            None => Err("workflow_step subject must be workflow_step:<workflow_id>.<step_id>"@),
            Some((workflow_id, step_id)) => Ok(
                ProfileSubjectView::WorkflowStep { workflow_id, step_id },
            ),
        }
    } else if let Some(id) = after_prefix(raw, "workflow_component:"@) {
        Ok(ProfileSubjectView::WorkflowComponent { component_id: id })
    } else {
        Err("invalid subject format: "@ + raw)
    }
}

fn parse_part_subject(s: &str) -> (r: Result<ProfileSubject, String>)
    ensures
        (match r {
            Ok(x) => Ok(x@),
            Err(e) => Err(e@),
        }) == part_subject(s@),
{
    let (pipeline_id, below) = match split_at_dot(s) {
        None => {
            return Err("missing workflow_id".to_owned());
        },
        Some(x) => x,
    };
    let (workflow_id, last) = match split_at_dot(below.as_str()) {
        None => {
            return Err("missing part_index".to_owned());
        },
        Some(x) => x,
    };
    let index = match split_at_dot(last.as_str()) {
        Some((n, _)) => n,
        None => last,
    };
    match parse_number(index.as_str(), usize::MAX as u64) {
        Ok(n) => Ok(
            ProfileSubject::PipelinePart { pipeline_id, workflow_id, part_index: n as usize },
        ),
        Err(e) => {
            let m = number_error_message(e);
            Err(cat2("invalid part_index: ", m.as_str()))
        },
    }
}

/// The subject that a text names.
pub fn parse_profile_subject(raw: &str) -> (r: Result<ProfileSubject, String>)
    ensures
        (match r {
            Ok(x) => Ok(x@),
            Err(e) => Err(e@),
        }) == subject_of(raw@),
{
    if let Some(id) = strip_prefix(raw, "template:") {
        if blank(id.as_str()) {
            return Err("template subject requires id: template:<template_id>".to_owned());
        }
        return Ok(ProfileSubject::Template { template_id: id });
    }
    if let Some(id) = strip_prefix(raw, "pipeline:") {
        return Ok(ProfileSubject::Pipeline { pipeline_id: id });
    }
    if let Some(s) = strip_prefix(raw, "pipeline_workflow:") {
        return match split_at_dot(s.as_str()) {
            None => Err(
                "pipeline_workflow subject must be pipeline_workflow:<pipeline_id>.<workflow_id>".to_owned(),
            ),
            Some((pipeline_id, workflow_id)) => Ok(
                ProfileSubject::PipelineWorkflow { pipeline_id, workflow_id },
            ),
        };
    }
    if let Some(s) = strip_prefix(raw, "pipeline_part:") {
        return parse_part_subject(s.as_str());
    }
    if let Some(id) = strip_prefix(raw, "pipeline_component:") {
        return Ok(ProfileSubject::PipelineComponent { component_id: id });
    }
    if let Some(id) = strip_prefix(raw, "workflow:") {
        return Ok(ProfileSubject::Workflow { workflow_id: id });
    }
    if let Some(s) = strip_prefix(raw, "workflow_step:") {
        return match split_at_dot(s.as_str()) {
            None => Err(
                "workflow_step subject must be workflow_step:<workflow_id>.<step_id>".to_owned(),
            ),
            Some((workflow_id, step_id)) => Ok(
                ProfileSubject::WorkflowStep { workflow_id, step_id },
            ),
        };
    }
    if let Some(id) = strip_prefix(raw, "workflow_component:") {
        return Ok(ProfileSubject::WorkflowComponent { component_id: id });
    }
    Err(cat2("invalid subject format: ", raw))
}

} // verus!
