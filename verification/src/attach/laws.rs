//! What holds of every change of what is attached.

use vstd::prelude::*;
use crate::attach::frontmatter::{
    changed_list, edited, field_keys, fresh_value, key_from, without_text, Change,
};
use crate::attach::refs::{
    around_dot, changed_names, changed_pipelines, changed_refs, changed_workflows, subject_of, without,
    PipelinesFileV2View, ProfileKind, ProfileMode, ProfileSubjectView,
};
use crate::number::{number, number_from};
use crate::pipelines::model::{ComponentV2View, PipelineEntryV2View};
use crate::strmap::{lookup, lookup_put, sorted};
use crate::text::{
    decimal, has_prefix, is_blank, next_char, next_char_behind, next_char_bounds, next_char_in,
    rest,
};
use crate::types::profile::{no_refs, ProfileRefsView};
use crate::types::workflows::{
    WorkflowComponentV1View, WorkflowEntryV1View, WorkflowsFileV1View,
};
use crate::yaml::{yaml_text, YamlView};

verus! {

/// Being another name than the given one.
pub open spec fn other_than(id: Seq<char>) -> spec_fn(Seq<char>) -> bool {
    |x: Seq<char>| x != id
}

proof fn without_is_filter(names: Seq<Seq<char>>, i: int, acc: Seq<Seq<char>>, id: Seq<char>)
    requires
        0 <= i <= names.len(),
        acc == names.subrange(0, i).filter(other_than(id)),
    ensures
        without(names, i, acc, id) == names.filter(other_than(id)),
    decreases names.len() - i,
{
    let f = other_than(id);
    if i < names.len() {
        let t = names.subrange(0, i + 1);
        assert(t.drop_last() =~= names.subrange(0, i));
        assert(t.last() == names[i]);
        reveal(Seq::filter);
        if names[i] == id {
            assert(t.filter(f) == acc);
            without_is_filter(names, i + 1, acc, id);
        } else {
            assert(t.filter(f) == acc.push(names[i]));
            without_is_filter(names, i + 1, acc.push(names[i]), id);
        }
    } else {
        assert(names.subrange(0, i) =~= names);
    }
}

/// The list of a kind.
pub open spec fn names_of(refs: ProfileRefsView, kind: ProfileKind) -> Seq<Seq<char>> {
    match kind {
        ProfileKind::Policy => refs.policy_profiles,
        ProfileKind::Guideline => refs.guideline_profiles,
    }
}

/// The other kind.
pub open spec fn other_kind(kind: ProfileKind) -> ProfileKind {
    match kind {
        ProfileKind::Policy => ProfileKind::Guideline,
        ProfileKind::Guideline => ProfileKind::Policy,
    }
}

/// Whether a list came from another by a change: detaching takes the name out and leaves the
/// others in their order; merging adds the name at the end unless it is there; replacing leaves
/// the name alone.
pub open spec fn came_from(
    after: Seq<Seq<char>>,
    before: Seq<Seq<char>>,
    id: Seq<char>,
    mode: ProfileMode,
    detach: bool,
) -> bool {
    if detach {
        after == before.filter(other_than(id))
    } else if mode == ProfileMode::Replace {
        after.len() == 1 && after[0] == id
    } else if before.contains(id) {
        after == before
    } else {
        after == before + seq![id]
    }
}

/// A change is made to the list of its kind; the list of the other kind stays.
pub proof fn list_of_the_kind_changes(
    refs: ProfileRefsView,
    kind: ProfileKind,
    id: Seq<char>,
    mode: ProfileMode,
    detach: bool,
)
    ensures
        ({
            let after = changed_refs(refs, kind, id, mode, detach);
            &&& came_from(names_of(after, kind), names_of(refs, kind), id, mode, detach)
            &&& names_of(after, other_kind(kind)) == names_of(refs, other_kind(kind))
        }),
{
    let names = names_of(refs, kind);
    assert(names_of(changed_refs(refs, kind, id, mode, detach), kind) == changed_names(
        names,
        id,
        mode,
        detach,
    ));
    if detach {
        reveal(Seq::filter);
        assert(names.subrange(0, 0) =~= Seq::empty());
        assert(names.subrange(0, 0).filter(other_than(id)) =~= Seq::empty());
        without_is_filter(names, 0, Seq::empty(), id);
        assert(changed_names(names, id, mode, detach) == names.filter(other_than(id)));
    } else if mode == ProfileMode::Merge && !names.contains(id) {
        assert(names.push(id) =~= names + seq![id]);
    }
}

/// Whether references came from others by a change of one kind.
pub open spec fn refs_came_from(
    after: ProfileRefsView,
    before: ProfileRefsView,
    kind: ProfileKind,
    id: Seq<char>,
    mode: ProfileMode,
    detach: bool,
) -> bool {
    &&& came_from(names_of(after, kind), names_of(before, kind), id, mode, detach)
    &&& names_of(after, other_kind(kind)) == names_of(before, other_kind(kind))
}

/// What is attached to a subject in a pipelines file: with the pipeline or the component itself,
/// else under the names of the subject with dots between them.
pub open spec fn attached_in_pipelines(f: PipelinesFileV2View, s: ProfileSubjectView) -> Option<
    ProfileRefsView,
> {
    match s {
        ProfileSubjectView::Pipeline { pipeline_id } => match lookup(f.pipelines, pipeline_id) {
            Some(e) => Some(e.profile_refs),
            None => None,
        },
        ProfileSubjectView::PipelineWorkflow { pipeline_id, workflow_id } => lookup(
            f.profile_attachments.workflows,
            pipeline_id + "."@ + workflow_id,
        ),
        ProfileSubjectView::PipelinePart { pipeline_id, workflow_id, part_index } => lookup(
            f.profile_attachments.parts,
            pipeline_id + "."@ + workflow_id + "."@ + decimal(part_index as nat),
        ),
        ProfileSubjectView::PipelineComponent { component_id } => match lookup(
            f.components,
            component_id,
        ) {
            Some(c) => Some(c.profile_refs),
            None => lookup(f.profile_attachments.components, component_id),
        },
        _ => None,
    }
}

/// The references, or none.
pub open spec fn or_none(r: Option<ProfileRefsView>) -> ProfileRefsView {
    match r {
        Some(x) => x,
        None => no_refs(),
    }
}

/// A pipelines file takes a change of each of its subjects, but for a pipeline that it lacks. The
/// change is made to what is attached to the subject. The file keeps its pipelines and components
/// but for what is attached to them.
pub proof fn pipelines_file_takes_the_change(
    f: PipelinesFileV2View,
    s: ProfileSubjectView,
    kind: ProfileKind,
    id: Seq<char>,
    mode: ProfileMode,
    detach: bool,
    q: Seq<char>,
)
    requires
        sorted(f.pipelines),
        sorted(f.components),
        sorted(f.profile_attachments.workflows),
        sorted(f.profile_attachments.parts),
        sorted(f.profile_attachments.components),
    ensures
        ({
            let r = changed_pipelines(f, s, kind, id, mode, detach);
            &&& r is Ok <==> (match s {
                ProfileSubjectView::Pipeline { pipeline_id } => lookup(f.pipelines, pipeline_id)
                    is Some,
                ProfileSubjectView::PipelineWorkflow { .. } => true,
                ProfileSubjectView::PipelinePart { .. } => true,
                ProfileSubjectView::PipelineComponent { .. } => true,
                _ => false,
            })
            &&& r is Ok ==> {
                let g = r->Ok_0;
                &&& attached_in_pipelines(g, s) is Some
                &&& refs_came_from(
                    or_none(attached_in_pipelines(g, s)),
                    or_none(attached_in_pipelines(f, s)),
                    kind,
                    id,
                    mode,
                    detach,
                )
                &&& lookup(g.pipelines, q) is Some <==> lookup(f.pipelines, q) is Some
                &&& lookup(g.pipelines, q) is Some ==> lookup(g.pipelines, q)->0 == (PipelineEntryV2View {
                    profile_refs: lookup(g.pipelines, q)->0.profile_refs,
                    ..lookup(f.pipelines, q)->0
                })
                &&& lookup(g.components, q) is Some <==> lookup(f.components, q) is Some
                &&& lookup(g.components, q) is Some ==> lookup(g.components, q)->0 == (ComponentV2View {
                    profile_refs: lookup(g.components, q)->0.profile_refs,
                    ..lookup(f.components, q)->0
                })
            }
        }),
{
    let before = or_none(attached_in_pipelines(f, s));
    let after = changed_refs(before, kind, id, mode, detach);
    list_of_the_kind_changes(before, kind, id, mode, detach);
    match s {
        ProfileSubjectView::Pipeline { pipeline_id } => {
            if lookup(f.pipelines, pipeline_id) is Some {
                let e = lookup(f.pipelines, pipeline_id)->0;
                let x = PipelineEntryV2View { profile_refs: after, ..e };
                lookup_put(f.pipelines, pipeline_id, x, pipeline_id);
                lookup_put(f.pipelines, pipeline_id, x, q);
            }
        },
        ProfileSubjectView::PipelineWorkflow { pipeline_id, workflow_id } => {
            let k = pipeline_id + "."@ + workflow_id;
            lookup_put(f.profile_attachments.workflows, k, after, k);
        },
        ProfileSubjectView::PipelinePart { pipeline_id, workflow_id, part_index } => {
            let k = pipeline_id + "."@ + workflow_id + "."@ + decimal(part_index as nat);
            lookup_put(f.profile_attachments.parts, k, after, k);
        },
        ProfileSubjectView::PipelineComponent { component_id } => {
            if lookup(f.components, component_id) is Some {
                let c = lookup(f.components, component_id)->0;
                let x = ComponentV2View { profile_refs: after, ..c };
                lookup_put(f.components, component_id, x, component_id);
                lookup_put(f.components, component_id, x, q);
            } else {
                lookup_put(f.profile_attachments.components, component_id, after, component_id);
            }
        },
        _ => {},
    }
}

/// What is attached to a subject in a workflows file.
pub open spec fn attached_in_workflows(f: WorkflowsFileV1View, s: ProfileSubjectView) -> Option<
    ProfileRefsView,
> {
    match s {
        ProfileSubjectView::Workflow { workflow_id } => match lookup(f.workflows, workflow_id) {
            Some(e) => Some(e.profile_refs),
            None => None,
        },
        ProfileSubjectView::WorkflowStep { workflow_id, step_id } => lookup(
            f.profile_attachments.steps,
            workflow_id + "."@ + step_id,
        ),
        ProfileSubjectView::WorkflowComponent { component_id } => match lookup(
            f.components,
            component_id,
        ) {
            Some(c) => Some(c.profile_refs),
            None => lookup(f.profile_attachments.components, component_id),
        },
        _ => None,
    }
}

/// A workflows file takes a change of each of its subjects, but for a workflow that it lacks. The
/// change is made to what is attached to the subject. The file keeps its workflows and components
/// but for what is attached to them.
pub proof fn workflows_file_takes_the_change(
    f: WorkflowsFileV1View,
    s: ProfileSubjectView,
    kind: ProfileKind,
    id: Seq<char>,
    mode: ProfileMode,
    detach: bool,
    q: Seq<char>,
)
    requires
        sorted(f.workflows),
        sorted(f.components),
        sorted(f.profile_attachments.steps),
        sorted(f.profile_attachments.components),
    ensures
        ({
            let r = changed_workflows(f, s, kind, id, mode, detach);
            &&& r is Ok <==> (match s {
                ProfileSubjectView::Workflow { workflow_id } => lookup(f.workflows, workflow_id)
                    is Some,
                ProfileSubjectView::WorkflowStep { .. } => true,
                ProfileSubjectView::WorkflowComponent { .. } => true,
                _ => false,
            })
            &&& r is Ok ==> {
                let g = r->Ok_0;
                &&& attached_in_workflows(g, s) is Some
                &&& refs_came_from(
                    or_none(attached_in_workflows(g, s)),
                    or_none(attached_in_workflows(f, s)),
                    kind,
                    id,
                    mode,
                    detach,
                )
                &&& lookup(g.workflows, q) is Some <==> lookup(f.workflows, q) is Some
                &&& lookup(g.workflows, q) is Some ==> lookup(g.workflows, q)->0 == (WorkflowEntryV1View {
                    profile_refs: lookup(g.workflows, q)->0.profile_refs,
                    ..lookup(f.workflows, q)->0
                })
                &&& lookup(g.components, q) is Some <==> lookup(f.components, q) is Some
                &&& lookup(g.components, q) is Some ==> lookup(g.components, q)->0 == (WorkflowComponentV1View {
                    profile_refs: lookup(g.components, q)->0.profile_refs,
                    ..lookup(f.components, q)->0
                })
            }
        }),
{
    let before = or_none(attached_in_workflows(f, s));
    let after = changed_refs(before, kind, id, mode, detach);
    list_of_the_kind_changes(before, kind, id, mode, detach);
    match s {
        ProfileSubjectView::Workflow { workflow_id } => {
            if lookup(f.workflows, workflow_id) is Some {
                let e = lookup(f.workflows, workflow_id)->0;
                let x = WorkflowEntryV1View { profile_refs: after, ..e };
                lookup_put(f.workflows, workflow_id, x, workflow_id);
                lookup_put(f.workflows, workflow_id, x, q);
            }
        },
        ProfileSubjectView::WorkflowStep { workflow_id, step_id } => {
            let k = workflow_id + "."@ + step_id;
            lookup_put(f.profile_attachments.steps, k, after, k);
        },
        ProfileSubjectView::WorkflowComponent { component_id } => {
            if lookup(f.components, component_id) is Some {
                let c = lookup(f.components, component_id)->0;
                let x = WorkflowComponentV1View {
                    profile_refs: after,
                    ..c
                };
                lookup_put(f.components, component_id, x, component_id);
                lookup_put(f.components, component_id, x, q);
            } else {
                lookup_put(f.profile_attachments.components, component_id, after, component_id);
            }
        },
        _ => {},
    }
}

/// Where what is attached to a subject of pipelines is kept.
pub open spec fn pipeline_place(s: ProfileSubjectView) -> (int, Seq<char>) {
    match s {
        ProfileSubjectView::Pipeline { pipeline_id } => (1, pipeline_id),
        ProfileSubjectView::PipelineWorkflow { pipeline_id, workflow_id } => (
            2,
            pipeline_id + "."@ + workflow_id,
        ),
        ProfileSubjectView::PipelinePart { pipeline_id, workflow_id, part_index } => (
            3,
            pipeline_id + "."@ + workflow_id + "."@ + decimal(part_index as nat),
        ),
        ProfileSubjectView::PipelineComponent { component_id } => (4, component_id),
        _ => (0, Seq::empty()),
    }
}

/// A change of one subject leaves what is attached to every other.
pub proof fn other_pipeline_subjects_keep_theirs(
    f: PipelinesFileV2View,
    s: ProfileSubjectView,
    t: ProfileSubjectView,
    kind: ProfileKind,
    id: Seq<char>,
    mode: ProfileMode,
    detach: bool,
)
    requires
        sorted(f.pipelines),
        sorted(f.components),
        sorted(f.profile_attachments.workflows),
        sorted(f.profile_attachments.parts),
        sorted(f.profile_attachments.components),
        pipeline_place(s) != pipeline_place(t),
    ensures
        changed_pipelines(f, s, kind, id, mode, detach) matches Ok(g) ==> attached_in_pipelines(
            g,
            t,
        ) == attached_in_pipelines(f, t),
{
    let after = changed_refs(or_none(attached_in_pipelines(f, s)), kind, id, mode, detach);
    let (_, k) = pipeline_place(s);
    let (_, j) = pipeline_place(t);
    match s {
        ProfileSubjectView::Pipeline { .. } => {
            if lookup(f.pipelines, k) is Some {
                let e = lookup(f.pipelines, k)->0;
                lookup_put(f.pipelines, k, PipelineEntryV2View { profile_refs: after, ..e }, j);
            }
        },
        ProfileSubjectView::PipelineWorkflow { .. } => {
            lookup_put(f.profile_attachments.workflows, k, after, j);
        },
        ProfileSubjectView::PipelinePart { .. } => {
            lookup_put(f.profile_attachments.parts, k, after, j);
        },
        ProfileSubjectView::PipelineComponent { .. } => {
            if lookup(f.components, k) is Some {
                let c = lookup(f.components, k)->0;
                lookup_put(f.components, k, ComponentV2View { profile_refs: after, ..c }, j);
            } else {
                lookup_put(f.profile_attachments.components, k, after, j);
            }
        },
        _ => {},
    }
}

/// Where what is attached to a subject of workflows is kept.
pub open spec fn workflow_place(s: ProfileSubjectView) -> (int, Seq<char>) {
    match s {
        ProfileSubjectView::Workflow { workflow_id } => (1, workflow_id),
        ProfileSubjectView::WorkflowStep { workflow_id, step_id } => (
            2,
            workflow_id + "."@ + step_id,
        ),
        ProfileSubjectView::WorkflowComponent { component_id } => (3, component_id),
        _ => (0, Seq::empty()),
    }
}

/// A change of one subject leaves what is attached to every other.
pub proof fn other_workflow_subjects_keep_theirs(
    f: WorkflowsFileV1View,
    s: ProfileSubjectView,
    t: ProfileSubjectView,
    kind: ProfileKind,
    id: Seq<char>,
    mode: ProfileMode,
    detach: bool,
)
    requires
        sorted(f.workflows),
        sorted(f.components),
        sorted(f.profile_attachments.steps),
        sorted(f.profile_attachments.components),
        workflow_place(s) != workflow_place(t),
    ensures
        changed_workflows(f, s, kind, id, mode, detach) matches Ok(g) ==> attached_in_workflows(
            g,
            t,
        ) == attached_in_workflows(f, t),
{
    let after = changed_refs(or_none(attached_in_workflows(f, s)), kind, id, mode, detach);
    let (_, k) = workflow_place(s);
    let (_, j) = workflow_place(t);
    match s {
        ProfileSubjectView::Workflow { .. } => {
            if lookup(f.workflows, k) is Some {
                let e = lookup(f.workflows, k)->0;
                lookup_put(f.workflows, k, WorkflowEntryV1View { profile_refs: after, ..e }, j);
            }
        },
        ProfileSubjectView::WorkflowStep { .. } => {
            lookup_put(f.profile_attachments.steps, k, after, j);
        },
        ProfileSubjectView::WorkflowComponent { .. } => {
            if lookup(f.components, k) is Some {
                let c = lookup(f.components, k)->0;
                lookup_put(
                    f.components,
                    k,
                    WorkflowComponentV1View { profile_refs: after, ..c },
                    j,
                );
            } else {
                lookup_put(f.profile_attachments.components, k, after, j);
            }
        },
        _ => {},
    }
}

proof fn dotted(a: Seq<char>, b: Seq<char>)
    requires
        !a.contains('.'),
    ensures
        around_dot(a + "."@ + b) == Some((a, b)),
{
    reveal_strlit(".");
    let s = a + "."@ + b;
    let tail = "."@ + b;
    assert(s =~= a + tail);
    next_char_bounds(a, 0, '.');
    assert(next_char(a, 0, '.') == a.len());
    next_char_in(a, tail, 0, '.');
    next_char_behind(a, tail, 0, '.');
    assert(tail[0] == '.');
    assert(s.subrange(0, a.len() as int) =~= a);
    assert(rest(s, (a.len() + 1) as int) =~= b);
}

proof fn undotted(a: Seq<char>)
    requires
        !a.contains('.'),
    ensures
        around_dot(a) is None,
{
    next_char_bounds(a, 0, '.');
}

/// The digits of a number are read as that number.
pub proof fn decimal_is_read_back(n: nat, max: nat)
    requires
        n <= max,
    ensures
        number(decimal(n), max) == Ok::<nat, crate::number::NumberError>(n),
        !decimal(n).contains('.'),
{
    digits_are_read(n, max, Seq::empty());
    assert(decimal(n) + Seq::<char>::empty() =~= decimal(n));
    digits_are_digits(n);
}

/// A number in decimal is written with digits.
pub proof fn digits_are_digits(n: nat)
    ensures
        decimal(n).len() > 0,
        forall|i: int|
            0 <= i < decimal(n).len() ==> '0' <= #[trigger] decimal(n)[i] && decimal(n)[i] <= '9',
    decreases n,
{
    if n >= 10 {
        digits_are_digits(n / 10);
    }
}

proof fn digits_are_read(n: nat, max: nat, tail: Seq<char>)
    requires
        n <= max,
    ensures
        number_from(decimal(n) + tail, 0, 0, max) == number_from(
            decimal(n) + tail,
            decimal(n).len() as int,
            n,
            max,
        ),
    decreases n,
{
    let s = decimal(n) + tail;
    if n >= 10 {
        let d = crate::text::digit(n % 10);
        assert(s =~= decimal(n / 10) + (seq![d] + tail));
        digits_are_read(n / 10, max, seq![d] + tail);
        let i = decimal(n / 10).len() as int;
        assert(s[i] == d);
        assert((n / 10) * 10 + n % 10 == n);
    } else {
        assert(s[0] == crate::text::digit(n));
    }
}

proof fn prefix_of(p: Seq<char>, s: Seq<char>)
    ensures
        has_prefix(p + s, p),
        rest(p + s, p.len() as int) == s,
{
    assert((p + s).subrange(0, p.len() as int) =~= p);
    assert(rest(p + s, p.len() as int) =~= s);
}

/// Every subject is read back from its name: the word for what it is, a colon, and the names that
/// lead to it with dots between them.
pub proof fn subjects_are_read_back(s: ProfileSubjectView)
    requires
        match s {
            ProfileSubjectView::Template { template_id } => !is_blank(template_id),
            ProfileSubjectView::PipelineWorkflow { pipeline_id, .. } => !pipeline_id.contains('.'),
            ProfileSubjectView::PipelinePart { pipeline_id, workflow_id, .. } =>
                !pipeline_id.contains('.') && !workflow_id.contains('.'),
            ProfileSubjectView::WorkflowStep { workflow_id, .. } => !workflow_id.contains('.'),
            _ => true,
        },
    ensures
        subject_of(subject_name(s)) == Ok::<ProfileSubjectView, Seq<char>>(s),
{
    reveal_strlit("template:");
    reveal_strlit("pipeline:");
    reveal_strlit("pipeline_workflow:");
    reveal_strlit("pipeline_part:");
    reveal_strlit("pipeline_component:");
    reveal_strlit("workflow:");
    reveal_strlit("workflow_step:");
    reveal_strlit("workflow_component:");
    let n = subject_name(s);
    match s {
        ProfileSubjectView::Template { template_id } => {
            prefix_of("template:"@, template_id);
        },
        ProfileSubjectView::Pipeline { pipeline_id } => {
            prefix_of("pipeline:"@, pipeline_id);
            apart(n, "template:"@, 0);
        },
        ProfileSubjectView::PipelineWorkflow { pipeline_id, workflow_id } => {
            prefix_of("pipeline_workflow:"@, pipeline_id + "."@ + workflow_id);
            apart(n, "template:"@, 0);
            apart(n, "pipeline:"@, 8);
            dotted(pipeline_id, workflow_id);
        },
        ProfileSubjectView::PipelinePart { pipeline_id, workflow_id, part_index } => {
            let d = decimal(part_index as nat);
            let below = workflow_id + "."@ + d;
            prefix_of("pipeline_part:"@, pipeline_id + "."@ + below);
            apart(n, "template:"@, 0);
            apart(n, "pipeline:"@, 8);
            apart(n, "pipeline_workflow:"@, 9);
            dotted(pipeline_id, below);
            dotted(workflow_id, d);
            decimal_is_read_back(part_index as nat, usize::MAX as nat);
            undotted(d);
        },
        ProfileSubjectView::PipelineComponent { component_id } => {
            prefix_of("pipeline_component:"@, component_id);
            apart(n, "template:"@, 0);
            apart(n, "pipeline:"@, 8);
            apart(n, "pipeline_workflow:"@, 9);
            apart(n, "pipeline_part:"@, 9);
        },
        ProfileSubjectView::Workflow { workflow_id } => {
            prefix_of("workflow:"@, workflow_id);
            not_of_pipelines(n);
        },
        ProfileSubjectView::WorkflowStep { workflow_id, step_id } => {
            prefix_of("workflow_step:"@, workflow_id + "."@ + step_id);
            not_of_pipelines(n);
            apart(n, "workflow:"@, 8);
            dotted(workflow_id, step_id);
        },
        ProfileSubjectView::WorkflowComponent { component_id } => {
            prefix_of("workflow_component:"@, component_id);
            not_of_pipelines(n);
            apart(n, "workflow:"@, 8);
            apart(n, "workflow_step:"@, 9);
        },
    }
}

proof fn apart(n: Seq<char>, p: Seq<char>, k: int)
    requires
        0 <= k < p.len(),
        k < n.len(),
        n[k] != p[k],
    ensures
        !has_prefix(n, p),
{
    if has_prefix(n, p) {
        assert(n.subrange(0, p.len() as int)[k] == n[k]);
    }
}

proof fn not_of_pipelines(n: Seq<char>)
    requires
        n.len() > 0,
        n[0] == 'w',
    ensures
        !has_prefix(n, "template:"@),
        !has_prefix(n, "pipeline:"@),
        !has_prefix(n, "pipeline_workflow:"@),
        !has_prefix(n, "pipeline_part:"@),
        !has_prefix(n, "pipeline_component:"@),
{
    reveal_strlit("template:");
    reveal_strlit("pipeline:");
    reveal_strlit("pipeline_workflow:");
    reveal_strlit("pipeline_part:");
    reveal_strlit("pipeline_component:");
    apart(n, "template:"@, 0);
    apart(n, "pipeline:"@, 0);
    apart(n, "pipeline_workflow:"@, 0);
    apart(n, "pipeline_part:"@, 0);
    apart(n, "pipeline_component:"@, 0);
}

/// The name of a subject.
pub open spec fn subject_name(s: ProfileSubjectView) -> Seq<char> {
    match s {
        ProfileSubjectView::Template { template_id } => "template:"@ + template_id,
        ProfileSubjectView::Pipeline { pipeline_id } => "pipeline:"@ + pipeline_id,
        ProfileSubjectView::PipelineWorkflow { pipeline_id, workflow_id } =>
            "pipeline_workflow:"@ + (pipeline_id + "."@ + workflow_id),
        ProfileSubjectView::PipelinePart { pipeline_id, workflow_id, part_index } =>
            "pipeline_part:"@ + (pipeline_id + "."@ + (workflow_id + "."@ + decimal(
            part_index as nat,
        ))),
        ProfileSubjectView::PipelineComponent { component_id } => "pipeline_component:"@
            + component_id,
        ProfileSubjectView::Workflow { workflow_id } => "workflow:"@ + workflow_id,
        ProfileSubjectView::WorkflowStep { workflow_id, step_id } => "workflow_step:"@ + (
        workflow_id + "."@ + step_id),
        ProfileSubjectView::WorkflowComponent { component_id } => "workflow_component:"@
            + component_id,
    }
}

/// The value under the key in a mapping, tags looked through.
pub open spec fn value_under(v: YamlView, key: Seq<char>) -> Option<YamlView>
    decreases v,
{
    match v {
        YamlView::Tagged(_, inner) => value_under(*inner, key),
        YamlView::Mapping(m) => {
            let p = key_from(m, 0, key);
            if p < m.len() {
                Some(m[p].1)
            } else {
                None
            }
        },
        _ => None,
    }
}

/// The values of a list, tags looked through.
pub open spec fn values_in(v: YamlView) -> Option<Seq<YamlView>>
    decreases v,
{
    match v {
        YamlView::Tagged(_, inner) => values_in(*inner),
        YamlView::Sequence(s) => Some(s),
        _ => None,
    }
}

/// The names of the profiles of a kind in the head of a template.
pub open spec fn names_in_head(v: YamlView, kind: ProfileKind) -> Option<Seq<YamlView>> {
    match value_under(v, "defaults"@) {
        None => None,
        Some(d) => match value_under(d, "profile_refs"@) {
            None => None,
            Some(r) => match value_under(
                r,
                match kind {
                    ProfileKind::Policy => "policy_profiles"@,
                    ProfileKind::Guideline => "guideline_profiles"@,
                },
            ) {
                None => None,
                Some(l) => values_in(l),
            },
        },
    }
}

/// Whether a list of values came from another by a change of the profile.
pub open spec fn values_came_from(
    after: Seq<YamlView>,
    before: Seq<YamlView>,
    id: Seq<char>,
    change: Change,
) -> bool {
    match change {
        Change::Detach => after == before.filter(|x: YamlView| yaml_text(x) != Some(id)),
        Change::Attach(ProfileMode::Replace) => after.len() == 1 && after[0] == YamlView::Str(id),
        Change::Attach(ProfileMode::Merge) => if exists|i: int|
            0 <= i < before.len() && yaml_text(#[trigger] before[i]) == Some(id) {
            after == before
        } else {
            after == before + seq![YamlView::Str(id)]
        },
    }
}

proof fn without_text_is_filter(s: Seq<YamlView>, i: int, acc: Seq<YamlView>, id: Seq<char>)
    requires
        0 <= i <= s.len(),
        acc == s.subrange(0, i).filter(|x: YamlView| yaml_text(x) != Some(id)),
    ensures
        without_text(s, i, acc, id) == s.filter(|x: YamlView| yaml_text(x) != Some(id)),
    decreases s.len() - i,
{
    let f = |x: YamlView| yaml_text(x) != Some(id);
    if i < s.len() {
        let t = s.subrange(0, i + 1);
        assert(t.drop_last() =~= s.subrange(0, i));
        assert(t.last() == s[i]);
        reveal(Seq::filter);
        if yaml_text(s[i]) == Some(id) {
            assert(t.filter(f) == acc);
            without_text_is_filter(s, i + 1, acc, id);
        } else {
            assert(t.filter(f) == acc.push(s[i]));
            without_text_is_filter(s, i + 1, acc.push(s[i]), id);
        }
    } else {
        assert(s.subrange(0, i) =~= s);
    }
}

proof fn list_changes(s: Seq<YamlView>, id: Seq<char>, change: Change)
    ensures
        values_came_from(changed_list(s, id, change), s, id, change),
{
    reveal(Seq::filter);
    assert(s.subrange(0, 0) =~= Seq::empty());
    assert(s.subrange(0, 0).filter(|x: YamlView| yaml_text(x) != Some(id)) =~= Seq::empty());
    without_text_is_filter(s, 0, Seq::empty(), id);
    assert(s.push(YamlView::Str(id)) =~= s + seq![YamlView::Str(id)]);
}

proof fn key_is_found(m: Seq<(YamlView, YamlView)>, i: int, key: Seq<char>)
    requires
        0 <= i <= m.len(),
    ensures
        i <= key_from(m, i, key) <= m.len(),
        key_from(m, i, key) < m.len() ==> m[key_from(m, i, key)].0 == YamlView::Str(key),
        forall|k: int| i <= k < key_from(m, i, key) ==> (#[trigger] m[k]).0 != YamlView::Str(key),
    decreases m.len() - i,
{
    if i < m.len() && m[i].0 != YamlView::Str(key) {
        key_is_found(m, i + 1, key);
    }
}

proof fn key_is(m: Seq<(YamlView, YamlView)>, i: int, key: Seq<char>, p: int)
    requires
        0 <= i <= p <= m.len(),
        forall|k: int| i <= k < p ==> (#[trigger] m[k]).0 != YamlView::Str(key),
        p < m.len() ==> m[p].0 == YamlView::Str(key),
    ensures
        key_from(m, i, key) == p,
    decreases p - i,
{
    if i < p {
        key_is(m, i + 1, key, p);
    }
}

/// What comes of one key: the value under it is the one from below, and every other key keeps its
/// value.
proof fn one_key_down(
    v: YamlView,
    keys: Seq<Seq<char>>,
    i: int,
    id: Seq<char>,
    change: Change,
    other: Seq<char>,
)
    requires
        0 <= i < keys.len(),
        other != keys[i],
    ensures
        edited(v, keys, i, id, change) matches Ok(x) ==> {
            let old = match value_under(v, keys[i]) {
                Some(o) => o,
                None => fresh_value(keys, i),
            };
            let below = edited(old, keys, i + 1, id, change);
            &&& below is Ok
            &&& value_under(x, keys[i]) == Some(below->Ok_0)
            &&& value_under(x, other) == value_under(v, other)
        },
    decreases v,
{
    match v {
        YamlView::Tagged(t, inner) => {
            one_key_down(*inner, keys, i, id, change, other);
        },
        YamlView::Mapping(m) => {
            let p = key_from(m, 0, keys[i]);
            let q = key_from(m, 0, other);
            key_is_found(m, 0, keys[i]);
            key_is_found(m, 0, other);
            let old = if p < m.len() {
                m[p].1
            } else {
                fresh_value(keys, i)
            };
            if let Ok(x) = edited(old, keys, i + 1, id, change) {
                let n = if p < m.len() {
                    m.update(p, (m[p].0, x))
                } else {
                    m.push((YamlView::Str(keys[i]), x))
                };
                assert(edited(v, keys, i, id, change) == Ok::<YamlView, int>(
                    YamlView::Mapping(n),
                ));
                key_is(n, 0, keys[i], p);
                if q < m.len() {
                    key_is(n, 0, other, q);
                } else {
                    key_is(n, 0, other, n.len() as int);
                }
            }
        },
        _ => {},
    }
}

proof fn list_down(v: YamlView, keys: Seq<Seq<char>>, id: Seq<char>, change: Change)
    ensures
        edited(v, keys, keys.len() as int, id, change) matches Ok(x) ==> {
            &&& values_in(v) is Some
            &&& values_in(x) is Some
            &&& values_came_from(values_in(x)->0, values_in(v)->0, id, change)
        },
    decreases v,
{
    match v {
        YamlView::Tagged(t, inner) => {
            list_down(*inner, keys, id, change);
        },
        YamlView::Sequence(s) => {
            list_changes(s, id, change);
        },
        _ => {},
    }
}

/// A change of the profiles that the head of a template refers to is found there, under
/// `defaults`, `profile_refs` and the name of the list; the list of the other kind, and whatever
/// else stands beside them in the head, stays.
pub proof fn template_head_takes_the_change(
    v: YamlView,
    kind: ProfileKind,
    id: Seq<char>,
    change: Change,
    other: Seq<char>,
)
    requires
        other != "defaults"@,
    ensures
        edited(v, field_keys(kind), 0, id, change) matches Ok(x) ==> {
            let before = match names_in_head(v, kind) {
                Some(s) => s,
                None => Seq::empty(),
            };
            &&& names_in_head(x, kind) is Some
            &&& values_came_from(names_in_head(x, kind)->0, before, id, change)
            &&& names_in_head(x, other_kind(kind)) == names_in_head(v, other_kind(kind))
            &&& value_under(x, other) == value_under(v, other)
        },
{
    reveal_strlit("policy_profiles");
    reveal_strlit("guideline_profiles");
    assert("policy_profiles"@.len() != "guideline_profiles"@.len());
    let keys = field_keys(kind);
    let key = keys[2];
    let against = field_keys(other_kind(kind))[2];
    one_key_down(v, keys, 0, id, change, other);
    if edited(v, keys, 0, id, change) is Ok {
        let d = match value_under(v, keys[0]) {
            Some(o) => o,
            None => fresh_value(keys, 0),
        };
        one_key_down(d, keys, 1, id, change, against_key(keys[1]));
        let r = match value_under(d, keys[1]) {
            Some(o) => o,
            None => fresh_value(keys, 1),
        };
        one_key_down(r, keys, 2, id, change, against);
        let l = match value_under(r, keys[2]) {
            Some(o) => o,
            None => fresh_value(keys, 2),
        };
        list_down(l, keys, id, change);
    }
}

spec fn against_key(k: Seq<char>) -> Seq<char> {
    k + k + seq!['.']
}

} // verus!
