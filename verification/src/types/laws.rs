//! What holds of every template that is rendered and of every file of workflows.

use vstd::prelude::*;
use crate::strmap::{lookup, lookup_put_all, lookup_some, put_all_sorted, sorted};
use crate::text::{
    bytes_len, has_prefix, is_blank, next_char, next_char_behind, next_char_bounds, next_char_in,
    rest,
};
use crate::types::templating::{rendered, rendered_from, TemplateContextView, TemplateErrorView};
use crate::types::workflows::{
    completes, dangling, effective_workflows, entries_problem, entry_problem, file_problem,
    next_refs, no_workflows, step_problem, steps_problem, Steps, WorkflowEntryV1View,
    WorkflowStepV1View, WorkflowsFileV1View,
};

verus! {

/// A placeholder.
pub open spec fn placeholder(key: Seq<char>) -> Seq<char> {
    "${"@ + key + "}"@
}

/// Whether the rendering of a placeholder is its value, where there is one and it is not too
/// large, and otherwise an error.
pub open spec fn renders_to(
    r: Result<Seq<char>, TemplateErrorView>,
    value: Option<Seq<char>>,
    missing: TemplateErrorView,
) -> bool {
    match value {
        None => r == Err::<Seq<char>, TemplateErrorView>(missing),
        Some(v) => if bytes_len(v) <= 65536 {
            r == Ok::<Seq<char>, TemplateErrorView>(v)
        } else {
            r == Err::<Seq<char>, TemplateErrorView>(TemplateErrorView::RenderedTooLarge)
        },
    }
}

proof fn placeholder_is_read(key: Seq<char>, ctx: TemplateContextView)
    requires
        !key.contains('}'),
        bytes_len(placeholder(key)) <= 32768,
    ensures
        rendered(placeholder(key), ctx) == (match crate::types::templating::placeholder_value(
            key,
            ctx,
        ) {
            Err(e) => Err(e),
            Ok(v) => if bytes_len(v) <= 65536 {
                Ok(v)
            } else {
                Err(TemplateErrorView::RenderedTooLarge)
            },
        }),
{
    reveal_strlit("${");
    reveal_strlit("}");
    let s = placeholder(key);
    let head = "${"@;
    let tail = key + "}"@;
    assert(s =~= head + tail);
    assert(s[0] == '$' && s[1] == '{');
    next_char_behind(head, tail, 0, '}');
    next_char_bounds(key, 0, '}');
    assert(next_char(key, 0, '}') == key.len());
    next_char_in(key, "}"@, 0, '}');
    next_char_behind(key, "}"@, 0, '}');
    assert(next_char("}"@, 0, '}') == 0);
    let end = next_char(s, 2, '}');
    assert(end == 2 + key.len());
    assert(s.subrange(2, end) =~= key);
    let none: Seq<char> = Seq::empty();
    if let Ok(v) = crate::types::templating::placeholder_value(key, ctx) {
        assert(none + v =~= v);
        assert(rendered_from(s, end + 1, ctx, v) == Ok::<Seq<char>, TemplateErrorView>(v));
    }
}

proof fn starts_with_it(p: Seq<char>, s: Seq<char>)
    ensures
        has_prefix(p + s, p),
        rest(p + s, p.len() as int) == s,
{
    assert((p + s).subrange(0, p.len() as int) =~= p);
    assert(rest(p + s, p.len() as int) =~= s);
}

/// A placeholder is rendered as what it names: the session, the task, the turn, a variable or a
/// fact. What is not there, or is none of these, is an error. A template may be at most 32768
/// bytes long.
pub proof fn placeholders_give_their_values(name: Seq<char>, ctx: TemplateContextView)
    requires
        !name.contains('}'),
        bytes_len(name) + 32 <= 32768,
    ensures
        renders_to(
            rendered(placeholder("session_id"@), ctx),
            Some(ctx.session_id),
            TemplateErrorView::UnclosedPlaceholder,
        ),
        renders_to(
            rendered(placeholder("task_id"@), ctx),
            ctx.task_id,
            TemplateErrorView::UnknownPlaceholder("task_id"@),
        ),
        renders_to(
            rendered(placeholder("turn_id"@), ctx),
            ctx.turn_id,
            TemplateErrorView::UnknownPlaceholder("turn_id"@),
        ),
        renders_to(
            rendered(placeholder("var."@ + name), ctx),
            lookup(ctx.vars, name),
            TemplateErrorView::MissingVar(name),
        ),
        renders_to(
            rendered(placeholder("fact."@ + name), ctx),
            lookup(ctx.facts, name),
            TemplateErrorView::MissingFact(name),
        ),
        name != "session_id"@ && name != "task_id"@ && name != "turn_id"@ && !has_prefix(
            name,
            "var."@,
        ) && !has_prefix(name, "fact."@) ==> rendered(placeholder(name), ctx) == Err::<
            Seq<char>,
            TemplateErrorView,
        >(TemplateErrorView::UnknownPlaceholder(name)),
        forall|s: Seq<char>| #[trigger]
            bytes_len(s) > 32768 ==> rendered(s, ctx) == Err::<Seq<char>, TemplateErrorView>(
                TemplateErrorView::TemplateTooLarge,
            ),
{
    reveal_strlit("session_id");
    reveal_strlit("task_id");
    reveal_strlit("turn_id");
    reveal_strlit("var.");
    reveal_strlit("fact.");
    assert("session_id"@[0] == 's' && "task_id"@[0] == 't' && "turn_id"@[0] == 't');
    assert("task_id"@[1] == 'a' && "turn_id"@[1] == 'u');
    assert("var."@[0] == 'v' && "fact."@[0] == 'f');
    let v = "var."@ + name;
    let f = "fact."@ + name;
    starts_with_it("var."@, name);
    starts_with_it("fact."@, name);
    assert(v[0] == 'v' && f[0] == 'f');
    assert(!has_prefix(f, "var."@)) by {
        if has_prefix(f, "var."@) {
            assert(f.subrange(0, "var."@.len() as int)[0] == f[0]);
        }
    }
    assert(!v.contains('}')) by {
        if v.contains('}') {
            let i = choose|i: int| 0 <= i < v.len() && v[i] == '}';
            assert(i >= 4);
            assert(name[i - 4] == '}');
        }
    }
    assert(!f.contains('}')) by {
        if f.contains('}') {
            let i = choose|i: int| 0 <= i < f.len() && f[i] == '}';
            assert(i >= 5);
            assert(name[i - 5] == '}');
        }
    }
    assert(!"session_id"@.contains('}'));
    assert(!"task_id"@.contains('}'));
    assert(!"turn_id"@.contains('}'));
    sizes("session_id"@);
    sizes("task_id"@);
    sizes("turn_id"@);
    sizes("var."@);
    sizes("fact."@);
    sizes("${"@);
    sizes("}"@);
    reveal_strlit("${");
    reveal_strlit("}");
    size_of_placeholder("session_id"@);
    size_of_placeholder("task_id"@);
    size_of_placeholder("turn_id"@);
    size_of_placeholder(v);
    size_of_placeholder(f);
    size_of_placeholder(name);
    crate::text::bytes_len_add("var."@, name);
    crate::text::bytes_len_add("fact."@, name);
    placeholder_is_read("session_id"@, ctx);
    placeholder_is_read("task_id"@, ctx);
    placeholder_is_read("turn_id"@, ctx);
    placeholder_is_read(v, ctx);
    placeholder_is_read(f, ctx);
    placeholder_is_read(name, ctx);
}

proof fn size_of_placeholder(key: Seq<char>)
    ensures
        bytes_len(placeholder(key)) == bytes_len("${"@) + bytes_len(key) + bytes_len("}"@),
{
    crate::text::bytes_len_add("${"@, key);
    crate::text::bytes_len_add("${"@ + key, "}"@);
}

proof fn sizes(s: Seq<char>)
    ensures
        bytes_len(s) <= 4 * s.len(),
    decreases s.len(),
{
    if s.len() > 0 {
        sizes(s.drop_last());
        assert(s =~= s.drop_last() + seq![s.last()]);
        crate::text::bytes_len_add(s.drop_last(), seq![s.last()]);
        one_char(s.last());
    } else {
        assert(s =~= Seq::empty());
        reveal_with_fuel(vstd::utf8::encode_utf8, 2);
    }
}

proof fn one_char(c: char)
    ensures
        bytes_len(seq![c]) <= 4,
{
    reveal_with_fuel(vstd::utf8::encode_utf8, 2);
    assert(seq![c].drop_first() =~= Seq::empty());
}

/// Whether a step can lead to another.
pub open spec fn leads_to(step: WorkflowStepV1View, name: Seq<char>) -> bool {
    match step {
        WorkflowStepV1View::GenerateArtifact { next_step, .. } => next_step == Some(name),
        WorkflowStepV1View::ReviseArtifact { next_step, .. } => next_step == Some(name),
        WorkflowStepV1View::RunPipeline { next_step, .. } => next_step == Some(name),
        WorkflowStepV1View::UseComponent { next_step, .. } => next_step == Some(name),
        WorkflowStepV1View::ReviewArtifact { on_approved, on_feedback, .. } => on_approved == name
            || on_feedback == name,
        WorkflowStepV1View::Complete => false,
    }
}

/// Whether a step is sound: it has a name, leads only to steps that there are, a review leaves
/// room for a revision, and a pipeline is looked for in one of the places that there are.
pub open spec fn sound_step(steps: Steps, key: Seq<char>, step: WorkflowStepV1View) -> bool {
    &&& !is_blank(key)
    &&& forall|name: Seq<char>| #[trigger] leads_to(step, name) ==> lookup(steps, name) is Some
    &&& step is ReviewArtifact ==> step->max_revisions > 0
    &&& step is RunPipeline && step->pipeline_scope is Some ==> step->pipeline_scope->0
        == "global"@ || step->pipeline_scope->0 == "project"@ || step->pipeline_scope->0
        == "effective"@
}

/// Whether a workflow is sound: it has a name, the id that it is kept under, an entry among its
/// steps, only sound steps, and one that completes it.
pub open spec fn sound_workflow(key: Seq<char>, w: WorkflowEntryV1View) -> bool {
    let steps = w.workflow.steps;
    &&& !is_blank(key)
    &&& w.id == key
    &&& !is_blank(w.name)
    &&& !is_blank(w.workflow.entry)
    &&& lookup(steps, w.workflow.entry) is Some
    &&& forall|i: int|
        0 <= i < steps.len() ==> sound_step(steps, (#[trigger] steps[i]).0, steps[i].1)
    &&& exists|i: int| 0 <= i < steps.len() && (#[trigger] steps[i]).1 is Complete
}

proof fn dangling_iff(steps: Steps, refs: Seq<Seq<char>>, i: int)
    requires
        0 <= i,
    ensures
        dangling(steps, refs, i) is None <==> forall|k: int|
            i <= k < refs.len() ==> lookup(steps, #[trigger] refs[k]) is Some,
    decreases refs.len() - i,
{
    if i < refs.len() {
        dangling_iff(steps, refs, i + 1);
    }
}

proof fn step_is_sound(id: Seq<char>, steps: Steps, key: Seq<char>, step: WorkflowStepV1View)
    ensures
        step_problem(id, steps, key, step) is None <==> sound_step(steps, key, step),
{
    let refs = next_refs(step);
    dangling_iff(steps, refs, 0);
    assert forall|name: Seq<char>| #[trigger] leads_to(step, name) implies refs.contains(name) by {
        match step {
            WorkflowStepV1View::ReviewArtifact { on_approved, on_feedback, .. } => {
                assert(refs[0] == on_approved && refs[1] == on_feedback);
            },
            _ => {
                assert(refs[0] == name);
            },
        }
    }
    assert forall|k: int| 0 <= k < refs.len() implies leads_to(step, #[trigger] refs[k]) by {}
    if dangling(steps, refs, 0) is None {
        assert forall|name: Seq<char>| #[trigger] leads_to(step, name) implies lookup(steps, name)
            is Some by {
            let k = choose|k: int| 0 <= k < refs.len() && refs[k] == name;
            assert(lookup(steps, refs[k]) is Some);
        }
    }
}

proof fn steps_are_sound(id: Seq<char>, steps: Steps, i: int)
    requires
        0 <= i,
    ensures
        steps_problem(id, steps, i) is None <==> forall|k: int|
            i <= k < steps.len() ==> sound_step(steps, (#[trigger] steps[k]).0, steps[k].1),
    decreases steps.len() - i,
{
    if i < steps.len() {
        step_is_sound(id, steps, steps[i].0, steps[i].1);
        steps_are_sound(id, steps, i + 1);
    }
}

proof fn workflow_is_sound(key: Seq<char>, w: WorkflowEntryV1View)
    ensures
        entry_problem(key, w) is None <==> sound_workflow(key, w),
{
    let steps = w.workflow.steps;
    steps_are_sound(w.id, steps, 0);
    lookup_some(steps, w.workflow.entry);
    if completes(steps, steps.len() as int) {
        let k = choose|k: int| 0 <= k < steps.len() && #[trigger] steps[k].1 is Complete;
        assert(steps[k].1 is Complete);
    }
}

proof fn workflows_are_sound(s: Seq<(Seq<char>, WorkflowEntryV1View)>, i: int)
    requires
        0 <= i,
    ensures
        entries_problem(s, i) is None <==> forall|k: int|
            i <= k < s.len() ==> sound_workflow((#[trigger] s[k]).0, s[k].1),
    decreases s.len() - i,
{
    if i < s.len() {
        workflow_is_sound(s[i].0, s[i].1);
        workflows_are_sound(s, i + 1);
    }
}

/// Whether a workflows file is sound: it is of the known version, and so is every workflow.
pub open spec fn sound_file(f: WorkflowsFileV1View) -> bool {
    f.schema_version == "1"@ && forall|k: int|
        0 <= k < f.workflows.len() ==> sound_workflow((#[trigger] f.workflows[k]).0, f.workflows[k].1)
}

/// A workflows file is accepted exactly where it is sound.
pub proof fn sound_files_are_accepted(f: WorkflowsFileV1View)
    ensures
        file_problem(f) is None <==> sound_file(f),
{
    workflows_are_sound(f.workflows, 0);
}

/// The file, or one that holds nothing.
pub open spec fn or_nothing(f: Option<WorkflowsFileV1View>) -> WorkflowsFileV1View {
    match f {
        Some(f) => f,
        None => no_workflows(),
    }
}

/// What stands under a key over what stands there below.
pub open spec fn first_of<W>(a: Option<W>, b: Option<W>) -> Option<W> {
    if a is Some {
        a
    } else {
        b
    }
}

proof fn laid_over<W>(base: Seq<(Seq<char>, W)>, over: Seq<(Seq<char>, W)>, key: Seq<char>)
    requires
        sorted(base),
        sorted(over),
    ensures
        ({
            let none: Seq<(Seq<char>, W)> = Seq::empty();
            let first = crate::strmap::put_all(none, base);
            &&& lookup(none, key) is None
            &&& lookup(first, key) == lookup(base, key)
            &&& lookup(crate::strmap::put_all(first, over), key) == first_of(
                lookup(over, key),
                lookup(base, key),
            )
            &&& lookup(crate::strmap::put_all(none, over), key) == lookup(over, key)
        }),
{
    let none: Seq<(Seq<char>, W)> = Seq::empty();
    lookup_some(none, key);
    put_all_sorted(none, base);
    lookup_put_all(none, base, key);
    lookup_put_all(none, over, key);
    lookup_put_all(crate::strmap::put_all(none, base), over, key);
}

/// Workflows are in effect exactly where every file that there is is sound. Whatever the
/// repository's file has under a key counts before what the global file has there: workflows,
/// components and what is attached to steps and components alike.
pub proof fn repository_counts_before_global(
    global: Option<WorkflowsFileV1View>,
    repo: Option<WorkflowsFileV1View>,
    key: Seq<char>,
)
    requires
        sorted(or_nothing(global).workflows),
        sorted(or_nothing(global).components),
        sorted(or_nothing(global).profile_attachments.steps),
        sorted(or_nothing(global).profile_attachments.components),
        sorted(or_nothing(repo).workflows),
        sorted(or_nothing(repo).components),
        sorted(or_nothing(repo).profile_attachments.steps),
        sorted(or_nothing(repo).profile_attachments.components),
    ensures
        ({
            let r = effective_workflows(global, repo);
            let g = or_nothing(global);
            let p = or_nothing(repo);
            &&& r is Ok <==> (global is Some ==> sound_file(g)) && (repo is Some ==> sound_file(p))
            &&& r is Ok ==> {
                let f = r->Ok_0;
                &&& f.schema_version == "1"@
                &&& lookup(f.workflows, key) == first_of(
                    lookup(p.workflows, key),
                    lookup(g.workflows, key),
                )
                &&& lookup(f.components, key) == first_of(
                    lookup(p.components, key),
                    lookup(g.components, key),
                )
                &&& lookup(f.profile_attachments.steps, key) == first_of(
                    lookup(p.profile_attachments.steps, key),
                    lookup(g.profile_attachments.steps, key),
                )
                &&& lookup(f.profile_attachments.components, key) == first_of(
                    lookup(p.profile_attachments.components, key),
                    lookup(g.profile_attachments.components, key),
                )
            }
        }),
{
    let g = or_nothing(global);
    let p = or_nothing(repo);
    sound_files_are_accepted(g);
    sound_files_are_accepted(p);
    laid_over(g.workflows, p.workflows, key);
    laid_over(g.components, p.components, key);
    laid_over(g.profile_attachments.steps, p.profile_attachments.steps, key);
    laid_over(g.profile_attachments.components, p.profile_attachments.components, key);
}

} // verus!
