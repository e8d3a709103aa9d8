//! What holds of every decision of the commands.

use vstd::prelude::*;
use crate::attach::laws::decimal_is_read_back;
use crate::attach::refs::{PipelinesFileV2View, ProfileKind};
use crate::cli::bundles::{
    components_in_effect, named_scope, pipeline_in, pipelines_in, pipelines_in_effect, shown,
    upgraded, upgraded_entries, upgraded_entry, version_of, workflow_in, workflows_in, workflows_in_effect,
    PipelineEntryV1View, PipelineResolvedEntryV1View, PipelinesFileView, PipelinesVersion,
    WorkflowResolvedEntryV1View,
};
use crate::cli::drafts::{
    check_commands, command_part, first_chars, pipeline_draft, template_draft, template_head,
    with_pipeline, with_workflow,
};
use crate::cli::explain::{
    found_is_kept, latest_decision, line_considered, lines_considered, or_else, said,
    texts_considered, texts_keep_found, SearchView,
};
use crate::cli::prompts::{
    agrees, artifact_section, feedback_section, input_lines, inputs_section, opening,
    pipeline_answered, request, review_answered, PipelineAnswer, ReviewAnswer,
};
use crate::cli::registry::{
    chosen_refs, filtered_lookup, guideline_draft, has_profile, policy_draft, registry_for,
    scoped_registry,
};
use crate::cli::runs::{
    cancelled, eligible, fresh_id, is_latest, run_choice, run_opened, safe_id, taken, turn,
    RunFileView, RunnerTurnView, WorkflowActionControlView,
};
use crate::cli::scope::{
    draft_dir, required_root, restored, scoped_file, settings_file, writable, LayerScope, Scope,
};
use crate::cli::select::{
    meant_by, search_of, searched, target_of, template_named, with_id, with_meaning, without_md,
};
use crate::json::{field, parsed, JsonView};
use crate::pipelines::expand::expanded_pipeline;
use crate::pipelines::model::{
    ExpandLimits, PartView, PipelineEntryV2View, WorkflowView,
};
use crate::profiles::model::{LoadedProfilesRegistryView, ProfileScope};
use crate::profiles::laws::{project_guidelines_override_global, untrusted_profiles_are_ignored};
use crate::profiles::resolve::{
    checked_registry, clamped, merged_registry, patched, with_commands, ProjectProfiles, Shaped,
};
use crate::strmap::{
    lookup, lookup_at, lookup_mapped, lookup_none, lookup_put, lookup_put_all, lookup_some,
    put_all_sorted, rank, sorted,
};
use crate::templates::{TemplateDiscoveryResultView, TemplateSource, TemplateView};
use crate::text::{
    contains, decimal, has_prefix, is_blank, lines, lowercased, next_char_bounds,
    same_ignoring_case, split, split_between, starts_at, trim,
};
use crate::types::commands::ChildProcessPolicy;
use crate::types::config::{PolicyConfigView, PrintRevoltConfigView};
use crate::types::profile::{
    no_refs, GuidelineProfilesFileV1, GuidelineProfilesFileV1View, PolicyProfilesFileV1,
    PolicyProfilesFileV1View, ProfileRefsView,
};
use crate::types::time::TimestampView;
use crate::types::workflows::{
    effective_workflows, WorkflowComponentV1View, WorkflowEntryV1View,
    WorkflowGraphV1View, WorkflowsFileV1View,
};
use crate::workflows::engine::{applied, next, pending_action, Components};
use crate::workflows::model::{
    ArtifactStoreConfigView, WorkflowActionResultView, WorkflowActionView, WorkflowRunStateView,
    WorkflowRunStatus,
};

verus! {

/// Whether what is in effect is the pipeline of a file, as it is written there.
pub open spec fn is_pipeline_of(
    r: Option<PipelineResolvedEntryV1View>,
    e: PipelineEntryV2View,
    source: LayerScope,
) -> bool {
    r matches Some(r) && r.id == e.id && r.name == e.name && r.enabled == e.enabled
        && r.profile_refs == e.profile_refs && r.pipeline == e.pipeline && r.source == source
}

/// A pipeline in effect is the one of the project, where the scope takes it in and it is trusted,
/// or else the global one, where the scope takes that in; it is as its file has it. Where a
/// project is passed over for want of trust, that is said.
pub proof fn pipelines_come_from_their_layers(
    scope: Scope,
    root: Option<Seq<char>>,
    trusted: bool,
    global: PipelinesFileV2View,
    project: PipelinesFileV2View,
    id: Seq<char>,
)
    requires
        sorted(global.pipelines),
        sorted(project.pipelines),
    ensures
        ({
            let m = pipelines_in_effect(scope, root, trusted, global, project);
            let r = lookup(m.entries, id);
            let over = lookup(project.pipelines, id);
            let base = lookup(global.pipelines, id);
            let project_read = scope != Scope::Global && root is Some;
            &&& project_read && trusted && over is Some ==> is_pipeline_of(
                r,
                over->0,
                LayerScope::Project,
            )
            &&& !(project_read && trusted && over is Some) && scope != Scope::Project && base
                is Some ==> is_pipeline_of(r, base->0, LayerScope::Global)
            &&& !(project_read && trusted && over is Some) && !(scope != Scope::Project && base
                is Some) ==> r is None
            &&& sorted(m.entries)
            &&& project_read && !trusted ==> m.warnings == seq![
                "Repo pipelines bundle ignored (repo not trusted): "@ + root->0,
            ]
            &&& !(project_read && !trusted) ==> m.warnings.len() == 0
        }),
{
    let none: Seq<(Seq<char>, PipelineResolvedEntryV1View)> = Seq::empty();
    let g = pipelines_in(global.pipelines, LayerScope::Global);
    let p = pipelines_in(project.pipelines, LayerScope::Project);
    lookup_some(none, id);
    let fg = |e: PipelineEntryV2View| pipeline_in(e, LayerScope::Global);
    assert(g =~= global.pipelines.map_values(
        |e: (Seq<char>, PipelineEntryV2View)| (e.0, fg(e.1)),
    ));
    lookup_mapped(global.pipelines, g, fg, id);
    let fp = |e: PipelineEntryV2View| pipeline_in(e, LayerScope::Project);
    assert(p =~= project.pipelines.map_values(
        |e: (Seq<char>, PipelineEntryV2View)| (e.0, fp(e.1)),
    ));
    lookup_mapped(project.pipelines, p, fp, id);
    put_all_sorted(none, g);
    lookup_put_all(none, g, id);
    let base = if scope != Scope::Project {
        crate::strmap::put_all(none, g)
    } else {
        none
    };
    put_all_sorted(base, p);
    lookup_put_all(base, p, id);
}

/// Whether what is in effect is the workflow of a file, as it is written there.
pub open spec fn is_workflow_of(
    r: Option<WorkflowResolvedEntryV1View>,
    e: WorkflowEntryV1View,
    source: LayerScope,
) -> bool {
    r matches Some(r) && r.id == e.id && r.name == e.name && r.enabled == e.enabled
        && r.profile_refs == e.profile_refs && r.workflow == e.workflow && r.source == source
}

/// A workflow in effect is the one of the project, where the scope takes it in and it is trusted,
/// or else the global one, where the scope takes that in; it is as its file has it. The files
/// that count must together be valid, and give the components.
pub proof fn workflows_come_from_their_layers(
    scope: Scope,
    root: Option<Seq<char>>,
    trusted: bool,
    global: WorkflowsFileV1View,
    project: WorkflowsFileV1View,
    id: Seq<char>,
)
    requires
        sorted(global.workflows),
        sorted(project.workflows),
    ensures
        ({
            let m = workflows_in_effect(scope, root, trusted, global, project);
            let project_read = scope != Scope::Global && root is Some;
            let together = effective_workflows(
                if scope != Scope::Project {
                    Some(global)
                } else {
                    None
                },
                if project_read && trusted {
                    Some(project)
                } else {
                    None
                },
            );
            &&& m is Ok <==> together is Ok
            &&& m is Ok ==> {
                let r = lookup(m->Ok_0.entries, id);
                let over = lookup(project.workflows, id);
                let base = lookup(global.workflows, id);
                &&& m->Ok_0.components == together->Ok_0.components
                &&& project_read && trusted && over is Some ==> is_workflow_of(
                    r,
                    over->0,
                    LayerScope::Project,
                )
                &&& !(project_read && trusted && over is Some) && scope != Scope::Project && base
                    is Some ==> is_workflow_of(r, base->0, LayerScope::Global)
                &&& !(project_read && trusted && over is Some) && !(scope != Scope::Project && base
                    is Some) ==> r is None
                &&& project_read && !trusted ==> m->Ok_0.warnings == seq![
                    "Repo workflows bundle ignored (repo not trusted): "@ + root->0,
                ]
                &&& !(project_read && !trusted) ==> m->Ok_0.warnings.len() == 0
            }
        }),
{
    let none: Seq<(Seq<char>, WorkflowResolvedEntryV1View)> = Seq::empty();
    let g = workflows_in(global.workflows, LayerScope::Global);
    let p = workflows_in(project.workflows, LayerScope::Project);
    lookup_some(none, id);
    let fg = |e: WorkflowEntryV1View| workflow_in(e, LayerScope::Global);
    assert(g =~= global.workflows.map_values(
        |e: (Seq<char>, WorkflowEntryV1View)| (e.0, fg(e.1)),
    ));
    lookup_mapped(global.workflows, g, fg, id);
    let fp = |e: WorkflowEntryV1View| workflow_in(e, LayerScope::Project);
    assert(p =~= project.workflows.map_values(
        |e: (Seq<char>, WorkflowEntryV1View)| (e.0, fp(e.1)),
    ));
    lookup_mapped(project.workflows, p, fp, id);
    put_all_sorted(none, g);
    lookup_put_all(none, g, id);
    let base = if scope != Scope::Project {
        crate::strmap::put_all(none, g)
    } else {
        none
    };
    put_all_sorted(base, p);
    lookup_put_all(base, p, id);
}

/// A component that pipelines can use is the one of the project, where that is trusted, or else
/// the global one.
pub proof fn components_come_from_their_layers(
    root: Option<Seq<char>>,
    trusted: bool,
    global: PipelinesFileV2View,
    project: PipelinesFileV2View,
    id: Seq<char>,
)
    requires
        sorted(global.components),
        sorted(project.components),
    ensures
        lookup(components_in_effect(root, trusted, global, project), id) == (if root is Some
            && trusted && lookup(project.components, id) is Some {
            lookup(project.components, id)
        } else {
            lookup(global.components, id)
        }),
{
    lookup_put_all(global.components, project.components, id);
}

/// A pipeline is shown with the components of its own layer: a global one with the global ones,
/// whatever the project has; a project's one with those of both, and only where there is a
/// project.
pub proof fn pipelines_are_shown_with_their_components(
    e: PipelineResolvedEntryV1View,
    root: Option<Seq<char>>,
    trusted: bool,
    global: PipelinesFileV2View,
    project: PipelinesFileV2View,
    limits: ExpandLimits,
)
    ensures
        ({
            let r = shown(e, root, trusted, global, project, limits);
            let own = expanded_pipeline(e.pipeline, global.components, limits);
            let both = expanded_pipeline(
                e.pipeline,
                components_in_effect(root, trusted, global, project),
                limits,
            );
            &&& e.source == LayerScope::Global ==> (r is Ok <==> own is Ok) && (r is Ok ==> r->Ok_0
                == own->Ok_0)
            &&& e.source == LayerScope::Project && root is None ==> r is Err
            &&& e.source == LayerScope::Project && root is Some ==> (r is Ok <==> both is Ok) && (r
                is Ok ==> r->Ok_0 == both->Ok_0)
        }),
{
}

/// A file of the first version means the same pipelines in the second, without profiles and
/// components; a file of the second stays.
pub proof fn upgrading_keeps_the_pipelines(f: PipelinesFileView, id: Seq<char>)
    requires
        f matches PipelinesFileView::V1(v1) ==> sorted(v1.pipelines),
    ensures
        f matches PipelinesFileView::V2(v2) ==> upgraded(f) == v2,
        f matches PipelinesFileView::V1(v1) ==> {
            let r = lookup(upgraded(f).pipelines, id);
            &&& r is Some <==> lookup(v1.pipelines, id) is Some
            &&& r is Some ==> {
                let e = lookup(v1.pipelines, id)->0;
                &&& r->0.id == e.id
                &&& r->0.name == e.name
                &&& r->0.enabled == e.enabled
                &&& r->0.pipeline == e.pipeline
                &&& r->0.profile_refs == no_refs()
            }
            &&& upgraded(f).schema_version == "2"@
            &&& upgraded(f).components.len() == 0
        },
{
    if let PipelinesFileView::V1(v1) = f {
        let none: Seq<(Seq<char>, PipelineEntryV2View)> = Seq::empty();
        lookup_some(none, id);
        let t = upgraded_entries(v1.pipelines);
        let f = |e: PipelineEntryV1View| upgraded_entry(e);
        assert(t =~= v1.pipelines.map_values(
            |e: (Seq<char>, PipelineEntryV1View)| (e.0, f(e.1)),
        ));
        lookup_mapped(v1.pipelines, t, f, id);
        lookup_put_all(none, t, id);
    }
}

/// A pipelines file is of the version that it says, of the first where it says none that is a
/// text, and of no other.
pub proof fn versions_are_as_said(v: JsonView, t: Seq<char>)
    ensures
        field(v, "schema_version"@) == Some(JsonView::Str(t)) ==> {
            &&& t == "1"@ ==> version_of(v) == Ok::<PipelinesVersion, Seq<char>>(
                PipelinesVersion::V1,
            )
            &&& t == "2"@ ==> version_of(v) == Ok::<PipelinesVersion, Seq<char>>(
                PipelinesVersion::V2,
            )
            &&& t != "1"@ && t != "2"@ ==> version_of(v) is Err
        },
        !(field(v, "schema_version"@) matches Some(JsonView::Str(_))) ==> version_of(v) == Ok::<
            PipelinesVersion,
            Seq<char>,
        >(PipelinesVersion::V1),
{
    reveal_strlit("1");
    reveal_strlit("2");
    assert("1"@[0] != "2"@[0]);
}

/// What a filter keeps is found as before, and nothing else is.
proof fn filtered_is_found<W>(
    s: Seq<(Seq<char>, W)>,
    keep: spec_fn((Seq<char>, W)) -> bool,
    id: Seq<char>,
)
    requires
        sorted(s),
    ensures
        sorted(s.filter(keep)),
        lookup(s.filter(keep), id) == (match lookup(s, id) {
            Some(w) => if keep((id, w)) {
                Some(w)
            } else {
                None
            },
            None => None,
        }),
{
    let t = s.filter(keep);
    assert(s.subrange(0, s.len() as int) =~= s);
    filtered_lookup(s, keep, s.len() as int);
    lookup_some(s, id);
    lookup_some(t, id);
    lookup_none(s, id);
    lookup_none(t, id);
    if lookup(t, id) is Some {
        let i = rank(t, id);
        assert(t.contains(t[i]));
        let j = choose|j: int| 0 <= j < s.len() && t[i] == s[j];
        lookup_at(s, j);
        s.lemma_filter_pred(keep, i);
    }
    if let Some(w) = lookup(s, id) {
        if keep((id, w)) {
            let j = rank(s, id);
            assert(s[j] == (id, w));
            s.lemma_filter_contains(keep, j);
            let i = choose|i: int| 0 <= i < t.len() && t[i] == s[j];
            lookup_at(t, i);
        }
    }
}

/// The layer that a scope names, where it names one.
pub open spec fn one_layer(scope: Scope) -> Option<ProfileScope> {
    match scope {
        Scope::Global => Some(ProfileScope::Global),
        Scope::Project => Some(ProfileScope::Project),
        Scope::Both => None,
    }
}

/// A scope of one layer leaves exactly the profiles that came from it, as they are; one of both
/// layers leaves all.
pub proof fn scopes_leave_their_profiles(
    r: LoadedProfilesRegistryView,
    scope: Scope,
    id: Seq<char>,
)
    requires
        sorted(r.policy_profiles),
        sorted(r.guideline_profiles),
    ensures
        ({
            let f = scoped_registry(r, scope);
            let keeps = |from: Option<ProfileScope>| one_layer(scope) is None || from == one_layer(
                scope,
            );
            &&& lookup(f.policy_profiles, id) == (if keeps(lookup(r.policy_scope, id)) {
                lookup(r.policy_profiles, id)
            } else {
                None
            })
            &&& lookup(f.guideline_profiles, id) == (if keeps(lookup(r.guideline_scope, id)) {
                lookup(r.guideline_profiles, id)
            } else {
                None
            })
            &&& has_profile(f, ProfileKind::Policy, id) <==> lookup(f.policy_profiles, id) is Some
            &&& has_profile(f, ProfileKind::Guideline, id) <==> lookup(f.guideline_profiles, id)
                is Some
            &&& f.policy_scope == r.policy_scope
            &&& f.guideline_scope == r.guideline_scope
        }),
{
    if one_layer(scope) is Some {
        let layer = one_layer(scope)->0;
        filtered_is_found(
            r.policy_profiles,
            |e: (Seq<char>, _)| lookup(r.policy_scope, e.0) == Some(layer),
            id,
        );
        filtered_is_found(
            r.guideline_profiles,
            |e: (Seq<char>, _)| lookup(r.guideline_scope, e.0) == Some(layer),
            id,
        );
    }
}

/// Profiles asked for by name count in place of those of the settings, each kind for itself.
pub proof fn given_names_replace_the_settings(
    given: ProfileRefsView,
    cfg: PrintRevoltConfigView,
)
    ensures
        ({
            let r = chosen_refs(given, cfg);
            &&& given.policy_profiles.len() > 0 ==> r.policy_profiles == given.policy_profiles
            &&& given.policy_profiles.len() == 0 ==> r.policy_profiles == cfg.policy_profiles
            &&& given.guideline_profiles.len() > 0 ==> r.guideline_profiles
                == given.guideline_profiles
            &&& given.guideline_profiles.len() == 0 ==> r.guideline_profiles
                == cfg.guideline_profiles
        }),
{
}

/// A file of the global layer is found whatever the project; one of the project's layer needs a
/// root, and lies at the same place below it whatever the home. Only one layer can be written.
pub proof fn layers_have_their_own_files(
    home: Seq<char>,
    other_home: Seq<char>,
    root: Option<Seq<char>>,
    other_root: Option<Seq<char>>,
    scope: LayerScope,
    name: Seq<char>,
    flag: Seq<char>,
)
    ensures
        scope == LayerScope::Global ==> {
            &&& scoped_file(home, root, scope, name) is Ok
            &&& settings_file(home, root, scope) is Ok
            &&& draft_dir(home, root, scope) is Ok
            &&& scoped_file(home, root, scope, name) == scoped_file(home, other_root, scope, name)
            &&& settings_file(home, root, scope) == settings_file(home, other_root, scope)
            &&& draft_dir(home, root, scope) == draft_dir(home, other_root, scope)
        },
        scope == LayerScope::Project ==> {
            &&& scoped_file(home, root, scope, name) is Ok <==> root is Some
            &&& settings_file(home, root, scope) is Ok <==> root is Some
            &&& draft_dir(home, root, scope) is Ok <==> root is Some
            &&& scoped_file(home, root, scope, name) == scoped_file(other_home, root, scope, name)
            &&& settings_file(home, root, scope) == settings_file(other_home, root, scope)
            &&& draft_dir(home, root, scope) == draft_dir(other_home, root, scope)
        },
        writable(Scope::Global, flag) == Ok::<LayerScope, Seq<char>>(LayerScope::Global),
        writable(Scope::Project, flag) == Ok::<LayerScope, Seq<char>>(LayerScope::Project),
        writable(Scope::Both, flag) is Err,
        required_root(root, Scope::Project) is Ok <==> root is Some,
        required_root(root, Scope::Global) == Ok::<Option<Seq<char>>, Seq<char>>(root),
        required_root(root, Scope::Both) == Ok::<Option<Seq<char>>, Seq<char>>(root),
        root is Some ==> required_root(root, Scope::Project) == Ok::<Option<Seq<char>>, Seq<char>>(
            root,
        ),
{
}

/// A file is restored to where it is written.
pub proof fn files_are_restored_to_their_place(
    home: Seq<char>,
    root: Option<Seq<char>>,
    scope: LayerScope,
    target: Seq<char>,
)
    ensures
        ({
            let place = |t: Seq<char>|
                match restored(t, home, root, scope) {
                    Ok(x) => Ok(x.path),
                    Err(e) => Err(e),
                };
            &&& place("printrevolt-toml"@) == settings_file(home, root, scope)
            &&& place("pipelines-json"@) == scoped_file(home, root, scope, "pipelines.json"@)
            &&& place("workflows-json"@) == scoped_file(home, root, scope, "workflows.json"@)
            &&& target != "printrevolt-toml"@ && target != "pipelines-json"@ && target
                != "workflows-json"@ ==> restored(target, home, root, scope) is Err
        }),
{
    reveal_strlit("printrevolt-toml");
    reveal_strlit("pipelines-json");
    reveal_strlit("workflows-json");
    assert("printrevolt-toml"@[1] == 'r');
    assert("pipelines-json"@[1] == 'i');
    assert("workflows-json"@[1] == 'o');
}

/// What a search of templates comes to: for a project alone its own templates, in their order;
/// else whatever was found. Without a project there are none for it, and that is said.
pub proof fn scopes_leave_their_templates(
    root: Option<Seq<char>>,
    scope: Scope,
    found: TemplateDiscoveryResultView,
    t: TemplateView,
)
    ensures
        ({
            let r = searched(search_of(root, scope), found);
            &&& scope == Scope::Project && root is None ==> r.templates.len() == 0
                && r.warnings.len() == 1
            &&& scope == Scope::Project && root is Some ==> r.warnings == found.warnings && (
            r.templates.contains(t) <==> found.templates.contains(t) && t.source
                == TemplateSource::Repo)
            &&& scope != Scope::Project ==> r == found
            &&& scope == Scope::Global ==> !search_of(root, scope)->0.repo
            &&& scope == Scope::Both ==> (search_of(root, scope)->0.repo <==> root is Some)
            &&& scope == Scope::Project && root is Some ==> search_of(root, scope)->0.repo
        }),
{
    let keep = |t: TemplateView| t.source == TemplateSource::Repo;
    let f = found.templates.filter(keep);
    if f.contains(t) {
        let i = choose|i: int| 0 <= i < f.len() && f[i] == t;
        found.templates.lemma_filter_pred(keep, i);
        found.templates.lemma_filter_contains_rev(keep, t);
    }
    if found.templates.contains(t) && keep(t) {
        let i = choose|i: int| 0 <= i < found.templates.len() && found.templates[i] == t;
        found.templates.lemma_filter_contains(keep, i);
    }
}

proof fn first_with_id(s: Seq<TemplateView>, i: int, k: int, id: Seq<char>)
    requires
        0 <= i <= k <= s.len(),
        k < s.len() ==> s[k].id == id,
        forall|j: int| i <= j < k ==> (#[trigger] s[j]).id != id,
    ensures
        with_id(s, i, id) == (if k < s.len() {
            Some(s[k])
        } else {
            None
        }),
    decreases k - i,
{
    if i < k {
        first_with_id(s, i + 1, k, id);
    }
}

proof fn first_with_meaning(s: Seq<TemplateView>, i: int, k: int, text: Seq<char>)
    requires
        0 <= i <= k <= s.len(),
        k < s.len() ==> meant_by(s[k], text),
        forall|j: int| i <= j < k ==> !meant_by(#[trigger] s[j], text),
    ensures
        with_meaning(s, i, text) == (if k < s.len() {
            Some(s[k])
        } else {
            None
        }),
    decreases k - i,
{
    if i < k {
        first_with_meaning(s, i + 1, k, text);
    }
}

/// The first template with an id is the one that the id names. Where none has it, the first that
/// can be meant is; and where none can, nothing is named. The file of a template is its path.
pub proof fn first_match_is_named(s: Seq<TemplateView>, k: int, text: Seq<char>)
    requires
        0 <= k < s.len(),
    ensures
        s[k].id == text && (forall|j: int| 0 <= j < k ==> (#[trigger] s[j]).id != text)
            ==> template_named(s, text) == Some(s[k]),
        (forall|j: int| 0 <= j < s.len() ==> (#[trigger] s[j]).id != text) && meant_by(s[k], text)
            && (forall|j: int| 0 <= j < k ==> !meant_by(#[trigger] s[j], text)) ==> template_named(
            s,
            text,
        ) == Some(s[k]),
        (forall|j: int|
            0 <= j < s.len() ==> (#[trigger] s[j]).id != text && !meant_by(s[j], text))
            ==> template_named(s, text) is None,
        template_named(s, text) is Some && template_named(s, text)->0.path is Some ==> target_of(
            s,
            text,
        ) == Ok::<Seq<char>, Seq<char>>(template_named(s, text)->0.path->0),
        !(template_named(s, text) is Some && template_named(s, text)->0.path is Some)
            ==> target_of(s, text) is Err,
{
    if s[k].id == text && (forall|j: int| 0 <= j < k ==> (#[trigger] s[j]).id != text) {
        first_with_id(s, 0, k, text);
    }
    if forall|j: int| 0 <= j < s.len() ==> (#[trigger] s[j]).id != text {
        first_with_id(s, 0, s.len() as int, text);
        if meant_by(s[k], text) && (forall|j: int| 0 <= j < k ==> !meant_by(#[trigger] s[j], text)) {
            first_with_meaning(s, 0, k, text);
        }
        if forall|j: int| 0 <= j < s.len() ==> !meant_by(#[trigger] s[j], text) {
            first_with_meaning(s, 0, s.len() as int, text);
        }
    }
}

/// A template is meant by its title, whatever the case of its letters, and by the name of its
/// file, with or without the ending.
pub proof fn title_and_file_name_are_understood(
    t: TemplateView,
    prefix: Seq<char>,
    name: Seq<char>,
)
    requires
        !name.contains(':'),
        without_md(name) == name,
    ensures
        same_ignoring_case(t.name, name) ==> meant_by(t, name),
        t.id == prefix.push(':') + (name + ".md"@) ==> meant_by(t, name),
        t.id == prefix.push(':') + name ==> meant_by(t, name),
        !same_ignoring_case(t.name, name) && t.id == prefix.push(':') + name ==> !meant_by(
            t,
            name + ".md"@,
        ) || same_ignoring_case(t.name, name + ".md"@),
{
    reveal_strlit(".md");
    let file = name + ".md"@;
    assert(file.subrange(0, file.len() - 3) =~= name);
    assert(without_md(file) == name);
    assert(!file.contains(':')) by {
        if file.contains(':') {
            let i = choose|i: int| 0 <= i < file.len() && file[i] == ':';
            if i < name.len() {
                assert(name[i] == ':');
            }
        }
    }
    last_piece(prefix, name);
    last_piece(prefix, file);
}

proof fn last_piece(prefix: Seq<char>, name: Seq<char>)
    requires
        !name.contains(':'),
    ensures
        split(prefix.push(':') + name, ':').last() == name,
{
    split_between(prefix, name, ':');
    next_char_bounds(name, 0, ':');
    assert(split(name, ':') =~= seq![name]) by {
        assert(name.subrange(0, name.len() as int) =~= name);
    }
    assert((split(prefix, ':') + split(name, ':')).last() == name);
}

/// The turn of a run that may go no further: it has ended, or has used up its steps.
pub proof fn ended_runs_take_no_turn(
    g: WorkflowGraphV1View,
    c: Components,
    s: WorkflowRunStateView,
    steps: u32,
    max_steps: u32,
    emit: bool,
)
    ensures
        steps >= max_steps ==> after_turn(turn(g, c, s, steps, max_steps, emit)) == s
            && came_to(turn(g, c, s, steps, max_steps, emit)) is Err,
        steps < max_steps && (s.status == WorkflowRunStatus::Completed || s.status
            == WorkflowRunStatus::NeedsHuman || s.status == WorkflowRunStatus::Failed)
            ==> after_turn(turn(g, c, s, steps, max_steps, emit)) == s && came_to(
            turn(g, c, s, steps, max_steps, emit),
        ) == Ok::<RunnerTurnView, Seq<char>>(RunnerTurnView::Ended),
{
}

/// The state after a turn.
pub open spec fn after_turn(
    t: (WorkflowRunStateView, Result<RunnerTurnView, Seq<char>>),
) -> WorkflowRunStateView {
    let (s, _) = t;
    s
}

/// What a turn came to.
pub open spec fn came_to(t: (WorkflowRunStateView, Result<RunnerTurnView, Seq<char>>)) -> Result<
    RunnerTurnView,
    Seq<char>,
> {
    let (_, r) = t;
    r
}

/// What is done about an action: it is told where the caller wants it told, else performed, and
/// the last one ends the run.
pub open spec fn is_done_about(r: Result<RunnerTurnView, Seq<char>>, a: WorkflowActionView, emit: bool) -> bool {
    &&& r is Ok
    &&& emit ==> r->Ok_0 == RunnerTurnView::Emit(a)
    &&& !emit && a is Complete ==> r->Ok_0 == RunnerTurnView::Completed
    &&& !emit && !(a is Complete) ==> r->Ok_0 == RunnerTurnView::Perform(a)
}

/// The turn of a run that goes on: an action that is still open is taken up again, and the run
/// stays; else the run is asked for its next action.
pub proof fn turns_follow_the_run(
    g: WorkflowGraphV1View,
    c: Components,
    s: WorkflowRunStateView,
    steps: u32,
    max_steps: u32,
    emit: bool,
    t: WorkflowRunStateView,
    a: WorkflowActionView,
)
    requires
        steps < max_steps,
        s.status == WorkflowRunStatus::Running || s.status == WorkflowRunStatus::Waiting,
    ensures
        ({
            let r = turn(g, c, s, steps, max_steps, emit);
            &&& s.pending is Some ==> after_turn(r) == s
            &&& s.pending is Some && pending_action(g, c, s) == Ok::<
                Option<WorkflowActionView>,
                crate::workflows::model::WorkflowErrorView,
            >(Some(a)) ==> is_done_about(came_to(r), a, emit)
            &&& s.pending is Some && !(pending_action(g, c, s) matches Ok(Some(_))) ==> came_to(r)
                is Err
            &&& s.pending is None && next(g, c, s) == (
                t,
                Ok::<Option<WorkflowActionView>, crate::workflows::model::WorkflowErrorView>(
                    Some(a),
                ),
            ) ==> after_turn(r) == t && is_done_about(came_to(r), a, emit)
            &&& s.pending is None && next(g, c, s) == (
                t,
                Ok::<Option<WorkflowActionView>, crate::workflows::model::WorkflowErrorView>(None),
            ) ==> after_turn(r) == t && came_to(r) == Ok::<RunnerTurnView, Seq<char>>(
                RunnerTurnView::Idle,
            )
        }),
{
}

/// What came of an action is taken as the run takes it; a run that the user cancels fails, says
/// so, has nothing open, and keeps all else.
pub proof fn control_is_taken(
    g: WorkflowGraphV1View,
    c: Components,
    limit: u32,
    cfg: ArtifactStoreConfigView,
    now: TimestampView,
    s: WorkflowRunStateView,
    action: WorkflowActionView,
    result: WorkflowActionResultView,
)
    ensures
        taken(g, c, limit, cfg, now, s, action, WorkflowActionControlView::Result(result))
            == applied(g, c, limit, cfg, now, s, action, result),
        ({
            let (t, w) = taken(
                g,
                c,
                limit,
                cfg,
                now,
                s,
                action,
                WorkflowActionControlView::Cancelled,
            );
            &&& t == cancelled(s)
            &&& w is Ok && w->Ok_0 is None
            &&& t.status == WorkflowRunStatus::Failed
            &&& t.pending is None
            &&& t.last_error == Some("cancelled by user"@)
            &&& t.run_id == s.run_id
            &&& t.workflow_id == s.workflow_id
            &&& t.current_step_id == s.current_step_id
            &&& t.revision_counters == s.revision_counters
            &&& t.feedback == s.feedback
            &&& t.artifacts == s.artifacts
        }),
{
}

/// A run is opened for its own workflow only. One that is there is taken up as it is; one that
/// does not say whose it is becomes the workflow's. Where there is none, a new one starts at the
/// entry of the workflow, unless an old one was asked for.
pub proof fn runs_are_opened_for_their_workflow(
    g: WorkflowGraphV1View,
    existing: Option<WorkflowRunStateView>,
    resume: bool,
    run_id: Seq<char>,
    workflow_id: Seq<char>,
    path: Seq<char>,
)
    ensures
        ({
            let r = run_opened(g, existing, resume, run_id, workflow_id, path);
            &&& r is Ok ==> r->Ok_0.workflow_id == Some(workflow_id)
            &&& existing matches Some(s) ==> {
                &&& s.workflow_id == Some(workflow_id) ==> r == Ok::<
                    WorkflowRunStateView,
                    Seq<char>,
                >(s)
                &&& s.workflow_id is None ==> r is Ok && (WorkflowRunStateView {
                    workflow_id: None,
                    ..r->Ok_0
                }) == s
                &&& s.workflow_id is Some && s.workflow_id->0 != workflow_id ==> r is Err
            }
            &&& existing is None && resume ==> r is Err
            &&& existing is None && !resume ==> {
                &&& r is Ok
                &&& r->Ok_0.run_id == run_id
                &&& r->Ok_0.current_step_id == g.entry
                &&& r->Ok_0.status == WorkflowRunStatus::Running
                &&& r->Ok_0.pending is None
                &&& r->Ok_0.last_error is None
                &&& r->Ok_0.artifacts.len() == 0
                &&& r->Ok_0.feedback.len() == 0
                &&& r->Ok_0.revision_counters.len() == 0
            }
        }),
{
}

/// The run that a command works on: one that is named, made fit for a name, whatever else is
/// asked; the last one, where an old one is asked for, which must be there; else a new one, and
/// those of different moments differ.
pub proof fn runs_are_chosen(
    run_id: Seq<char>,
    resume: bool,
    latest: Option<Seq<char>>,
    workflow_id: Seq<char>,
    now: u64,
    later: u64,
)
    requires
        now != later,
    ensures
        run_choice(Some(run_id), resume, latest, workflow_id, now) == Ok::<Seq<char>, Seq<char>>(
            safe_id(run_id),
        ),
        latest is Some ==> run_choice(None, true, latest, workflow_id, now) == Ok::<
            Seq<char>,
            Seq<char>,
        >(latest->0),
        latest is None ==> run_choice(None, true, latest, workflow_id, now) is Err,
        run_choice(None, false, latest, workflow_id, now) == Ok::<Seq<char>, Seq<char>>(
            fresh_id(workflow_id, now),
        ),
        fresh_id(workflow_id, now) != fresh_id(workflow_id, later),
        has_prefix(fresh_id(workflow_id, now), safe_id(workflow_id)),
{
    let head = safe_id(workflow_id) + "-"@;
    let a = fresh_id(workflow_id, now);
    let b = fresh_id(workflow_id, later);
    decimal_is_read_back(now as nat, u64::MAX as nat);
    decimal_is_read_back(later as nat, u64::MAX as nat);
    assert(a.subrange(head.len() as int, a.len() as int) =~= decimal(now as nat));
    assert(b.subrange(head.len() as int, b.len() as int) =~= decimal(later as nat));
    assert(a.subrange(0, safe_id(workflow_id).len() as int) =~= safe_id(workflow_id));
}

/// Whether a line of the log tells of a policy decision.
pub open spec fn tells_decision(line: Seq<char>) -> bool {
    parsed(line) is Ok && field(parsed(line)->Ok_0, "kind"@) == Some(
        JsonView::Str("policy_decision"@),
    )
}

/// Whether the decision that a line of the log tells of lets the call through.
pub open spec fn tells_allowing(line: Seq<char>) -> bool {
    match field(parsed(line)->Ok_0, "payload"@) {
        None => false,
        Some(p) => match field(p, "decision"@) {
            None => false,
            Some(d) => field(d, "kind"@) == Some(JsonView::Str("allow"@)),
        },
    }
}

/// Whether a line of the log is looked for.
pub open spec fn looked_for(line: Seq<char>, prefer_non_allow: bool) -> bool {
    tells_decision(line) && (prefer_non_allow ==> !tells_allowing(line))
}

/// How many of the last lines of a text are looked at.
pub open spec fn first_seen(l: Seq<Seq<char>>) -> int {
    if l.len() > 500 {
        l.len() - 500
    } else {
        0
    }
}

proof fn lines_are_searched(
    s: SearchView,
    l: Seq<Seq<char>>,
    n: int,
    most: nat,
    prefer: bool,
    j: int,
)
    requires
        s.found is None,
        0 <= n <= l.len(),
    ensures
        ({
            let t = lines_considered(s, l, n, most, prefer);
            &&& 0 <= j < n && n - most <= j && looked_for(l[j], prefer) && (forall|k: int|
                j < k < n ==> !looked_for(#[trigger] l[k], prefer)) ==> t.found == Some(
                parsed(l[j])->Ok_0,
            )
            &&& (forall|k: int| 0 <= k < n && n - most <= k ==> !looked_for(#[trigger] l[k], prefer))
                ==> t.found is None && (s.allowed is Some ==> t.allowed == s.allowed) && (s.allowed
                is None && 0 <= j < n && n - most <= j && tells_decision(l[j]) && (forall|k: int|
                j < k < n ==> !tells_decision(#[trigger] l[k])) ==> t.allowed == Some(
                parsed(l[j])->Ok_0,
            ))
            &&& (forall|k: int| 0 <= k < n && n - most <= k ==> !tells_decision(#[trigger] l[k]))
                ==> t == s
        }),
    decreases n,
{
    if n > 0 && most > 0 {
        let t = line_considered(s, l[n - 1], prefer);
        if t.found is Some {
            found_is_kept(t, l, n - 1, (most - 1) as nat, prefer);
            assert(looked_for(l[n - 1], prefer));
        } else {
            lines_are_searched(t, l, n - 1, (most - 1) as nat, prefer, j);
            assert(!looked_for(l[n - 1], prefer));
        }
    }
}

proof fn texts_are_searched(
    s: SearchView,
    texts: Seq<Seq<char>>,
    m: int,
    prefer: bool,
    i: int,
    j: int,
)
    requires
        s.found is None,
        0 <= m <= texts.len(),
    ensures
        ({
            let t = texts_considered(s, texts, m, prefer);
            let none_before = |p: spec_fn(Seq<char>) -> bool|
                (forall|a: int, b: int|
                    m <= a < i && first_seen(lines(texts[a])) <= b < lines(texts[a]).len() ==> !p(
                        #[trigger] lines(texts[a])[b],
                    )) && forall|b: int|
                    j < b < lines(texts[i]).len() ==> !p(#[trigger] lines(texts[i])[b]);
            let none_at_all = |p: spec_fn(Seq<char>) -> bool|
                forall|a: int, b: int|
                    m <= a < texts.len() && first_seen(lines(texts[a])) <= b < lines(
                        texts[a],
                    ).len() ==> !p(#[trigger] lines(texts[a])[b]);
            let here = m <= i < texts.len() && first_seen(lines(texts[i])) <= j < lines(
                texts[i],
            ).len();
            &&& here && looked_for(lines(texts[i])[j], prefer) && none_before(
                |x: Seq<char>| looked_for(x, prefer),
            ) ==> t.found == Some(parsed(lines(texts[i])[j])->Ok_0)
            &&& none_at_all(|x: Seq<char>| looked_for(x, prefer)) ==> t.found is None && (s.allowed
                is Some ==> t.allowed == s.allowed)
            &&& none_at_all(|x: Seq<char>| looked_for(x, prefer)) && s.allowed is None && here
                && tells_decision(lines(texts[i])[j]) && none_before(
                |x: Seq<char>| tells_decision(x),
            ) ==> t.allowed == Some(parsed(lines(texts[i])[j])->Ok_0)
            &&& none_at_all(|x: Seq<char>| tells_decision(x)) ==> t == s
        }),
    decreases texts.len() - m,
{
    if m < texts.len() {
        let l = lines(texts[m]);
        let n = l.len() as int;
        let t = lines_considered(s, l, n, 500, prefer);
        lines_are_searched(s, l, n, 500, prefer, j);
        if t.found is Some {
            texts_keep_found(t, texts, m + 1, prefer);
            if forall|k: int| first_seen(l) <= k < n ==> !looked_for(#[trigger] l[k], prefer) {
                assert(forall|k: int| 0 <= k < n && n - 500 <= k ==> !looked_for(l[k], prefer));
            }
        } else {
            texts_are_searched(t, texts, m + 1, prefer, i, j);
        }
    }
}

/// The decision that is explained is the last in the log, the latest text first and at most the
/// last five hundred lines of each. Where one that stops a call is preferred, one that lets it
/// through is explained only where there is no other; and where there is none, nothing is.
pub proof fn last_decision_is_explained(
    texts: Seq<Seq<char>>,
    prefer_non_allow: bool,
    i: int,
    j: int,
)
    requires
        0 <= i < texts.len(),
        first_seen(lines(texts[i])) <= j < lines(texts[i]).len(),
    ensures
        ({
            let r = latest_decision(texts, prefer_non_allow);
            let none_later = |p: spec_fn(Seq<char>) -> bool|
                (forall|a: int, b: int|
                    0 <= a < i && first_seen(lines(texts[a])) <= b < lines(texts[a]).len() ==> !p(
                        #[trigger] lines(texts[a])[b],
                    )) && forall|b: int|
                    j < b < lines(texts[i]).len() ==> !p(#[trigger] lines(texts[i])[b]);
            let none_at_all = |p: spec_fn(Seq<char>) -> bool|
                forall|a: int, b: int|
                    0 <= a < texts.len() && first_seen(lines(texts[a])) <= b < lines(
                        texts[a],
                    ).len() ==> !p(#[trigger] lines(texts[a])[b]);
            let line = lines(texts[i])[j];
            &&& looked_for(line, prefer_non_allow) && none_later(
                |x: Seq<char>| looked_for(x, prefer_non_allow),
            ) ==> r == Some(parsed(line)->Ok_0)
            &&& tells_decision(line) && none_at_all(
                |x: Seq<char>| looked_for(x, prefer_non_allow),
            ) && none_later(|x: Seq<char>| tells_decision(x)) ==> r == Some(parsed(line)->Ok_0)
            &&& none_at_all(|x: Seq<char>| tells_decision(x)) ==> r is None
        }),
{
    texts_are_searched(
        SearchView { found: None, allowed: None },
        texts,
        0,
        prefer_non_allow,
        i,
        j,
    );
}

proof fn stands_in(a: Seq<char>, p: Seq<char>, b: Seq<char>)
    ensures
        contains(a + p + b, p),
{
    let s = a + p + b;
    assert(s.subrange(a.len() as int, (a.len() + p.len()) as int) =~= p);
    assert(starts_at(s, a.len() as int, p));
}

proof fn input_has_its_line(s: Seq<(Seq<char>, Seq<char>)>, n: int, i: int) -> (r: (
    Seq<char>,
    Seq<char>,
))
    requires
        0 <= i < n <= s.len(),
    ensures
        input_lines(s, n) == r.0 + ("- "@ + s[i].0 + ": "@ + s[i].1 + "\n"@) + r.1,
    decreases n,
{
    let line = "- "@ + s[i].0 + ": "@ + s[i].1 + "\n"@;
    let before = input_lines(s, n - 1);
    if i == n - 1 {
        assert(input_lines(s, n) =~= before + line + Seq::<char>::empty());
        (before, Seq::empty())
    } else {
        let (a, b) = input_has_its_line(s, n - 1, i);
        let last = "- "@ + s[n - 1].0 + ": "@ + s[n - 1].1 + "\n"@;
        assert(input_lines(s, n) =~= a + line + (b + last));
        (a, b + last)
    }
}

/// A request that says anything holds what the user said, first, every input under its name, the
/// artifact as it stands, and what was found wanting in it, last.
pub proof fn request_says_everything(
    step_id: Seq<char>,
    initial: Option<Seq<char>>,
    inputs: Seq<(Seq<char>, Seq<char>)>,
    previous: Option<Seq<char>>,
    feedback: Option<Seq<char>>,
    i: int,
)
    ensures
        ({
            let r = request(step_id, initial, inputs, previous, feedback);
            let empty = "Generate artifact for step "@ + step_id + "."@;
            &&& r == empty || {
                &&& initial is Some ==> has_prefix(r, trim(initial->0) + "\n\n"@)
                &&& 0 <= i < inputs.len() ==> contains(
                    r,
                    "- "@ + inputs[i].0 + ": "@ + inputs[i].1 + "\n"@,
                )
                &&& previous is Some ==> contains(
                    r,
                    "Current artifact content:\n"@ + trim(previous->0) + "\n\n"@,
                )
                &&& feedback is Some ==> contains(
                    r,
                    "Revision feedback:\n"@ + trim(feedback->0) + "\n"@,
                )
            }
            &&& initial is None && inputs.len() == 0 && previous is None && feedback is None ==> r
                == empty
        }),
{
    let o = opening(initial);
    let n = inputs_section(inputs);
    let a = artifact_section(previous);
    let f = feedback_section(feedback);
    let text = o + n + a + f;
    assert(text.subrange(0, o.len() as int) =~= o);
    stands_in(o + n, a, f);
    assert(text =~= o + n + a + f);
    assert(text =~= (o + n + a) + f + Seq::<char>::empty());
    stands_in(o + n + a, f, Seq::empty());
    if 0 <= i < inputs.len() {
        let line = "- "@ + inputs[i].0 + ": "@ + inputs[i].1 + "\n"@;
        let (x, y) = input_has_its_line(inputs, inputs.len() as int, i);
        let before = o + "Inputs:\n"@ + x;
        let after = y + "\n"@ + a + f;
        assert(text =~= before + line + after);
        stands_in(before, line, after);
    }
    if initial is None && inputs.len() == 0 && previous is None && feedback is None {
        assert(text =~= Seq::empty());
    }
}

/// Whether a part runs a command at the root, with no limit of its own.
pub open spec fn runs_at_the_root(p: PartView, argv: Seq<Seq<char>>) -> bool {
    p matches PartView::RunCommand {
        cwd,
        argv: words,
        command_id,
        timeout_ms,
        child_process_policy,
    } && cwd == Some("."@) && words == Some(argv) && command_id is None && timeout_ms is None
        && child_process_policy == ChildProcessPolicy::Inherit
}

/// A drafted pipeline checks the project: with `cargo test` where it is one of Rust, and with the
/// test of its package manager, told by the lock file, where it has a package; with a reminder
/// where it is neither. It is switched off.
pub proof fn drafted_pipeline_checks_the_project(
    id: Seq<char>,
    name: Seq<char>,
    cargo: bool,
    package: bool,
    lockfiles: Seq<Seq<char>>,
)
    ensures
        ({
            let e = pipeline_draft(id, name, cargo, package, lockfiles);
            let w = lookup(e.pipeline.workflows, e.pipeline.entry);
            let parts = w->0.parts;
            let manager = if lockfiles.contains("pnpm-lock.yaml"@) {
                "pnpm"@
            } else if lockfiles.contains("yarn.lock"@) {
                "yarn"@
            } else {
                "npm"@
            };
            &&& e.id == id && e.name == name && !e.enabled
            &&& w is Some && w->0.finally_workflow is None
            &&& parts.len() == (if cargo && package {
                2int
            } else {
                1
            })
            &&& cargo ==> runs_at_the_root(parts[0], seq!["cargo"@, "test"@])
            &&& package ==> runs_at_the_root(parts.last(), seq![manager, "test"@])
            &&& !cargo && !package ==> runs_at_the_root(
                parts[0],
                seq!["echo"@, "TODO: add verify command"@],
            )
        }),
{
    let e = pipeline_draft(id, name, cargo, package, lockfiles);
    let none: Seq<(Seq<char>, WorkflowView)> = Seq::empty();
    let parts = check_commands(cargo, package, lockfiles).map_values(
        |argv: Seq<Seq<char>>| command_part(argv),
    );
    lookup_put(none, "main"@, WorkflowView { parts, finally_workflow: None }, "main"@);
}

/// A draft put into a file is found there under its id, without profiles; everything else in the
/// file stays.
pub proof fn drafts_are_found_in_their_file(
    f: PipelinesFileV2View,
    e: PipelineEntryV1View,
    w: WorkflowsFileV1View,
    components: Seq<(Seq<char>, WorkflowComponentV1View)>,
    g: WorkflowEntryV1View,
    q: Seq<char>,
)
    requires
        sorted(f.pipelines),
        sorted(w.workflows),
        sorted(w.components),
        sorted(components),
    ensures
        ({
            let r = with_pipeline(f, e);
            &&& lookup(r.pipelines, e.id) is Some
            &&& ({
                let x = lookup(r.pipelines, e.id)->0;
                x.id == e.id && x.name == e.name && x.enabled == e.enabled && x.pipeline
                    == e.pipeline && x.profile_refs == no_refs()
            })
            &&& q != e.id ==> lookup(r.pipelines, q) == lookup(f.pipelines, q)
            &&& r.components == f.components
            &&& r.profile_attachments == f.profile_attachments
            &&& r.schema_version == "2"@
        }),
        ({
            let r = with_workflow(w, components, g);
            &&& lookup(r.workflows, g.id) == Some(g)
            &&& q != g.id ==> lookup(r.workflows, q) == lookup(w.workflows, q)
            &&& lookup(components, q) is Some ==> lookup(r.components, q) == lookup(components, q)
            &&& lookup(components, q) is None ==> lookup(r.components, q) == lookup(
                w.components,
                q,
            )
            &&& r.profile_attachments == w.profile_attachments
            &&& r.schema_version == "1"@
        }),
{
    let x = PipelineEntryV2View {
        id: e.id,
        name: e.name,
        enabled: e.enabled,
        profile_refs: no_refs(),
        pipeline: e.pipeline,
    };
    lookup_put(f.pipelines, e.id, x, e.id);
    lookup_put(f.pipelines, e.id, x, q);
    lookup_put(w.workflows, g.id, g, g.id);
    lookup_put(w.workflows, g.id, g, q);
    lookup_put_all(w.components, components, q);
}

/// The scope that a step names is the one that its pipeline is looked for in; every other name,
/// and none, means both layers.
pub proof fn named_scopes_are_understood(name: Seq<char>)
    ensures
        named_scope(Some("global"@)) == Scope::Global,
        named_scope(Some("project"@)) == Scope::Project,
        name != "global"@ && name != "project"@ ==> named_scope(Some(name)) == Scope::Both,
        named_scope(None) == Scope::Both,
{
    reveal_strlit("global");
    reveal_strlit("project");
    assert("global"@[0] != "project"@[0]);
}

/// A run that counts as the last is one of the workflow that is wanted, no other of these was
/// written later, and there is only one such.
pub proof fn last_run_is_the_last_written(
    files: Seq<RunFileView>,
    wanted: Option<Seq<char>>,
    p: int,
    q: int,
)
    requires
        is_latest(files, wanted, p, files.len() as int),
        0 <= q < files.len(),
    ensures
        files[p].extension == Some("json"@),
        files[p].stem is Some,
        wanted is Some ==> files[p].readable && files[p].workflow_id == wanted,
        files[q].extension == Some("json"@) && files[q].stem is Some && files[q].modified is Some
            && (wanted is Some ==> files[q].readable && files[q].workflow_id == wanted)
            ==> files[q].modified->0 <= files[p].modified->0,
        is_latest(files, wanted, q, files.len() as int) ==> q == p,
{
    assert(eligible(files[p], wanted));
}

/// An answer to a review becomes its decision: an approval approves, feedback rejects with that
/// feedback, without the space around it; and an answer about a pipeline becomes its outcome.
pub proof fn answers_become_results(t: String)
    ensures
        review_answered(ReviewAnswer::Approve) == WorkflowActionControlView::Result(
            WorkflowActionResultView::ReviewDecision { approved: true, feedback: None },
        ),
        review_answered(ReviewAnswer::Feedback(t)) == WorkflowActionControlView::Result(
            WorkflowActionResultView::ReviewDecision { approved: false, feedback: Some(trim(t@)) },
        ),
        review_answered(ReviewAnswer::Cancel) == WorkflowActionControlView::Cancelled,
        pipeline_answered(PipelineAnswer::Cancel) == WorkflowActionControlView::Cancelled,
        pipeline_answered(PipelineAnswer::Succeeded) matches WorkflowActionControlView::Result(
            WorkflowActionResultView::PipelineOutput { success, .. },
        ) && success,
        pipeline_answered(PipelineAnswer::Failed(t)) matches WorkflowActionControlView::Result(
            WorkflowActionResultView::PipelineOutput { success, summary },
        ) && !success && (summary is Some <==> !is_blank(t@)) && (summary is Some ==> summary->0
            == trim(t@)),
{
}

/// A question is answered yes by `y` and by `yes`, whatever their case and the space around them,
/// and by nothing where yes is the default; never by anything else.
pub proof fn yes_is_understood(answer: Seq<char>, default_yes: bool)
    ensures
        lowercased(trim(answer)) == "y"@ || lowercased(trim(answer)) == "yes"@ ==> agrees(
            answer,
            default_yes,
        ),
        lowercased(trim(answer)).len() == 0 ==> agrees(answer, default_yes) == default_yes,
        agrees(answer, default_yes) ==> lowercased(trim(answer)) == "y"@ || lowercased(trim(answer))
            == "yes"@ || (default_yes && lowercased(trim(answer)).len() == 0),
{
    reveal_strlit("y");
    reveal_strlit("yes");
}

/// A drafted policy profile changes nothing: all that comes of applying it is that the policy is
/// raised to its floor. A drafted profile includes no others and has the description that it was
/// given.
pub proof fn drafted_profiles_change_nothing(
    description: Option<Seq<char>>,
    s: Shaped,
    floor: PolicyConfigView,
    id: Seq<char>,
)
    ensures
        patched(s, floor, id, policy_draft(description).patch) == clamped(s, floor, id),
        policy_draft(description).description == description,
        policy_draft(description).includes.len() == 0,
        guideline_draft(description).description == description,
        guideline_draft(description).includes.len() == 0,
        guideline_draft(description).instructions.len() > 0,
{
    let none: Seq<Seq<Seq<char>>> = Seq::empty();
    assert(with_commands(s.policy, none) == s.policy);
}

/// What is explained of a decision is what its entry says, with a stand-in for what it leaves
/// out.
pub proof fn decision_is_told_as_written(
    entry: JsonView,
    payload: JsonView,
    decision: JsonView,
    key: Seq<char>,
    t: Seq<char>,
    stand_in: Seq<char>,
)
    ensures
        field(entry, "payload"@) == Some(payload) && field(payload, "decision"@) == Some(decision)
            && field(decision, key) == Some(JsonView::Str(t)) ==> or_else(said(entry, key), stand_in)
            == t,
        field(entry, "payload"@) is None ==> or_else(said(entry, key), stand_in) == stand_in,
        field(entry, "payload"@) == Some(payload) && field(payload, "decision"@) == Some(decision)
            && field(decision, key) is None ==> or_else(said(entry, key), stand_in) == stand_in,
{
}

/// A drafted template names what it was given, and holds the prompt, cut to twenty thousand
/// characters, at its end.
pub proof fn drafted_template_holds_the_prompt(
    name: Seq<char>,
    description: Seq<char>,
    tags: Seq<Seq<char>>,
    prompt: Seq<char>,
)
    ensures
        ({
            let r = template_draft(name, description, tags, prompt);
            let kept = if prompt.len() <= 20000 {
                prompt
            } else {
                prompt.subrange(0, 20000)
            };
            &&& has_prefix(r, "---\nname: "@ + name + "\ndescription: "@ + description + "\n"@)
            &&& r.subrange(r.len() - kept.len() - 1, r.len() as int) == kept + "\n"@
        }),
{
    reveal_strlit("\n");
    reveal_strlit("\ntags: ");
    let r = template_draft(name, description, tags, prompt);
    let kept = first_chars(prompt, 20000);
    let first = "---\nname: "@ + name + "\ndescription: "@ + description;
    let head = first + "\n"@;
    let h = template_head(name, description, tags);
    assert(h.subrange(0, first.len() as int) =~= first);
    assert(h[first.len() as int] == '\n');
    assert(h.subrange(0, head.len() as int) =~= head);
    assert(r.subrange(0, h.len() as int) =~= h);
    assert(r.subrange(0, head.len() as int) =~= head);
    assert(r.subrange(r.len() - kept.len() - 1, r.len() as int) =~= kept + "\n"@);
}

/// The registry of a scope: the global layer's profiles where the scope takes them in, and over
/// them those of a trusted project where it takes that in. A scope of the global layer does not
/// even look at the project.
pub proof fn registries_hold_the_profiles_of_their_scope(
    policy: PolicyProfilesFileV1View,
    guideline: GuidelineProfilesFileV1View,
    p: PolicyProfilesFileV1,
    g: GuidelineProfilesFileV1,
    project: ProjectProfiles,
    scope: Scope,
    id: Seq<char>,
)
    requires
        sorted(policy.profiles),
        sorted(guideline.profiles),
        sorted(p@.profiles),
        sorted(g@.profiles),
    ensures
        registry_for(policy, guideline, project, Scope::Global) == registry_for(
            policy,
            guideline,
            ProjectProfiles::Absent,
            Scope::Global,
        ),
        registry_for(policy, guideline, project, scope) is Ok <==> checked_registry(
            merged_registry(
                policy,
                guideline,
                if scope == Scope::Global {
                    ProjectProfiles::Absent
                } else {
                    project
                },
            ),
        ) is Ok,
        registry_for(policy, guideline, ProjectProfiles::Trusted(p, g), scope) matches Ok(r) ==> {
            let own = lookup(p@.profiles, id);
            let base = lookup(policy.profiles, id);
            &&& scope == Scope::Global ==> lookup(r.policy_profiles, id) == base
            &&& scope == Scope::Project ==> lookup(r.policy_profiles, id) == own
            &&& scope == Scope::Both ==> lookup(r.policy_profiles, id) == (if own is Some {
                own
            } else {
                base
            })
        },
        registry_for(policy, guideline, ProjectProfiles::Trusted(p, g), scope) matches Ok(r) ==> {
            let own = lookup(g@.profiles, id);
            let base = lookup(guideline.profiles, id);
            &&& scope == Scope::Global ==> lookup(r.guideline_profiles, id) == base
            &&& scope == Scope::Project ==> lookup(r.guideline_profiles, id) == own
            &&& scope == Scope::Both ==> lookup(r.guideline_profiles, id) == (if own is Some {
                own
            } else {
                base
            })
        },
{
    let trusted = ProjectProfiles::Trusted(p, g);
    let m = merged_registry(policy, guideline, trusted);
    let n = merged_registry(policy, guideline, ProjectProfiles::Absent);
    project_guidelines_override_global(policy, guideline, p, g, id);
    lookup_put_all(policy.profiles, p@.profiles, id);
    put_all_sorted(policy.profiles, p@.profiles);
    put_all_sorted(guideline.profiles, g@.profiles);
    let nowhere = arbitrary::<String>();
    untrusted_profiles_are_ignored(policy, guideline, nowhere, id);
    scopes_leave_their_profiles(m, scope, id);
    scopes_leave_their_profiles(n, scope, id);
}

} // verus!
