//! What commands draft for a start: pipelines, workflows and templates.

use vstd::prelude::*;
use crate::attach::refs::{PipelinesFileV2, PipelinesFileV2View};
use crate::cli::bundles::{PipelineEntryV1, PipelineEntryV1View};
use crate::pipelines::model::{
    Part, PartView, Pipeline, PipelineEntryV2, PipelineEntryV2View, PipelineView, Workflow,
    WorkflowView,
};
use crate::strmap::{
    lookup, lookup_at, lookup_put, lookup_some, put, put_all, put_sorted, rank, sorted, StrMap,
};
use crate::text::{
    cat2, cat5, cat7, chars_of, debug_list, debug_strings, is_blank, is_white, list_contains,
    outcome, slice_string,
};
use crate::types::commands::ChildProcessPolicy;
use crate::types::profile::{no_refs, ProfileRefs};
use crate::types::workflows::{
    dangling, entries_problem, entry_problem, file_problem, next_refs, steps_problem,
    WorkflowComponentV1, WorkflowComponentV1View, WorkflowEntryV1,
    WorkflowEntryV1View, WorkflowGraphV1, WorkflowGraphV1View, WorkflowStepV1, WorkflowStepV1View,
    WorkflowsFileV1, WorkflowsFileV1View,
};

verus! {

/// The package manager whose lock file is there.
pub open spec fn manager_among(lockfiles: Seq<Seq<char>>) -> Seq<char> {
    if lockfiles.contains("pnpm-lock.yaml"@) {
        "pnpm"@
    } else if lockfiles.contains("yarn.lock"@) {
        "yarn"@
    } else {
        "npm"@
    }
}

/// The commands that check a project of these kinds.
pub open spec fn check_commands(cargo: bool, package: bool, lockfiles: Seq<Seq<char>>) -> Seq<
    Seq<Seq<char>>,
> {
    let rust = seq!["cargo"@, "test"@];
    let js = seq![manager_among(lockfiles), "test"@];
    if cargo && package {
        seq![rust, js]
    } else if cargo {
        seq![rust]
    } else if package {
        seq![js]
    } else {
        seq![seq!["echo"@, "TODO: add verify command"@]]
    }
}

/// A part that runs a command at the root.
pub open spec fn command_part(argv: Seq<Seq<char>>) -> PartView {
    PartView::RunCommand {
        cwd: Some("."@),
        argv: Some(argv),
        command_id: None,
        timeout_ms: None,
        child_process_policy: ChildProcessPolicy::Inherit,
    }
}

/// A pipeline that checks a project, switched off at first.
pub open spec fn pipeline_draft(
    id: Seq<char>,
    name: Seq<char>,
    cargo: bool,
    package: bool,
    lockfiles: Seq<Seq<char>>,
) -> PipelineEntryV1View {
    let parts = check_commands(cargo, package, lockfiles).map_values(
        |argv: Seq<Seq<char>>| command_part(argv),
    );
    PipelineEntryV1View {
        id,
        name,
        enabled: false,
        pipeline: PipelineView {
            workflows: put(
                Seq::empty(),
                "main"@,
                WorkflowView { parts, finally_workflow: None },
            ),
            entry: "main"@,
        },
    }
}

fn words(a: &str, b: &str) -> (r: Vec<String>)
    ensures
        r.deep_view() == seq![a@, b@],
{
    let mut v: Vec<String> = Vec::new();
    v.push(a.to_owned());
    v.push(b.to_owned());
    assert(v.deep_view() =~= seq![a@, b@]);
    v
}

fn add_command(parts: &mut Vec<Part>, argv: Vec<String>)
    ensures
        final(parts).deep_view() == old(parts).deep_view().push(command_part(argv.deep_view())),
{
    let ghost before = parts.deep_view();
    let part = Part::RunCommand {
        cwd: Some(".".to_owned()),
        argv: Some(argv),
        command_id: None,
        timeout_ms: None,
        child_process_policy: ChildProcessPolicy::Inherit,
    };
    assert(part@ == command_part(argv.deep_view()));
    parts.push(part);
    assert(parts.deep_view() =~= before.push(command_part(argv.deep_view())));
}

fn manager(lockfiles: &Vec<String>) -> (r: &'static str)
    ensures
        r@ == manager_among(lockfiles.deep_view()),
{
    if list_contains(lockfiles, "pnpm-lock.yaml") {
        "pnpm"
    } else if list_contains(lockfiles, "yarn.lock") {
        "yarn"
    } else {
        "npm"
    }
}

/// Drafts a pipeline for a project, by the files at its root.
pub fn draft_pipeline(
    id: &str,
    name: &str,
    has_cargo_toml: bool,
    has_package_json: bool,
    lockfiles: &Vec<String>,
) -> (r: PipelineEntryV1)
    ensures
        r@ == pipeline_draft(id@, name@, has_cargo_toml, has_package_json, lockfiles.deep_view()),
{
    let mut parts: Vec<Part> = Vec::new();
    assert(parts.deep_view() =~= Seq::empty());
    if has_cargo_toml {
        add_command(&mut parts, words("cargo", "test"));
    }
    if has_package_json {
        let pm = manager(lockfiles);
        add_command(&mut parts, words(pm, "test"));
    }
    if !has_cargo_toml && !has_package_json {
        add_command(&mut parts, words("echo", "TODO: add verify command"));
    }
    proof {
        let all = check_commands(has_cargo_toml, has_package_json, lockfiles.deep_view());
        assert(parts.deep_view() =~= all.map_values(|argv: Seq<Seq<char>>| command_part(argv)));
    }
    let mut workflows: StrMap<Workflow> = StrMap::new();
    workflows.insert("main".to_owned(), Workflow { parts, finally_workflow: None });
    PipelineEntryV1 {
        id: id.to_owned(),
        name: name.to_owned(),
        enabled: false,
        pipeline: Pipeline { workflows, entry: "main".to_owned() },
    }
}

/// A pipelines file with a drafted pipeline in it.
pub open spec fn with_pipeline(f: PipelinesFileV2View, e: PipelineEntryV1View) -> PipelinesFileV2View {
    PipelinesFileV2View {
        schema_version: "2"@,
        pipelines: put(
            f.pipelines,
            e.id,
            PipelineEntryV2View {
                id: e.id,
                name: e.name,
                enabled: e.enabled,
                profile_refs: no_refs(),
                pipeline: e.pipeline,
            },
        ),
        ..f
    }
}

pub fn add_drafted_pipeline(file: &mut PipelinesFileV2, entry: PipelineEntryV1)
    ensures
        final(file)@ == with_pipeline(old(file)@, entry@),
{
    file.schema_version = "2".to_owned();
    let key = entry.id.clone();
    file.pipelines.insert(
        key,
        PipelineEntryV2 {
            id: entry.id,
            name: entry.name,
            enabled: entry.enabled,
            profile_refs: ProfileRefs::default(),
            pipeline: entry.pipeline,
        },
    );
}

pub open spec fn component(step: WorkflowStepV1View) -> WorkflowComponentV1View {
    WorkflowComponentV1View { params: Seq::empty(), profile_refs: no_refs(), step }
}

pub open spec fn generating(template_id: Seq<char>, kind: Seq<char>) -> WorkflowComponentV1View {
    component(
        WorkflowStepV1View::GenerateArtifact {
            template_id,
            artifact_kind: kind,
            inputs: Seq::empty(),
            next_step: None,
        },
    )
}

pub open spec fn revising(template_id: Seq<char>, artifact: Seq<char>, key: Seq<char>) -> WorkflowComponentV1View {
    component(
        WorkflowStepV1View::ReviseArtifact {
            template_id,
            artifact_ref: artifact,
            feedback_key: key,
            next_step: None,
        },
    )
}

pub open spec fn using(component_id: Seq<char>, next_step: Seq<char>) -> WorkflowStepV1View {
    WorkflowStepV1View::UseComponent {
        component_id,
        args: Seq::empty(),
        next_step: Some(next_step),
    }
}

pub open spec fn reviewing(
    artifact: Seq<char>,
    prompt: Seq<char>,
    on_approved: Seq<char>,
    on_feedback: Seq<char>,
    key: Seq<char>,
) -> WorkflowStepV1View {
    WorkflowStepV1View::ReviewArtifact {
        artifact_ref: artifact,
        prompt,
        on_approved,
        on_feedback,
        max_revisions: 3,
        revision_counter_key: key,
    }
}

/// The components of the product workflow.
pub open spec fn product_components() -> Seq<(Seq<char>, WorkflowComponentV1View)> {
    let c = put(Seq::empty(), "generate_prd_component"@, generating("prd"@, "prd"@));
    let c = put(
        c,
        "revise_prd_component"@,
        revising("prd_revise"@, "prd"@, "review_prd.feedback"@),
    );
    let c = put(c, "generate_ux_component"@, generating("ux_plan"@, "ux_plan"@));
    put(
        c,
        "revise_ux_component"@,
        revising("ux_plan_revise"@, "ux_plan"@, "review_ux.feedback"@),
    )
}

/// The steps of the product workflow: a document and then a plan, each written, reviewed
/// and revised until it is approved.
pub open spec fn product_steps() -> Seq<(Seq<char>, WorkflowStepV1View)> {
    let s = put(Seq::empty(), "generate_prd"@, using("generate_prd_component"@, "review_prd"@));
    let s = put(
        s,
        "review_prd"@,
        reviewing(
            "prd"@,
            "Review PRD and approve or provide feedback."@,
            "generate_ux"@,
            "revise_prd"@,
            "review_prd"@,
        ),
    );
    let s = put(s, "revise_prd"@, using("revise_prd_component"@, "review_prd"@));
    let s = put(s, "generate_ux"@, using("generate_ux_component"@, "review_ux"@));
    let s = put(
        s,
        "review_ux"@,
        reviewing(
            "ux_plan"@,
            "Review UX plan and approve or provide feedback."@,
            "complete"@,
            "revise_ux"@,
            "review_ux"@,
        ),
    );
    let s = put(s, "revise_ux"@, using("revise_ux_component"@, "review_ux"@));
    put(s, "complete"@, WorkflowStepV1View::Complete)
}

/// The product workflow, switched off at first.
pub open spec fn product_workflow(id: Seq<char>, name: Seq<char>) -> WorkflowEntryV1View {
    WorkflowEntryV1View {
        id,
        name,
        enabled: false,
        profile_refs: no_refs(),
        workflow: WorkflowGraphV1View { entry: "generate_prd"@, steps: product_steps() },
    }
}

fn component_of(step: WorkflowStepV1) -> (r: WorkflowComponentV1)
    ensures
        r@ == component(step@),
{
    WorkflowComponentV1 { params: StrMap::new(), profile_refs: ProfileRefs::default(), step }
}

fn generating_component(template_id: &str, kind: &str) -> (r: WorkflowComponentV1)
    ensures
        r@ == generating(template_id@, kind@),
{
    component_of(
        WorkflowStepV1::GenerateArtifact {
            template_id: template_id.to_owned(),
            artifact_kind: kind.to_owned(),
            inputs: StrMap::new(),
            next_step: None,
        },
    )
}

fn revising_component(template_id: &str, artifact: &str, key: &str) -> (r: WorkflowComponentV1)
    ensures
        r@ == revising(template_id@, artifact@, key@),
{
    component_of(
        WorkflowStepV1::ReviseArtifact {
            template_id: template_id.to_owned(),
            artifact_ref: artifact.to_owned(),
            feedback_key: key.to_owned(),
            next_step: None,
        },
    )
}

fn using_step(component_id: &str, next_step: &str) -> (r: WorkflowStepV1)
    ensures
        r@ == using(component_id@, next_step@),
{
    WorkflowStepV1::UseComponent {
        component_id: component_id.to_owned(),
        args: StrMap::new(),
        next_step: Some(next_step.to_owned()),
    }
}

fn reviewing_step(
    artifact: &str,
    prompt: &str,
    on_approved: &str,
    on_feedback: &str,
    key: &str,
) -> (r: WorkflowStepV1)
    ensures
        r@ == reviewing(artifact@, prompt@, on_approved@, on_feedback@, key@),
{
    WorkflowStepV1::ReviewArtifact {
        artifact_ref: artifact.to_owned(),
        prompt: prompt.to_owned(),
        on_approved: on_approved.to_owned(),
        on_feedback: on_feedback.to_owned(),
        max_revisions: 3,
        revision_counter_key: key.to_owned(),
    }
}

/// Drafts the components of the product workflow.
pub fn draft_workflow_components() -> (r: StrMap<WorkflowComponentV1>)
    ensures
        r@ == product_components(),
{
    let mut c: StrMap<WorkflowComponentV1> = StrMap::new();
    c.insert("generate_prd_component".to_owned(), generating_component("prd", "prd"));
    c.insert(
        "revise_prd_component".to_owned(),
        revising_component("prd_revise", "prd", "review_prd.feedback"),
    );
    c.insert("generate_ux_component".to_owned(), generating_component("ux_plan", "ux_plan"));
    c.insert(
        "revise_ux_component".to_owned(),
        revising_component("ux_plan_revise", "ux_plan", "review_ux.feedback"),
    );
    c
}

/// Drafts the product workflow.
pub fn draft_workflow(id: &str, name: &str) -> (r: WorkflowEntryV1)
    ensures
        r@ == product_workflow(id@, name@),
{
    let mut s: StrMap<WorkflowStepV1> = StrMap::new();
    s.insert("generate_prd".to_owned(), using_step("generate_prd_component", "review_prd"));
    s.insert(
        "review_prd".to_owned(),
        reviewing_step(
            "prd",
            "Review PRD and approve or provide feedback.",
            "generate_ux",
            "revise_prd",
            "review_prd",
        ),
    );
    s.insert("revise_prd".to_owned(), using_step("revise_prd_component", "review_prd"));
    s.insert("generate_ux".to_owned(), using_step("generate_ux_component", "review_ux"));
    s.insert(
        "review_ux".to_owned(),
        reviewing_step(
            "ux_plan",
            "Review UX plan and approve or provide feedback.",
            "complete",
            "revise_ux",
            "review_ux",
        ),
    );
    s.insert("revise_ux".to_owned(), using_step("revise_ux_component", "review_ux"));
    s.insert("complete".to_owned(), WorkflowStepV1::Complete);
    WorkflowEntryV1 {
        id: id.to_owned(),
        name: name.to_owned(),
        enabled: false,
        profile_refs: ProfileRefs::default(),
        workflow: WorkflowGraphV1 { entry: "generate_prd".to_owned(), steps: s },
    }
}

/// A workflows file with a drafted workflow and its components in it.
pub open spec fn with_workflow(
    f: WorkflowsFileV1View,
    components: Seq<(Seq<char>, WorkflowComponentV1View)>,
    e: WorkflowEntryV1View,
) -> WorkflowsFileV1View {
    WorkflowsFileV1View {
        schema_version: "1"@,
        components: put_all(f.components, components),
        workflows: put(f.workflows, e.id, e),
        ..f
    }
}

/// Puts a drafted workflow into a file, which must then be valid.
pub fn add_drafted_workflow(
    file: &mut WorkflowsFileV1,
    components: &StrMap<WorkflowComponentV1>,
    entry: WorkflowEntryV1,
) -> (r: Result<(), String>)
    ensures
        final(file)@ == with_workflow(old(file)@, components@, entry@),
        outcome(r) == match file_problem(final(file)@) {
            None => Ok(()),
            Some(p) => Err("invalid workflows draft: "@ + p),
        },
{
    file.schema_version = "1".to_owned();
    file.components.extend_from(components);
    let key = entry.id.clone();
    file.workflows.insert(key, entry);
    match file.validate() {
        Ok(_) => Ok(()),
        Err(p) => Err(cat2("invalid workflows draft: ", p.as_str())),
    }
}

/// The first `n` characters of a text.
pub open spec fn first_chars(s: Seq<char>, n: int) -> Seq<char> {
    if s.len() <= n {
        s
    } else {
        s.subrange(0, n)
    }
}

pub fn take_chars(s: &str, n: usize) -> (r: String)
    ensures
        r@ == first_chars(s@, n as int),
{
    let v = chars_of(s);
    if v.len() <= n {
        s.to_owned()
    } else {
        slice_string(&v, 0, n)
    }
}

/// What stands before the prompt in a drafted template.
pub open spec fn template_head(name: Seq<char>, description: Seq<char>, tags: Seq<Seq<char>>) -> Seq<
    char,
> {
    "---\nname: "@ + name + "\ndescription: "@ + description + "\ntags: "@ + debug_list(tags)
        + "\ndefaults:\n  policy:\n    deny_dangerous_always: true\n    verify_required: true\n---\n\n## Role + Objective\n"@
}

pub open spec fn template_middle() -> Seq<char> {
    "\n\n## Procedure\n- Follow the user prompt.\n- Prefer deterministic steps and verification.\n\n## Outputs\n- A concise summary of changes.\n- Verification status.\n\n## Policy Defaults\n- deny_dangerous_always: true\n- verify_required: true\n\n## Tooling Scope\n- Stay within the repo unless explicitly approved.\n\n## Prompt\n"@
}

/// A drafted template, with at most 20000 characters of a prompt.
pub open spec fn template_draft(
    name: Seq<char>,
    description: Seq<char>,
    tags: Seq<Seq<char>>,
    prompt: Seq<char>,
) -> Seq<char> {
    template_head(name, description, tags) + name + template_middle() + first_chars(prompt, 20000)
        + "\n"@
}

pub fn draft_template(name: &str, description: &str, tags: &Vec<String>, prompt: &str) -> (r: String)
    ensures
        r@ == template_draft(name@, description@, tags.deep_view(), prompt@),
{
    let shown = debug_strings(tags);
    let head = cat7(
        "---\nname: ",
        name,
        "\ndescription: ",
        description,
        "\ntags: ",
        shown.as_str(),
        "\ndefaults:\n  policy:\n    deny_dangerous_always: true\n    verify_required: true\n---\n\n## Role + Objective\n",
    );
    let kept = take_chars(prompt, 20_000);
    cat5(
        head.as_str(),
        name,
        "\n\n## Procedure\n- Follow the user prompt.\n- Prefer deterministic steps and verification.\n\n## Outputs\n- A concise summary of changes.\n- Verification status.\n\n## Policy Defaults\n- deny_dangerous_always: true\n- verify_required: true\n\n## Tooling Scope\n- Stay within the repo unless explicitly approved.\n\n## Prompt\n",
        kept.as_str(),
        "\n",
    )
}

/// The step of the product workflow that has a name.
spec fn product_step(k: Seq<char>) -> Option<WorkflowStepV1View> {
    if k == "complete"@ {
        Some(WorkflowStepV1View::Complete)
    } else if k == "revise_ux"@ {
        Some(using("revise_ux_component"@, "review_ux"@))
    } else if k == "review_ux"@ {
        Some(
            reviewing(
                "ux_plan"@,
                "Review UX plan and approve or provide feedback."@,
                "complete"@,
                "revise_ux"@,
                "review_ux"@,
            ),
        )
    } else if k == "generate_ux"@ {
        Some(using("generate_ux_component"@, "review_ux"@))
    } else if k == "revise_prd"@ {
        Some(using("revise_prd_component"@, "review_prd"@))
    } else if k == "review_prd"@ {
        Some(
            reviewing(
                "prd"@,
                "Review PRD and approve or provide feedback."@,
                "generate_ux"@,
                "revise_prd"@,
                "review_prd"@,
            ),
        )
    } else if k == "generate_prd"@ {
        Some(using("generate_prd_component"@, "review_prd"@))
    } else {
        None
    }
}

proof fn product_lookup(k: Seq<char>)
    ensures
        sorted(product_steps()),
        lookup(product_steps(), k) == product_step(k),
{
    let s0 = Seq::<(Seq<char>, WorkflowStepV1View)>::empty();
    let v1 = using("generate_prd_component"@, "review_prd"@);
    let s1 = put(s0, "generate_prd"@, v1);
    let v2 = reviewing(
        "prd"@,
        "Review PRD and approve or provide feedback."@,
        "generate_ux"@,
        "revise_prd"@,
        "review_prd"@,
    );
    let s2 = put(s1, "review_prd"@, v2);
    let v3 = using("revise_prd_component"@, "review_prd"@);
    let s3 = put(s2, "revise_prd"@, v3);
    let v4 = using("generate_ux_component"@, "review_ux"@);
    let s4 = put(s3, "generate_ux"@, v4);
    let v5 = reviewing(
        "ux_plan"@,
        "Review UX plan and approve or provide feedback."@,
        "complete"@,
        "revise_ux"@,
        "review_ux"@,
    );
    let s5 = put(s4, "review_ux"@, v5);
    let v6 = using("revise_ux_component"@, "review_ux"@);
    let s6 = put(s5, "revise_ux"@, v6);
    let v7 = WorkflowStepV1View::Complete;
    put_sorted(s0, "generate_prd"@, v1);
    put_sorted(s1, "review_prd"@, v2);
    put_sorted(s2, "revise_prd"@, v3);
    put_sorted(s3, "generate_ux"@, v4);
    put_sorted(s4, "review_ux"@, v5);
    put_sorted(s5, "revise_ux"@, v6);
    put_sorted(s6, "complete"@, v7);
    lookup_put(s0, "generate_prd"@, v1, k);
    lookup_put(s1, "review_prd"@, v2, k);
    lookup_put(s2, "revise_prd"@, v3, k);
    lookup_put(s3, "generate_ux"@, v4, k);
    lookup_put(s4, "review_ux"@, v5, k);
    lookup_put(s5, "revise_ux"@, v6, k);
    lookup_put(s6, "complete"@, v7, k);
}

proof fn step_names_are_not_blank(k: Seq<char>)
    requires
        product_step(k) is Some,
    ensures
        !is_blank(k),
{
    reveal_strlit("generate_prd");
    reveal_strlit("review_prd");
    reveal_strlit("revise_prd");
    reveal_strlit("generate_ux");
    reveal_strlit("review_ux");
    reveal_strlit("revise_ux");
    reveal_strlit("complete");
    assert(!is_white(k[0]) && !is_white(k.last()));
}

proof fn refs_are_steps(k: Seq<char>)
    requires
        product_step(k) is Some,
    ensures
        dangling(product_steps(), next_refs(product_step(k)->0), 0) is None,
{
    product_lookup("review_prd"@);
    product_lookup("revise_prd"@);
    product_lookup("generate_ux"@);
    product_lookup("review_ux"@);
    product_lookup("revise_ux"@);
    product_lookup("complete"@);
    reveal_with_fuel(dangling, 3);
}

proof fn no_step_problem(id: Seq<char>, i: int)
    requires
        0 <= i,
    ensures
        steps_problem(id, product_steps(), i) is None,
    decreases product_steps().len() - i,
{
    let steps = product_steps();
    if i < steps.len() {
        let k = steps[i].0;
        product_lookup(k);
        lookup_at(steps, i);
        step_names_are_not_blank(k);
        refs_are_steps(k);
        no_step_problem(id, i + 1);
    }
}

/// A drafted workflow is valid, whatever it is called.
pub proof fn drafted_workflow_is_valid(id: Seq<char>, name: Seq<char>)
    requires
        !is_blank(id),
        !is_blank(name),
    ensures
        entry_problem(id, product_workflow(id, name)) is None,
{
    let steps = product_steps();
    product_lookup("generate_prd"@);
    product_lookup("complete"@);
    step_names_are_not_blank("generate_prd"@);
    no_step_problem(id, 0);
    lookup_some(steps, "complete"@);
    assert(steps[rank(steps, "complete"@)].1 is Complete);
}

proof fn valid_entries(t: Seq<(Seq<char>, WorkflowEntryV1View)>, i: int)
    requires
        0 <= i,
        forall|k: int| 0 <= k < t.len() ==> entry_problem((#[trigger] t[k]).0, t[k].1) is None,
    ensures
        entries_problem(t, i) is None,
    decreases t.len() - i,
{
    if i < t.len() {
        valid_entries(t, i + 1);
    }
}

proof fn entry_of_valid(s: Seq<(Seq<char>, WorkflowEntryV1View)>, i: int, k: int)
    requires
        entries_problem(s, i) is None,
        0 <= i <= k < s.len(),
    ensures
        entry_problem(s[k].0, s[k].1) is None,
    decreases k - i,
{
    if i < k {
        entry_of_valid(s, i + 1, k);
    }
}

/// A valid file is still valid with a drafted workflow in it.
pub proof fn draft_keeps_files_valid(f: WorkflowsFileV1View, id: Seq<char>, name: Seq<char>)
    requires
        file_problem(f) is None,
        sorted(f.workflows),
        !is_blank(id),
        !is_blank(name),
    ensures
        file_problem(with_workflow(f, product_components(), product_workflow(id, name))) is None,
{
    let e = product_workflow(id, name);
    let t = put(f.workflows, id, e);
    drafted_workflow_is_valid(id, name);
    put_sorted(f.workflows, id, e);
    assert forall|k: int| 0 <= k < t.len() implies entry_problem((#[trigger] t[k]).0, t[k].1) is None by {
        lookup_at(t, k);
        lookup_put(f.workflows, id, e, t[k].0);
        if t[k].0 != id {
            lookup_some(f.workflows, t[k].0);
            entry_of_valid(f.workflows, 0, rank(f.workflows, t[k].0));
        }
    }
    valid_entries(t, 0);
}

proof fn component_lookup(k: Seq<char>)
    ensures
        lookup(product_components(), k) == (if k == "revise_ux_component"@ {
            Some(revising("ux_plan_revise"@, "ux_plan"@, "review_ux.feedback"@))
        } else if k == "generate_ux_component"@ {
            Some(generating("ux_plan"@, "ux_plan"@))
        } else if k == "revise_prd_component"@ {
            Some(revising("prd_revise"@, "prd"@, "review_prd.feedback"@))
        } else if k == "generate_prd_component"@ {
            Some(generating("prd"@, "prd"@))
        } else {
            None
        }),
{
    let s0 = Seq::<(Seq<char>, WorkflowComponentV1View)>::empty();
    let v1 = generating("prd"@, "prd"@);
    let s1 = put(s0, "generate_prd_component"@, v1);
    let v2 = revising("prd_revise"@, "prd"@, "review_prd.feedback"@);
    let s2 = put(s1, "revise_prd_component"@, v2);
    let v3 = generating("ux_plan"@, "ux_plan"@);
    let s3 = put(s2, "generate_ux_component"@, v3);
    let v4 = revising("ux_plan_revise"@, "ux_plan"@, "review_ux.feedback"@);
    put_sorted(s0, "generate_prd_component"@, v1);
    put_sorted(s1, "revise_prd_component"@, v2);
    put_sorted(s2, "generate_ux_component"@, v3);
    lookup_put(s0, "generate_prd_component"@, v1, k);
    lookup_put(s1, "revise_prd_component"@, v2, k);
    lookup_put(s2, "generate_ux_component"@, v3, k);
    lookup_put(s3, "revise_ux_component"@, v4, k);
    lookup_some(s0, k);
}

/// In the drafted workflow every step that uses a component uses one that is drafted with it;
/// what a review finds wanting is revised, in the same artifact and by the feedback of that
/// review, and reviewed again; and what a step writes is what the next one reviews.
pub proof fn drafted_reviews_are_followed_up(id: Seq<char>, name: Seq<char>, k: Seq<char>)
    ensures
        ({
            let w = product_workflow(id, name);
            let steps = w.workflow.steps;
            let components = product_components();
            &&& !w.enabled
            &&& w.id == id
            &&& w.name == name
            &&& lookup(steps, w.workflow.entry) is Some
            &&& lookup(steps, k) matches Some(WorkflowStepV1View::UseComponent {
                component_id,
                args,
                next_step,
            }) ==> {
                &&& lookup(components, component_id) is Some
                &&& next_step is Some
                &&& lookup(steps, next_step->0) matches Some(WorkflowStepV1View::ReviewArtifact {
                    artifact_ref: reviewed,
                    revision_counter_key: counter,
                    ..
                })
                &&& match lookup(components, component_id)->0.step {
                    WorkflowStepV1View::GenerateArtifact { artifact_kind, .. } => artifact_kind
                        == reviewed,
                    WorkflowStepV1View::ReviseArtifact { artifact_ref, feedback_key, .. } =>
                        artifact_ref == reviewed && feedback_key == counter + ".feedback"@,
                    _ => false,
                }
            }
            &&& lookup(steps, k) matches Some(WorkflowStepV1View::ReviewArtifact {
                artifact_ref,
                on_approved,
                on_feedback,
                max_revisions,
                ..
            }) ==> {
                &&& max_revisions > 0
                &&& lookup(steps, on_approved) is Some
                &&& lookup(steps, on_feedback) matches Some(WorkflowStepV1View::UseComponent {
                    component_id,
                    next_step,
                    ..
                })
                &&& next_step == Some(k)
                &&& lookup(components, component_id) is Some
                &&& lookup(components, component_id)->0.step is ReviseArtifact
            }
        }),
{
    reveal_strlit("generate_prd");
    reveal_strlit("review_prd");
    reveal_strlit("revise_prd");
    reveal_strlit("generate_ux");
    reveal_strlit("review_ux");
    reveal_strlit("revise_ux");
    reveal_strlit("complete");
    reveal_strlit(".feedback");
    reveal_strlit("review_prd.feedback");
    reveal_strlit("review_ux.feedback");
    assert("review_prd"@ + ".feedback"@ =~= "review_prd.feedback"@);
    assert("review_ux"@ + ".feedback"@ =~= "review_ux.feedback"@);
    assert("generate_prd"@.len() == 12 && "generate_ux"@.len() == 11 && "complete"@.len() == 8);
    assert("review_prd"@.len() == 10 && "revise_prd"@.len() == 10);
    assert("review_ux"@.len() == 9 && "revise_ux"@.len() == 9);
    assert("review_prd"@[3] == 'i' && "revise_prd"@[3] == 'i');
    assert("review_prd"@[4] == 'e' && "revise_prd"@[4] == 's');
    assert("review_ux"@[4] == 'e' && "revise_ux"@[4] == 's');
    reveal_strlit("generate_prd_component");
    reveal_strlit("revise_prd_component");
    reveal_strlit("generate_ux_component");
    reveal_strlit("revise_ux_component");
    assert("generate_prd_component"@.len() == 22 && "revise_prd_component"@.len() == 20);
    assert("generate_ux_component"@.len() == 21 && "revise_ux_component"@.len() == 19);
    product_lookup(k);
    product_lookup("generate_prd"@);
    product_lookup("review_prd"@);
    product_lookup("revise_prd"@);
    product_lookup("generate_ux"@);
    product_lookup("review_ux"@);
    product_lookup("revise_ux"@);
    product_lookup("complete"@);
    component_lookup("generate_prd_component"@);
    component_lookup("revise_prd_component"@);
    component_lookup("generate_ux_component"@);
    component_lookup("revise_ux_component"@);
}

} // verus!
