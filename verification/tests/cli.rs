use codex_pr::attach::refs::ProfileKind;
use codex_pr::cli::bundles::{
    check_changed_workflows, effective_pipeline_components, empty_pipelines_file,
    merged_pipelines, merged_workflows, pipeline_scope_to_scope, pipelines_version,
    read_pipelines_version, show_expanded,
    PipelineEntryV1, PipelinesFile, PipelinesFileV1, PipelinesVersion,
};
use codex_pr::cli::drafts::{
    add_drafted_pipeline, add_drafted_workflow, draft_pipeline, draft_template, draft_workflow,
    draft_workflow_components, take_chars,
};
use codex_pr::cli::explain::{
    audit_files, consider, explain_decision, find_latest_policy_decision, Search,
};
use codex_pr::cli::prompts::{
    agent_request, completion_control, means_yes, pages, pipeline_control, pipeline_missing,
    question_text, review_control, PipelineAnswer, ReviewAnswer,
};
use codex_pr::cli::registry::{
    check_profile_exists, check_profiles_file, draft_guideline_profile, draft_policy_profile,
    load_registry_for_scope, requested_refs, resolved_profiles_for_scope,
};
use codex_pr::cli::runs::{
    cancel_run, choose_run_id, find_latest_workflow_run_id, generate_run_id, open_run,
    pick_run_id, runner_turn, sanitize_run_id, supervised_action, take_control,
    workflow_run_state_path, RunFile, RunnerTurn, WorkflowActionControl,
};
use codex_pr::cli::scope::{
    ensure_writable_scope, require_project_root, restore_target, scoped_pipelines_json_path,
    scoped_policy_profiles_json_path, scoped_printrevolt_toml_path, template_draft_dir,
    LayerScope, Scope,
};
use codex_pr::cli::select::{
    find_template_by_id, resolve_template_attachment_target, template_search,
    templates_for_scope, TemplateSearch,
};
use codex_pr::cli::settings::{
    backup_path, command_failure, invocation, update_mode_b_config, SettingValue,
};
use codex_pr::json::Json;
use codex_pr::pipelines::model::{ComponentV2, ExpandLimits, Part, Pipeline, Workflow};
use codex_pr::profiles::resolve::ProjectProfiles;
use codex_pr::strmap::StrMap;
use codex_pr::templates::{
    extract_contract_sections, template_parts, Template, TemplateContract, TemplateDefaults,
    TemplateDiscoveryResult, TemplateSource,
};
use codex_pr::types::config::{PolicyConfig, PrintRevoltConfig};
use codex_pr::types::profile::{
    GuidelineProfilesFileV1, PolicyProfileV1, PolicyProfilesFileV1, ProfileRefs,
};
use codex_pr::types::time::Timestamp;
use codex_pr::types::workflows::WorkflowsFileV1;
use codex_pr::workflows::engine::WorkflowEngine;
use codex_pr::workflows::model::{
    ArtifactStoreConfig, WorkflowAction, WorkflowActionResult, WorkflowEngineLimits,
    WorkflowRunStatus,
};
use codex_pr::workflows::store::ArtifactStore;

fn words(v: &[&str]) -> Vec<String> {
    v.iter().map(|s| s.to_string()).collect()
}

fn root() -> Option<String> {
    Some("/repo".to_string())
}

#[test]
fn scopes_are_checked() {
    assert_eq!(Scope::Both.as_str(), "both");
    assert_eq!(LayerScope::Project.as_str(), "project");
    assert_eq!(require_project_root(None, Scope::Both), Ok(None));
    assert_eq!(
        require_project_root(None, Scope::Project),
        Err("project scope selected but no project root detected; pass --project-root".to_string())
    );
    assert_eq!(require_project_root(root(), Scope::Project), Ok(root()));
    assert_eq!(ensure_writable_scope(Scope::Project, "--scope"), Ok(LayerScope::Project));
    assert_eq!(
        ensure_writable_scope(Scope::Both, "--scope"),
        Err("--scope both is not valid for write operations (--scope)".to_string())
    );
}

#[test]
fn files_lie_where_their_layer_says() {
    assert_eq!(
        scoped_pipelines_json_path("/home", &None, LayerScope::Global),
        Ok("/home/printrevolt/pipelines.json".to_string())
    );
    assert_eq!(
        scoped_policy_profiles_json_path("/home", &root(), LayerScope::Project),
        Ok("/repo/.codex/printrevolt/policy_profiles.json".to_string())
    );
    assert_eq!(
        scoped_printrevolt_toml_path("/home", &root(), LayerScope::Project),
        Ok("/repo/.codex/printrevolt.toml".to_string())
    );
    assert!(scoped_pipelines_json_path("/home", &None, LayerScope::Project).is_err());
    assert_eq!(
        template_draft_dir("/home", &None, LayerScope::Global),
        Ok("/home/printrevolt/drafts".to_string())
    );
    let t = restore_target("workflows-json", "/home", &None, LayerScope::Global).ok().unwrap();
    assert_eq!(t.path, "/home/printrevolt/workflows.json");
    assert_eq!(t.kind, "workflows_restore");
    assert_eq!(
        restore_target("x", "/home", &None, LayerScope::Global).err().unwrap(),
        "unknown --target: x (expected printrevolt-toml or pipelines-json or workflows-json)"
    );
    assert_eq!(
        backup_path("/home", "config", "/repo/printrevolt.toml", 17),
        Some("/home/printrevolt/backups/config/17-printrevolt.toml".to_string())
    );
    assert_eq!(backup_path("/home", "config", "/", 17), None);
}

fn pipeline(var: &str) -> Pipeline {
    let mut workflows = StrMap::new();
    workflows.insert(
        "main".to_string(),
        Workflow {
            parts: vec![Part::SetVar { key: var.to_string(), value: "1".to_string() }],
            finally_workflow: None,
        },
    );
    Pipeline { workflows, entry: "main".to_string() }
}

fn entry(id: &str) -> PipelineEntryV1 {
    PipelineEntryV1 {
        id: id.to_string(),
        name: "P".to_string(),
        enabled: true,
        pipeline: pipeline(id),
    }
}

#[test]
fn old_pipeline_files_are_brought_up() {
    let say = |v: &str| {
        Json::Obj(vec![("schema_version".to_string(), Json::Str(v.to_string()))])
    };
    assert_eq!(pipelines_version(&say("1")), Ok(PipelinesVersion::V1));
    assert_eq!(pipelines_version(&say("2")), Ok(PipelinesVersion::V2));
    assert_eq!(pipelines_version(&Json::Obj(Vec::new())), Ok(PipelinesVersion::V1));
    assert_eq!(
        pipelines_version(&say("3")),
        Err("unknown pipelines.json schema_version: 3 (expected 1 or 2)".to_string())
    );
    assert_eq!(
        read_pipelines_version("{\"schema_version\":\"2\"}"),
        Ok(PipelinesVersion::V2)
    );
    assert!(read_pipelines_version("{").is_err());
    let mut pipelines = StrMap::new();
    pipelines.insert("a".to_string(), entry("a"));
    let v1 = PipelinesFileV1 { schema_version: "1".to_string(), pipelines };
    let v2 = PipelinesFile::V1(v1).into_v2();
    assert_eq!(v2.schema_version, "2");
    assert_eq!(v2.pipelines.get("a").unwrap().pipeline, pipeline("a"));
    assert_eq!(PipelinesFile::V2(v2.clone()).into_v2(), v2);
}

#[test]
fn project_bundles_come_over_global_ones() {
    let mut global = empty_pipelines_file();
    add_drafted_pipeline(&mut global, entry("a"));
    add_drafted_pipeline(&mut global, entry("b"));
    let mut project = empty_pipelines_file();
    let mut own = entry("b");
    own.name = "Mine".to_string();
    add_drafted_pipeline(&mut project, own);
    let m = merged_pipelines(Scope::Both, &root(), true, &global, &project);
    assert_eq!(m.entries.len(), 2);
    assert_eq!(m.entries.get("a").unwrap().source, LayerScope::Global);
    assert_eq!(m.entries.get("b").unwrap().source, LayerScope::Project);
    assert_eq!(m.entries.get("b").unwrap().name, "Mine");
    assert_eq!(m.warnings, Vec::<String>::new());
    let m = merged_pipelines(Scope::Both, &root(), false, &global, &project);
    assert_eq!(m.entries.get("b").unwrap().source, LayerScope::Global);
    assert_eq!(m.warnings, vec!["Repo pipelines bundle ignored (repo not trusted): /repo"]);
    let m = merged_pipelines(Scope::Project, &root(), true, &global, &project);
    assert_eq!(m.entries.len(), 1);
    let m = merged_pipelines(Scope::Global, &root(), true, &global, &project);
    assert_eq!(m.entries.get("b").unwrap().name, "P");
}

fn component(parts: Vec<Part>) -> ComponentV2 {
    ComponentV2 { params: StrMap::new(), profile_refs: ProfileRefs::default(), parts }
}

#[test]
fn shown_pipelines_see_the_components_of_their_layer() {
    let mut global = empty_pipelines_file();
    global.components.insert(
        "c".to_string(),
        component(vec![Part::SetVar { key: "from".to_string(), value: "global".to_string() }]),
    );
    let mut project = empty_pipelines_file();
    project.components.insert(
        "c".to_string(),
        component(vec![Part::SetVar { key: "from".to_string(), value: "project".to_string() }]),
    );
    let mut user = entry("p");
    user.pipeline.workflows.insert(
        "main".to_string(),
        Workflow {
            parts: vec![Part::UseComponent {
                id: "c".to_string(),
                args: StrMap::new(),
            }],
            finally_workflow: None,
        },
    );
    add_drafted_pipeline(&mut project, user.clone());
    let all = effective_pipeline_components(&root(), true, &global, &project);
    assert_eq!(all.get("c"), project.components.get("c"));
    let m = merged_pipelines(Scope::Both, &root(), true, &global, &project);
    let shown = show_expanded(
        m.entries.get("p").unwrap(),
        &root(),
        true,
        &global,
        &project,
        ExpandLimits::default(),
    )
    .unwrap();
    assert_eq!(
        shown.workflows.get("main").unwrap().parts,
        project.components.get("c").unwrap().parts
    );
    assert_eq!(
        show_expanded(
            m.entries.get("p").unwrap(),
            &None,
            true,
            &global,
            &project,
            ExpandLimits::default(),
        ),
        Err("project pipeline selected but no project root detected; pass --project-root".to_string())
    );
    let empty = empty_pipelines_file();
    assert_eq!(
        show_expanded(
            m.entries.get("p").unwrap(),
            &root(),
            false,
            &empty,
            &project,
            ExpandLimits::default(),
        ),
        Err("unknown component_id: c".to_string())
    );
}

#[test]
fn pipeline_scopes_are_read() {
    assert_eq!(pipeline_scope_to_scope(&Some("global".to_string())), Scope::Global);
    assert_eq!(pipeline_scope_to_scope(&Some("project".to_string())), Scope::Project);
    assert_eq!(pipeline_scope_to_scope(&Some("effective".to_string())), Scope::Both);
    assert_eq!(pipeline_scope_to_scope(&None), Scope::Both);
}

#[test]
fn drafted_workflows_are_valid_and_run() {
    let components = draft_workflow_components();
    let mut file = WorkflowsFileV1::default();
    add_drafted_workflow(&mut file, &components, draft_workflow("product_flow", "Product Workflow"))
        .unwrap();
    assert_eq!(file.components.len(), 4);
    assert!(!file.workflows.get("product_flow").unwrap().enabled);
    assert!(check_changed_workflows(&file, false).is_ok());
    let merged =
        merged_workflows(Scope::Both, &None, false, file.clone(), WorkflowsFileV1::default())
            .unwrap();
    let e = merged.entries.get("product_flow").unwrap();
    assert_eq!(e.source, LayerScope::Global);
    let engine = WorkflowEngine::new_with_components(
        e.workflow.clone(),
        merged.components.clone(),
        WorkflowEngineLimits::default(),
    )
    .expect("engine");
    let mut state = engine.start("r");
    assert!(matches!(
        runner_turn(&engine, &mut state, 0, 4, false),
        Ok(RunnerTurn::Perform(WorkflowAction::InvokeAgent { .. }))
    ));

    let mut broken = WorkflowsFileV1::default();
    let r = add_drafted_workflow(&mut broken, &components, draft_workflow("  ", "x"));
    assert_eq!(r, Err("invalid workflows draft: workflow key cannot be empty".to_string()));
    assert_eq!(
        check_changed_workflows(&broken, true),
        Err("invalid workflows file after detach: workflow key cannot be empty".to_string())
    );
    let r = merged_workflows(Scope::Both, &None, false, broken, file);
    assert_eq!(
        r.err().unwrap(),
        "invalid effective workflows file: workflow key cannot be empty"
    );
}

#[test]
fn drafted_pipelines_check_the_project() {
    let e = draft_pipeline("p", "P", true, true, &words(&["yarn.lock"]));
    let parts = &e.pipeline.workflows.get("main").unwrap().parts;
    let argv = |p: &Part| match p {
        Part::RunCommand { argv, .. } => argv.clone().unwrap(),
        _ => panic!("expected a command"),
    };
    assert_eq!(parts.len(), 2);
    assert_eq!(argv(&parts[0]), words(&["cargo", "test"]));
    assert_eq!(argv(&parts[1]), words(&["yarn", "test"]));
    assert!(!e.enabled);
    let e = draft_pipeline("p", "P", false, true, &words(&["yarn.lock", "pnpm-lock.yaml"]));
    assert_eq!(argv(&e.pipeline.workflows.get("main").unwrap().parts[0])[0], "pnpm");
    let e = draft_pipeline("p", "P", false, false, &Vec::new());
    assert_eq!(argv(&e.pipeline.workflows.get("main").unwrap().parts[0])[0], "echo");
}

#[test]
fn drafted_templates_are_complete() {
    let text = draft_template("Helper", "Helps", &words(&["a", "b"]), "Do it.");
    assert!(text.starts_with("---\nname: Helper\ndescription: Helps\ntags: [\"a\", \"b\"]\n"));
    assert!(text.ends_with("## Prompt\nDo it.\n"));
    let (_, body) = template_parts(&text, 100_000).unwrap().unwrap();
    let c = extract_contract_sections(&body).unwrap();
    assert_eq!(c.role_objective, "Helper");
    assert_eq!(take_chars("h\u{e9}llo", 2), "h\u{e9}");
    assert_eq!(take_chars("h", 2), "h");
}

#[test]
fn run_ids_are_made_safe() {
    assert_eq!(sanitize_run_id("a b/../c"), "a_b____c");
    assert_eq!(sanitize_run_id("ok-1_X"), "ok-1_X");
    assert_eq!(sanitize_run_id(""), "workflow-run");
    assert_eq!(generate_run_id("my flow", 12), "my_flow-12");
    assert_eq!(
        workflow_run_state_path("/home", "r"),
        "/home/printrevolt/state/workflows/r.json"
    );
}

fn run_file(stem: &str, workflow: Option<&str>, modified: i128) -> RunFile {
    RunFile {
        extension: Some("json".to_string()),
        stem: Some(stem.to_string()),
        readable: true,
        workflow_id: workflow.map(|w| w.to_string()),
        modified: Some(modified),
    }
}

#[test]
fn last_written_run_is_found() {
    let mut other = run_file("x", Some("f"), 99);
    other.extension = Some("tmp".to_string());
    let files = vec![
        run_file("a", Some("f"), 5),
        run_file("b", Some("g"), 9),
        run_file("c", Some("f"), 7),
        run_file("d", Some("f"), 7),
        other,
    ];
    assert_eq!(find_latest_workflow_run_id(&files, &None), Some("b".to_string()));
    assert_eq!(
        find_latest_workflow_run_id(&files, &Some("f".to_string())),
        Some("c".to_string())
    );
    assert_eq!(find_latest_workflow_run_id(&files, &Some("h".to_string())), None);
    assert_eq!(
        choose_run_id(&Some("a b".to_string()), true, None, "f", 1),
        Ok("a_b".to_string())
    );
    assert_eq!(choose_run_id(&None, false, None, "f", 1), Ok("f-1".to_string()));
    assert_eq!(
        choose_run_id(&None, true, None, "f", 1),
        Err("no previous run found for workflow id: f".to_string())
    );
    assert_eq!(pick_run_id(&None, None), Err("no workflow runs found".to_string()));
    assert_eq!(pick_run_id(&None, Some("z".to_string())), Ok("z".to_string()));
}

fn product_engine() -> WorkflowEngine {
    WorkflowEngine::new_with_components(
        draft_workflow("f", "F").workflow,
        draft_workflow_components(),
        WorkflowEngineLimits::default(),
    )
    .expect("engine")
}

fn store() -> ArtifactStore {
    ArtifactStore::new(ArtifactStoreConfig::with_root("/store".to_string()))
}

fn now() -> Timestamp {
    Timestamp { secs: 0, nanos: 0 }
}

#[test]
fn runs_are_taken_up_by_their_workflow() {
    let engine = product_engine();
    let fresh = open_run(&engine, None, false, "r", "f", "/r.json").unwrap();
    assert_eq!(fresh.workflow_id.as_deref(), Some("f"));
    assert_eq!(
        open_run(&engine, None, true, "r", "f", "/r.json").err().unwrap(),
        "resume requested but run state file does not exist: /r.json"
    );
    assert_eq!(
        open_run(&engine, Some(fresh.clone()), false, "r", "g", "/r.json").err().unwrap(),
        "run r belongs to workflow Some(\"f\"), not g"
    );
    let mut old = fresh;
    old.workflow_id = None;
    let owned = open_run(&engine, Some(old), true, "r", "g", "/r.json").unwrap();
    assert_eq!(owned.workflow_id.as_deref(), Some("g"));
}

#[test]
fn runner_goes_on_until_the_workflow_is_complete() {
    let engine = product_engine();
    let mut state = open_run(&engine, None, false, "r", "f", "/r.json").unwrap();
    let mut steps = 0;
    loop {
        match runner_turn(&engine, &mut state, steps, 100, false).unwrap() {
            RunnerTurn::Perform(action) => {
                let control = match &action {
                    WorkflowAction::RequestReview { .. } => review_control(ReviewAnswer::Approve),
                    _ => WorkflowActionControl::Result(WorkflowActionResult::AgentOutput {
                        content: "text".to_string(),
                    }),
                };
                if let WorkflowActionControl::Result(result) = &control {
                    assert!(engine.can_count(&state, &action, result, &store()));
                }
                take_control(&engine, &mut state, &action, control, &store(), &now()).unwrap();
                steps += 1;
            }
            RunnerTurn::Completed => break,
            _ => panic!("unexpected turn"),
        }
    }
    assert_eq!(steps, 4);
    assert_eq!(state.status, WorkflowRunStatus::Completed);
    assert!(matches!(
        runner_turn(&engine, &mut state, steps, 100, false),
        Ok(RunnerTurn::Ended)
    ));
    assert_eq!(
        runner_turn(&engine, &mut state, 100, 100, false).err().unwrap(),
        "workflow runner exceeded max_steps=100 (run_id=r)"
    );
}

#[test]
fn supervised_runs_hand_out_their_action() {
    let engine = product_engine();
    let mut state = open_run(&engine, None, false, "r", "f", "/r.json").unwrap();
    assert_eq!(
        supervised_action(&engine, &state).err().unwrap(),
        "--action-result-json provided but no pending action"
    );
    let first = match runner_turn(&engine, &mut state, 0, 1, true).unwrap() {
        RunnerTurn::Emit(a) => a,
        _ => panic!("expected an action"),
    };
    assert_eq!(supervised_action(&engine, &state).ok().unwrap(), first);
    match runner_turn(&engine, &mut state, 0, 1, true).unwrap() {
        RunnerTurn::Emit(a) => assert_eq!(a, first),
        _ => panic!("expected an action"),
    }
}

#[test]
fn cancelled_runs_have_ended() {
    let engine = product_engine();
    let mut state = open_run(&engine, None, false, "r", "f", "/r.json").unwrap();
    let action = match runner_turn(&engine, &mut state, 0, 1, false).unwrap() {
        RunnerTurn::Perform(a) => a,
        _ => panic!("expected an action"),
    };
    let mut other = state.clone();
    take_control(&engine, &mut state, &action, WorkflowActionControl::Cancelled, &store(), &now())
        .unwrap();
    assert_eq!(state.status, WorkflowRunStatus::Failed);
    assert_eq!(state.last_error.as_deref(), Some("cancelled by user"));
    assert!(matches!(runner_turn(&engine, &mut state, 0, 1, false), Ok(RunnerTurn::Ended)));
    cancel_run(&mut other);
    assert_eq!(other, state);
}

#[test]
fn requests_hold_what_is_known() {
    let mut inputs = StrMap::new();
    inputs.insert("goal".to_string(), "ship".to_string());
    assert_eq!(
        agent_request(
            "s",
            &Some(" Build it. ".to_string()),
            &inputs,
            &Some("draft\n".to_string()),
            &Some("shorter".to_string()),
        ),
        "Build it.\n\nInputs:\n- goal: ship\n\nCurrent artifact content:\ndraft\n\nRevision feedback:\nshorter\n"
    );
    assert_eq!(
        agent_request("s", &None, &StrMap::new(), &None, &None),
        "Generate artifact for step s."
    );
    assert_eq!(
        agent_request("s", &Some("  ".to_string()), &StrMap::new(), &None, &None),
        "Generate artifact for step s."
    );
}

#[test]
fn answers_are_understood() {
    assert!(means_yes(" YES\n", false));
    assert!(means_yes("y", false));
    assert!(!means_yes("no", true));
    assert!(means_yes("\n", true));
    assert!(!means_yes("\n", false));
    assert_eq!(question_text("Go?", true), "Go? [Y/n]: ");
    assert_eq!(question_text("Go?", false), "Go? [y/N]: ");
}

#[test]
fn long_texts_come_in_pages() {
    assert_eq!(pages("a\nb\nc", 2), vec![words(&["a", "b"]), words(&["c"])]);
    assert_eq!(pages("a\nb", 2), vec![words(&["a", "b"])]);
    assert_eq!(pages("", 2), Vec::<Vec<String>>::new());
}

#[test]
fn answers_become_results() {
    let result = |c: WorkflowActionControl| match c {
        WorkflowActionControl::Result(r) => Some(r),
        WorkflowActionControl::Cancelled => None,
    };
    assert_eq!(
        result(review_control(ReviewAnswer::Feedback(" more \n".to_string()))),
        Some(WorkflowActionResult::ReviewDecision {
            approved: false,
            feedback: Some("more".to_string()),
        })
    );
    assert_eq!(result(review_control(ReviewAnswer::Cancel)), None);
    assert_eq!(
        result(pipeline_control(PipelineAnswer::Failed(" ".to_string()))),
        Some(WorkflowActionResult::PipelineOutput { success: false, summary: None })
    );
    assert_eq!(
        result(pipeline_control(PipelineAnswer::Succeeded)),
        Some(WorkflowActionResult::PipelineOutput {
            success: true,
            summary: Some("approved by interactive workflow runner".to_string()),
        })
    );
    assert_eq!(
        result(pipeline_missing("p")),
        Some(WorkflowActionResult::PipelineOutput {
            success: false,
            summary: Some("pipeline not found: p".to_string()),
        })
    );
    assert_eq!(
        result(completion_control()),
        Some(WorkflowActionResult::PipelineOutput {
            success: true,
            summary: Some("workflow complete".to_string()),
        })
    );
}

fn template(id: &str, name: &str, source: TemplateSource) -> Template {
    Template {
        id: id.to_string(),
        name: name.to_string(),
        description: String::new(),
        tags: Vec::new(),
        source,
        path: Some(format!("/t/{name}.md")),
        defaults: TemplateDefaults::default(),
        body_markdown: String::new(),
        contract: TemplateContract {
            role_objective: "x".to_string(),
            procedure: "x".to_string(),
            outputs: "x".to_string(),
            policy_defaults: "x".to_string(),
            tooling_scope: "x".to_string(),
        },
    }
}

#[test]
fn templates_are_found_by_what_they_are_called() {
    let all = vec![
        template("user:prd.md", "First", TemplateSource::User),
        template("repo:plan.md", "prd", TemplateSource::Repo),
    ];
    assert_eq!(find_template_by_id(&all, "repo:plan.md").unwrap().name, "prd");
    assert_eq!(find_template_by_id(&all, "prd").unwrap().name, "First");
    assert_eq!(find_template_by_id(&all, "FIRST").unwrap().name, "First");
    assert!(find_template_by_id(&all, "nothing").is_none());
    assert_eq!(
        resolve_template_attachment_target(&all, "plan"),
        Ok("/t/prd.md".to_string())
    );
    assert_eq!(
        resolve_template_attachment_target(&all, "nothing"),
        Err("template not found for subject: nothing".to_string())
    );
    let mut unwritable = all.clone();
    unwritable[0].path = None;
    assert_eq!(
        resolve_template_attachment_target(&unwritable, "prd"),
        Err("template does not have a writable path: prd".to_string())
    );
}

#[test]
fn templates_of_a_scope() {
    assert_eq!(template_search(&None, Scope::Project), None);
    let search = template_search(&root(), Scope::Project);
    assert_eq!(search, Some(TemplateSearch { repo: true, repo_only: true }));
    let found = || TemplateDiscoveryResult {
        templates: vec![
            template("user:a", "a", TemplateSource::User),
            template("repo:b", "b", TemplateSource::Repo),
        ],
        warnings: Vec::new(),
    };
    let r = templates_for_scope(search, found());
    assert_eq!(r.templates.len(), 1);
    assert_eq!(r.templates[0].name, "b");
    let r = templates_for_scope(template_search(&root(), Scope::Both), found());
    assert_eq!(r.templates.len(), 2);
    let r = templates_for_scope(None, found());
    assert_eq!(r.templates.len(), 0);
    assert_eq!(r.warnings.len(), 1);
}

#[test]
fn registries_show_the_layers_of_a_scope() {
    let mut global = PolicyProfilesFileV1::default();
    global.profiles.insert("g".to_string(), PolicyProfileV1::default());
    let mut project = PolicyProfilesFileV1::default();
    project.profiles.insert("p".to_string(), draft_policy_profile(Some("d".to_string())));
    let load = |scope: Scope| {
        load_registry_for_scope(
            global.clone(),
            GuidelineProfilesFileV1::default(),
            ProjectProfiles::Trusted(project.clone(), GuidelineProfilesFileV1::default()),
            scope,
        )
        .unwrap()
    };
    let both = load(Scope::Both);
    assert_eq!(both.policy_profiles.len(), 2);
    assert!(check_profile_exists(&both, ProfileKind::Policy, "p").is_ok());
    let only = load(Scope::Project);
    assert_eq!(only.policy_profiles.len(), 1);
    assert!(only.policy_profiles.contains_key("p"));
    assert_eq!(
        check_profile_exists(&only, ProfileKind::Policy, "g"),
        Err("profile id not found in effective registry: g".to_string())
    );
    assert_eq!(load(Scope::Global).policy_profiles.len(), 1);

    let mut cyclic = PolicyProfilesFileV1::default();
    cyclic.profiles.insert(
        "a".to_string(),
        PolicyProfileV1 { includes: words(&["a"]), ..Default::default() },
    );
    let r = load_registry_for_scope(
        cyclic,
        GuidelineProfilesFileV1::default(),
        ProjectProfiles::Absent,
        Scope::Both,
    );
    assert!(r.err().unwrap().starts_with("failed to load profile registries: validation error: "));
}

#[test]
fn settings_stand_in_for_profiles_not_asked_for() {
    let mut cfg = PrintRevoltConfig::default();
    cfg.policy_profiles = words(&["from_settings"]);
    let given = ProfileRefs::default();
    assert_eq!(requested_refs(&given, &cfg).policy_profiles, words(&["from_settings"]));
    let given = ProfileRefs {
        policy_profiles: words(&["asked"]),
        guideline_profiles: Vec::new(),
    };
    assert_eq!(requested_refs(&given, &cfg).policy_profiles, words(&["asked"]));
    let registry = load_registry_for_scope(
        PolicyProfilesFileV1::default(),
        GuidelineProfilesFileV1::default(),
        ProjectProfiles::Absent,
        Scope::Both,
    )
    .unwrap();
    let r = resolved_profiles_for_scope(&registry, &given, &cfg, &PolicyConfig::default());
    assert_eq!(r.warnings, vec!["missing policy profile reference: asked"]);
    assert!(check_profiles_file("policy_profiles.json", "1").is_ok());
    assert_eq!(
        check_profiles_file("policy_profiles.json", "0"),
        Err("unknown policy_profiles.json schema_version: 0 (expected 1)".to_string())
    );
    assert_eq!(draft_guideline_profile(None).instructions.len(), 1);
}

fn log_line(kind: &str, decision: &str, reason: &str) -> String {
    format!(
        "{{\"kind\":\"{kind}\",\"payload\":{{\"decision\":{{\"kind\":\"{decision}\",\"reason_code\":\"{reason}\"}}}}}}"
    )
}

#[test]
fn last_decision_is_explained() {
    let newest = format!(
        "{}\n{}\nno json\n{}\n",
        log_line("policy_decision", "block", "first"),
        log_line("policy_decision", "block", "second"),
        log_line("policy_decision", "allow", "third"),
    );
    let older = log_line("policy_decision", "block", "old");
    let texts = vec![newest.clone(), older.clone()];
    let v = find_latest_policy_decision(&texts, true).unwrap();
    assert_eq!(explain_decision(&v).reason_code, "second");
    let v = find_latest_policy_decision(&texts, false).unwrap();
    assert_eq!(explain_decision(&v).reason_code, "third");
    assert_eq!(explain_decision(&v).message, "");
    let allowing = vec![log_line("policy_decision", "allow", "only"), String::new()];
    let v = find_latest_policy_decision(&allowing, true).unwrap();
    assert_eq!(explain_decision(&v).kind, "allow");
    let none = vec![log_line("before_tool", "block", "x")];
    assert!(find_latest_policy_decision(&none, true).is_none());
    assert_eq!(audit_files("/home")[1], "/home/printrevolt/audit/events.jsonl.1");
    let mut search = Search { found: None, allowed: None };
    consider(&mut search, v.clone(), false);
    assert_eq!(search.found, Some(v));
    assert_eq!(explain_decision(&Json::Null).reason_code, "<none>");
}

#[test]
fn settings_files_are_changed() {
    let path = words(&["policy", "enabled"]);
    let text = update_mode_b_config(&None, "/p.toml", &path, SettingValue::Flag(true)).unwrap();
    assert!(text.contains("enabled = true"));
    assert!(text.contains("[printrevolt.policy]"));
    let text = update_mode_b_config(
        &Some("other = 1\n".to_string()),
        "/p.toml",
        &words(&["templates", "selection_mode"]),
        SettingValue::Text("once".to_string()),
    )
    .unwrap();
    assert!(text.contains("selection_mode = \"once\""));
    assert!(text.contains("other = 1"));
    let e = update_mode_b_config(
        &Some("[".to_string()),
        "/p.toml",
        &path,
        SettingValue::Flag(true),
    )
    .err()
    .unwrap();
    assert!(e.starts_with("failed to parse /p.toml: "));
    let e = update_mode_b_config(
        &Some("a = [[1]]\n".to_string()),
        "/p.toml",
        &path,
        SettingValue::Flag(true),
    )
    .err()
    .unwrap();
    assert_eq!(e, "failed to write /p.toml: unsupported array item for key a");
}

#[test]
fn command_lines_are_taken_apart() {
    let i = invocation(&words(&["npm", "install"])).ok().unwrap();
    assert_eq!(i.program, "npm");
    assert_eq!(i.args, words(&["install"]));
    assert_eq!(invocation(&Vec::new()).err().unwrap(), "empty argv");
    assert_eq!(
        command_failure(&words(&["npm", "i"]), Some(1)),
        "command failed (exit Some(1)): npm i"
    );
    assert_eq!(
        command_failure(&words(&["npm"]), None),
        "command failed (exit None): npm"
    );
}
