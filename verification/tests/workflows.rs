use codex_pr::strmap::StrMap;
use codex_pr::types::profile::ProfileRefs;
use codex_pr::types::time::Timestamp;
use codex_pr::types::workflows::{
    WorkflowComponentV1, WorkflowEntryV1, WorkflowGraphV1, WorkflowStepV1, WorkflowsFileV1,
};
use codex_pr::workflows::engine::WorkflowEngine;
use codex_pr::workflows::model::{
    accept_workflows_file, ArtifactStoreConfig, StoreWrite, WorkflowAction, WorkflowActionResult,
    WorkflowEngineLimits, WorkflowError, WorkflowRunState, WorkflowRunStatus,
};
use codex_pr::workflows::store::{
    sanitize_path_segment, short_hash, ArtifactStore, PersistArtifactRequest,
    PersistFeedbackRequest,
};

fn simple_graph(max_revisions: u32) -> WorkflowGraphV1 {
    let mut steps = StrMap::new();
    steps.insert(
        "generate_prd".to_string(),
        WorkflowStepV1::GenerateArtifact {
            template_id: "prd".to_string(),
            artifact_kind: "prd".to_string(),
            inputs: StrMap::new(),
            next_step: Some("review_prd".to_string()),
        },
    );
    steps.insert(
        "review_prd".to_string(),
        WorkflowStepV1::ReviewArtifact {
            artifact_ref: "prd".to_string(),
            prompt: "review".to_string(),
            on_approved: "complete".to_string(),
            on_feedback: "revise_prd".to_string(),
            max_revisions,
            revision_counter_key: "review_prd".to_string(),
        },
    );
    steps.insert(
        "revise_prd".to_string(),
        WorkflowStepV1::ReviseArtifact {
            template_id: "prd_revise".to_string(),
            artifact_ref: "prd".to_string(),
            feedback_key: "review_prd.feedback".to_string(),
            next_step: Some("review_prd".to_string()),
        },
    );
    steps.insert("complete".to_string(), WorkflowStepV1::Complete);
    WorkflowGraphV1 { entry: "generate_prd".to_string(), steps }
}

fn store() -> ArtifactStore {
    ArtifactStore::new(ArtifactStoreConfig::with_root("/store".to_string()))
}

fn now() -> Timestamp {
    Timestamp { secs: 1_700_000_000, nanos: 0 }
}

fn output(text: &str) -> WorkflowActionResult {
    WorkflowActionResult::AgentOutput { content: text.to_string() }
}

fn review(approved: bool, feedback: Option<&str>) -> WorkflowActionResult {
    WorkflowActionResult::ReviewDecision { approved, feedback: feedback.map(|f| f.to_string()) }
}

fn turn(engine: &WorkflowEngine, state: &mut WorkflowRunState, result: WorkflowActionResult) -> Option<StoreWrite> {
    let action = engine.next_action(state).expect("next").expect("action");
    assert!(engine.can_count(state, &action, &result, &store()));
    engine.apply_action_result(state, &action, result, &store(), &now()).expect("apply")
}

#[test]
fn artifact_store_rejects_oversized_content() {
    let mut cfg = ArtifactStoreConfig::with_root("/store".to_string());
    cfg.max_artifact_bytes = 4;
    let store = ArtifactStore::new(cfg);
    let result = store.persist_artifact(
        PersistArtifactRequest {
            run_id: "r1",
            artifact_ref: "prd",
            artifact_kind: "prd",
            content: "too large",
        },
        &now(),
    );
    assert_eq!(matches!(result, Err(WorkflowError::ArtifactTooLarge { .. })), true);
    let error = result.err().unwrap();
    assert_eq!(error, WorkflowError::ArtifactTooLarge { actual_bytes: 9, max_bytes: 4 });
    assert_eq!(error.message(), "artifact too large: 9 > 4");
}

#[test]
fn oversized_feedback_is_refused() {
    let mut cfg = ArtifactStoreConfig::with_root("/store".to_string());
    cfg.max_feedback_bytes = 3;
    let store = ArtifactStore::new(cfg);
    let result = store.persist_feedback(
        PersistFeedbackRequest {
            run_id: "r1",
            step_id: "review",
            feedback_key: "review.feedback",
            feedback: "four",
        },
        &now(),
    );
    assert_eq!(
        result.err(),
        Some(WorkflowError::FeedbackTooLarge { actual_bytes: 4, max_bytes: 3 })
    );
}

#[test]
fn artifact_store_persists_content_addressed_artifact_and_metadata() {
    let record = store()
        .persist_artifact(
            PersistArtifactRequest {
                run_id: "r1",
                artifact_ref: "prd",
                artifact_kind: "prd",
                content: "hello artifact",
            },
            &now(),
        )
        .expect("persist");
    let digest = "d1cc3064379fca32757730461bd728cb7de430e46a0046aa59ab55c65be7ce3b";
    assert_eq!(record.sha256, digest);
    assert_eq!(record.object_rel_path, format!("objects/{digest}.txt"));
    assert_eq!(record.metadata_rel_path, "runs/r1/artifacts/prd.meta.json");
    assert_eq!(record.artifact_kind, "prd");
}

#[test]
fn artifact_is_filed_under_its_digest() {
    let record = store()
        .persist_artifact(
            PersistArtifactRequest {
                run_id: "r1",
                artifact_ref: "prd",
                artifact_kind: "prd",
                content: "abc",
            },
            &now(),
        )
        .expect("persist");
    let digest = "ba7816bf8f01cfea414140de5dae2223b00361a396177a9cb410ff61f20015ad";
    assert_eq!(record.sha256, digest);
    assert_eq!(record.object_rel_path, format!("objects/{digest}.txt"));
    assert_eq!(record.metadata_rel_path, "runs/r1/artifacts/prd.meta.json");
    let other = store()
        .persist_artifact(
            PersistArtifactRequest {
                run_id: "r2",
                artifact_ref: "plan",
                artifact_kind: "plan",
                content: "abc",
            },
            &now(),
        )
        .expect("persist");
    assert_eq!(other.object_rel_path, record.object_rel_path);
}

#[test]
fn path_segments_hold_no_separators() {
    assert_eq!(sanitize_path_segment("a/b c"), "a_b_c");
    assert_eq!(sanitize_path_segment(""), "item");
    assert_eq!(short_hash("0123456789abcdef"), "0123456789ab");
    assert_eq!(short_hash("0123"), "0123");
}

#[test]
fn engine_approve_path_reaches_complete() {
    let engine = WorkflowEngine::new(simple_graph(3), WorkflowEngineLimits::default()).expect("engine");
    let mut state = engine.start("run-approve");
    let a1 = engine.next_action(&mut state).expect("next").expect("action");
    engine
        .apply_action_result(&mut state, &a1, output("prd v1"), &store(), &now())
        .expect("apply");
    let a2 = engine.next_action(&mut state).expect("next").expect("action");
    engine
        .apply_action_result(&mut state, &a2, review(true, None), &store(), &now())
        .expect("apply");
    let a3 = engine.next_action(&mut state).expect("next").expect("action");
    assert_eq!(matches!(a3, WorkflowAction::Complete { .. }), true);
    assert_eq!(state.status, WorkflowRunStatus::Completed);
}

#[test]
fn engine_feedback_path_revises_then_completes() {
    let engine = WorkflowEngine::new(simple_graph(3), WorkflowEngineLimits::default()).expect("engine");
    let mut state = engine.start("run-feedback");
    turn(&engine, &mut state, output("prd v1"));
    turn(&engine, &mut state, review(false, Some("needs clearer scope")));
    let a3 = engine.next_action(&mut state).expect("next").expect("action");
    assert_eq!(matches!(a3, WorkflowAction::InvokeAgent { .. }), true);
    engine
        .apply_action_result(&mut state, &a3, output("prd v2"), &store(), &now())
        .expect("apply");
    turn(&engine, &mut state, review(true, None));
    let _ = engine.next_action(&mut state).expect("next").expect("action");
    assert_eq!(state.status, WorkflowRunStatus::Completed);
}

#[test]
fn engine_enforces_revision_bounds() {
    let engine = WorkflowEngine::new(simple_graph(1), WorkflowEngineLimits::default()).expect("engine");
    let mut state = engine.start("run-bound");
    turn(&engine, &mut state, output("prd v1"));
    turn(&engine, &mut state, review(false, Some("first")));
    turn(&engine, &mut state, output("prd v2"));
    turn(&engine, &mut state, review(false, Some("second")));
    assert_eq!(state.status, WorkflowRunStatus::NeedsHuman);
}

#[test]
fn waiting_run_gives_its_action_again() {
    let engine = WorkflowEngine::new(simple_graph(3), WorkflowEngineLimits::default()).expect("engine");
    let mut state = engine.start("run");
    let action = engine.next_action(&mut state).expect("next").expect("action");
    let before = state.clone();
    let refused = engine.next_action(&mut state);
    assert_eq!(
        refused.err().unwrap().message(),
        "invalid run state: cannot produce next action while a previous action is pending"
    );
    assert_eq!(state, before);
    assert_eq!(engine.action_for_pending(&state).expect("pending"), Some(action));
}

#[test]
fn agent_output_is_to_be_stored() {
    let engine = WorkflowEngine::new(simple_graph(3), WorkflowEngineLimits::default()).expect("engine");
    let mut state = engine.start("run");
    let write = turn(&engine, &mut state, output("prd v1"));
    assert!(matches!(write, Some(StoreWrite::Artifact { .. })));
    assert_eq!(state.artifacts.get("prd").map(|r| r.artifact_kind.clone()), Some("prd".to_string()));
    assert_eq!(state.current_step_id, "review_prd");
    let write = turn(&engine, &mut state, review(false, Some("more")));
    assert!(matches!(write, Some(StoreWrite::Feedback { .. })));
    assert_eq!(state.feedback.get("review_prd.feedback").map(|f| f.as_str()), Some("more"));
}

#[test]
fn results_for_another_action_are_refused() {
    let engine = WorkflowEngine::new(simple_graph(3), WorkflowEngineLimits::default()).expect("engine");
    let mut state = engine.start("run");
    let action = engine.next_action(&mut state).expect("next").expect("action");
    let before = state.clone();
    let r = engine.apply_action_result(&mut state, &action, review(true, None), &store(), &now());
    assert_eq!(
        r.err(),
        Some(WorkflowError::InvalidRunState(
            "action/result pair does not match pending step".to_string()
        ))
    );
    assert_eq!(state, before);
    let mut idle = engine.start("idle");
    let r = engine.apply_action_result(&mut idle, &action, output("x"), &store(), &now());
    assert_eq!(
        r.err(),
        Some(WorkflowError::InvalidRunState("no pending action to apply a result to".to_string()))
    );
}

#[test]
fn components_are_put_in() {
    let mut graph = simple_graph(3);
    graph.steps.insert(
        "generate_prd".to_string(),
        WorkflowStepV1::UseComponent {
            component_id: "writer".to_string(),
            args: StrMap::new(),
            next_step: Some("review_prd".to_string()),
        },
    );
    let mut components = StrMap::new();
    components.insert(
        "writer".to_string(),
        WorkflowComponentV1 {
            params: StrMap::new(),
            profile_refs: ProfileRefs::default(),
            step: WorkflowStepV1::GenerateArtifact {
                template_id: "t".to_string(),
                artifact_kind: "prd".to_string(),
                inputs: StrMap::new(),
                next_step: None,
            },
        },
    );
    let engine = WorkflowEngine::new_with_components(
        graph,
        components,
        WorkflowEngineLimits::default(),
    )
    .expect("engine");
    let mut state = engine.start("run");
    turn(&engine, &mut state, output("text"));
    assert_eq!(state.current_step_id, "review_prd");
}

#[test]
fn missing_components_are_reported() {
    let mut graph = simple_graph(3);
    graph.steps.insert(
        "generate_prd".to_string(),
        WorkflowStepV1::UseComponent {
            component_id: "writer".to_string(),
            args: StrMap::new(),
            next_step: None,
        },
    );
    let engine = WorkflowEngine::new(graph, WorkflowEngineLimits::default()).expect("engine");
    let mut state = engine.start("run");
    let error = engine.next_action(&mut state).err().unwrap();
    assert_eq!(error, WorkflowError::MissingStep("writer".to_string()));
    assert_eq!(error.message(), "missing step: writer");
}

#[test]
fn failed_pipeline_ends_the_run() {
    let mut steps = StrMap::new();
    steps.insert(
        "checks".to_string(),
        WorkflowStepV1::RunPipeline {
            pipeline_id: "p".to_string(),
            pipeline_scope: Some("global".to_string()),
            next_step: Some("complete".to_string()),
        },
    );
    steps.insert("complete".to_string(), WorkflowStepV1::Complete);
    let graph = WorkflowGraphV1 { entry: "checks".to_string(), steps };
    let engine = WorkflowEngine::new(graph, WorkflowEngineLimits::default()).expect("engine");
    let mut state = engine.start("run");
    turn(
        &engine,
        &mut state,
        WorkflowActionResult::PipelineOutput { success: false, summary: Some("red".to_string()) },
    );
    assert_eq!(state.status, WorkflowRunStatus::Failed);
    assert_eq!(state.last_error, Some("red".to_string()));
    assert_eq!(engine.next_action(&mut state).expect("next"), None);
}

#[test]
fn counter_at_its_end_is_noticed() {
    let engine = WorkflowEngine::new(simple_graph(3), WorkflowEngineLimits::default()).expect("engine");
    let mut state = engine.start("run");
    turn(&engine, &mut state, output("v1"));
    let action = engine.next_action(&mut state).expect("next").expect("action");
    let rejected = review(false, Some("no"));
    assert!(engine.can_count(&state, &action, &rejected, &store()));
    state.revision_counters.insert("review_prd".to_string(), u32::MAX);
    assert!(!engine.can_count(&state, &action, &rejected, &store()));
    let mut cfg = ArtifactStoreConfig::with_root("/a".to_string());
    cfg.max_feedback_bytes = 1;
    assert!(engine.can_count(&state, &action, &rejected, &ArtifactStore::new(cfg)));
    let approved = review(true, None);
    assert!(engine.can_count(&state, &action, &approved, &store()));
    let written = engine.apply_action_result(&mut state, &action, approved, &store(), &now());
    assert_eq!(written, Ok(None));
    assert_eq!(state.current_step_id, "complete");
    assert_eq!(state.revision_counters.get("review_prd"), Some(&u32::MAX));
}

fn entry(id: &str, graph: WorkflowGraphV1) -> WorkflowEntryV1 {
    WorkflowEntryV1 {
        id: id.to_string(),
        name: "Flow".to_string(),
        enabled: true,
        profile_refs: ProfileRefs::default(),
        workflow: graph,
    }
}

#[test]
fn invalid_files_are_refused() {
    let mut file = WorkflowsFileV1::default();
    file.workflows.insert("flow".to_string(), entry("flow", simple_graph(3)));
    assert_eq!(accept_workflows_file(Some(file.clone())).expect("valid"), file);
    assert_eq!(accept_workflows_file(None).expect("default"), WorkflowsFileV1::default());

    let mut wrong = file.clone();
    wrong.schema_version = "9".to_string();
    assert_eq!(
        accept_workflows_file(Some(wrong)).err().unwrap().message(),
        "validation error: unknown workflows.json schema_version: 9 (expected 1)"
    );

    let mut wrong = WorkflowsFileV1::default();
    wrong.workflows.insert("flow".to_string(), entry("other", simple_graph(3)));
    assert_eq!(
        wrong.validate().err().unwrap(),
        "workflow key/id mismatch: key=flow id=other"
    );

    let mut wrong = WorkflowsFileV1::default();
    wrong.workflows.insert("flow".to_string(), entry("flow", simple_graph(0)));
    assert_eq!(
        wrong.validate().err().unwrap(),
        "workflow flow step review_prd max_revisions must be >= 1"
    );

    let mut graph = simple_graph(3);
    graph.entry = "nowhere".to_string();
    let mut wrong = WorkflowsFileV1::default();
    wrong.workflows.insert("flow".to_string(), entry("flow", graph));
    assert_eq!(wrong.validate().err().unwrap(), "workflow flow entry step not found: nowhere");

    let mut graph = simple_graph(3);
    graph.steps.remove("complete");
    let mut wrong = WorkflowsFileV1::default();
    wrong.workflows.insert("flow".to_string(), entry("flow", graph));
    assert_eq!(
        wrong.validate().err().unwrap(),
        "workflow flow step review_prd references missing step complete"
    );
}

#[test]
fn repository_workflows_take_precedence() {
    let mut global = WorkflowsFileV1::default();
    global.workflows.insert("a".to_string(), entry("a", simple_graph(1)));
    global.workflows.insert("b".to_string(), entry("b", simple_graph(1)));
    let mut repo = WorkflowsFileV1::default();
    repo.workflows.insert("b".to_string(), entry("b", simple_graph(2)));
    let merged = WorkflowsFileV1::merge_effective(Some(global), Some(repo)).expect("merge");
    assert_eq!(merged.workflows.len(), 2);
    assert_eq!(merged.workflows.get("a").unwrap().workflow, simple_graph(1));
    assert_eq!(merged.workflows.get("b").unwrap().workflow, simple_graph(2));
}
