use codex_pr::pipelines::engine::{CommandResolver, PipelineEngine};
use codex_pr::pipelines::expand::expand_pipeline;
use codex_pr::pipelines::model::{
    ApprovalMode, ApprovalScope, ComponentV2, ExpandLimits, ExtractParser, ExtractSource,
    NormalizeOp, ParamSpecV2, Part, Pipeline, PipelineAction, PipelineError, PipelineLimits,
    PipelineRunContext, PipelineRunState, Workflow,
};
use codex_pr::strmap::StrMap;
use codex_pr::types::commands::{ChildProcessPolicy, CommandSpecV1};
use codex_pr::types::profile::ProfileRefs;
use codex_pr::types::tool::{ToolCall, ToolInput, ToolKind, ToolOutcome};

struct TestResolver {
    cmds: StrMap<CommandSpecV1>,
}

impl CommandResolver for TestResolver {
    fn resolve(&self, command_id: &str) -> Option<CommandSpecV1> {
        self.cmds.get(command_id).cloned()
    }
}

fn no_commands() -> TestResolver {
    TestResolver { cmds: StrMap::new() }
}

fn ctx() -> PipelineRunContext {
    PipelineRunContext {
        session_id: "s1".to_string(),
        task_id: Some("t1".to_string()),
        turn_id: Some("turn1".to_string()),
        vars: StrMap::new(),
        repo_root: Some("/repo".to_string()),
    }
}

fn engine() -> PipelineEngine {
    PipelineEngine::new(PipelineLimits { max_cycles: 50 })
}

fn set_var(key: &str, value: &str) -> Part {
    Part::SetVar { key: key.to_string(), value: value.to_string() }
}

fn pipeline_of(parts: Vec<Part>) -> Pipeline {
    let mut workflows = StrMap::new();
    workflows.insert("main".to_string(), Workflow { parts, finally_workflow: None });
    Pipeline { workflows, entry: "main".to_string() }
}

fn start(pipeline: &Pipeline) -> PipelineRunState {
    PipelineRunState::new(pipeline, &PipelineLimits::default(), ctx())
}

fn shell_tool() -> ToolCall {
    ToolCall {
        call_id: "c1".to_string(),
        tool_name: "local_shell".to_string(),
        tool_kind: ToolKind::LocalShell,
        input: ToolInput::LocalShell {
            command: vec!["echo".to_string(), "hi".to_string()],
            workdir: None,
        },
    }
}

fn outcome(text: &str) -> ToolOutcome {
    ToolOutcome { executed: true, success: true, duration_ms: 1, output_preview: text.to_string() }
}

#[test]
fn runs_finally_and_defer_on_failure() {
    let mut workflows = StrMap::new();
    workflows.insert(
        "cleanup".to_string(),
        Workflow {
            parts: vec![Part::SetVar { key: "cleanup".to_string(), value: "1".to_string() }],
            finally_workflow: None,
        },
    );
    workflows.insert(
        "main".to_string(),
        Workflow {
            parts: vec![
                Part::Defer {
                    part: Box::new(Part::SetVar {
                        key: "deferred".to_string(),
                        value: "1".to_string(),
                    }),
                },
                Part::Fail { message: "boom".to_string() },
            ],
            finally_workflow: Some("cleanup".to_string()),
        },
    );
    let pipeline = Pipeline { workflows, entry: "main".to_string() };
    let mut state = PipelineRunState::new(&pipeline, &PipelineLimits::default(), ctx());
    let resolver = no_commands();
    let eng = engine();

    loop {
        let action = eng.step(&pipeline, &mut state, &resolver).unwrap();
        match action {
            PipelineAction::Done { .. } => break,
            PipelineAction::InvokeTool { .. } => unreachable!(),
            PipelineAction::RequestApproval { .. } => unreachable!(),
            PipelineAction::EmitNote { .. } => {}
        }
    }

    assert_eq!(state.vars.get("cleanup"), Some(&"1".to_string()));
    assert_eq!(state.vars.get("deferred"), Some(&"1".to_string()));
    assert!(state.failed);
    assert_eq!(state.failure_message, Some("boom".to_string()));
}

#[test]
fn extract_and_assert_fact_works() {
    let pipeline = pipeline_of(vec![
        Part::RunTool { tool_call: shell_tool() },
        Part::ExtractValue {
            source: ExtractSource::Combined,
            parser: ExtractParser::Regex {
                pattern: "(?i)service is (down|up)".to_string(),
                group: Some(1),
            },
            output_key: "svc".to_string(),
            normalize: vec![NormalizeOp::Lowercase],
        },
        Part::AssertFact {
            key: "svc".to_string(),
            equals: Some("down".to_string()),
            matches_regex: None,
        },
    ]);
    let mut state = start(&pipeline);
    let resolver = no_commands();
    let eng = engine();

    let action = eng.step(&pipeline, &mut state, &resolver).unwrap();
    let PipelineAction::InvokeTool { .. } = action else {
        panic!("expected InvokeTool");
    };
    eng.provide_tool_outcome(
        &mut state,
        ToolOutcome {
            executed: true,
            success: true,
            duration_ms: 1,
            output_preview: "Service is DOWN".to_string(),
        },
        "Service is DOWN".to_string(),
        "".to_string(),
    )
    .unwrap();

    loop {
        let action = eng.step(&pipeline, &mut state, &resolver).unwrap();
        match action {
            PipelineAction::EmitNote { .. } => {}
            PipelineAction::Done { .. } => break,
            PipelineAction::InvokeTool { .. } => unreachable!(),
            PipelineAction::RequestApproval { .. } => unreachable!(),
        }
    }

    assert_eq!(state.facts.derived.get("svc"), Some(&"down".to_string()));
}

#[test]
fn require_approval_confirm_writes_bool_and_continues() {
    let pipeline = pipeline_of(vec![
        Part::RequireApproval {
            scope: ApprovalScope::OneOff,
            mode: ApprovalMode::Confirm,
            prompt: "cleanup now?".to_string(),
            remediation: vec![],
            action_hash: "h1".to_string(),
            output_key: Some("cleanup_ok".to_string()),
        },
        Part::AssertFact {
            key: "cleanup_ok".to_string(),
            equals: Some("false".to_string()),
            matches_regex: None,
        },
    ]);
    let mut state = start(&pipeline);
    let resolver = no_commands();
    let eng = engine();

    let action = eng.step(&pipeline, &mut state, &resolver).unwrap();
    let PipelineAction::RequestApproval { .. } = action else {
        panic!("expected RequestApproval");
    };
    eng.provide_approval_result(&mut state, false).unwrap();

    loop {
        let action = eng.step(&pipeline, &mut state, &resolver).unwrap();
        match action {
            PipelineAction::Done { .. } => break,
            PipelineAction::EmitNote { .. } => {}
            PipelineAction::InvokeTool { .. } => unreachable!(),
            PipelineAction::RequestApproval { .. } => unreachable!(),
        }
    }

    assert_eq!(state.facts.derived.get("cleanup_ok"), Some(&"false".to_string()));
    assert!(!state.failed);
}

#[test]
fn command_id_emits_note_then_invokes_tool() {
    let pipeline = pipeline_of(vec![Part::RunCommand {
        cwd: None,
        argv: None,
        command_id: Some("frontend:test".to_string()),
        timeout_ms: None,
        child_process_policy: ChildProcessPolicy::Inherit,
    }]);

    let mut resolver = no_commands();
    resolver.cmds.insert(
        "frontend:test".to_string(),
        CommandSpecV1 {
            id: "frontend:test".to_string(),
            name: "Frontend tests".to_string(),
            cwd: ".".to_string(),
            argv: vec!["npm".to_string(), "test".to_string()],
            category: None,
            timeout_ms: None,
            child_process_policy: ChildProcessPolicy::Inherit,
            script_runner: true,
            requires_sandbox: false,
        },
    );

    let mut state = start(&pipeline);
    let eng = engine();

    let first = eng.step(&pipeline, &mut state, &resolver).unwrap();
    let PipelineAction::EmitNote { message } = first else {
        panic!("expected EmitNote");
    };
    assert!(message.contains("Resolved command_id"));
    assert_eq!(
        message,
        "Resolved command_id frontend:test -> cwd=. argv=[\"npm\", \"test\"]"
    );

    let second = eng.step(&pipeline, &mut state, &resolver).unwrap();
    let PipelineAction::InvokeTool { tool_call, .. } = second else {
        panic!("expected InvokeTool");
    };
    assert_eq!(
        tool_call.input,
        ToolInput::LocalShell {
            command: vec!["npm".to_string(), "test".to_string()],
            workdir: Some(".".to_string())
        }
    );
}

#[test]
fn ensure_worktree_emits_approval_request_by_default() {
    let pipeline = pipeline_of(vec![Part::EnsureWorktree {
        worktree_root: "/tmp/worktrees".to_string(),
        naming: "prcc/${session_id}".to_string(),
        base_branch: Some("main".to_string()),
        branch_name: "prcc/${session_id}".to_string(),
        require_approval: true,
    }]);
    let mut state = start(&pipeline);
    let resolver = no_commands();
    let eng = engine();

    let action = eng.step(&pipeline, &mut state, &resolver).unwrap();
    assert!(matches!(action, PipelineAction::RequestApproval { .. }));
}

#[test]
fn worktree_approval_is_bound_to_the_whole_request() {
    let pipeline = pipeline_of(vec![Part::EnsureWorktree {
        worktree_root: "/w".to_string(),
        naming: "n".to_string(),
        base_branch: None,
        branch_name: "b".to_string(),
        require_approval: true,
    }]);
    let mut state = start(&pipeline);
    let action = engine().step(&pipeline, &mut state, &no_commands()).unwrap();
    let PipelineAction::RequestApproval { action_hash, .. } = action else {
        panic!("expected RequestApproval");
    };
    assert_eq!(
        action_hash,
        sha256_of(
            b"{\"base_branch\":\"main\",\"branch_name\":\"b\",\"naming\":\"n\",\"op\":\"ensure_worktree\",\"repo_root\":\"/repo\",\"worktree_root\":\"/w\"}"
        )
    );
}

fn sha256_of(bytes: &[u8]) -> String {
    let digest = <sha2::Sha256 as sha2::Digest>::digest(bytes);
    digest.iter().map(|b| format!("{b:02x}")).collect()
}

#[test]
fn ensure_branch_invokes_git_with_protected_branches() {
    let pipeline = pipeline_of(vec![Part::EnsureBranch {
        base_branch: None,
        branch_name: "feature/${session_id}".to_string(),
        protected_branches: vec!["main".to_string(), "release".to_string()],
        require_approval: false,
    }]);
    let mut state = start(&pipeline);
    let action = engine().step(&pipeline, &mut state, &no_commands()).unwrap();
    let PipelineAction::InvokeTool { tool_call, .. } = action else {
        panic!("expected InvokeTool");
    };
    assert_eq!(tool_call.call_id, "pipeline-ensure-branch");
    let ToolInput::LocalShell { command, workdir } = tool_call.input else {
        panic!("expected a shell call");
    };
    assert_eq!(workdir, Some("/repo".to_string()));
    assert_eq!(
        command.join(" "),
        "codex-pr repo ensure-branch --repo-root /repo --base-branch main --branch-name feature/s1 --protected main --protected release --apply"
    );
}

#[test]
fn denied_gate_fails_the_run() {
    let pipeline = pipeline_of(vec![
        Part::RequireApproval {
            scope: ApprovalScope::Session,
            mode: ApprovalMode::Gate,
            prompt: "go?".to_string(),
            remediation: vec![],
            action_hash: "h".to_string(),
            output_key: None,
        },
        set_var("after", "1"),
    ]);
    let mut state = start(&pipeline);
    let eng = engine();
    eng.step(&pipeline, &mut state, &no_commands()).unwrap();
    assert_eq!(
        eng.step(&pipeline, &mut state, &no_commands()),
        Err(PipelineError::WaitingForExternalInput)
    );
    eng.provide_approval_result(&mut state, false).unwrap();
    assert_eq!(
        eng.step(&pipeline, &mut state, &no_commands()),
        Ok(PipelineAction::Done { failed: true, message: Some("approval denied".to_string()) })
    );
    assert_eq!(state.vars.get("after"), None);
}

#[test]
fn outcome_is_refused_when_nothing_is_waited_for() {
    let pipeline = pipeline_of(vec![]);
    let mut state = start(&pipeline);
    let eng = engine();
    assert_eq!(
        eng.provide_tool_outcome(&mut state, outcome("x"), "".to_string(), "".to_string()),
        Err(PipelineError::InvalidPart(
            "provide_tool_outcome called while not waiting for a tool".to_string()
        ))
    );
    assert_eq!(
        eng.provide_approval_result(&mut state, true),
        Err(PipelineError::InvalidPart(
            "provide_approval_result called while not waiting for approval".to_string()
        ))
    );
}

#[test]
fn cycles_are_limited() {
    let pipeline = pipeline_of(vec![set_var("a", "1"), set_var("b", "2")]);
    let mut state = start(&pipeline);
    let eng = PipelineEngine::new(PipelineLimits { max_cycles: 1 });
    eng.step(&pipeline, &mut state, &no_commands()).unwrap();
    assert_eq!(
        eng.step(&pipeline, &mut state, &no_commands()),
        Err(PipelineError::MaxCyclesExceeded(1))
    );
}

#[test]
fn unknown_workflow_is_an_error() {
    let mut pipeline = pipeline_of(vec![]);
    pipeline.entry = "gone".to_string();
    let mut state = start(&pipeline);
    assert_eq!(
        engine().step(&pipeline, &mut state, &no_commands()),
        Err(PipelineError::UnknownWorkflow("gone".to_string()))
    );
}

fn extract(parser: ExtractParser, text: &str) -> Result<Option<String>, PipelineError> {
    let pipeline = pipeline_of(vec![
        Part::RunTool { tool_call: shell_tool() },
        Part::ExtractValue {
            source: ExtractSource::Stdout,
            parser,
            output_key: "k".to_string(),
            normalize: vec![NormalizeOp::Trim],
        },
    ]);
    let mut state = start(&pipeline);
    let eng = engine();
    eng.step(&pipeline, &mut state, &no_commands()).unwrap();
    eng.provide_tool_outcome(&mut state, outcome(""), text.to_string(), "".to_string()).unwrap();
    match eng.try_step(&pipeline, &mut state, &no_commands()) {
        None => Ok(None),
        Some(Ok(_)) => Ok(state.facts.derived.get("k").cloned()),
        Some(Err(e)) => Err(e),
    }
}

fn json_path(p: &str) -> ExtractParser {
    ExtractParser::JsonPath { json_path: p.to_string() }
}

#[test]
fn json_values_are_extracted() {
    let text = "{\"a\":{\"b\":[1,\" two \",{\"c\":1.5}]}}";
    assert_eq!(extract(json_path("/a/b/1"), text), Ok(Some("two".to_string())));
    assert_eq!(extract(json_path("/a/b/0"), text), Ok(Some("1".to_string())));
    assert_eq!(extract(json_path("/a/b/2"), text), Ok(Some("{\"c\":1.5}".to_string())));
    assert_eq!(
        extract(json_path("/a/z"), text),
        Err(PipelineError::ExtractFailed("json_path not found: /a/z".to_string()))
    );
    assert_eq!(
        extract(json_path("a"), text),
        Err(PipelineError::ExtractFailed(
            "json_path must be a JSON pointer starting with '/'".to_string()
        ))
    );
    let err = extract(json_path("/a"), "{").unwrap_err();
    assert!(matches!(err, PipelineError::ExtractFailed(m) if m.starts_with("json parse failed: ")));
}

#[test]
fn json_pointers_are_followed() {
    let text = "{\"a/b\":\"slash\",\"m~n\":\"tilde\",\"~1\":\"both\",\"\":[\"x\",\"y\"],\"k\":1,\"k\":2}";
    assert_eq!(extract(json_path("/a~1b"), text), Ok(Some("slash".to_string())));
    assert_eq!(extract(json_path("/m~0n"), text), Ok(Some("tilde".to_string())));
    assert_eq!(extract(json_path("/~01"), text), Ok(Some("both".to_string())));
    assert_eq!(extract(json_path("//1"), text), Ok(Some("y".to_string())));
    assert_eq!(extract(json_path("/k"), text), Ok(Some("2".to_string())));
    for nowhere in ["//2", "//01", "//+1", "//x", "//-", "/k/0", "/a/b"] {
        assert_eq!(
            extract(json_path(nowhere), text),
            Err(PipelineError::ExtractFailed(format!("json_path not found: {nowhere}")))
        );
    }
}

#[test]
fn patterns_are_extracted() {
    let re = |p: &str, g: Option<usize>| ExtractParser::Regex { pattern: p.to_string(), group: g };
    assert_eq!(extract(re("v(\\d+)", Some(1)), "at v42 now"), Ok(Some("42".to_string())));
    assert_eq!(extract(re("v(\\d+)", None), "at v42 now"), Ok(Some("v42".to_string())));
    assert_eq!(
        extract(re("v(\\d+)", Some(2)), "at v42 now"),
        Err(PipelineError::ExtractFailed("missing capture".to_string()))
    );
    assert_eq!(
        extract(re("zzz", None), "at v42 now"),
        Err(PipelineError::ExtractFailed("no match".to_string()))
    );
    assert_eq!(
        extract(re(&"a".repeat(513), None), "a"),
        Err(PipelineError::ExtractFailed("regex too large".to_string()))
    );
    let err = extract(re("(", None), "x").unwrap_err();
    assert!(matches!(err, PipelineError::ExtractFailed(m) if m.starts_with("invalid regex: ")));
}

#[test]
fn extracted_values_are_cut() {
    let re = ExtractParser::Regex { pattern: "x+".to_string(), group: None };
    let found = extract(re, &"x".repeat(2000)).unwrap().unwrap();
    assert_eq!(found.len(), 1024);
    let re = ExtractParser::Regex { pattern: "a.+".to_string(), group: None };
    assert_eq!(extract(re, &format!("a{}", "\u{e9}".repeat(2000))), Ok(None));
}

#[test]
fn facts_are_asserted() {
    let check = |equals: Option<&str>, pattern: Option<&str>| {
        let mut state = start(&pipeline_of(vec![]));
        state.facts.derived.insert("k".to_string(), "v1".to_string());
        codex_pr::pipelines::engine::assert_fact(
            &state.facts.derived,
            "k",
            &equals.map(|s| s.to_string()),
            &pattern.map(|s| s.to_string()),
        )
    };
    assert_eq!(check(Some("v1"), Some("^v\\d$")), Ok(()));
    assert_eq!(
        check(Some("v2"), None),
        Err(PipelineError::AssertFailed("fact k expected v2, got v1".to_string()))
    );
    assert_eq!(
        check(None, Some("^x")),
        Err(PipelineError::AssertFailed("fact k did not match regex".to_string()))
    );
    let none: StrMap<String> = StrMap::new();
    assert_eq!(
        codex_pr::pipelines::engine::assert_fact(&none, "k", &None, &None),
        Err(PipelineError::AssertFailed("missing fact: k".to_string()))
    );
}

#[test]
fn unsupported_policy_and_missing_command_are_errors() {
    let run = |argv: Option<Vec<String>>, id: Option<&str>, policy: ChildProcessPolicy| {
        let pipeline = pipeline_of(vec![Part::RunCommand {
            cwd: None,
            argv,
            command_id: id.map(|s| s.to_string()),
            timeout_ms: None,
            child_process_policy: policy,
        }]);
        let mut state = start(&pipeline);
        engine().step(&pipeline, &mut state, &no_commands())
    };
    assert_eq!(
        run(None, None, ChildProcessPolicy::AuditAllowlist),
        Err(PipelineError::UnsupportedChildProcessPolicy(ChildProcessPolicy::AuditAllowlist))
    );
    assert_eq!(
        run(None, Some("x"), ChildProcessPolicy::Inherit),
        Err(PipelineError::UnknownCommandId("x".to_string()))
    );
    assert_eq!(
        run(None, None, ChildProcessPolicy::Inherit),
        Err(PipelineError::InvalidPart(
            "run_command requires either argv or command_id".to_string()
        ))
    );
    let action = run(Some(vec!["ls".to_string()]), None, ChildProcessPolicy::Inherit).unwrap();
    let PipelineAction::InvokeTool { tool_call, .. } = action else {
        panic!("expected InvokeTool");
    };
    assert_eq!(
        tool_call.input,
        ToolInput::LocalShell { command: vec!["ls".to_string()], workdir: Some(".".to_string()) }
    );
}

#[test]
fn missing_repo_root_is_an_error() {
    let pipeline = pipeline_of(vec![Part::EnsureBranch {
        base_branch: None,
        branch_name: "b".to_string(),
        protected_branches: vec![],
        require_approval: true,
    }]);
    let mut context = ctx();
    context.repo_root = None;
    let mut state = PipelineRunState::new(&pipeline, &PipelineLimits::default(), context);
    assert_eq!(
        engine().step(&pipeline, &mut state, &no_commands()),
        Err(PipelineError::MissingRepoRoot)
    );
}

fn component(params: Vec<(&str, Option<&str>)>, parts: Vec<Part>) -> ComponentV2 {
    let mut map = StrMap::new();
    for (name, default) in params {
        map.insert(name.to_string(), ParamSpecV2 { default: default.map(|s| s.to_string()) });
    }
    ComponentV2 { params: map, profile_refs: ProfileRefs::default(), parts }
}

fn use_component(id: &str, args: Vec<(&str, &str)>) -> Part {
    let mut map = StrMap::new();
    for (k, v) in args {
        map.insert(k.to_string(), v.to_string());
    }
    Part::UseComponent { id: id.to_string(), args: map }
}

fn expand(parts: Vec<Part>, components: Vec<(&str, ComponentV2)>) -> Result<Vec<Part>, PipelineError> {
    let mut map = StrMap::new();
    for (k, v) in components {
        map.insert(k.to_string(), v);
    }
    let p = expand_pipeline(&pipeline_of(parts), &map, ExpandLimits::default())?;
    Ok(p.workflows.get("main").unwrap().parts.clone())
}

#[test]
fn components_are_expanded_with_their_arguments() {
    let c = component(
        vec![("name", None), ("greeting", Some("hello"))],
        vec![set_var("msg", "${param.greeting} ${param.name} ${var.x}")],
    );
    let got = expand(
        vec![set_var("a", "1"), use_component("c", vec![("name", "bob")]), set_var("z", "2")],
        vec![("c", c)],
    );
    assert_eq!(
        got,
        Ok(vec![set_var("a", "1"), set_var("msg", "hello bob ${var.x}"), set_var("z", "2")])
    );
}

#[test]
fn expansion_errors() {
    let c = |parts: Vec<Part>| component(vec![("p", None)], parts);
    assert_eq!(
        expand(vec![use_component("gone", vec![])], vec![]),
        Err(PipelineError::UnknownComponent("gone".to_string()))
    );
    assert_eq!(
        expand(vec![use_component("c", vec![])], vec![("c", c(vec![]))]),
        Err(PipelineError::MissingComponentParam {
            component_id: "c".to_string(),
            param: "p".to_string()
        })
    );
    assert_eq!(
        expand(vec![use_component("c", vec![("p", "${var.x}")])], vec![("c", c(vec![]))]),
        Err(PipelineError::InvalidComponentArg {
            component_id: "c".to_string(),
            param: "p".to_string(),
            message: "component args must be literal strings (no ${...})".to_string()
        })
    );
    assert_eq!(
        expand(
            vec![use_component("c", vec![("p", "1")])],
            vec![("c", c(vec![set_var("k", "${param.q}")]))]
        ),
        Err(PipelineError::UnknownComponentParamReference {
            component_id: "c".to_string(),
            param: "q".to_string()
        })
    );
    assert_eq!(
        expand(
            vec![use_component("c", vec![("p", "1")])],
            vec![("c", c(vec![set_var("k", "${param.q")]))]
        ),
        Err(PipelineError::TemplateError("unclosed ${param.*} placeholder".to_string()))
    );
    assert_eq!(
        expand(
            vec![use_component("a", vec![])],
            vec![
                ("a", component(vec![], vec![use_component("b", vec![])])),
                ("b", component(vec![], vec![use_component("a", vec![])])),
            ]
        ),
        Err(PipelineError::ComponentCycle(vec![
            "a".to_string(),
            "b".to_string(),
            "a".to_string()
        ]))
    );
}

#[test]
fn expansion_limits() {
    let mut map = StrMap::new();
    map.insert("a".to_string(), component(vec![], vec![use_component("b", vec![])]));
    map.insert("b".to_string(), component(vec![("x", Some("yyyy"))], vec![set_var("k", "${param.x}")]));
    let p = pipeline_of(vec![use_component("a", vec![])]);
    let limits = |d: usize, n: usize, b: usize| ExpandLimits {
        max_depth: d,
        max_expanded_parts: n,
        max_total_string_bytes: b,
    };
    assert!(expand_pipeline(&p, &map, limits(2, 3, 4)).is_ok());
    assert_eq!(
        expand_pipeline(&p, &map, limits(1, 3, 4)),
        Err(PipelineError::ExpandLimitsExceeded("max_depth=1".to_string()))
    );
    assert_eq!(
        expand_pipeline(&p, &map, limits(2, 2, 4)),
        Err(PipelineError::ExpandLimitsExceeded("max_expanded_parts=2".to_string()))
    );
    assert_eq!(
        expand_pipeline(&p, &map, limits(2, 3, 3)),
        Err(PipelineError::ExpandLimitsExceeded("max_total_string_bytes=3".to_string()))
    );
}

#[test]
fn plain_pipeline_expands_to_itself() {
    let parts = vec![set_var("a", "${var.b}"), Part::Fail { message: "m".to_string() }];
    assert_eq!(expand(parts.clone(), vec![]), Ok(parts));
}

#[test]
fn text_around_placeholders_is_kept() {
    let c = component(vec![("x", None)], vec![set_var("m", "\u{e9}=${param.x} \u{20ac}${var.y}")]);
    assert_eq!(
        expand(vec![use_component("c", vec![("x", "1")])], vec![("c", c)]),
        Ok(vec![set_var("m", "\u{e9}=1 \u{20ac}${var.y}")])
    );
}

#[test]
fn expanded_pipeline_expands_to_itself() {
    let c = component(vec![("x", None)], vec![set_var("m", "${param.x}"), set_var("n", "2")]);
    let mut components = StrMap::new();
    components.insert("c".to_string(), c);
    let mut pipeline = pipeline_of(vec![use_component("c", vec![("x", "1")])]);
    pipeline.workflows.insert(
        "end".to_string(),
        Workflow { parts: vec![set_var("z", "3")], finally_workflow: Some("main".to_string()) },
    );
    let once = expand_pipeline(&pipeline, &components, ExpandLimits::default()).unwrap();
    assert_eq!(once.entry, "main");
    assert_eq!(
        once.workflows.get("end").and_then(|w| w.finally_workflow.clone()),
        Some("main".to_string())
    );
    for known in [components, StrMap::new()] {
        let twice = expand_pipeline(&once, &known, ExpandLimits::default()).unwrap();
        assert_eq!(twice, once);
    }
}

#[test]
fn pipeline_errors_are_worded() {
    let s = |t: &str| t.to_string();
    let cases = vec![
        (PipelineError::UnknownWorkflow(s("w")), "unknown workflow: w"),
        (PipelineError::MaxCyclesExceeded(3), "pipeline exceeded max_cycles=3"),
        (PipelineError::WaitingForExternalInput, "engine is waiting for external input"),
        (PipelineError::MissingToolOutcome, "missing tool outcome for extract/assert"),
        (PipelineError::ExtractFailed(s("x")), "extract failed: x"),
        (PipelineError::AssertFailed(s("x")), "assert failed: x"),
        (PipelineError::InvalidPart(s("x")), "invalid part: x"),
        (PipelineError::TemplateError(s("x")), "template error: x"),
        (
            PipelineError::UnsupportedChildProcessPolicy(ChildProcessPolicy::EnforceAllowlist),
            "unsupported child_process_policy=EnforceAllowlist on this platform",
        ),
        (PipelineError::UnknownCommandId(s("c")), "unknown command_id: c"),
        (PipelineError::MissingRepoRoot, "missing repo_root for git operation"),
        (PipelineError::UnknownComponent(s("c")), "unknown component_id: c"),
        (PipelineError::ComponentCycle(vec![s("a"), s("b")]), "component cycle: [\"a\", \"b\"]"),
        (
            PipelineError::MissingComponentParam { component_id: s("c"), param: s("p") },
            "missing component param: component_id=c param=p",
        ),
        (
            PipelineError::UnknownComponentParamReference { component_id: s("c"), param: s("p") },
            "unknown component param reference: component_id=c param=p",
        ),
        (
            PipelineError::InvalidComponentArg {
                component_id: s("c"),
                param: s("p"),
                message: s("m"),
            },
            "invalid component arg: component_id=c param=p: m",
        ),
        (PipelineError::ExpandLimitsExceeded(s("x")), "component expansion limit exceeded: x"),
    ];
    for (error, text) in cases {
        assert_eq!(error.message(), text);
    }
}
