use codex_pr::hooks::{check_hook_exit, hook_command, HookRunError, HookSpec};
use codex_pr::policy::{PolicyEngine, PolicyError};
use codex_pr::runtime::{
    audit_to_stdout, is_trusted_repo, uninitialized_decision, usable_commands_file, HookOutcome,
    PrRuntime,
};
use codex_pr::types::commands::{ChildProcessPolicy, CommandSpecV1, CommandsFileV1};
use codex_pr::types::config::{
    HookDefinition, HookResponseV2, PolicyConfig, PrintRevoltConfig, VerifyEvidence,
};
use codex_pr::types::time::Timestamp;
use codex_pr::types::tool::{
    DecisionKind, ToolCall, ToolCallDecision, ToolInput, ToolKind, ToolOutcome,
};

fn words(v: &[&str]) -> Vec<String> {
    v.iter().map(|s| s.to_string()).collect()
}

fn shell(command: &[&str]) -> ToolCall {
    ToolCall {
        call_id: "c1".to_string(),
        tool_name: "local_shell".to_string(),
        tool_kind: ToolKind::LocalShell,
        input: ToolInput::LocalShell { command: words(command), workdir: None },
    }
}

fn shell_command(arguments: &str) -> ToolCall {
    ToolCall {
        call_id: "c1".to_string(),
        tool_name: "shell_command".to_string(),
        tool_kind: ToolKind::Function,
        input: ToolInput::Function { arguments: arguments.to_string() },
    }
}

fn outcome(success: bool) -> ToolOutcome {
    ToolOutcome { executed: true, success, duration_ms: 1, output_preview: String::new() }
}

fn at(secs: i64) -> Timestamp {
    Timestamp { secs, nanos: 0 }
}

#[test]
fn blocks_rm_rf() {
    let engine = PolicyEngine::new(PolicyConfig::default()).unwrap();
    let call = ToolCall {
        call_id: "c1".to_string(),
        tool_name: "local_shell".to_string(),
        tool_kind: ToolKind::LocalShell,
        input: ToolInput::LocalShell {
            command: vec!["rm".to_string(), "-rf".to_string(), "/tmp/x".to_string()],
            workdir: None,
        },
    };
    let decision = engine.evaluate_tool_call(&call);
    assert_eq!(decision.kind, DecisionKind::Block);
    assert_eq!(decision.reason_code.as_deref(), Some("PrDangerousCommandDenied"));
}

#[test]
fn harmless_calls_are_allowed() {
    let engine = PolicyEngine::new(PolicyConfig::default()).unwrap();
    assert_eq!(engine.evaluate_tool_call(&shell(&["ls", "-la"])), ToolCallDecision::allow());
}

#[test]
fn dangerous_function_calls_are_blocked_too() {
    let engine = PolicyEngine::new(PolicyConfig::default()).unwrap();
    let decision = engine.evaluate_tool_call(&shell_command("{\"command\":\"rm -rf /tmp/x\"}"));
    assert_eq!(decision.kind, DecisionKind::Block);
    let decision = engine.evaluate_tool_call(&shell_command("{\"command\":\"echo ok\"}"));
    assert_eq!(decision.kind, DecisionKind::Allow);
}

#[test]
fn disabled_policies_allow_everything() {
    let mut cfg = PolicyConfig::default();
    cfg.enabled = false;
    let engine = PolicyEngine::new(cfg).unwrap();
    assert_eq!(engine.evaluate_tool_call(&shell(&["rm", "-rf", "/"])).kind, DecisionKind::Allow);
    assert_eq!(engine.evaluate_finalize(&at(0), None), None);
}

fn verifying() -> PolicyConfig {
    let mut cfg = PolicyConfig::default();
    cfg.verify.required = true;
    cfg.verify.max_age_ms = 10_000;
    cfg.verify.command_prefixes = vec![words(&["cargo", "test"])];
    cfg
}

#[test]
fn verify_commands_are_recognised_by_their_start() {
    let engine = PolicyEngine::new(verifying()).unwrap();
    assert!(engine.should_record_verify(&shell(&["cargo", "test", "--all"])));
    assert!(!engine.should_record_verify(&shell(&["cargo", "build"])));
    assert!(!engine.should_record_verify(&shell(&["cargo"])));
}

#[test]
fn finishing_needs_fresh_success() {
    let engine = PolicyEngine::new(verifying()).unwrap();
    let evidence = |secs: i64, success: bool| VerifyEvidence {
        recorded_at: at(secs),
        command: words(&["cargo", "test"]),
        success,
    };
    assert!(engine.evaluate_finalize(&at(100), None).is_some());
    assert!(engine.evaluate_finalize(&at(100), Some(&evidence(99, false))).is_some());
    assert_eq!(engine.evaluate_finalize(&at(100), Some(&evidence(99, true))), None);
    assert_eq!(engine.evaluate_finalize(&at(100), Some(&evidence(90, true))), None);
    assert!(engine.evaluate_finalize(&at(100), Some(&evidence(89, true))).is_some());
    let blocked = engine.evaluate_finalize(&at(100), None).unwrap();
    assert_eq!(blocked.kind, DecisionKind::Block);
    assert_eq!(blocked.reason_code.as_deref(), Some("PrVerifyExecutionDenied"));
}

#[test]
fn policy_errors_are_worded() {
    assert_eq!(PolicyError::InvalidRegex("x".to_string()).message(), "invalid regex: x");
}

fn runtime(cfg: PrintRevoltConfig) -> PrRuntime {
    PrRuntime::initialize(cfg, Some("/repo".to_string()), None, None, &Vec::new()).unwrap()
}

#[test]
fn hook_cannot_put_a_dangerous_call_in_place() {
    let rt = runtime(PrintRevoltConfig::default());
    let answer = HookResponseV2 {
        decision: ToolCallDecision::modify(shell_command("{\"command\":\"rm -rf /tmp/to_delete\"}")),
    };
    let call = shell_command("{\"command\":\"echo ok\"}");
    let decided = rt.before_tool_call(&call, HookOutcome::Answered(answer));
    assert_eq!(decided.decision.kind, DecisionKind::Block);
    assert_eq!(decided.decision.reason_code.as_deref(), Some("PrDangerousCommandDenied"));
    assert!(decided.hook_audit.is_some());
    assert!(decided.policy_audit.is_some());
}

#[test]
fn hook_may_put_a_harmless_call_in_place() {
    let rt = runtime(PrintRevoltConfig::default());
    let other = shell(&["echo", "b"]);
    let answer = HookResponseV2 { decision: ToolCallDecision::modify(other.clone()) };
    let decided = rt.before_tool_call(&shell(&["echo", "a"]), HookOutcome::Answered(answer));
    assert_eq!(decided.decision, ToolCallDecision::modify(other));
}

#[test]
fn hook_that_blocks_or_fails_stops_the_call() {
    let rt = runtime(PrintRevoltConfig::default());
    let answer = HookResponseV2 { decision: ToolCallDecision::block("No", "not today") };
    let decided = rt.before_tool_call(&shell(&["ls"]), HookOutcome::Answered(answer.clone()));
    assert_eq!(decided.decision, answer.decision);
    assert!(decided.policy_audit.is_none());
    let decided = rt.before_tool_call(&shell(&["ls"]), HookOutcome::Failed(HookRunError::TimedOut(5)));
    assert_eq!(decided.decision.reason_code.as_deref(), Some("PrHookFailed"));
    assert_eq!(
        decided.decision.message.as_deref(),
        Some("Hook failed: hook timed out after 5ms")
    );
}

#[test]
fn hooks_of_untrusted_repositories_do_not_run() {
    let mut cfg = PrintRevoltConfig::default();
    cfg.hooks.enabled = true;
    cfg.hooks.before_tool = Some(HookDefinition {
        argv: words(&["hook"]),
        timeout_ms: 7,
        headless_only: false,
        is_repo_provided: true,
    });
    let rt = runtime(cfg.clone());
    let ctx = rt.context("s", "t", &at(1), "/repo");
    assert!(rt.before_tool_hook(ctx, &shell(&["ls"])).is_none());
    cfg.hooks.trusted_repo_roots = words(&["/repo"]);
    assert!(is_trusted_repo(&cfg, &Some("/repo".to_string())));
    assert!(!is_trusted_repo(&cfg, &None));
    let rt = runtime(cfg);
    let ctx = rt.context("s", "t", &at(1), "/repo");
    let (hook, payload) = rt.before_tool_hook(ctx, &shell(&["ls"])).unwrap();
    assert_eq!(hook.argv, words(&["hook"]));
    assert_eq!(payload.tool_call, Some(shell(&["ls"])));
}

#[test]
fn gate_opens_after_a_verified_change() {
    let mut cfg = PrintRevoltConfig::default();
    cfg.policy = verifying();
    let mut rt = runtime(cfg);
    let denied = rt.finalize_gate(&at(10)).unwrap();
    assert!(denied.starts_with("[PrVerifyExecutionDenied] "));
    rt.after_tool_call(&shell(&["cargo", "test"]), &outcome(false), &at(11));
    assert!(rt.finalize_gate(&at(12)).is_some());
    rt.after_tool_call(&shell(&["cargo", "test"]), &outcome(true), &at(13));
    assert!(rt.finalize_gate(&at(14)).is_none());
    assert!(rt.finalize_gate(&at(24)).is_some());
}

#[test]
fn calls_before_the_start_are_blocked() {
    let d = uninitialized_decision();
    assert_eq!(d.kind, DecisionKind::Block);
    assert_eq!(d.reason_code.as_deref(), Some("PrRuntimeInitFailed"));
}

#[test]
fn only_known_commands_files_count() {
    let file = |v: &str| CommandsFileV1 { schema_version: v.to_string(), commands: Vec::new() };
    assert!(usable_commands_file(file("1")).is_some());
    assert!(usable_commands_file(file("2")).is_none());
}

#[test]
fn audit_output_is_asked_for_by_a_variable() {
    assert!(audit_to_stdout(Some("1")));
    assert!(audit_to_stdout(Some("TRUE")));
    assert!(!audit_to_stdout(Some("yes")));
    assert!(!audit_to_stdout(None));
}

#[test]
fn hook_command_lines_are_taken_apart() {
    let spec = |argv: &[&str]| HookSpec {
        argv: words(argv),
        timeout_ms: 1,
        headless_only: false,
        is_repo_provided: false,
    };
    assert_eq!(
        hook_command(&spec(&["sh", "-c", "x"])),
        Ok(("sh".to_string(), words(&["-c", "x"])))
    );
    assert_eq!(hook_command(&spec(&[])), Err(HookRunError::EmptyArgv));
    assert_eq!(check_hook_exit(true, String::new()), Ok(()));
    assert_eq!(
        check_hook_exit(false, "bad".to_string()),
        Err(HookRunError::NonZeroExit("bad".to_string()))
    );
    assert_eq!(HookRunError::EmptyArgv.message(), "hook argv is empty");
    assert_eq!(HookRunError::SpawnFailed("x".to_string()).message(), "hook process spawn failed: x");
    assert_eq!(HookRunError::NonZeroExit("x".to_string()).message(), "hook exited non-zero: x");
    assert_eq!(HookRunError::InvalidJson("x".to_string()).message(), "hook invalid json response: x");
}

fn catalogue(id: &str) -> CommandsFileV1 {
    CommandsFileV1 {
        schema_version: "1".to_string(),
        commands: vec![CommandSpecV1 {
            id: id.to_string(),
            name: id.to_string(),
            cwd: ".".to_string(),
            argv: words(&["true"]),
            category: None,
            timeout_ms: None,
            child_process_policy: ChildProcessPolicy::Inherit,
            script_runner: false,
            requires_sandbox: false,
        }],
    }
}

#[test]
fn commands_of_untrusted_repositories_do_not_count() {
    let begin = |cfg: PrintRevoltConfig| {
        PrRuntime::initialize(
            cfg,
            Some("/repo".to_string()),
            Some(catalogue("mine")),
            Some(catalogue("theirs")),
            &Vec::new(),
        )
        .unwrap()
    };
    let rt = begin(PrintRevoltConfig::default());
    assert!(rt.commands.contains_key("mine"));
    assert!(!rt.commands.contains_key("theirs"));
    let mut cfg = PrintRevoltConfig::default();
    cfg.hooks.trusted_repo_roots = words(&["/repo"]);
    let rt = begin(cfg);
    assert_eq!(rt.commands.len(), 2);
}
