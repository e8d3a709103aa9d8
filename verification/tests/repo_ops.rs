use codex_pr::repo_ops::{
    check_git_repo, ensure_branch_plan, ensure_worktree_plan, failed_command, hash_plan,
    next_plan_step, normalize_relative_path, remove_worktree_plan, BranchEnsureArgs, CommandEnd,
    GitCommand, PlanStep, RepoOpPlan, RepoOpsError, WorktreeEnsureArgs,
};

#[test]
fn normalize_relative_path_rejects_absolute_and_dotdot() {
    assert!(normalize_relative_path("/abs").is_err());
    assert!(normalize_relative_path("../x").is_err());
    assert!(normalize_relative_path("a/../../b").is_err());
}

#[test]
fn normalize_relative_path_allows_subdirs() {
    let p = normalize_relative_path("prcc/s1").unwrap();
    assert_eq!(std::path::PathBuf::from(p), std::path::PathBuf::from("prcc").join("s1"));
}

#[test]
fn worktree_plan_hash_stable() {
    let commands = vec![GitCommand {
        cwd: "/tmp/somewhere".to_string(),
        argv: vec!["git".to_string(), "status".to_string()],
    }];
    let h1 = hash_plan("x", &commands);
    let h2 = hash_plan("x", &commands);
    assert_eq!(h1, h2);
    let text = b"{\"action\":\"x\",\"commands\":[{\"argv\":[\"git\",\"status\"],\"cwd\":\"/tmp/somewhere\"}]}";
    let digest = <sha2::Sha256 as sha2::Digest>::digest(text);
    let hex: String = digest.iter().map(|b| format!("{b:02x}")).collect();
    assert_eq!(h1, hex);
}

#[test]
fn steps_that_stay_are_dropped_and_steps_up_refused() {
    assert_eq!(normalize_relative_path("a//b/./d/"), Ok("a/b/d".to_string()));
    assert_eq!(normalize_relative_path("./a"), Ok("a".to_string()));
    assert_eq!(normalize_relative_path("..a/b.."), Ok("..a/b..".to_string()));
    for bad in ["", ".", "a/..", "./.", "a/../b", "a/b/..", ".."] {
        assert_eq!(
            normalize_relative_path(bad),
            Err(RepoOpsError::InvalidNaming(bad.to_string()))
        );
    }
}

#[test]
fn normal_path_is_kept() {
    for path in ["a//b/./d/", "./a", "..a/b..", "prcc/s1"] {
        let once = normalize_relative_path(path).unwrap();
        assert_eq!(normalize_relative_path(&once), Ok(once.clone()));
    }
}

#[test]
fn worktree_is_planned_under_its_root() {
    let (target, plan) = ensure_worktree_plan(WorktreeEnsureArgs {
        repo_root: "/repo",
        worktree_root: "/w/trees",
        naming: "prcc/./s1",
        branch_name: "b",
        base_branch: "main",
    })
    .unwrap();
    assert_eq!(target, "/w/trees/prcc/s1");
    assert_eq!(plan.action, "ensure_worktree");
    assert_eq!(plan.commands.len(), 1);
    assert_eq!(plan.commands[0].cwd, "/repo");
    assert_eq!(plan.commands[0].argv.join(" "), "git worktree add /w/trees/prcc/s1 -b b main");
    assert_eq!(plan.notes[0], "Target worktree path: /w/trees/prcc/s1");
}

#[test]
fn removal_stays_under_the_root() {
    let plan = remove_worktree_plan("/repo", "/w/trees", "x", true).unwrap();
    assert_eq!(plan.commands[0].argv.join(" "), "git worktree remove /w/trees/x --force");
    let plan = remove_worktree_plan("/repo", "/w/trees", "/w/trees/y", false).unwrap();
    assert_eq!(plan.commands[0].argv.join(" "), "git worktree remove /w/trees/y");
    assert_eq!(
        remove_worktree_plan("/repo", "/w/trees", "/w/treesy", false),
        Err(RepoOpsError::WorktreeEscapesRoot)
    );
    assert_eq!(
        remove_worktree_plan("/repo", "/w/trees", "../y", false),
        Err(RepoOpsError::InvalidNaming("../y".to_string()))
    );
    for path in ["/wt/../etc", "/wt/a/../../b", "/wt/..", "/wt/../wtx", "/etc", "/x/../wt/a"] {
        assert_eq!(
            remove_worktree_plan("/repo", "/wt", path, false),
            Err(RepoOpsError::WorktreeEscapesRoot)
        );
    }
}

#[test]
fn detours_below_the_root_may_be_removed() {
    let removed = |path: &str| {
        let plan = remove_worktree_plan("/repo", "/wt", path, false).unwrap();
        plan.commands[0].argv[3].clone()
    };
    for path in ["/wt/a/../b", "/wt/../wt/a", "/wt/./a//b"] {
        assert_eq!(removed(path), path);
    }
    assert_eq!(removed("a/../b"), "/wt/b");
    assert_eq!(removed("./a/b/.."), "/wt/a");
    for bad in ["a/..", "a/../../b", ".."] {
        assert_eq!(
            remove_worktree_plan("/repo", "/wt", bad, false),
            Err(RepoOpsError::InvalidNaming(bad.to_string()))
        );
    }
}

fn plan_of(commands: Vec<Vec<&str>>) -> RepoOpPlan {
    let mut plan = remove_worktree_plan("/repo", "/wt", "x", false).unwrap();
    plan.commands = commands
        .into_iter()
        .map(|argv| GitCommand {
            cwd: "/repo".to_string(),
            argv: argv.into_iter().map(|w| w.to_string()).collect(),
        })
        .collect();
    plan
}

#[test]
fn plan_runs_until_a_command_fails() {
    let plan = plan_of(vec![vec!["git", "fetch", "--all"], vec!["git"], vec![]]);
    let good = Some(CommandEnd { success: true, code: Some(0) });
    let run = |program: &str, args: &[&str]| PlanStep::Run {
        cwd: "/repo".to_string(),
        program: program.to_string(),
        args: args.iter().map(|w| w.to_string()).collect(),
    };
    assert_eq!(next_plan_step(&plan, 0, None), run("git", &["fetch", "--all"]));
    assert_eq!(next_plan_step(&plan, 1, good), run("git", &[]));
    assert_eq!(
        next_plan_step(&plan, 1, Some(CommandEnd { success: false, code: Some(128) })),
        PlanStep::Failed(RepoOpsError::GitFailed("git fetch --all (exit Some(128))".to_string()))
    );
    assert_eq!(
        next_plan_step(&plan, 2, Some(CommandEnd { success: false, code: None })),
        PlanStep::Failed(RepoOpsError::GitFailed("git (exit None)".to_string()))
    );
    assert_eq!(
        next_plan_step(&plan, 2, good),
        PlanStep::Failed(RepoOpsError::GitFailed("empty argv".to_string()))
    );
    assert_eq!(next_plan_step(&plan, 3, good), PlanStep::Finished);
    assert_eq!(next_plan_step(&plan_of(vec![]), 0, None), PlanStep::Finished);
}

#[test]
fn protected_branch_is_refused() {
    let protected = vec!["main".to_string()];
    let plan = |branch_name: &str| {
        ensure_branch_plan(BranchEnsureArgs {
            repo_root: "/repo",
            base_branch: "main",
            branch_name,
            protected_branches: &protected,
        })
    };
    assert_eq!(
        plan("main"),
        Err(RepoOpsError::GitFailed(
            "refusing to create/switch to protected branch: main".to_string()
        ))
    );
    let ok = plan("f").unwrap();
    assert_eq!(ok.commands[0].argv.join(" "), "git fetch --all --prune");
    assert_eq!(ok.commands[1].argv.join(" "), "git checkout -B f main");
}

#[test]
fn git_answers() {
    assert_eq!(check_git_repo("/r", true, " true\n"), Ok(()));
    assert_eq!(
        check_git_repo("/r", true, "false"),
        Err(RepoOpsError::NotAGitRepo("/r".to_string()))
    );
    assert_eq!(
        check_git_repo("/r", false, "true"),
        Err(RepoOpsError::NotAGitRepo("/r".to_string()))
    );
    let argv = vec!["git".to_string(), "x".to_string()];
    for code in [None, Some(0), Some(128), Some(-3)] {
        assert_eq!(
            failed_command(&argv, code),
            RepoOpsError::GitFailed(format!("git x (exit {:?})", code))
        );
    }
}

#[test]
fn plan_hash_is_that_of_its_document() {
    let commands = vec![GitCommand {
        cwd: "/r".to_string(),
        argv: vec!["git".to_string(), "status".to_string()],
    }];
    assert_eq!(
        hash_plan("a", &commands),
        "5e553a19a80f074661a3c3a855c7feb9f515fadf73d2592135a48a22f85906a6"
    );
}

#[test]
fn repository_errors_are_worded() {
    let text = |e: RepoOpsError| e.message();
    assert_eq!(text(RepoOpsError::NotAGitRepo("/r".to_string())), "not a git repository: /r");
    assert_eq!(
        text(RepoOpsError::InvalidNaming("../x".to_string())),
        "invalid naming path (must be relative, no ..): ../x"
    );
    assert_eq!(text(RepoOpsError::WorktreeEscapesRoot), "target path escapes worktree root");
    assert_eq!(text(RepoOpsError::GitFailed("x".to_string())), "git command failed: x");
}
