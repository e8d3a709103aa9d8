use codex_pr::attach::frontmatter::{mutate_template_frontmatter_profile_refs, split_head};
use codex_pr::attach::refs::{
    apply_profile_ref_attach, apply_profile_ref_detach, mutate_pipelines_attachment,
    mutate_workflows_attachment, parse_profile_subject, ProfileKind, ProfileMode, ProfileSubject,
};
use codex_pr::cli::bundles::empty_pipelines_file;
use codex_pr::templates::{
    clamp_policy_defaults, extract_contract_sections, load_template, note_loaded, template_dirs,
    template_parts, template_ref, try_split_frontmatter, Frontmatter, PolicyDefaults,
    TemplateDefaults, TemplateDiscoveryResult, TemplateError, TemplateSource,
};
use codex_pr::types::config::PolicyConfig;
use codex_pr::types::profile::ProfileRefs;
use codex_pr::types::workflows::WorkflowsFileV1;

const SECURITY: &str = "---\nname: Security Adviser\ndescription: Looks for security issues\ntags: [security]\ndefaults:\n  policy:\n    deny_dangerous_always: true\n    verify_required: true\n---\n\n## Role + Objective\nBe strict.\n\n## Procedure\nDo steps.\n\n## Outputs\nList issues.\n\n## Policy Defaults\nTighten policy.\n\n## Tooling Scope\nNo network.\n";

fn frontmatter() -> Frontmatter {
    Frontmatter {
        name: Some("Security Adviser".to_string()),
        description: Some("Looks for security issues".to_string()),
        tags: vec!["security".to_string()],
        defaults: Some(TemplateDefaults {
            policy: PolicyDefaults {
                deny_dangerous_always: Some(true),
                verify_required: Some(true),
                verify_max_age_ms: None,
            },
            profile_refs: ProfileRefs::default(),
        }),
    }
}

#[test]
fn security_template_is_accepted() {
    let (head, body) = template_parts(SECURITY, 100_000).unwrap().unwrap();
    let parsed: serde_yaml::Value = serde_yaml::from_str(&head).unwrap();
    assert_eq!(parsed.get("name").and_then(|v| v.as_str()), Some("Security Adviser"));
    let t = load_template(
        frontmatter(),
        &body,
        "/home/templates/security.md",
        "security.md",
        TemplateSource::User,
        "user",
    )
    .unwrap();
    assert_eq!(t.name, "Security Adviser");
    assert_eq!(t.id, "user:security.md");
    assert_eq!(t.contract.role_objective, "Be strict.");
    assert_eq!(t.contract.tooling_scope, "No network.");
    assert_eq!(template_ref(&t).name, "Security Adviser");
}

#[test]
fn incomplete_templates_are_refused() {
    assert_eq!(
        extract_contract_sections("## Procedure\nx\n"),
        Err(TemplateError::MissingSection("## Role + Objective".to_string()))
    );
    let mut fm = frontmatter();
    fm.name = None;
    let (_, body) = template_parts(SECURITY, 100_000).unwrap().unwrap();
    let r = load_template(fm, &body, "/p", "p", TemplateSource::Repo, "repo");
    assert_eq!(r.err(), Some(TemplateError::MissingFrontmatterKey("name".to_string())));
    assert!(matches!(template_parts(SECURITY, 10), Some(Err(TemplateError::TooLarge(_)))));
    assert_eq!(
        template_parts("no frontmatter", 100),
        Some(Err(TemplateError::MissingFrontmatter))
    );
    assert_eq!(
        try_split_frontmatter("---\nname: x\n---\nbody"),
        Some(Ok(("name: x".to_string(), "body".to_string())))
    );
}

#[test]
fn template_errors_are_worded() {
    assert_eq!(
        TemplateError::MissingFrontmatter.message(),
        "missing or invalid YAML frontmatter"
    );
    assert_eq!(
        TemplateError::InvalidFrontmatter("x".to_string()).message(),
        "invalid YAML frontmatter: x"
    );
    assert_eq!(
        TemplateError::MissingFrontmatterKey("name".to_string()).message(),
        "missing required frontmatter key: name"
    );
    assert_eq!(
        TemplateError::MissingSection("Outputs".to_string()).message(),
        "template missing required section heading: Outputs"
    );
    assert_eq!(TemplateError::TooLarge(7).message(), "template too large: 7 bytes");
}

#[test]
fn files_that_are_no_templates_are_noted() {
    let mut out = TemplateDiscoveryResult { templates: Vec::new(), warnings: Vec::new() };
    note_loaded("/t/x.md", Err(TemplateError::MissingFrontmatter), &mut out);
    assert_eq!(out.templates.len(), 0);
    assert_eq!(
        out.warnings,
        vec!["ignored template /t/x.md: missing or invalid YAML frontmatter"]
    );
    assert_eq!(template_dirs(true, true), (true, None));
    assert_eq!(
        template_dirs(true, false),
        (false, Some("repo templates are disabled (repo not trusted)".to_string()))
    );
    assert_eq!(template_dirs(false, false), (false, None));
}

#[test]
fn template_defaults_only_tighten() {
    let mut base = PolicyConfig::default();
    base.verify.required = false;
    base.verify.max_age_ms = 1_000;
    let d = PolicyDefaults {
        deny_dangerous_always: Some(false),
        verify_required: Some(true),
        verify_max_age_ms: Some(5_000),
    };
    let r = clamp_policy_defaults(&base, &d);
    assert_eq!(r.deny_dangerous_always, base.deny_dangerous_always);
    assert!(r.verify.required);
    assert_eq!(r.verify.max_age_ms, 1_000);
}

#[test]
fn profiles_are_attached_once() {
    let mut refs = ProfileRefs::default();
    apply_profile_ref_attach(&mut refs, ProfileKind::Policy, "a", ProfileMode::Merge);
    apply_profile_ref_attach(&mut refs, ProfileKind::Policy, "a", ProfileMode::Merge);
    apply_profile_ref_attach(&mut refs, ProfileKind::Policy, "b", ProfileMode::Merge);
    assert_eq!(refs.policy_profiles, vec!["a", "b"]);
    apply_profile_ref_detach(&mut refs, ProfileKind::Policy, "a");
    assert_eq!(refs.policy_profiles, vec!["b"]);
    apply_profile_ref_attach(&mut refs, ProfileKind::Policy, "c", ProfileMode::Replace);
    assert_eq!(refs.policy_profiles, vec!["c"]);
    assert_eq!(refs.guideline_profiles, Vec::<String>::new());
}

#[test]
fn subjects_are_read() {
    assert_eq!(
        parse_profile_subject("template:x"),
        Ok(ProfileSubject::Template { template_id: "x".to_string() })
    );
    assert_eq!(
        parse_profile_subject("template: "),
        Err("template subject requires id: template:<template_id>".to_string())
    );
    assert_eq!(
        parse_profile_subject("pipeline:p"),
        Ok(ProfileSubject::Pipeline { pipeline_id: "p".to_string() })
    );
    assert!(parse_profile_subject("nonsense").is_err());
}

#[test]
fn pieces_of_files_can_carry_profiles() {
    let mut file = empty_pipelines_file();
    let subject = ProfileSubject::PipelineWorkflow {
        pipeline_id: "p".to_string(),
        workflow_id: "main".to_string(),
    };
    mutate_pipelines_attachment(&mut file, &subject, ProfileKind::Policy, "x", ProfileMode::Merge, false)
        .unwrap();
    assert_eq!(
        file.profile_attachments.workflows.get("p.main").unwrap().policy_profiles,
        vec!["x"]
    );
    let missing = ProfileSubject::Pipeline { pipeline_id: "q".to_string() };
    assert_eq!(
        mutate_pipelines_attachment(&mut file, &missing, ProfileKind::Policy, "x", ProfileMode::Merge, false),
        Err("pipeline not found: q".to_string())
    );
    let mut flows = WorkflowsFileV1::default();
    let step = ProfileSubject::WorkflowStep {
        workflow_id: "w".to_string(),
        step_id: "s".to_string(),
    };
    mutate_workflows_attachment(&mut flows, &step, ProfileKind::Guideline, "g", ProfileMode::Merge, false)
        .unwrap();
    assert_eq!(
        flows.profile_attachments.steps.get("w.s").unwrap().guideline_profiles,
        vec!["g"]
    );
    mutate_workflows_attachment(&mut flows, &step, ProfileKind::Guideline, "g", ProfileMode::Merge, true)
        .unwrap();
    assert_eq!(
        flows.profile_attachments.steps.get("w.s").unwrap().guideline_profiles,
        Vec::<String>::new()
    );
    assert_eq!(
        mutate_workflows_attachment(&mut flows, &missing, ProfileKind::Policy, "x", ProfileMode::Merge, false),
        Err("subject is not a workflow subject".to_string())
    );
}

fn refs_in(text: &str) -> Vec<String> {
    let (head, _) = split_head(text, "/t.md").unwrap().unwrap();
    let v: serde_yaml::Value = serde_yaml::from_str(&head).unwrap();
    let list = v
        .get("defaults")
        .and_then(|d| d.get("profile_refs"))
        .and_then(|r| r.get("policy_profiles"))
        .and_then(|p| p.as_sequence().cloned());
    match list {
        None => Vec::new(),
        Some(items) => items.iter().map(|i| i.as_str().unwrap().to_string()).collect(),
    }
}

#[test]
fn frontmatter_takes_and_gives_up_profiles() {
    let path = "/t.md";
    assert!(split_head(SECURITY, path).is_some());
    let once = mutate_template_frontmatter_profile_refs(
        SECURITY, path, ProfileKind::Policy, "strict", ProfileMode::Merge, false,
    )
    .unwrap();
    assert_eq!(refs_in(&once), vec!["strict"]);
    assert!(split_head(&once, path).is_some());
    let gone = mutate_template_frontmatter_profile_refs(
        &once, path, ProfileKind::Policy, "strict", ProfileMode::Merge, true,
    )
    .unwrap();
    assert_eq!(refs_in(&gone), Vec::<String>::new());
    let (_, body) = template_parts(&gone, 100_000).unwrap().unwrap();
    assert_eq!(extract_contract_sections(&body).unwrap().outputs, "List issues.");
}
