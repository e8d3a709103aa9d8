use codex_pr::profiles::cache::{resolve_subject_profiles_cached, ProfilesResolverCache};
use codex_pr::profiles::graph::validate_profile_graph;
use codex_pr::profiles::model::{LoadedProfilesRegistry, ProfileScope, ProfilesError};
use codex_pr::profiles::order::resolve_requested_ids;
use codex_pr::profiles::perf::summarize_samples;
use codex_pr::profiles::resolve::{
    check_schema_version, load_profiles_registry, resolve_subject_profiles, ProjectProfiles,
};
use codex_pr::strmap::StrMap;
use codex_pr::types::config::{PolicyConfig, VerifyPolicy};
use codex_pr::types::profile::{
    GuidelineProfileV1, GuidelineProfilesFileV1, PolicyProfilePatchV1, PolicyProfileV1,
    PolicyProfilesFileV1, ProfileRefs,
};

fn empty_registry() -> LoadedProfilesRegistry {
    LoadedProfilesRegistry {
        policy_profiles: StrMap::new(),
        guideline_profiles: StrMap::new(),
        policy_scope: StrMap::new(),
        guideline_scope: StrMap::new(),
        warnings: Vec::new(),
    }
}

fn including(names: Vec<&str>) -> PolicyProfileV1 {
    PolicyProfileV1 {
        includes: names.iter().map(|n| n.to_string()).collect(),
        ..Default::default()
    }
}

fn patching(patch: PolicyProfilePatchV1) -> PolicyProfileV1 {
    PolicyProfileV1 { patch, ..Default::default() }
}

fn policy_refs(names: Vec<&str>) -> ProfileRefs {
    ProfileRefs {
        policy_profiles: names.iter().map(|n| n.to_string()).collect(),
        guideline_profiles: Vec::new(),
    }
}

#[test]
fn detects_include_cycle() {
    let mut map = StrMap::<PolicyProfileV1>::new();
    map.insert("a".to_string(), including(vec!["b"]));
    map.insert("b".to_string(), including(vec!["a"]));
    let err = validate_profile_graph("policy_profile", &map).expect_err("must fail");
    assert!(format!("{err}").contains("cycle"));
}

#[test]
fn unknown_includes_are_refused() {
    let mut map = StrMap::<PolicyProfileV1>::new();
    map.insert("a".to_string(), including(vec!["nowhere"]));
    let err = validate_profile_graph("policy_profile", &map).expect_err("must fail");
    assert!(err.contains("nowhere"));
    let mut map = StrMap::<PolicyProfileV1>::new();
    map.insert("a".to_string(), including(vec!["b", "c"]));
    map.insert("b".to_string(), including(vec!["c"]));
    map.insert("c".to_string(), including(vec![]));
    assert!(validate_profile_graph("policy_profile", &map).is_ok());
}

#[test]
fn monotonic_merge_rejects_relax_attempts() {
    let floor = PolicyConfig {
        enabled: true,
        deny_dangerous_always: true,
        verify: VerifyPolicy {
            required: true,
            max_age_ms: 60_000,
            command_prefixes: vec![vec!["npm".to_string(), "test".to_string()]],
        },
    };
    let base = floor.clone();
    let mut registry = empty_registry();
    registry.policy_profiles.insert(
        "unsafe_relax".to_string(),
        patching(PolicyProfilePatchV1 {
            enabled: Some(false),
            deny_dangerous_always: Some(false),
            verify_required: Some(false),
            verify_max_age_ms: Some(999_999),
            verify_command_prefixes_add: Vec::new(),
        }),
    );
    registry.policy_scope.insert("unsafe_relax".to_string(), ProfileScope::Global);
    let result =
        resolve_subject_profiles(&registry, &policy_refs(vec!["unsafe_relax"]), &base, &floor);
    assert_eq!(result.effective_policy, floor);
    assert!(result.warnings.iter().any(|w| w.contains("attempted to relax")));
}

fn base_and_child() -> LoadedProfilesRegistry {
    let mut registry = empty_registry();
    registry.policy_profiles.insert(
        "base".to_string(),
        patching(PolicyProfilePatchV1 { verify_max_age_ms: Some(10_000), ..Default::default() }),
    );
    registry.policy_profiles.insert(
        "child".to_string(),
        PolicyProfileV1 {
            includes: vec!["base".to_string()],
            patch: PolicyProfilePatchV1 { verify_required: Some(true), ..Default::default() },
            ..Default::default()
        },
    );
    registry.policy_scope.insert("base".to_string(), ProfileScope::Global);
    registry.policy_scope.insert("child".to_string(), ProfileScope::Global);
    registry
}

#[test]
fn deterministic_resolution_order_and_fingerprint() {
    let registry = base_and_child();
    let base = PolicyConfig::default();
    let floor = PolicyConfig::default();
    let refs = policy_refs(vec!["child"]);
    let r1 = resolve_subject_profiles(&registry, &refs, &base, &floor);
    let r2 = resolve_subject_profiles(&registry, &refs, &base, &floor);
    assert_eq!(r1.effective_policy.verify.required, true);
    assert_eq!(r1.effective_policy.verify.max_age_ms, 10_000);
    assert_eq!(r1.fingerprint_sha256, r2.fingerprint_sha256);
    assert_eq!(r1.provenance.len(), 2);
    assert_eq!(r1.provenance[0].profile_id, "base");
    assert_eq!(r1.provenance[1].profile_id, "child");
}

#[test]
fn fingerprints_tell_requests_apart() {
    let registry = base_and_child();
    let policy = PolicyConfig::default();
    let a = resolve_subject_profiles(&registry, &policy_refs(vec!["child"]), &policy, &policy);
    let b = resolve_subject_profiles(&registry, &policy_refs(vec!["base"]), &policy, &policy);
    assert_eq!(a.fingerprint_sha256.len(), 64);
    assert!(a.fingerprint_sha256 != b.fingerprint_sha256);
}

#[test]
fn request_finds_what_it_reaches_and_nothing_else() {
    let mut map = StrMap::<PolicyProfileV1>::new();
    map.insert("a".to_string(), including(vec!["b", "c"]));
    map.insert("b".to_string(), including(vec!["d"]));
    map.insert("c".to_string(), including(vec!["d"]));
    map.insert("d".to_string(), including(vec![]));
    map.insert("other".to_string(), including(vec!["d"]));
    let words = |v: &[&str]| v.iter().map(|w| w.to_string()).collect::<Vec<String>>();
    let found = |ids: &[&str]| resolve_requested_ids(&words(ids), &map);
    assert_eq!(found(&["a"]), (words(&["d", "b", "c", "a"]), words(&[])));
    assert_eq!(
        found(&["z", "c", "y", "a", "z"]),
        (words(&["d", "c", "b", "a"]), words(&["z", "y", "z"]))
    );
}

#[test]
fn missing_profiles_are_reported() {
    let registry = base_and_child();
    let policy = PolicyConfig::default();
    let refs = ProfileRefs {
        policy_profiles: vec!["ghost".to_string()],
        guideline_profiles: vec!["phantom".to_string()],
    };
    let r = resolve_subject_profiles(&registry, &refs, &policy, &policy);
    assert_eq!(r.effective_policy, policy);
    assert!(r.warnings.contains(&"missing policy profile reference: ghost".to_string()));
    assert!(r.warnings.contains(&"missing guideline profile reference: phantom".to_string()));
}

#[test]
fn cache_and_perf_harness_work() {
    let mut registry = empty_registry();
    registry.policy_profiles.insert(
        "strict".to_string(),
        patching(PolicyProfilePatchV1 { verify_required: Some(true), ..Default::default() }),
    );
    registry.policy_scope.insert("strict".to_string(), ProfileScope::Global);
    let mut cache = ProfilesResolverCache::new(32);
    let refs = policy_refs(vec!["strict"]);
    let base = PolicyConfig::default();
    let floor = PolicyConfig::default();
    let r1 = resolve_subject_profiles_cached(&mut cache, &registry, &refs, &base, &floor);
    let r2 = resolve_subject_profiles_cached(&mut cache, &registry, &refs, &base, &floor);
    assert_eq!(r1.fingerprint_sha256, r2.fingerprint_sha256);

    let mut samples = Vec::new();
    for i in 0..64u64 {
        let _ = resolve_subject_profiles_cached(&mut cache, &registry, &refs, &base, &floor);
        samples.push((i * 37) % 64);
    }
    let perf = summarize_samples(&samples);
    assert_eq!(perf.iterations, 64);
    assert!(perf.p95_micros <= perf.max_micros);
    assert_eq!(perf.max_micros, 63);
}

#[test]
fn cache_gives_what_a_resolution_gives() {
    let registry = base_and_child();
    let policy = PolicyConfig::default();
    let mut cache = ProfilesResolverCache::new(1);
    for name in ["child", "base", "child", "base"] {
        let refs = policy_refs(vec![name]);
        let fresh = resolve_subject_profiles(&registry, &refs, &policy, &policy);
        let cached = resolve_subject_profiles_cached(&mut cache, &registry, &refs, &policy, &policy);
        assert_eq!(fresh, cached);
    }
    cache.clear();
    let refs = policy_refs(vec!["child"]);
    let again = resolve_subject_profiles_cached(&mut cache, &registry, &refs, &policy, &policy);
    assert_eq!(again.effective_policy.verify.max_age_ms, 10_000);
}

#[test]
fn samples_are_summed_up() {
    let perf = summarize_samples(&vec![5, 1, 3, 2, 4]);
    assert_eq!(perf.iterations, 5);
    assert_eq!(perf.p50_micros, 3);
    assert_eq!(perf.max_micros, 5);
}

fn guideline(text: &str) -> GuidelineProfileV1 {
    GuidelineProfileV1 { instructions: vec![text.to_string()], ..Default::default() }
}

#[test]
fn project_profiles_come_over_global_ones() {
    let mut policy = PolicyProfilesFileV1::default();
    policy.profiles.insert(
        "p".to_string(),
        patching(PolicyProfilePatchV1 { verify_required: Some(false), ..Default::default() }),
    );
    let mut global = GuidelineProfilesFileV1::default();
    global.profiles.insert("g".to_string(), guideline("global"));
    global.profiles.insert("h".to_string(), guideline("kept"));
    let mut project = GuidelineProfilesFileV1::default();
    project.profiles.insert("g".to_string(), guideline("project"));
    let registry = load_profiles_registry(
        policy.clone(),
        global.clone(),
        ProjectProfiles::Trusted(PolicyProfilesFileV1::default(), project),
    )
    .expect("registry");
    assert_eq!(registry.guideline_profiles.get("g").unwrap().instructions, vec!["project"]);
    assert_eq!(registry.guideline_scope.get("g"), Some(&ProfileScope::Project));
    assert_eq!(registry.guideline_scope.get("h"), Some(&ProfileScope::Global));

    let refs = ProfileRefs {
        policy_profiles: Vec::new(),
        guideline_profiles: vec!["h".to_string(), "g".to_string()],
    };
    let floor = PolicyConfig::default();
    let resolved = resolve_subject_profiles(&registry, &refs, &floor, &floor);
    assert_eq!(resolved.guidelines, vec!["kept", "project"]);

    let registry =
        load_profiles_registry(policy, global, ProjectProfiles::Untrusted("/repo".to_string()))
            .expect("registry");
    assert_eq!(
        registry.warnings,
        vec!["project profiles ignored (repo not trusted): /repo"]
    );
    assert_eq!(registry.guideline_profiles.get("g").unwrap().instructions, vec!["global"]);
}

#[test]
fn cyclic_registries_are_not_loaded() {
    let mut policy = PolicyProfilesFileV1::default();
    policy.profiles.insert("a".to_string(), including(vec!["a"]));
    let r = load_profiles_registry(policy, GuidelineProfilesFileV1::default(), ProjectProfiles::Absent);
    assert!(matches!(r, Err(ProfilesError::Validation(_))));
    assert!(r.err().unwrap().message().starts_with("validation error: "));
}

#[test]
fn unknown_profile_files_are_refused() {
    assert!(check_schema_version("policy_profiles", "1").is_ok());
    assert_eq!(
        check_schema_version("policy_profiles", "2").err().unwrap().message(),
        "validation error: unsupported policy_profiles schema_version=2 (expected 1)"
    );
    let io = ProfilesError::Io { path: "/p".to_string(), message: "gone".to_string() };
    assert_eq!(io.message(), "io error for /p: gone");
    let json = ProfilesError::JsonParse { path: "/p".to_string(), message: "bad".to_string() };
    assert_eq!(json.message(), "json parse error for /p: bad");
}
