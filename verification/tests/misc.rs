use std::cmp::Ordering;

use codex_pr::advisor::{detect_package_manager, recommend, AdvisorError, AdvisorInput, RecommendationKind};
use codex_pr::audit::{rotated_path, rotation_step, should_rotate, Redactor};
use codex_pr::digest::{sha256_hex, to_lower_hex};
use codex_pr::mru::{
    format_used_ago, tui_title, AgentTemplatesStateV1, MruEntryV1, TemplatesMruStore,
    TemplatesStateFileV1,
};
use codex_pr::number::{parse_number, NumberError};
use codex_pr::paths::{
    ancestors_of, file_name_of, join_path, parent_of, path_is_under, reattach, stem_of,
    with_file_name,
};
use codex_pr::strmap::StrMap;
use codex_pr::text::{
    debug_strings, eq_ignore_ascii_case, lines_of, slice_bytes, split_on, trim_string,
};
use codex_pr::updater::{
    check_update, compare_semver, parse_semver, plan_update_npm, UpdateChannel,
    UpdateCheckRequest, UpdateError,
};

fn words(v: &[&str]) -> Vec<String> {
    v.iter().map(|s| s.to_string()).collect()
}

#[test]
fn recommends_commands_json_when_scripts_present() {
    let pj = r#"{"name":"x","scripts":{"test":"vitest","lint":"eslint ."}} "#;
    let lockfiles = words(&["pnpm-lock.yaml"]);
    let bundle = recommend(AdvisorInput {
        repo_root: None,
        package_json: Some(pj),
        lockfiles: &lockfiles,
        existing_commands_json: None,
        existing_pipelines: None,
    })
    .unwrap();
    assert_eq!(bundle.detected.package_manager, Some("pnpm".to_string()));
    assert!(
        bundle.recommendations.iter().any(|r| r.kind == RecommendationKind::AddCommandsCatalog)
    );
}

#[test]
fn broken_package_files_are_reported() {
    let lockfiles = Vec::new();
    let r = recommend(AdvisorInput {
        repo_root: None,
        package_json: Some("{"),
        lockfiles: &lockfiles,
        existing_commands_json: None,
        existing_pipelines: None,
    });
    let e = r.err().unwrap();
    assert!(matches!(e, AdvisorError::InvalidJson(_)));
    assert!(e.message().starts_with("invalid json: "));
    assert_eq!(AdvisorError::Io("x".to_string()).message(), "io error: x");
}

#[test]
fn nothing_to_recommend_where_all_is_there() {
    let lockfiles = Vec::new();
    let bundle = recommend(AdvisorInput {
        repo_root: Some("/repo"),
        package_json: Some("{\"scripts\":{\"test\":\"x\"}}"),
        lockfiles: &lockfiles,
        existing_commands_json: Some("{}"),
        existing_pipelines: Some("{}"),
    })
    .unwrap();
    assert!(
        !bundle.recommendations.iter().any(|r| r.kind == RecommendationKind::AddCommandsCatalog)
    );
}

#[test]
fn package_managers_are_known_by_their_lock_files() {
    assert_eq!(detect_package_manager(&words(&["yarn.lock"])), Some("yarn".to_string()));
    assert_eq!(detect_package_manager(&words(&["package-lock.json"])), Some("npm".to_string()));
    assert_eq!(detect_package_manager(&words(&["Cargo.lock"])), None);
}

#[test]
fn rotated_path_stable() {
    let base = "events.jsonl";
    assert_eq!(rotated_path(base, 0), base);
    assert_eq!(rotated_path(base, 1), "events.jsonl.1");
}

#[test]
fn log_files_move_up_by_one() {
    assert!(should_rotate(121, 120, 3));
    assert!(!should_rotate(0, 120, 3));
    let mut k = 0;
    let mut moves = Vec::new();
    while let Some(step) = rotation_step("/a/events.jsonl", 3, k) {
        moves.push(step);
        k += 1;
    }
    assert_eq!(
        moves.last(),
        Some(&("/a/events.jsonl".to_string(), "/a/events.jsonl.1".to_string()))
    );
}

#[test]
fn secrets_are_redacted() {
    let redactor = Redactor::new(&words(&["(?i)token\\s*=\\s*\\S+"]));
    assert_eq!(redactor.redact_string("a TOKEN = abc123 b"), "a [REDACTED] b");
    assert_eq!(redactor.redact_string("nothing here"), "nothing here");
    let line = redactor.audit_line("{\"kind\":\"session_start\",\"payload\":{\"token\":\"token = abc123\"}}");
    assert!(line.contains("[REDACTED]"));
    assert!(!line.contains("abc123"));
    let broken = Redactor::new(&words(&["("]));
    assert_eq!(broken.redact_string("a ( b"), "a ( b");
}

#[test]
fn semver_compare_works() {
    assert_eq!(compare_semver("0.101.0", "0.101.0").unwrap(), Ordering::Equal);
    assert_eq!(compare_semver("0.101.0", "0.102.0").unwrap(), Ordering::Less);
    assert_eq!(compare_semver("1.0.0", "0.999.0").unwrap(), Ordering::Greater);
}

#[test]
fn update_plan_hash_stable() {
    let plan1 = plan_update_npm("codex", "0.1.0", "0.2.0").unwrap();
    let plan2 = plan_update_npm("codex", "0.1.0", "0.2.0").unwrap();
    assert_eq!(plan1.action_hash, plan2.action_hash);
    assert_eq!(plan1.command, plan2.command);
}

#[test]
fn versions_are_read() {
    assert_eq!(parse_semver("1.2.3"), Ok((1, 2, 3)));
    let e = parse_semver("one").err().unwrap();
    assert!(matches!(e, UpdateError::InvalidVersion(_)));
    assert!(e.message().starts_with("invalid version: "));
    let req = UpdateCheckRequest {
        channel: UpdateChannel::Npm,
        package: "codex".to_string(),
        current_version: "0.1.0".to_string(),
    };
    assert!(check_update(req.clone(), "0.1.1".to_string()).unwrap().update_available);
    assert!(!check_update(req.clone(), "0.1.0".to_string()).unwrap().update_available);
    assert!(check_update(req, "x".to_string()).is_err());
}

#[test]
fn digests_are_those_of_sha256() {
    assert_eq!(
        sha256_hex(b"abc"),
        "ba7816bf8f01cfea414140de5dae2223b00361a396177a9cb410ff61f20015ad"
    );
    assert_eq!(
        sha256_hex(b""),
        "e3b0c44298fc1c149afbf4c8996fb92427ae41e4649b934ca495991b7852b855"
    );
    assert_eq!(to_lower_hex(&[0, 15, 255]), "000fff");
}

#[test]
fn last_used_template_comes_first() {
    let mut store = TemplatesMruStore::load("/home", None, 1_000);
    store.note_used("agent", "a", 1_000);
    store.note_used("agent", "b", 2_000);
    store.note_used("agent", "a", 3_000);
    assert_eq!(store.mru_template_ids("agent"), words(&["a", "b"]));
    assert_eq!(store.last_used_at_ms("agent", "a"), Some(3_000));
    assert_eq!(store.last_used_at_ms("agent", "c"), None);
    assert_eq!(store.mru_template_ids("other"), Vec::<String>::new());
    store.note_used("other", "z", 4_000);
    assert_eq!(store.mru_template_ids("agent"), words(&["a", "b"]));
    assert_eq!(store.mru_template_ids("other"), words(&["z"]));
}

#[test]
fn old_uses_are_forgotten() {
    let day = 86_400_000u64;
    let now = 1_000 * day;
    let mut agents = StrMap::new();
    agents.insert(
        "agent".to_string(),
        AgentTemplatesStateV1 {
            mru: vec![
                MruEntryV1 { template_id: "new".to_string(), last_used_at_ms: now - day },
                MruEntryV1 { template_id: "old".to_string(), last_used_at_ms: 1 },
            ],
        },
    );
    let file = TemplatesStateFileV1 { schema_version: "1".to_string(), agents };
    let store = TemplatesMruStore::load("/home", Some(file), now);
    assert_eq!(store.mru_template_ids("agent"), words(&["new"]));
}

#[test]
fn ages_are_told_in_the_largest_unit() {
    assert_eq!(format_used_ago(60_000, 1_000), Some("used 59s ago".to_string()));
    assert_eq!(format_used_ago(61_000, 1_000), Some("used 1m ago".to_string()));
    assert_eq!(format_used_ago(7_201_000, 1_000), Some("used 2h ago".to_string()));
    assert_eq!(format_used_ago(172_801_000, 1_000), Some("used 2d ago".to_string()));
    assert_eq!(format_used_ago(0, 1_000), None);
}

#[test]
fn blank_titles_do_not_count() {
    assert_eq!(tui_title(Some("Mine".to_string())), "Mine");
    assert_eq!(tui_title(Some("  ".to_string())), tui_title(None));
}

#[test]
fn paths_are_joined_and_taken_apart() {
    assert_eq!(join_path("/a", "b"), "/a/b");
    assert_eq!(join_path("/a/", "b"), "/a/b");
    assert_eq!(join_path("/a", "/b"), "/b");
    assert_eq!(file_name_of("/a/b.txt"), Some("b.txt".to_string()));
    assert_eq!(file_name_of("/a/.."), None);
    assert_eq!(with_file_name("/a/b", "c"), "/a/c");
    assert_eq!(parent_of("/a/b"), Some("/a".to_string()));
    assert_eq!(parent_of("/a"), Some("/".to_string()));
    assert_eq!(parent_of("a"), Some(String::new()));
    assert_eq!(parent_of("/"), None);
    assert_eq!(ancestors_of("/a/b"), words(&["/a/b", "/a", "/"]));
    assert_eq!(ancestors_of("a"), words(&["a", ""]));
    assert_eq!(reattach("/real", "/a/b/c", 2), "/real/b/c");
    assert_eq!(stem_of("printrevolt.toml"), "printrevolt");
    assert_eq!(stem_of(".hidden"), ".hidden");
    assert!(path_is_under("/a/b", "/a"));
    assert!(!path_is_under("/ab", "/a"));
}

#[test]
fn paths_agree_with_std() {
    for p in ["/", "", "a", "a/b", "/a/b/", "/a//b", "./a", "a/./b", "/a/.", "..", "../x", "/a/b/.."] {
        let std_path = std::path::Path::new(p);
        let name = std_path.file_name().map(|s| s.to_str().unwrap().to_string());
        assert_eq!(file_name_of(p), name);
        let parent = std_path.parent().map(|s| s.to_str().unwrap().to_string());
        assert_eq!(parent_of(p), parent);
    }
}

#[test]
fn texts_are_cut_where_characters_end() {
    assert_eq!(lines_of("a\r\nb\n\nc"), words(&["a", "b", "", "c"]));
    assert_eq!(lines_of(""), Vec::<String>::new());
    assert_eq!(split_on("a:b:", ':'), words(&["a", "b", ""]));
    assert_eq!(trim_string(" \u{a0}x \t"), "x");
    assert_eq!(slice_bytes("h\u{e9}llo", 0, 3), Some("h\u{e9}".to_string()));
    assert_eq!(slice_bytes("h\u{e9}llo", 0, 2), None);
    assert!(eq_ignore_ascii_case("AbC", "aBc"));
    assert!(!eq_ignore_ascii_case("AbC", "aB"));
    assert_eq!(debug_strings(&words(&["a", "b\"c"])), "[\"a\", \"b\\\"c\"]");
    assert_eq!(debug_strings(&Vec::new()), "[]");
}

#[test]
fn numbers_are_read_like_std_reads_them() {
    assert_eq!(parse_number("42", u64::MAX), Ok(42));
    assert_eq!(parse_number("+7", u64::MAX), Ok(7));
    assert_eq!(parse_number("", u64::MAX), Err(NumberError::Empty));
    assert!(parse_number("x", u64::MAX).is_err());
    assert!(parse_number("256", 255).is_err());
}
