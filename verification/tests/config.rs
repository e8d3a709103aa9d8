use codex_pr::config::layers::{compute_paths, resolve_printrevolt_config};
use codex_pr::config::merge::{deep_merge_with_trace, flatten_printrevolt};
use codex_pr::config::model::{
    ConfigSource, ConfigTexts, PrConfigError, ReadStatus, ResolvedPrintRevoltConfig,
};
use codex_pr::config::write::{
    lock_path_for, render_stable_toml_document, set_toml_bool, set_toml_string,
    temporary_path_for,
};
use codex_pr::strmap::StrMap;
use codex_pr::tomlvalue::{empty_table, TomlValue};
use codex_pr::types::config::{
    AgentConfig, PrintRevoltConfig, TemplateSelectionMode, TemplatesUiOverrides,
};

fn words(v: &[&str]) -> Vec<String> {
    v.iter().map(|s| s.to_string()).collect()
}

fn no_texts() -> ConfigTexts {
    ConfigTexts {
        user_config: None,
        user_printrevolt: None,
        project_config: None,
        project_printrevolt: None,
        session_path: None,
        session: None,
    }
}

fn resolve(texts: &ConfigTexts, cli: Option<TomlValue>) -> ResolvedPrintRevoltConfig {
    let paths = compute_paths("/home", Some("/repo"));
    resolve_printrevolt_config(&paths, texts, cli)
}

fn table(entries: Vec<(&str, TomlValue)>) -> TomlValue {
    let mut m = StrMap::new();
    for (k, v) in entries {
        m.insert(k.to_string(), v);
    }
    TomlValue::Table(m)
}

fn at<'a>(v: &'a TomlValue, path: &[&str]) -> Option<&'a TomlValue> {
    let mut cur = v;
    for k in path {
        cur = cur.get(k)?;
    }
    Some(cur)
}

#[test]
fn defaults_hold_without_files() {
    let r = resolve(&no_texts(), None);
    assert_eq!(at(&r.printrevolt, &["enabled"]), Some(&TomlValue::Boolean(true)));
    assert_eq!(r.trace.get("enabled"), Some(&ConfigSource::Defaults));
    assert!(r.sources.iter().all(|s| s.status == ReadStatus::Missing));
    assert_eq!(r.warnings, Vec::<String>::new());
}

#[test]
fn stronger_layers_win() {
    let mut texts = no_texts();
    texts.user_config = Some("[printrevolt.policy]\nenabled = false\n".to_string());
    texts.user_printrevolt = Some("[printrevolt.policy]\nenabled = true\n[printrevolt.vars]\na = \"user\"\n".to_string());
    texts.project_printrevolt = Some("[printrevolt.vars]\na = \"project\"\n".to_string());
    let r = resolve(&texts, None);
    assert_eq!(at(&r.printrevolt, &["policy", "enabled"]), Some(&TomlValue::Boolean(true)));
    assert_eq!(
        at(&r.printrevolt, &["vars", "a"]),
        Some(&TomlValue::String("project".to_string()))
    );
    assert_eq!(
        r.trace.get("vars.a"),
        Some(&ConfigSource::ProjectModeB { file: "/repo/.codex/printrevolt.toml".to_string() })
    );
    assert_eq!(
        r.trace.get("policy.enabled"),
        Some(&ConfigSource::UserModeB { file: "/home/printrevolt.toml".to_string() })
    );
    let over = table(vec![("vars", table(vec![("a", TomlValue::String("cli".to_string()))]))]);
    let r = resolve(&texts, Some(over));
    assert_eq!(at(&r.printrevolt, &["vars", "a"]), Some(&TomlValue::String("cli".to_string())));
    assert_eq!(r.trace.get("vars.a"), Some(&ConfigSource::CliOverrides));
}

#[test]
fn session_overlay_comes_over_the_project() {
    let mut texts = no_texts();
    texts.project_printrevolt = Some("[printrevolt]\nenabled = true\n".to_string());
    texts.session_path = Some("/tmp/s.toml".to_string());
    texts.session = Some("[printrevolt]\nenabled = false\n".to_string());
    let r = resolve(&texts, None);
    assert_eq!(at(&r.printrevolt, &["enabled"]), Some(&TomlValue::Boolean(false)));
    assert_eq!(
        r.trace.get("enabled"),
        Some(&ConfigSource::SessionOverlay { file: "/tmp/s.toml".to_string() })
    );
}

#[test]
fn broken_files_are_left_out() {
    let mut texts = no_texts();
    texts.user_printrevolt = Some("[printrevolt\n".to_string());
    let r = resolve(&texts, None);
    assert_eq!(at(&r.printrevolt, &["enabled"]), Some(&TomlValue::Boolean(true)));
    assert_eq!(r.sources[1].status, ReadStatus::ParseError);
    assert!(r.warnings[0].starts_with(
        "failed to parse Mode B printrevolt.toml /home/printrevolt.toml: "
    ));
}

#[test]
fn values_of_other_kinds_survive() {
    let mut texts = no_texts();
    texts.user_config = Some("[printrevolt.x]\nf = 1.5\ni = -3\nl = [1, 2]\n".to_string());
    let r = resolve(&texts, None);
    assert_eq!(at(&r.printrevolt, &["x", "f"]), Some(&TomlValue::Float("1.5".to_string())));
    assert_eq!(at(&r.printrevolt, &["x", "i"]), Some(&TomlValue::Integer(-3)));
    assert_eq!(
        at(&r.printrevolt, &["x", "l"]),
        Some(&TomlValue::Array(vec![TomlValue::Integer(1), TomlValue::Integer(2)]))
    );
}

#[test]
fn settings_are_flattened_to_paths() {
    let v = table(vec![
        ("a", TomlValue::Integer(1)),
        ("b", table(vec![("c", TomlValue::Boolean(true))])),
    ]);
    let flat = flatten_printrevolt(&v);
    assert_eq!(flat.get("a"), Some(&TomlValue::Integer(1)));
    assert_eq!(flat.get("b.c"), Some(&TomlValue::Boolean(true)));
}

#[test]
fn lower_layers_stay_where_nothing_is_over_them() {
    let base = table(vec![("a", table(vec![("x", TomlValue::Integer(1)), ("y", TomlValue::Integer(2))]))]);
    let over = table(vec![("a", table(vec![("y", TomlValue::Integer(3))]))]);
    let mut trace = StrMap::new();
    let merged = deep_merge_with_trace(&base, &over, &ConfigSource::CliOverrides, &mut trace);
    assert_eq!(at(&merged, &["a", "x"]), Some(&TomlValue::Integer(1)));
    assert_eq!(at(&merged, &["a", "y"]), Some(&TomlValue::Integer(3)));
    assert_eq!(trace.get("a.y"), Some(&ConfigSource::CliOverrides));
    assert_eq!(trace.get("a.x"), None);
}

#[test]
fn only_what_a_layer_sets_is_ascribed_to_it() {
    let base = table(vec![
        ("enabled", TomlValue::Boolean(true)),
        ("policy", table(vec![("enabled", TomlValue::Boolean(false))])),
    ]);
    let over = table(vec![("policy", table(vec![("enabled", TomlValue::Boolean(true))]))]);
    let mut trace = StrMap::new();
    trace.insert("enabled".to_string(), ConfigSource::Defaults);
    trace.insert("policy.enabled".to_string(), ConfigSource::Defaults);
    let merged = deep_merge_with_trace(&base, &over, &ConfigSource::CliOverrides, &mut trace);
    assert_eq!(at(&merged, &["enabled"]), Some(&TomlValue::Boolean(true)));
    assert_eq!(at(&merged, &["policy", "enabled"]), Some(&TomlValue::Boolean(true)));
    assert_eq!(trace.len(), 2);
    assert_eq!(trace.get("enabled"), Some(&ConfigSource::Defaults));
    assert_eq!(trace.get("policy.enabled"), Some(&ConfigSource::CliOverrides));
}

#[test]
fn dates_are_written_as_texts() {
    let day = || TomlValue::Datetime("2024-01-02".to_string());
    let root = table(vec![("day", day()), ("in", table(vec![("day", day())]))]);
    let text = render_stable_toml_document(&root).unwrap();
    let mut texts = no_texts();
    texts.user_printrevolt = Some(text);
    let r = resolve(&texts, None);
    let written = TomlValue::String("2024-01-02".to_string());
    assert_eq!(at(&r.printrevolt, &["day"]), Some(&written));
    assert_eq!(at(&r.printrevolt, &["in", "day"]), Some(&written));
}

#[test]
fn what_is_set_is_read_back() {
    let mut root = empty_table();
    set_toml_bool(&mut root, &words(&["policy", "enabled"]), true).unwrap();
    set_toml_string(&mut root, &words(&["templates", "selection_mode"]), "once").unwrap();
    assert_eq!(at(&root, &["policy", "enabled"]), Some(&TomlValue::Boolean(true)));
    assert_eq!(
        at(&root, &["templates", "selection_mode"]),
        Some(&TomlValue::String("once".to_string()))
    );
    let before = root.clone();
    assert_eq!(
        set_toml_bool(&mut root, &words(&["policy", "enabled", "x"]), true),
        Err("path segment is not a table: enabled".to_string())
    );
    assert_eq!(root, before);
    assert_eq!(
        set_toml_bool(&mut root, &Vec::new(), true),
        Err("empty config key path".to_string())
    );
    let mut leaf = TomlValue::Integer(1);
    assert_eq!(
        set_toml_bool(&mut leaf, &words(&["a"]), true),
        Err("printrevolt config root is not a table".to_string())
    );
}

#[test]
fn written_settings_are_read_again() {
    let mut root = empty_table();
    set_toml_bool(&mut root, &words(&["policy", "enabled"]), false).unwrap();
    set_toml_string(&mut root, &words(&["vars", "name"]), "a \"b\"").unwrap();
    let text = render_stable_toml_document(&root).unwrap();
    let mut texts = no_texts();
    texts.user_printrevolt = Some(text.clone());
    let r = resolve(&texts, None);
    assert_eq!(at(&r.printrevolt, &["policy", "enabled"]), Some(&TomlValue::Boolean(false)));
    assert_eq!(
        at(&r.printrevolt, &["vars", "name"]),
        Some(&TomlValue::String("a \"b\"".to_string()))
    );
    assert_eq!(render_stable_toml_document(&root).unwrap(), text);
}

#[test]
fn what_cannot_be_written_is_refused() {
    assert_eq!(
        render_stable_toml_document(&TomlValue::Integer(1)),
        Err("printrevolt value must be a table".to_string())
    );
    let nested = table(vec![("a", TomlValue::Array(vec![empty_table()]))]);
    assert_eq!(
        render_stable_toml_document(&nested),
        Err("unsupported array item for key a".to_string())
    );
}

#[test]
fn paths_of_written_files() {
    assert_eq!(lock_path_for("/home/printrevolt.toml"), "/home/printrevolt.toml.lock");
    assert_eq!(
        temporary_path_for("/home", "/home/printrevolt.toml"),
        "/home/printrevolt.toml.tmp"
    );
    let paths = compute_paths("/home", None);
    assert_eq!(paths.user_config_toml, "/home/config.toml");
    assert_eq!(paths.project_config_toml, None);
}

#[test]
fn config_errors_are_worded() {
    let e = |f: fn(String, String) -> PrConfigError| f("/p".to_string(), "m".to_string()).message();
    assert_eq!(e(|path, message| PrConfigError::ReadFailed { path, message }), "failed to read /p: m");
    assert_eq!(
        e(|path, message| PrConfigError::ParseFailed { path, message }),
        "failed to parse toml /p: m"
    );
    assert_eq!(e(|path, message| PrConfigError::WriteFailed { path, message }), "failed to write /p: m");
}

#[test]
fn agents_can_have_their_own_template_settings() {
    let mut cfg = PrintRevoltConfig::default();
    cfg.templates.default_for_picker_template_id = "common".to_string();
    cfg.agents.insert(
        "a".to_string(),
        AgentConfig {
            templates: TemplatesUiOverrides {
                selection_mode: Some(TemplateSelectionMode::Once),
                default_for_picker_template_id: None,
            },
        },
    );
    let own = cfg.effective_templates_ui(Some("a"));
    assert_eq!(own.selection_mode, TemplateSelectionMode::Once);
    assert_eq!(own.default_for_picker_template_id, "common");
    assert_eq!(cfg.effective_templates_ui(None).selection_mode, TemplateSelectionMode::Off);
    assert_eq!(cfg.effective_templates_ui(Some("b")), cfg.templates);
}
