//! The layers of settings, from the weakest to the strongest.

use vstd::prelude::*;
use crate::config::merge::{
    ascribe, ascribed, at, deep_merge_with_trace, flatten, flatten_keys, flatten_printrevolt,
    has_leaf, lower_layer_stays, merged, merged_is_ordered, ordered, silent, traced,
    upper_layer_wins, Trace,
};
use crate::config::model::{
    ConfigSource, ConfigSourceView, ConfigTexts, ConfigTextsView, PrintRevoltPaths,
    PrintRevoltPathsView, ReadStatus, ResolvedPrintRevoltConfig, SourceReport, SourceReportView,
};
use crate::paths::{join_path, join_path2, joined, joined2};
use crate::strmap::{
    lookup, lookup_at, lookup_put, lookup_some, put, put_sorted, sorted, StrMap,
};
use crate::text::{cat4, Duplicate};
use crate::tomlvalue::{
    empty_table, parse_toml, parsed_toml, table_view, toml_get, TableView, TomlValue, TomlView,
};

verus! {

/// Where settings are kept.
pub open spec fn config_paths(codex_home: Seq<char>, project_root: Option<Seq<char>>) -> PrintRevoltPathsView {
    PrintRevoltPathsView {
        user_config_toml: joined(codex_home, "config.toml"@),
        user_printrevolt_toml: joined(codex_home, "printrevolt.toml"@),
        project_config_toml: match project_root {
            Some(root) => Some(joined2(root, ".codex"@, "config.toml"@)),
            None => None,
        },
        project_printrevolt_toml: match project_root {
            Some(root) => Some(joined2(root, ".codex"@, "printrevolt.toml"@)),
            None => None,
        },
    }
}

pub fn compute_paths(codex_home: &str, project_root: Option<&str>) -> (r: PrintRevoltPaths)
    ensures
        r@ == config_paths(codex_home@, project_root.deep_view()),
{
    PrintRevoltPaths {
        user_config_toml: join_path(codex_home, "config.toml"),
        user_printrevolt_toml: join_path(codex_home, "printrevolt.toml"),
        project_config_toml: match project_root {
            Some(root) => Some(join_path2(root, ".codex", "config.toml")),
            None => None,
        },
        project_printrevolt_toml: match project_root {
            Some(root) => Some(join_path2(root, ".codex", "printrevolt.toml")),
            None => None,
        },
    }
}

/// The settings where nothing is set.
pub open spec fn default_settings() -> TomlView {
    TomlView::Table(
        put(
            put(Seq::empty(), "enabled"@, TomlView::Boolean(true)),
            "vars"@,
            TomlView::Table(Seq::empty()),
        ),
    )
}

fn default_printrevolt_table() -> (r: TomlValue)
    ensures
        r@ == default_settings(),
{
    let mut root: StrMap<TomlValue> = StrMap::new();
    root.insert("enabled".to_owned(), TomlValue::Boolean(true));
    root.insert("vars".to_owned(), empty_table());
    proof {
        table_view(root);
    }
    TomlValue::Table(root)
}

/// The trace of settings where nothing is set.
pub open spec fn default_trace() -> Trace {
    ascribe(
        flatten(Seq::empty(), default_settings(), Seq::empty()),
        0,
        ConfigSourceView::Defaults,
        Seq::empty(),
    )
}

fn init_trace_from_defaults(value: &TomlValue) -> (r: StrMap<ConfigSource>)
    ensures
        r@ == ascribe(
            flatten(Seq::empty(), value@, Seq::empty()),
            0,
            ConfigSourceView::Defaults,
            Seq::empty(),
        ),
{
    let leaves = flatten_printrevolt(value);
    let mut out: StrMap<ConfigSource> = StrMap::new();
    let mut i: usize = 0;
    while i < leaves.len()
        invariant
            i <= leaves@.len(),
            ascribe(leaves@, 0, ConfigSourceView::Defaults, Seq::empty()) == ascribe(
                leaves@,
                i as int,
                ConfigSourceView::Defaults,
                out@,
            ),
        decreases leaves@.len() - i,
    {
        out.insert(leaves.key_at(i).clone(), ConfigSource::Defaults);
        i = i + 1;
    }
    out
}

/// Settings under construction.
#[verifier::ext_equal]
pub struct Layered {
    pub settings: TomlView,
    pub trace: Trace,
    pub sources: Seq<SourceReportView>,
    pub warnings: Seq<Seq<char>>,
}

/// The warning about a file that cannot be parsed.
pub open spec fn parse_warning(what: Seq<char>, path: Seq<char>, error: Seq<char>) -> Seq<char> {
    "failed to parse "@ + what + path + ": "@ + error
}

/// Settings with what a file holds laid over them: the table `printrevolt` of it, if it
/// has one. `text` is what the file holds, nothing where it could not be read.
pub open spec fn with_file(
    l: Layered,
    source: ConfigSourceView,
    what: Seq<char>,
    path: Seq<char>,
    text: Option<Seq<char>>,
) -> Layered {
    match text {
        None => Layered {
            sources: l.sources.push(
                SourceReportView { source, status: ReadStatus::Missing, message: None },
            ),
            ..l
        },
        Some(raw) => match parsed_toml(raw) {
            Err(e) => Layered {
                sources: l.sources.push(
                    SourceReportView { source, status: ReadStatus::ParseError, message: Some(e) },
                ),
                warnings: l.warnings.push(parse_warning(what, path, e)),
                ..l
            },
            Ok(v) => with_layer(
                Layered {
                    sources: l.sources.push(
                        SourceReportView { source, status: ReadStatus::ReadOk, message: None },
                    ),
                    ..l
                },
                source,
                toml_get(v, "printrevolt"@),
            ),
        },
    }
}

/// Settings with a table laid over them; anything else is passed over.
pub open spec fn with_layer(l: Layered, source: ConfigSourceView, v: Option<TomlView>) -> Layered {
    match v {
        Some(TomlView::Table(s)) => Layered {
            settings: merged(l.settings, TomlView::Table(s)),
            trace: traced(TomlView::Table(s), source, l.trace),
            ..l
        },
        _ => l,
    }
}

/// The name of a table in a file that holds other settings too.
pub open spec fn mode_a() -> Seq<char> {
    "Mode A printrevolt table from "@
}

/// The name of a file that holds these settings only.
pub open spec fn mode_b() -> Seq<char> {
    "Mode B printrevolt.toml "@
}

/// The settings in effect: the defaults, under those of the user, those of the project,
/// those of the session, and what the command line says; of two files of the same owner
/// the one that holds these settings only is the stronger.
pub open spec fn effective(
    paths: PrintRevoltPathsView,
    texts: ConfigTextsView,
    cli: Option<TomlView>,
) -> Layered {
    let l0 = Layered {
        settings: default_settings(),
        trace: default_trace(),
        sources: Seq::empty(),
        warnings: Seq::empty(),
    };
    let l1 = with_file(
        l0,
        ConfigSourceView::UserModeA { file: paths.user_config_toml },
        mode_a(),
        paths.user_config_toml,
        texts.user_config,
    );
    let l2 = with_file(
        l1,
        ConfigSourceView::UserModeB { file: paths.user_printrevolt_toml },
        mode_b(),
        paths.user_printrevolt_toml,
        texts.user_printrevolt,
    );
    let l3 = match paths.project_config_toml {
        Some(p) => with_file(
            l2,
            ConfigSourceView::ProjectModeA { file: p },
            mode_a(),
            p,
            texts.project_config,
        ),
        None => l2,
    };
    let l4 = match paths.project_printrevolt_toml {
        Some(p) => with_file(
            l3,
            ConfigSourceView::ProjectModeB { file: p },
            mode_b(),
            p,
            texts.project_printrevolt,
        ),
        None => l3,
    };
    let l5 = match texts.session_path {
        Some(p) => with_file(
            l4,
            ConfigSourceView::SessionOverlay { file: p },
            mode_b(),
            p,
            texts.session,
        ),
        None => l4,
    };
    match cli {
        None => l5,
        Some(v) => Layered {
            settings: merged(l5.settings, v),
            trace: traced(v, ConfigSourceView::CliOverrides, l5.trace),
            sources: l5.sources.push(
                SourceReportView {
                    source: ConfigSourceView::CliOverrides,
                    status: ReadStatus::ReadOk,
                    message: None,
                },
            ),
            ..l5
        },
    }
}

/// The settings under construction that a resolution stands for.
pub open spec fn layered(c: ResolvedPrintRevoltConfig) -> Layered {
    Layered {
        settings: c.printrevolt@,
        trace: c.trace@,
        sources: c.sources.deep_view(),
        warnings: c.warnings.deep_view(),
    }
}

fn report(
    c: &mut ResolvedPrintRevoltConfig,
    source: &ConfigSource,
    status: ReadStatus,
    message: Option<String>,
)
    ensures
        layered(*final(c)) == (Layered {
            sources: layered(*old(c)).sources.push(
                SourceReportView {
                    source: source@,
                    status,
                    message: message.deep_view(),
                },
            ),
            ..layered(*old(c))
        }),
{
    let ghost before = c.sources.deep_view();
    let r = SourceReport { source: source.dup(), status, message };
    c.sources.push(r);
    assert(c.sources.deep_view() =~= before.push(r@));
}

/// Lays what a file holds over the settings.
fn add_file(
    c: &mut ResolvedPrintRevoltConfig,
    source: &ConfigSource,
    what: &str,
    path: &str,
    text: &Option<String>,
)
    ensures
        layered(*final(c)) == with_file(
            layered(*old(c)),
            source@,
            what@,
            path@,
            text.deep_view(),
        ),
{
    let raw = match text {
        None => {
            report(c, source, ReadStatus::Missing, None);
            return;
        },
        Some(raw) => raw,
    };
    let value = match parse_toml(raw.as_str()) {
        Err(e) => {
            report(c, source, ReadStatus::ParseError, Some(e.clone()));
            let mut w = cat4("failed to parse ", what, path, ": ");
            w.append(e.as_str());
            let ghost before = c.warnings.deep_view();
            c.warnings.push(w);
            assert(c.warnings.deep_view() =~= before.push(w@));
            return;
        },
        Ok(v) => v,
    };
    report(c, source, ReadStatus::ReadOk, None);
    if let Some(layer) = value.get("printrevolt") {
        if layer.is_table() {
            let merged_value = deep_merge_with_trace(
                &c.printrevolt,
                layer,
                source,
                &mut c.trace,
            );
            c.printrevolt = merged_value;
        }
    }
}

/// The settings in effect, and where each of them comes from.
pub fn resolve_printrevolt_config(
    paths: &PrintRevoltPaths,
    texts: &ConfigTexts,
    cli_overrides: Option<TomlValue>,
) -> (r: ResolvedPrintRevoltConfig)
    ensures
        layered(r) == effective(paths@, texts@, cli_overrides.deep_view()),
{
    let defaults = default_printrevolt_table();
    let trace = init_trace_from_defaults(&defaults);
    let mut c = ResolvedPrintRevoltConfig {
        printrevolt: defaults,
        trace,
        sources: Vec::new(),
        warnings: Vec::new(),
    };
    assert(c.sources.deep_view() =~= Seq::empty());
    assert(c.warnings.deep_view() =~= Seq::empty());
    let user_a = paths.user_config_toml.as_str();
    let user_b = paths.user_printrevolt_toml.as_str();
    add_file(
        &mut c,
        &ConfigSource::UserModeA { file: user_a.to_owned() },
        "Mode A printrevolt table from ",
        user_a,
        &texts.user_config,
    );
    add_file(
        &mut c,
        &ConfigSource::UserModeB { file: user_b.to_owned() },
        "Mode B printrevolt.toml ",
        user_b,
        &texts.user_printrevolt,
    );
    if let Some(p) = &paths.project_config_toml {
        add_file(
            &mut c,
            &ConfigSource::ProjectModeA { file: p.clone() },
            "Mode A printrevolt table from ",
            p.as_str(),
            &texts.project_config,
        );
    }
    if let Some(p) = &paths.project_printrevolt_toml {
        add_file(
            &mut c,
            &ConfigSource::ProjectModeB { file: p.clone() },
            "Mode B printrevolt.toml ",
            p.as_str(),
            &texts.project_printrevolt,
        );
    }
    if let Some(p) = &texts.session_path {
        add_file(
            &mut c,
            &ConfigSource::SessionOverlay { file: p.clone() },
            "Mode B printrevolt.toml ",
            p.as_str(),
            &texts.session,
        );
    }
    if let Some(v) = &cli_overrides {
        report(&mut c, &ConfigSource::CliOverrides, ReadStatus::ReadOk, None);
        let merged_value = deep_merge_with_trace(
            &c.printrevolt,
            v,
            &ConfigSource::CliOverrides,
            &mut c.trace,
        );
        c.printrevolt = merged_value;
    }
    c
}

/// A setting of a layer takes effect over all layers below it, and what the layer says
/// nothing about stays as it is.
pub proof fn stronger_layer_wins(
    l: Layered,
    source: ConfigSourceView,
    v: TomlView,
    path: Seq<Seq<char>>,
)
    requires
        v is Table,
        ordered(l.settings),
        ordered(v),
    ensures
        at(v, path) is Some && !(at(v, path)->0 is Table) ==> at(
            with_layer(l, source, Some(v)).settings,
            path,
        ) == at(v, path),
        silent(v, path) ==> at(with_layer(l, source, Some(v)).settings, path) == at(
            l.settings,
            path,
        ),
        ordered(with_layer(l, source, Some(v)).settings),
{
    if at(v, path) is Some && !(at(v, path)->0 is Table) {
        upper_layer_wins(l.settings, v, path);
    }
    if silent(v, path) {
        lower_layer_stays(l.settings, v, path);
    }
    merged_is_ordered(l.settings, v);
}

/// The settings where nothing is set are in order, and each of them is traced.
pub proof fn defaults_are_traced()
    ensures
        ordered(default_settings()),
        sorted(default_trace()),
        forall|k: Seq<char>|
            #[trigger] has_leaf(Seq::empty(), default_settings(), k) ==> lookup(
                default_trace(),
                k,
            ) is Some,
{
    let none: TableView = Seq::empty();
    let e = TomlView::Boolean(true);
    let v = TomlView::Table(none);
    put_sorted(none, "enabled"@, e);
    put_sorted(put(none, "enabled"@, e), "vars"@, v);
    let s = default_settings()->Table_0;
    assert forall|i: int| 0 <= i < s.len() implies ordered(#[trigger] s[i].1) by {
        lookup_at(s, i);
        lookup_put(put(none, "enabled"@, e), "vars"@, v, s[i].0);
        lookup_put(none, "enabled"@, e, s[i].0);
    }
    let leaves = flatten(Seq::empty(), default_settings(), none);
    assert forall|k: Seq<char>|
        #[trigger] has_leaf(Seq::empty(), default_settings(), k) implies lookup(
        default_trace(),
        k,
    ) is Some by {
        flatten_keys(Seq::empty(), default_settings(), none, k);
        lookup_some(leaves, k);
        ascribed(leaves, 0, ConfigSourceView::Defaults, Seq::empty(), k);
    }
    flatten_keys(Seq::empty(), default_settings(), none, Seq::empty());
    ascribed(leaves, 0, ConfigSourceView::Defaults, Seq::empty(), Seq::empty());
}

} // verus!
