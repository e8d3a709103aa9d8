//! What holds of settings in effect, whatever the files hold.

use vstd::prelude::*;
use crate::config::layers::{
    config_paths, default_settings, default_trace, defaults_are_traced, effective, with_file,
    Layered,
};
use crate::config::merge::{
    at, entry_path, has_leaf, has_leaf_from, lower_layer_stays, merged, merged_is_ordered, only_the_overlay_is_ascribed,
    ordered, silent, traced, upper_layer_wins, Trace,
};
use crate::config::model::{
    ConfigSourceView, ConfigTextsView, PrintRevoltPathsView, ReadStatus, SourceReportView,
};
use crate::paths::joined;
use crate::strmap::{lookup, sorted};
use crate::tomlvalue::{parsed_toml, TomlView};

verus! {

/// The settings that a file holds: its table `printrevolt`, where the file was read, parses
/// and has one.
pub open spec fn table_in(text: Option<Seq<char>>) -> Option<TomlView> {
    match text {
        Some(raw) => match parsed_toml(raw) {
            Ok(TomlView::Table(s)) => match lookup(s, "printrevolt"@) {
                Some(TomlView::Table(t)) => Some(TomlView::Table(t)),
                _ => None,
            },
            _ => None,
        },
        None => None,
    }
}

/// A place that settings can come from, and what it says, if anything.
#[verifier::ext_equal]
pub struct Layer {
    pub source: ConfigSourceView,
    pub says: Option<TomlView>,
}

/// A file that there is only where its path is known.
pub open spec fn file_layer(
    path: Option<Seq<char>>,
    source: spec_fn(Seq<char>) -> ConfigSourceView,
    text: Option<Seq<char>>,
) -> Layer {
    match path {
        Some(p) => Layer { source: source(p), says: table_in(text) },
        None => Layer { source: ConfigSourceView::Defaults, says: None },
    }
}

/// The places that settings come from, the weakest first: the user's two files, those of the
/// project, the session and the command line.
pub open spec fn places(
    paths: PrintRevoltPathsView,
    texts: ConfigTextsView,
    cli: Option<TomlView>,
) -> Seq<Layer> {
    seq![
        file_layer(
            Some(paths.user_config_toml),
            |p: Seq<char>| ConfigSourceView::UserModeA { file: p },
            texts.user_config,
        ),
        file_layer(
            Some(paths.user_printrevolt_toml),
            |p: Seq<char>| ConfigSourceView::UserModeB { file: p },
            texts.user_printrevolt,
        ),
        file_layer(
            paths.project_config_toml,
            |p: Seq<char>| ConfigSourceView::ProjectModeA { file: p },
            texts.project_config,
        ),
        file_layer(
            paths.project_printrevolt_toml,
            |p: Seq<char>| ConfigSourceView::ProjectModeB { file: p },
            texts.project_printrevolt,
        ),
        file_layer(
            texts.session_path,
            |p: Seq<char>| ConfigSourceView::SessionOverlay { file: p },
            texts.session,
        ),
        Layer { source: ConfigSourceView::CliOverrides, says: cli },
    ]
}

/// Whether a place says nothing about a path of keys.
pub open spec fn says_nothing(l: Layer, path: Seq<Seq<char>>) -> bool {
    l.says matches Some(v) ==> silent(v, path)
}

/// Whether a place sets the setting with a dotted path.
pub open spec fn sets(l: Layer, k: Seq<char>) -> bool {
    l.says matches Some(v) && has_leaf(Seq::empty(), v, k)
}

spec fn laid(l: Seq<Layer>, n: int) -> TomlView
    decreases n,
{
    if n <= 0 || n > l.len() {
        default_settings()
    } else {
        match l[n - 1].says {
            Some(v) => merged(laid(l, n - 1), v),
            None => laid(l, n - 1),
        }
    }
}

spec fn noted(l: Seq<Layer>, n: int) -> Trace
    decreases n,
{
    if n <= 0 || n > l.len() {
        default_trace()
    } else {
        match l[n - 1].says {
            Some(v) => traced(v, l[n - 1].source, noted(l, n - 1)),
            None => noted(l, n - 1),
        }
    }
}

proof fn effective_is_laid(
    paths: PrintRevoltPathsView,
    texts: ConfigTextsView,
    cli: Option<TomlView>,
)
    ensures
        effective(paths, texts, cli).settings == laid(places(paths, texts, cli), 6),
        effective(paths, texts, cli).trace == noted(places(paths, texts, cli), 6),
{
    let l = places(paths, texts, cli);
    reveal_with_fuel(laid, 7);
    reveal_with_fuel(noted, 7);
    assert(l.len() == 6);
}

proof fn laid_is_ordered(l: Seq<Layer>, n: int)
    requires
        0 <= n <= l.len(),
        forall|m: int| 0 <= m < l.len() ==> ((#[trigger] l[m]).says matches Some(v) ==> ordered(v)),
    ensures
        ordered(laid(l, n)),
        sorted(noted(l, n)),
    decreases n,
{
    defaults_are_traced();
    if n > 0 {
        laid_is_ordered(l, n - 1);
        assert(l[n - 1].says matches Some(v) ==> ordered(v));
        if let Some(v) = l[n - 1].says {
            merged_is_ordered(laid(l, n - 1), v);
            only_the_overlay_is_ascribed(v, l[n - 1].source, noted(l, n - 1), Seq::empty());
        }
    }
}

proof fn silent_layers_change_nothing(l: Seq<Layer>, n: int, m: int, path: Seq<Seq<char>>)
    requires
        0 <= n <= m <= l.len(),
        forall|i: int| 0 <= i < l.len() ==> ((#[trigger] l[i]).says matches Some(v) ==> ordered(v)),
        forall|i: int| n <= i < m ==> says_nothing(#[trigger] l[i], path),
    ensures
        at(laid(l, m), path) == at(laid(l, n), path),
    decreases m - n,
{
    if n < m {
        silent_layers_change_nothing(l, n, m - 1, path);
        assert(says_nothing(l[m - 1], path));
        assert(l[m - 1].says matches Some(v) ==> ordered(v));
        laid_is_ordered(l, m - 1);
        if let Some(v) = l[m - 1].says {
            lower_layer_stays(laid(l, m - 1), v, path);
        }
    }
}

proof fn other_layers_note_nothing(l: Seq<Layer>, n: int, m: int, k: Seq<char>)
    requires
        0 <= n <= m <= l.len(),
        forall|i: int| 0 <= i < l.len() ==> ((#[trigger] l[i]).says matches Some(v) ==> ordered(v)),
        forall|i: int| n <= i < m ==> !sets(#[trigger] l[i], k),
    ensures
        lookup(noted(l, m), k) == lookup(noted(l, n), k),
    decreases m - n,
{
    if n < m {
        other_layers_note_nothing(l, n, m - 1, k);
        assert(!sets(l[m - 1], k));
        laid_is_ordered(l, m - 1);
        if let Some(v) = l[m - 1].says {
            only_the_overlay_is_ascribed(v, l[m - 1].source, noted(l, m - 1), k);
        }
    }
}

/// The strongest place that sets something decides it: what the place `n` says is in effect
/// where no stronger one says anything about it, and is traced to that place where no stronger
/// one sets it.
pub proof fn strongest_place_decides(
    paths: PrintRevoltPathsView,
    texts: ConfigTextsView,
    cli: Option<TomlView>,
    n: int,
    path: Seq<Seq<char>>,
    k: Seq<char>,
)
    requires
        0 <= n < 6,
        forall|m: int|
            0 <= m < 6 ==> ((#[trigger] places(paths, texts, cli)[m]).says matches Some(v)
                ==> ordered(v)),
    ensures
        ({
            let l = places(paths, texts, cli);
            &&& l[n].says is Some && at(l[n].says->0, path) is Some && !(at(
                l[n].says->0,
                path,
            )->0 is Table) && (forall|m: int|
                n < m < 6 ==> says_nothing(#[trigger] l[m], path)) ==> at(
                effective(paths, texts, cli).settings,
                path,
            ) == at(l[n].says->0, path)
            &&& sets(l[n], k) && (forall|m: int| n < m < 6 ==> !sets(#[trigger] l[m], k))
                ==> lookup(effective(paths, texts, cli).trace, k) == Some(l[n].source)
        }),
{
    let l = places(paths, texts, cli);
    effective_is_laid(paths, texts, cli);
    assert(l[n].says matches Some(v) ==> ordered(v));
    laid_is_ordered(l, n);
    if let Some(v) = l[n].says {
        if at(v, path) is Some && !(at(v, path)->0 is Table) && (forall|m: int|
            n < m < 6 ==> says_nothing(#[trigger] l[m], path)) {
            upper_layer_wins(laid(l, n), v, path);
            silent_layers_change_nothing(l, n + 1, 6, path);
        }
        if sets(l[n], k) && (forall|m: int| n < m < 6 ==> !sets(#[trigger] l[m], k)) {
            only_the_overlay_is_ascribed(v, l[n].source, noted(l, n), k);
            other_layers_note_nothing(l, n + 1, 6, k);
        }
    }
}

/// What no place says anything about is as it is by default: the switch `enabled` is on, and
/// nothing else is set.
pub proof fn unset_settings_are_default(
    paths: PrintRevoltPathsView,
    texts: ConfigTextsView,
    cli: Option<TomlView>,
    path: Seq<Seq<char>>,
    k: Seq<char>,
)
    requires
        forall|m: int|
            0 <= m < 6 ==> ((#[trigger] places(paths, texts, cli)[m]).says matches Some(v)
                ==> ordered(v)),
    ensures
        (forall|m: int|
            0 <= m < 6 ==> says_nothing(#[trigger] places(paths, texts, cli)[m], path)) ==> {
            &&& path == seq!["enabled"@] ==> at(effective(paths, texts, cli).settings, path)
                == Some(TomlView::Boolean(true))
            &&& path.len() > 0 && path[0] != "enabled"@ && path[0] != "vars"@ ==> at(
                effective(paths, texts, cli).settings,
                path,
            ) is None
        },
        (forall|m: int| 0 <= m < 6 ==> !sets(#[trigger] places(paths, texts, cli)[m], k))
            ==> lookup(effective(paths, texts, cli).trace, k) == (if k == "enabled"@ {
            Some(ConfigSourceView::Defaults)
        } else {
            None
        }),
{
    let l = places(paths, texts, cli);
    effective_is_laid(paths, texts, cli);
    default_entries(path, k);
    if forall|m: int| 0 <= m < 6 ==> says_nothing(#[trigger] l[m], path) {
        silent_layers_change_nothing(l, 0, 6, path);
    }
    if forall|m: int| 0 <= m < 6 ==> !sets(#[trigger] l[m], k) {
        other_layers_note_nothing(l, 0, 6, k);
    }
}

proof fn default_entries(path: Seq<Seq<char>>, k: Seq<char>)
    ensures
        path == seq!["enabled"@] ==> at(default_settings(), path) == Some(TomlView::Boolean(true)),
        path.len() > 0 && path[0] != "enabled"@ && path[0] != "vars"@ ==> at(
            default_settings(),
            path,
        ) is None,
        lookup(default_trace(), k) == (if k == "enabled"@ {
            Some(ConfigSourceView::Defaults)
        } else {
            None
        }),
{
    reveal_strlit("enabled");
    reveal_strlit("vars");
    let none: Seq<(Seq<char>, TomlView)> = Seq::empty();
    let e = TomlView::Boolean(true);
    let v = TomlView::Table(none);
    let one = crate::strmap::put(none, "enabled"@, e);
    crate::strmap::put_sorted(none, "enabled"@, e);
    assert("enabled"@[0] != "vars"@[0]);
    if path.len() > 0 {
        crate::strmap::lookup_put(none, "enabled"@, e, path[0]);
        crate::strmap::lookup_put(one, "vars"@, v, path[0]);
        reveal_with_fuel(at, 2);
    }
    let no_trace: Trace = Seq::empty();
    only_the_overlay_is_ascribed(default_settings(), ConfigSourceView::Defaults, no_trace, k);
    let d = default_settings()->Table_0;
    assert(crate::strmap::lex_lt("enabled"@, "vars"@)) by {
        reveal_with_fuel(crate::strmap::lex_lt, 2);
    }
    assert(one =~= seq![("enabled"@, e)]) by {
        crate::strmap::put_last(none, "enabled"@, e);
    }
    assert(d =~= seq![("enabled"@, e), ("vars"@, v)]) by {
        crate::strmap::put_last(one, "vars"@, v);
    }
    let root: Seq<char> = Seq::empty();
    let t = default_settings();
    assert(t == TomlView::Table(d));
    assert(has_leaf("enabled"@, e, k) == (k == "enabled"@));
    assert(!has_leaf_from("vars"@, v, 0, k));
    assert(!has_leaf("vars"@, v, k));
    assert(!has_leaf_from(root, t, 2, k));
    assert(entry_path(root, "enabled"@) == "enabled"@);
    assert(entry_path(root, "vars"@) == "vars"@);
    assert(!has_leaf_from(root, t, 1, k));
    assert(has_leaf_from(root, t, 0, k) == (k == "enabled"@));
}

/// What is reported of a file: missing where there is no text of it, otherwise whether it
/// parses.
pub open spec fn file_report(source: ConfigSourceView, text: Option<Seq<char>>) -> SourceReportView {
    SourceReportView {
        source,
        status: match text {
            None => ReadStatus::Missing,
            Some(raw) => if parsed_toml(raw) is Ok {
                ReadStatus::ReadOk
            } else {
                ReadStatus::ParseError
            },
        },
        message: match text {
            Some(raw) => match parsed_toml(raw) {
                Err(e) => Some(e),
                Ok(_) => None,
            },
            None => None,
        },
    }
}

/// A report where a path is known.
pub open spec fn reports_of(
    path: Option<Seq<char>>,
    source: spec_fn(Seq<char>) -> ConfigSourceView,
    text: Option<Seq<char>>,
) -> Seq<SourceReportView> {
    match path {
        Some(p) => seq![file_report(source(p), text)],
        None => Seq::empty(),
    }
}

/// Every file whose path is known is reported, in the order of their strength, and so is the
/// command line where it says something. A file that does not parse is warned about, and only
/// such a file is.
pub proof fn every_file_is_reported(
    paths: PrintRevoltPathsView,
    texts: ConfigTextsView,
    cli: Option<TomlView>,
)
    ensures
        effective(paths, texts, cli).sources == reports_of(
            Some(paths.user_config_toml),
            |p: Seq<char>| ConfigSourceView::UserModeA { file: p },
            texts.user_config,
        ) + reports_of(
            Some(paths.user_printrevolt_toml),
            |p: Seq<char>| ConfigSourceView::UserModeB { file: p },
            texts.user_printrevolt,
        ) + reports_of(
            paths.project_config_toml,
            |p: Seq<char>| ConfigSourceView::ProjectModeA { file: p },
            texts.project_config,
        ) + reports_of(
            paths.project_printrevolt_toml,
            |p: Seq<char>| ConfigSourceView::ProjectModeB { file: p },
            texts.project_printrevolt,
        ) + reports_of(
            texts.session_path,
            |p: Seq<char>| ConfigSourceView::SessionOverlay { file: p },
            texts.session,
        ) + (if cli is Some {
            seq![
                SourceReportView {
                    source: ConfigSourceView::CliOverrides,
                    status: ReadStatus::ReadOk,
                    message: None,
                },
            ]
        } else {
            Seq::empty()
        }),
        effective(paths, texts, cli).warnings == warnings_of(
            Some(paths.user_config_toml),
            "Mode A printrevolt table from "@,
            texts.user_config,
        ) + warnings_of(
            Some(paths.user_printrevolt_toml),
            "Mode B printrevolt.toml "@,
            texts.user_printrevolt,
        ) + warnings_of(
            paths.project_config_toml,
            "Mode A printrevolt table from "@,
            texts.project_config,
        ) + warnings_of(
            paths.project_printrevolt_toml,
            "Mode B printrevolt.toml "@,
            texts.project_printrevolt,
        ) + warnings_of(texts.session_path, "Mode B printrevolt.toml "@, texts.session),
{
    let a = "Mode A printrevolt table from "@;
    let b = "Mode B printrevolt.toml "@;
    let l0 = Layered {
        settings: default_settings(),
        trace: default_trace(),
        sources: Seq::empty(),
        warnings: Seq::empty(),
    };
    let l1 = file_adds(
        l0,
        Some(paths.user_config_toml),
        |p: Seq<char>| ConfigSourceView::UserModeA { file: p },
        a,
        texts.user_config,
    );
    let l2 = file_adds(
        l1,
        Some(paths.user_printrevolt_toml),
        |p: Seq<char>| ConfigSourceView::UserModeB { file: p },
        b,
        texts.user_printrevolt,
    );
    let l3 = file_adds(
        l2,
        paths.project_config_toml,
        |p: Seq<char>| ConfigSourceView::ProjectModeA { file: p },
        a,
        texts.project_config,
    );
    let l4 = file_adds(
        l3,
        paths.project_printrevolt_toml,
        |p: Seq<char>| ConfigSourceView::ProjectModeB { file: p },
        b,
        texts.project_printrevolt,
    );
    let l5 = file_adds(
        l4,
        texts.session_path,
        |p: Seq<char>| ConfigSourceView::SessionOverlay { file: p },
        b,
        texts.session,
    );
    let e = effective(paths, texts, cli);
    assert(e.warnings == l5.warnings);
    if cli is None {
        assert(e.sources == l5.sources);
        assert(l5.sources + Seq::empty() =~= l5.sources);
    } else {
        let last = SourceReportView {
            source: ConfigSourceView::CliOverrides,
            status: ReadStatus::ReadOk,
            message: None,
        };
        assert(e.sources == l5.sources.push(last));
        assert(l5.sources + seq![last] =~= l5.sources.push(last));
    }
}

proof fn file_adds(
    l: Layered,
    path: Option<Seq<char>>,
    source: spec_fn(Seq<char>) -> ConfigSourceView,
    what: Seq<char>,
    text: Option<Seq<char>>,
) -> (r: Layered)
    ensures
        r == (match path {
            Some(p) => with_file(l, source(p), what, p, text),
            None => l,
        }),
        r.sources == l.sources + reports_of(path, source, text),
        r.warnings == l.warnings + warnings_of(path, what, text),
        l.sources.len() == 0 ==> r.sources == reports_of(path, source, text),
        l.warnings.len() == 0 ==> r.warnings == warnings_of(path, what, text),
{
    let r = match path {
        Some(p) => with_file(l, source(p), what, p, text),
        None => l,
    };
    assert(r.sources =~= l.sources + reports_of(path, source, text));
    assert(r.warnings =~= l.warnings + warnings_of(path, what, text));
    if l.sources.len() == 0 {
        assert(r.sources =~= reports_of(path, source, text));
    }
    if l.warnings.len() == 0 {
        assert(r.warnings =~= warnings_of(path, what, text));
    }
    r
}

/// The warning about a file whose path is known and that does not parse.
pub open spec fn warnings_of(
    path: Option<Seq<char>>,
    what: Seq<char>,
    text: Option<Seq<char>>,
) -> Seq<Seq<char>> {
    match (path, text) {
        (Some(p), Some(raw)) => match parsed_toml(raw) {
            Err(e) => seq!["failed to parse "@ + what + p + ": "@ + e],
            Ok(_) => Seq::empty(),
        },
        _ => Seq::empty(),
    }
}

/// The user's settings lie in the home directory, those of a project in its directory
/// `.codex`; where there is no project, it has none.
pub proof fn settings_lie_with_their_owner(home: Seq<char>, root: Option<Seq<char>>)
    ensures
        config_paths(home, root).user_config_toml == joined(home, "config.toml"@),
        config_paths(home, root).user_printrevolt_toml == joined(home, "printrevolt.toml"@),
        root matches Some(r) ==> {
            let dir = joined(r, ".codex"@);
            &&& config_paths(home, root).project_config_toml == Some(joined(dir, "config.toml"@))
            &&& config_paths(home, root).project_printrevolt_toml == Some(
                joined(dir, "printrevolt.toml"@),
            )
        },
        root is None ==> config_paths(home, root).project_config_toml is None && config_paths(
            home,
            root,
        ).project_printrevolt_toml is None,
{
}

} // verus!
