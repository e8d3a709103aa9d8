//! Settings that commands change, backups, and the commands that they run.

use vstd::prelude::*;
use crate::config::model::{config_error_text, PrConfigError, PrConfigErrorView};
use crate::config::write::{
    render_stable_toml_document, set_toml_bool, set_toml_string, stable_document, with_leaf,
};
use crate::paths::{file_name, file_name_of, join_path, join_path3, joined, joined3};
use crate::repo_ops::{exit_string, exit_text};
use crate::text::{cat3, cat4, decimal, decimal_string, join, join_strings, outcome};
use crate::tomlvalue::{empty_table, parse_toml, parsed_toml, TomlView};

verus! {

/// The value that a setting is given.
pub enum SettingValue {
    Flag(bool),
    Text(String),
}

pub open spec fn setting_leaf(v: SettingValue) -> TomlView {
    match v {
        SettingValue::Flag(b) => TomlView::Boolean(b),
        SettingValue::Text(t) => TomlView::String(t@),
    }
}

/// Settings with one of them changed: what the file holds, or nothing where there is
/// none, with a leaf set.
pub open spec fn settings_changed(
    raw: Option<Seq<char>>,
    target: Seq<char>,
    path: Seq<Seq<char>>,
    leaf: TomlView,
) -> Result<TomlView, Seq<char>> {
    match raw {
        None => with_leaf(TomlView::Table(Seq::empty()), path, leaf),
        Some(text) => match parsed_toml(text) {
            Err(e) => Err("failed to parse "@ + target + ": "@ + e),
            Ok(v) => with_leaf(v, path, leaf),
        },
    }
}

/// The document of changed settings.
pub open spec fn settings_document(target: Seq<char>, changed: Result<TomlView, Seq<char>>) -> Result<
    Seq<char>,
    Seq<char>,
> {
    match changed {
        Err(e) => Err(e),
        Ok(v) => match stable_document(v) {
            Ok(t) => Ok(t),
            Err(message) => Err(
                config_error_text(PrConfigErrorView::WriteFailed { path: target, message }),
            ),
        },
    }
}

/// Changes one setting of a file. What is returned is the file's new text.
pub fn update_mode_b_config(
    raw: &Option<String>,
    target: &str,
    path: &Vec<String>,
    value: SettingValue,
) -> (r: Result<String, String>)
    ensures
        outcome(r) == settings_document(
            target@,
            settings_changed(raw.deep_view(), target@, path.deep_view(), setting_leaf(value)),
        ),
{
    let mut root = match raw {
        None => empty_table(),
        Some(text) => match parse_toml(text.as_str()) {
            Ok(v) => v,
            Err(e) => {
                return Err(cat4("failed to parse ", target, ": ", e.as_str()));
            },
        },
    };
    match value {
        SettingValue::Flag(b) => {
            set_toml_bool(&mut root, path, b)?;
        },
        SettingValue::Text(t) => {
            set_toml_string(&mut root, path, t.as_str())?;
        },
    }
    match render_stable_toml_document(&root) {
        Ok(t) => Ok(t),
        Err(message) => {
            let e = PrConfigError::WriteFailed { path: target.to_owned(), message };
            Err(e.message())
        },
    }
}

/// Where a file is backed up at a time in milliseconds; nowhere where it has no name.
pub open spec fn backup_file(home: Seq<char>, kind: Seq<char>, target: Seq<char>, millis: u64) -> Option<
    Seq<char>,
> {
    match file_name(target) {
        None => None,
        Some(name) => Some(
            joined(
                joined3(home, "printrevolt"@, "backups"@, kind),
                decimal(millis as nat) + "-"@ + name,
            ),
        ),
    }
}

pub fn backup_path(codex_home: &str, kind: &str, target: &str, millis: u64) -> (r: Option<String>)
    ensures
        r.deep_view() == backup_file(codex_home@, kind@, target@, millis),
{
    match file_name_of(target) {
        None => None,
        Some(name) => {
            let dir = join_path3(codex_home, "printrevolt", "backups", kind);
            let n = decimal_string(millis);
            let leaf = cat3(n.as_str(), "-", name.as_str());
            Some(join_path(dir.as_str(), leaf.as_str()))
        },
    }
}

/// A command line, taken apart.
pub struct Invocation {
    pub program: String,
    pub args: Vec<String>,
}

/// The program of a command line, and its arguments.
pub fn invocation(argv: &Vec<String>) -> (r: Result<Invocation, String>)
    ensures
        match r {
            Ok(i) => argv.deep_view() == seq![i.program@] + i.args.deep_view(),
            Err(e) => argv@.len() == 0 && e@ == "empty argv"@,
        },
{
    if argv.len() == 0 {
        return Err("empty argv".to_owned());
    }
    let ghost all = argv.deep_view();
    let mut args: Vec<String> = Vec::new();
    let mut i: usize = 1;
    while i < argv.len()
        invariant
            1 <= i <= argv@.len(),
            all == argv.deep_view(),
            args@.len() == i - 1,
            forall|k: int| 0 <= k < i - 1 ==> (#[trigger] args@[k])@ == all[k + 1],
        decreases argv.len() - i,
    {
        assert(all[i as int] == argv@[i as int]@);
        args.push(argv[i].clone());
        i = i + 1;
    }
    let program = argv[0].clone();
    assert(seq![program@] + args.deep_view() =~= all);
    Ok(Invocation { program, args })
}

/// What is said of a command that did not succeed.
pub fn command_failure(argv: &Vec<String>, code: Option<i32>) -> (r: String)
    ensures
        r@ == "command failed (exit "@ + exit_text(code) + "): "@ + join(argv.deep_view(), " "@),
{
    let line = join_strings(argv, " ");
    let shown = exit_string(code);
    cat4("command failed (exit ", shown.as_str(), "): ", line.as_str())
}

} // verus!
