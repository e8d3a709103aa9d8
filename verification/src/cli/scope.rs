//! The layers a command reads or writes, and where their files lie.

use vstd::prelude::*;
use crate::paths::{
    global_file, join_path, join_path2, join_path3, joined, joined2, project_file,
};
use crate::profiles::files::{
    global_guideline_profiles_path, global_policy_profiles_path, project_guideline_profiles_path,
    project_policy_profiles_path,
};
use crate::text::{cat3, outcome, str_eq};

verus! {

/// The layers a command reads.
#[derive(Debug, Clone, Copy, PartialEq, Eq, Structural)]
pub enum Scope {
    Global,
    Project,
    Both,
}

/// One layer of files.
#[derive(Debug, Clone, Copy, PartialEq, Eq, Structural)]
pub enum LayerScope {
    Global,
    Project,
}

pub open spec fn scope_text(scope: Scope) -> Seq<char> {
    match scope {
        Scope::Global => "global"@,
        Scope::Project => "project"@,
        Scope::Both => "both"@,
    }
}

pub open spec fn layer_text(scope: LayerScope) -> Seq<char> {
    match scope {
        LayerScope::Global => "global"@,
        LayerScope::Project => "project"@,
    }
}

impl Scope {
    pub fn as_str(self) -> (r: &'static str)
        ensures
            r@ == scope_text(self),
    {
        match self {
            Scope::Global => "global",
            Scope::Project => "project",
            Scope::Both => "both",
        }
    }
}

impl LayerScope {
    pub fn as_str(self) -> (r: &'static str)
        ensures
            r@ == layer_text(self),
    {
        match self {
            LayerScope::Global => "global",
            LayerScope::Project => "project",
        }
    }
}

impl View for LayerScope {
    type V = LayerScope;

    open spec fn view(&self) -> LayerScope {
        *self
    }
}

impl DeepView for LayerScope {
    type V = LayerScope;

    open spec fn deep_view(&self) -> LayerScope {
        *self
    }
}

pub open spec fn no_root_text() -> Seq<char> {
    "project scope selected but no project root detected; pass --project-root"@
}

pub fn no_root_message() -> (r: String)
    ensures
        r@ == no_root_text(),
{
    "project scope selected but no project root detected; pass --project-root".to_owned()
}

/// The project's root, which must be known where the project's layer alone is read.
pub open spec fn required_root(root: Option<Seq<char>>, scope: Scope) -> Result<Option<Seq<char>>, Seq<char>> {
    if scope == Scope::Project && root is None {
        Err(no_root_text())
    } else {
        Ok(root)
    }
}

pub fn require_project_root(project_root: Option<String>, scope: Scope) -> (r: Result<Option<String>, String>)
    ensures
        outcome(r) == required_root(project_root.deep_view(), scope),
{
    match project_root {
        None => match scope {
            Scope::Project => Err(no_root_message()),
            _ => Ok(None),
        },
        Some(root) => Ok(Some(root)),
    }
}

/// The layer that a command writes: one, not both.
pub open spec fn writable(scope: Scope, flag: Seq<char>) -> Result<LayerScope, Seq<char>> {
    match scope {
        Scope::Global => Ok(LayerScope::Global),
        Scope::Project => Ok(LayerScope::Project),
        Scope::Both => Err("--scope both is not valid for write operations ("@ + flag + ")"@),
    }
}

pub fn ensure_writable_scope(scope: Scope, flag_name: &str) -> (r: Result<LayerScope, String>)
    ensures
        outcome(r) == writable(scope, flag_name@),
{
    match scope {
        Scope::Global => Ok(LayerScope::Global),
        Scope::Project => Ok(LayerScope::Project),
        Scope::Both => Err(cat3("--scope both is not valid for write operations (", flag_name, ")")),
    }
}

/// A file of one layer: below the home directory, or below the project's root, which
/// must then be known.
pub open spec fn layered(
    global: Seq<char>,
    project: spec_fn(Seq<char>) -> Seq<char>,
    root: Option<Seq<char>>,
    scope: LayerScope,
) -> Result<Seq<char>, Seq<char>> {
    match (scope, root) {
        (LayerScope::Global, _) => Ok(global),
        (LayerScope::Project, None) => Err(no_root_text()),
        (LayerScope::Project, Some(r)) => Ok(project(r)),
    }
}

pub open spec fn scoped_file(
    home: Seq<char>,
    root: Option<Seq<char>>,
    scope: LayerScope,
    name: Seq<char>,
) -> Result<Seq<char>, Seq<char>> {
    layered(global_file(home, name), |r: Seq<char>| project_file(r, name), root, scope)
}

fn scoped_file_path(
    codex_home: &str,
    project_root: &Option<String>,
    scope: LayerScope,
    name: &str,
) -> (r: Result<String, String>)
    ensures
        outcome(r) == scoped_file(codex_home@, project_root.deep_view(), scope, name@),
{
    match scope {
        LayerScope::Global => Ok(join_path2(codex_home, "printrevolt", name)),
        LayerScope::Project => match project_root {
            None => Err(no_root_message()),
            Some(root) => Ok(join_path3(root.as_str(), ".codex", "printrevolt", name)),
        },
    }
}

pub fn global_pipelines_json_path(codex_home: &str) -> (r: String)
    ensures
        r@ == global_file(codex_home@, "pipelines.json"@),
{
    join_path2(codex_home, "printrevolt", "pipelines.json")
}

pub fn project_pipelines_json_path(project_root: &str) -> (r: String)
    ensures
        r@ == project_file(project_root@, "pipelines.json"@),
{
    join_path3(project_root, ".codex", "printrevolt", "pipelines.json")
}

pub fn global_workflows_json_path(codex_home: &str) -> (r: String)
    ensures
        r@ == global_file(codex_home@, "workflows.json"@),
{
    join_path2(codex_home, "printrevolt", "workflows.json")
}

pub fn project_workflows_json_path(project_root: &str) -> (r: String)
    ensures
        r@ == project_file(project_root@, "workflows.json"@),
{
    join_path3(project_root, ".codex", "printrevolt", "workflows.json")
}

pub fn scoped_pipelines_json_path(
    codex_home: &str,
    project_root: &Option<String>,
    scope: LayerScope,
) -> (r: Result<String, String>)
    ensures
        outcome(r) == scoped_file(codex_home@, project_root.deep_view(), scope, "pipelines.json"@),
{
    scoped_file_path(codex_home, project_root, scope, "pipelines.json")
}

pub fn scoped_workflows_json_path(
    codex_home: &str,
    project_root: &Option<String>,
    scope: LayerScope,
) -> (r: Result<String, String>)
    ensures
        outcome(r) == scoped_file(codex_home@, project_root.deep_view(), scope, "workflows.json"@),
{
    scoped_file_path(codex_home, project_root, scope, "workflows.json")
}

pub fn scoped_policy_profiles_json_path(
    codex_home: &str,
    project_root: &Option<String>,
    scope: LayerScope,
) -> (r: Result<String, String>)
    ensures
        outcome(r) == scoped_file(
            codex_home@,
            project_root.deep_view(),
            scope,
            "policy_profiles.json"@,
        ),
{
    match scope {
        LayerScope::Global => Ok(global_policy_profiles_path(codex_home)),
        LayerScope::Project => match project_root {
            None => Err(no_root_message()),
            Some(root) => Ok(project_policy_profiles_path(root.as_str())),
        },
    }
}

pub fn scoped_guideline_profiles_json_path(
    codex_home: &str,
    project_root: &Option<String>,
    scope: LayerScope,
) -> (r: Result<String, String>)
    ensures
        outcome(r) == scoped_file(
            codex_home@,
            project_root.deep_view(),
            scope,
            "guideline_profiles.json"@,
        ),
{
    match scope {
        LayerScope::Global => Ok(global_guideline_profiles_path(codex_home)),
        LayerScope::Project => match project_root {
            None => Err(no_root_message()),
            Some(root) => Ok(project_guideline_profiles_path(root.as_str())),
        },
    }
}

/// The settings file of a layer.
pub open spec fn settings_file(
    home: Seq<char>,
    root: Option<Seq<char>>,
    scope: LayerScope,
) -> Result<Seq<char>, Seq<char>> {
    layered(
        joined(home, "printrevolt.toml"@),
        |r: Seq<char>| joined2(r, ".codex"@, "printrevolt.toml"@),
        root,
        scope,
    )
}

pub fn scoped_printrevolt_toml_path(
    codex_home: &str,
    project_root: &Option<String>,
    scope: LayerScope,
) -> (r: Result<String, String>)
    ensures
        outcome(r) == settings_file(codex_home@, project_root.deep_view(), scope),
{
    match scope {
        LayerScope::Global => Ok(join_path(codex_home, "printrevolt.toml")),
        LayerScope::Project => match project_root {
            None => Err(no_root_message()),
            Some(root) => Ok(join_path2(root.as_str(), ".codex", "printrevolt.toml")),
        },
    }
}

/// Where a drafted template is put.
pub open spec fn draft_dir(
    home: Seq<char>,
    root: Option<Seq<char>>,
    scope: LayerScope,
) -> Result<Seq<char>, Seq<char>> {
    layered(
        joined2(home, "printrevolt"@, "drafts"@),
        |r: Seq<char>| joined2(r, ".codex"@, "templates"@),
        root,
        scope,
    )
}

pub fn template_draft_dir(
    codex_home: &str,
    project_root: &Option<String>,
    scope: LayerScope,
) -> (r: Result<String, String>)
    ensures
        outcome(r) == draft_dir(codex_home@, project_root.deep_view(), scope),
{
    match scope {
        LayerScope::Global => Ok(join_path2(codex_home, "printrevolt", "drafts")),
        LayerScope::Project => match project_root {
            None => Err(no_root_message()),
            Some(root) => Ok(join_path2(root.as_str(), ".codex", "templates")),
        },
    }
}

/// What a restored backup takes the place of, and the kind under which that is itself
/// backed up.
pub struct RestoreTarget {
    pub path: String,
    pub kind: String,
}

#[verifier::ext_equal]
pub struct RestoreTargetView {
    pub path: Seq<char>,
    pub kind: Seq<char>,
}

impl View for RestoreTarget {
    type V = RestoreTargetView;

    open spec fn view(&self) -> RestoreTargetView {
        RestoreTargetView { path: self.path@, kind: self.kind@ }
    }
}

impl DeepView for RestoreTarget {
    type V = RestoreTargetView;

    open spec fn deep_view(&self) -> RestoreTargetView {
        self@
    }
}

pub open spec fn restores(path: Result<Seq<char>, Seq<char>>, kind: Seq<char>) -> Result<
    RestoreTargetView,
    Seq<char>,
> {
    match path {
        Ok(path) => Ok(RestoreTargetView { path, kind }),
        Err(e) => Err(e),
    }
}

pub open spec fn restored(
    target: Seq<char>,
    home: Seq<char>,
    root: Option<Seq<char>>,
    scope: LayerScope,
) -> Result<RestoreTargetView, Seq<char>> {
    if target == "printrevolt-toml"@ {
        restores(settings_file(home, root, scope), "restore"@)
    } else if target == "pipelines-json"@ {
        restores(scoped_file(home, root, scope, "pipelines.json"@), "pipelines_restore"@)
    } else if target == "workflows-json"@ {
        restores(scoped_file(home, root, scope, "workflows.json"@), "workflows_restore"@)
    } else {
        Err(
            "unknown --target: "@ + target
                + " (expected printrevolt-toml or pipelines-json or workflows-json)"@,
        )
    }
}

fn restore_of(path: Result<String, String>, kind: &str) -> (r: Result<RestoreTarget, String>)
    ensures
        outcome(r) == restores(outcome(path), kind@),
{
    match path {
        Ok(path) => Ok(RestoreTarget { path, kind: kind.to_owned() }),
        Err(e) => Err(e),
    }
}

pub fn restore_target(
    target: &str,
    codex_home: &str,
    project_root: &Option<String>,
    scope: LayerScope,
) -> (r: Result<RestoreTarget, String>)
    ensures
        outcome(r) == restored(target@, codex_home@, project_root.deep_view(), scope),
{
    if str_eq(target, "printrevolt-toml") {
        restore_of(scoped_printrevolt_toml_path(codex_home, project_root, scope), "restore")
    } else if str_eq(target, "pipelines-json") {
        restore_of(scoped_pipelines_json_path(codex_home, project_root, scope), "pipelines_restore")
    } else if str_eq(target, "workflows-json") {
        restore_of(scoped_workflows_json_path(codex_home, project_root, scope), "workflows_restore")
    } else {
        Err(
            cat3(
                "unknown --target: ",
                target,
                " (expected printrevolt-toml or pipelines-json or workflows-json)",
            ),
        )
    }
}

} // verus!
