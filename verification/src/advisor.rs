//! Recommendations for a project.

use vstd::prelude::*;
use crate::json::{field, parse, parsed, Json, JsonView};
use crate::strmap::{keys, put, StrMap};
use crate::text::{cat2, cat3, join, join_strings, str_eq, Duplicate, Same};

verus! {

/// How much a recommendation matters.
#[derive(Debug, Clone, Copy, PartialEq, Eq, Structural)]
pub enum RecommendationSeverity {
    Info,
    Warning,
    Critical,
}

impl View for RecommendationSeverity {
    type V = RecommendationSeverity;

    open spec fn view(&self) -> RecommendationSeverity {
        *self
    }
}

impl DeepView for RecommendationSeverity {
    type V = RecommendationSeverity;

    open spec fn deep_view(&self) -> RecommendationSeverity {
        *self
    }
}

impl Duplicate for RecommendationSeverity {
    fn dup(&self) -> (r: Self) {
        *self
    }
}

impl Same for RecommendationSeverity {
    fn same(&self, other: &Self) -> (b: bool) {
        *self == *other
    }
}

/// What a recommendation is about.
#[derive(Debug, Clone, Copy, PartialEq, Eq, Structural)]
pub enum RecommendationKind {
    AddCommandsCatalog,
    AddVerifyPipeline,
    TightenPolicy,
    CoverageGap,
}

impl View for RecommendationKind {
    type V = RecommendationKind;

    open spec fn view(&self) -> RecommendationKind {
        *self
    }
}

impl DeepView for RecommendationKind {
    type V = RecommendationKind;

    open spec fn deep_view(&self) -> RecommendationKind {
        *self
    }
}

impl Duplicate for RecommendationKind {
    fn dup(&self) -> (r: Self) {
        *self
    }
}

impl Same for RecommendationKind {
    fn same(&self, other: &Self) -> (b: bool) {
        *self == *other
    }
}

/// Something that would improve a project.
#[derive(Debug, PartialEq, Eq)]
pub struct Recommendation {
    pub id: String,
    pub kind: RecommendationKind,
    pub severity: RecommendationSeverity,
    pub title: String,
    pub details: String,
    pub suggested_files: Vec<String>,
}

/// What a [`Recommendation`] stands for.
#[verifier::ext_equal]
pub struct RecommendationView {
    pub id: Seq<char>,
    pub kind: RecommendationKind,
    pub severity: RecommendationSeverity,
    pub title: Seq<char>,
    pub details: Seq<char>,
    pub suggested_files: Seq<Seq<char>>,
}

impl View for Recommendation {
    type V = RecommendationView;

    open spec fn view(&self) -> RecommendationView {
        RecommendationView {
            id: self.id@,
            kind: self.kind,
            severity: self.severity,
            title: self.title@,
            details: self.details@,
            suggested_files: self.suggested_files.deep_view(),
        }
    }
}

impl DeepView for Recommendation {
    type V = RecommendationView;

    open spec fn deep_view(&self) -> RecommendationView {
        self@
    }
}

impl Duplicate for Recommendation {
    fn dup(&self) -> (r: Self) {
        Recommendation {
            id: self.id.clone(),
            kind: self.kind,
            severity: self.severity,
            title: self.title.clone(),
            details: self.details.clone(),
            suggested_files: self.suggested_files.dup(),
        }
    }
}

impl Clone for Recommendation {
    fn clone(&self) -> (r: Self)
        ensures
            r@ == self@,
    {
        self.dup()
    }
}

/// What was noticed about a project.
#[derive(Debug, PartialEq, Eq)]
pub struct DetectedProjectSignals {
    pub has_package_json: bool,
    pub package_manager: Option<String>,
    pub has_frontend_dir: bool,
    pub has_backend_dir: bool,
}

/// What a [`DetectedProjectSignals`] stands for.
#[verifier::ext_equal]
pub struct DetectedProjectSignalsView {
    pub has_package_json: bool,
    pub package_manager: Option<Seq<char>>,
    pub has_frontend_dir: bool,
    pub has_backend_dir: bool,
}

impl View for DetectedProjectSignals {
    type V = DetectedProjectSignalsView;

    open spec fn view(&self) -> DetectedProjectSignalsView {
        DetectedProjectSignalsView {
            has_package_json: self.has_package_json,
            package_manager: self.package_manager.deep_view(),
            has_frontend_dir: self.has_frontend_dir,
            has_backend_dir: self.has_backend_dir,
        }
    }
}

impl DeepView for DetectedProjectSignals {
    type V = DetectedProjectSignalsView;

    open spec fn deep_view(&self) -> DetectedProjectSignalsView {
        self@
    }
}

impl Duplicate for DetectedProjectSignals {
    fn dup(&self) -> (r: Self) {
        DetectedProjectSignals {
            has_package_json: self.has_package_json,
            package_manager: self.package_manager.dup(),
            has_frontend_dir: self.has_frontend_dir,
            has_backend_dir: self.has_backend_dir,
        }
    }
}

impl Clone for DetectedProjectSignals {
    fn clone(&self) -> (r: Self)
        ensures
            r@ == self@,
    {
        self.dup()
    }
}

/// What was noticed about a project, and what follows from it.
#[derive(Debug, PartialEq, Eq)]
pub struct RecommendationBundle {
    pub repo_root: Option<String>,
    pub detected: DetectedProjectSignals,
    pub recommendations: Vec<Recommendation>,
}

/// What a [`RecommendationBundle`] stands for.
#[verifier::ext_equal]
pub struct RecommendationBundleView {
    pub repo_root: Option<Seq<char>>,
    pub detected: DetectedProjectSignalsView,
    pub recommendations: Seq<RecommendationView>,
}

impl View for RecommendationBundle {
    type V = RecommendationBundleView;

    open spec fn view(&self) -> RecommendationBundleView {
        RecommendationBundleView {
            repo_root: self.repo_root.deep_view(),
            detected: self.detected@,
            recommendations: self.recommendations.deep_view(),
        }
    }
}

impl DeepView for RecommendationBundle {
    type V = RecommendationBundleView;

    open spec fn deep_view(&self) -> RecommendationBundleView {
        self@
    }
}

impl Duplicate for RecommendationBundle {
    fn dup(&self) -> (r: Self) {
        RecommendationBundle {
            repo_root: self.repo_root.dup(),
            detected: self.detected.dup(),
            recommendations: self.recommendations.dup(),
        }
    }
}

impl Clone for RecommendationBundle {
    fn clone(&self) -> (r: Self)
        ensures
            r@ == self@,
    {
        self.dup()
    }
}

/// Why nothing can be recommended.
#[derive(Debug, PartialEq, Eq)]
pub enum AdvisorError {
    Io(String),
    InvalidJson(String),
}

/// What a [`AdvisorError`] stands for.
#[verifier::ext_equal]
pub enum AdvisorErrorView {
    Io(Seq<char>),
    InvalidJson(Seq<char>),
}

impl View for AdvisorError {
    type V = AdvisorErrorView;

    open spec fn view(&self) -> AdvisorErrorView {
        match self {
            AdvisorError::Io(a) => AdvisorErrorView::Io(a@),
            AdvisorError::InvalidJson(a) => AdvisorErrorView::InvalidJson(a@),
        }
    }
}

impl DeepView for AdvisorError {
    type V = AdvisorErrorView;

    open spec fn deep_view(&self) -> AdvisorErrorView {
        self@
    }
}

impl Duplicate for AdvisorError {
    fn dup(&self) -> (r: Self) {
        match self {
            AdvisorError::Io(a) => AdvisorError::Io(a.clone()),
            AdvisorError::InvalidJson(a) => AdvisorError::InvalidJson(a.clone()),
        }
    }
}

impl Clone for AdvisorError {
    fn clone(&self) -> (r: Self)
        ensures
            r@ == self@,
    {
        self.dup()
    }
}

/// What is known of a project.
pub struct AdvisorInput<'a> {
    pub repo_root: Option<&'a str>,
    pub package_json: Option<&'a str>,
    pub lockfiles: &'a Vec<String>,
    pub existing_commands_json: Option<&'a str>,
    pub existing_pipelines: Option<&'a str>,
}

/// The names of the entries from position `i` on, stored into `acc`.
pub open spec fn names_from(
    s: Seq<(Seq<char>, JsonView)>,
    i: int,
    acc: Seq<(Seq<char>, bool)>,
) -> Seq<(Seq<char>, bool)>
    decreases s.len() - i,
{
    if i < 0 || i >= s.len() {
        acc
    } else {
        names_from(s, i + 1, put(acc, s[i].0, true))
    }
}

/// The names of scripts, in order.
pub open spec fn script_names(package: JsonView) -> Seq<Seq<char>> {
    match field(package, "scripts"@) {
        Some(JsonView::Obj(s)) => keys(names_from(s, 0, Seq::empty())),
        _ => Seq::empty(),
    }
}

/// The names of the scripts of a package, in order.
pub fn scripts_of(package: &Json) -> (r: Vec<String>)
    ensures
        r.deep_view() == script_names(package@),
{
    let mut out: Vec<String> = Vec::new();
    let mut names: StrMap<bool> = StrMap::new();
    if let Some(Json::Obj(entries)) = package.get("scripts") {
        let ghost s = Json::Obj(*entries)@->Obj_0;
        let mut i: usize = 0;
        while i < entries.len()
            invariant
                i <= entries.len(),
                s == Json::Obj(*entries)@->Obj_0,
                names_from(s, 0, Seq::empty()) == names_from(s, i as int, names@),
            decreases entries.len() - i,
        {
            assert(s[i as int].0 == entries[i as int].0@);
            names.insert(entries[i].0.clone(), true);
            i = i + 1;
        }
    }
    let mut j: usize = 0;
    while j < names.len()
        invariant
            j <= names@.len(),
            out@.len() == j,
            forall|k: int| 0 <= k < j ==> (#[trigger] out@[k])@ == names@[k].0,
        decreases names@.len() - j,
    {
        out.push(names.key_at(j).clone());
        j = j + 1;
    }
    assert(out.deep_view() =~= keys(names@));
    assert(keys(Seq::<(Seq<char>, bool)>::empty()) =~= Seq::empty());
    out
}

/// The names of the scripts in the text of a package file.
pub open spec fn parsed_scripts(raw: Seq<char>) -> Result<Seq<Seq<char>>, AdvisorErrorView> {
    match parsed(raw) {
        Err(e) => Err(AdvisorErrorView::InvalidJson(e)),
        Ok(v) => Ok(script_names(v)),
    }
}

fn parse_package_json_scripts(raw: &str) -> (r: Result<Vec<String>, AdvisorError>)
    ensures
        (match r {
            Ok(v) => Ok(v.deep_view()),
            Err(e) => Err(e@),
        }) == parsed_scripts(raw@),
{
    match parse(raw) {
        Err(e) => Err(AdvisorError::InvalidJson(e)),
        Ok(v) => Ok(scripts_of(&v)),
    }
}

/// The package manager of a lock file.
pub open spec fn manager_of(lockfile: Seq<char>) -> Option<Seq<char>> {
    if lockfile == "pnpm-lock.yaml"@ {
        Some("pnpm"@)
    } else if lockfile == "yarn.lock"@ {
        Some("yarn"@)
    } else if lockfile == "package-lock.json"@ {
        Some("npm"@)
    } else {
        None
    }
}

/// The package manager of the first lock file from position `i` on that has one.
pub open spec fn manager_from(lockfiles: Seq<Seq<char>>, i: int) -> Option<Seq<char>>
    decreases lockfiles.len() - i,
{
    if i < 0 || i >= lockfiles.len() {
        None
    } else {
        match manager_of(lockfiles[i]) {
            Some(m) => Some(m),
            None => manager_from(lockfiles, i + 1),
        }
    }
}

fn manager(lockfile: &str) -> (r: Option<String>)
    ensures
        r.deep_view() == manager_of(lockfile@),
{
    if str_eq(lockfile, "pnpm-lock.yaml") {
        Some("pnpm".to_owned())
    } else if str_eq(lockfile, "yarn.lock") {
        Some("yarn".to_owned())
    } else if str_eq(lockfile, "package-lock.json") {
        Some("npm".to_owned())
    } else {
        None
    }
}

/// The package manager that lock files show.
pub fn detect_package_manager(lockfiles: &Vec<String>) -> (r: Option<String>)
    ensures
        r.deep_view() == manager_from(lockfiles.deep_view(), 0),
{
    let ghost all = lockfiles.deep_view();
    let mut i: usize = 0;
    while i < lockfiles.len()
        invariant
            i <= lockfiles.len(),
            all == lockfiles.deep_view(),
            manager_from(all, 0) == manager_from(all, i as int),
        decreases lockfiles.len() - i,
    {
        assert(all[i as int] == lockfiles[i as int]@);
        if let Some(m) = manager(lockfiles[i].as_str()) {
            return Some(m);
        }
        i = i + 1;
    }
    None
}

/// The recommendation to add a catalogue of commands.
pub open spec fn commands_recommendation(scripts: Seq<Seq<char>>) -> RecommendationView {
    RecommendationView {
        id: "commands-json"@,
        kind: RecommendationKind::AddCommandsCatalog,
        severity: RecommendationSeverity::Warning,
        title: "Add commands catalog (commands.json)"@,
        details: "Detected package.json scripts: "@ + join(scripts, ", "@)
            + ". Consider creating CODEX_HOME/printrevolt/commands.json (or trusted repo catalog) so pipelines use canonical command_ids."@,
        suggested_files: seq![
            "<CODEX_HOME>/printrevolt/commands.json"@,
            "<repo_root>/.codex/printrevolt/commands.json"@,
        ],
    }
}

/// The recommendation to add a pipeline that verifies.
pub open spec fn verify_recommendation() -> RecommendationView {
    RecommendationView {
        id: "verify-pipeline"@,
        kind: RecommendationKind::AddVerifyPipeline,
        severity: RecommendationSeverity::Info,
        title: "Add a verify pipeline"@,
        details: "Add a pipeline that runs verification (tests/lint/build) after agent work, so verify evidence can be recorded deterministically."@,
        suggested_files: seq!["printrevolt.toml"@],
    }
}

/// What follows from what was noticed.
pub open spec fn bundle_of(
    repo_root: Option<Seq<char>>,
    scripts: Option<Seq<Seq<char>>>,
    manager: Option<Seq<char>>,
    has_commands: bool,
    has_pipelines: bool,
) -> RecommendationBundleView {
    let commands = match scripts {
        Some(s) => if s.len() > 0 && !has_commands {
            seq![commands_recommendation(s)]
        } else {
            Seq::empty()
        },
        None => Seq::empty(),
    };
    RecommendationBundleView {
        repo_root,
        detected: DetectedProjectSignalsView {
            has_package_json: scripts is Some,
            package_manager: manager,
            has_frontend_dir: false,
            has_backend_dir: false,
        },
        recommendations: if manager is Some && !has_pipelines {
            commands.push(verify_recommendation())
        } else {
            commands
        },
    }
}

/// What follows from what was noticed.
pub fn recommend_from(
    repo_root: Option<&str>,
    scripts: Option<Vec<String>>,
    package_manager: Option<String>,
    has_commands: bool,
    has_pipelines: bool,
) -> (r: RecommendationBundle)
    ensures
        r@ == bundle_of(
            repo_root.deep_view(),
            scripts.deep_view(),
            package_manager.deep_view(),
            has_commands,
            has_pipelines,
        ),
{
    let mut recommendations: Vec<Recommendation> = Vec::new();
    assert(recommendations.deep_view() =~= Seq::empty());
    let has_package_json = scripts.is_some();
    if let Some(names) = &scripts {
        assert(names.deep_view().len() == names@.len());
        if names.len() > 0 && !has_commands {
            let list = join_strings(names, ", ");
            let files = vec![
                "<CODEX_HOME>/printrevolt/commands.json".to_owned(),
                "<repo_root>/.codex/printrevolt/commands.json".to_owned(),
            ];
            assert(files.deep_view() =~= commands_recommendation(names.deep_view()).suggested_files);
            let rec = Recommendation {
                id: "commands-json".to_owned(),
                kind: RecommendationKind::AddCommandsCatalog,
                severity: RecommendationSeverity::Warning,
                title: "Add commands catalog (commands.json)".to_owned(),
                details: cat3(
                    "Detected package.json scripts: ",
                    list.as_str(),
                    ". Consider creating CODEX_HOME/printrevolt/commands.json (or trusted repo catalog) so pipelines use canonical command_ids.",
                ),
                suggested_files: files,
            };
            recommendations.push(rec);
            assert(recommendations.deep_view() =~= seq![rec@]);
        }
    }
    if package_manager.is_some() && !has_pipelines {
        let files = vec!["printrevolt.toml".to_owned()];
        assert(files.deep_view() =~= seq!["printrevolt.toml"@]);
        let rec = Recommendation {
            id: "verify-pipeline".to_owned(),
            kind: RecommendationKind::AddVerifyPipeline,
            severity: RecommendationSeverity::Info,
            title: "Add a verify pipeline".to_owned(),
            details: "Add a pipeline that runs verification (tests/lint/build) after agent work, so verify evidence can be recorded deterministically.".to_owned(),
            suggested_files: files,
        };
        let ghost before = recommendations.deep_view();
        recommendations.push(rec);
        assert(recommendations.deep_view() =~= before.push(rec@));
    }
    RecommendationBundle {
        repo_root: match repo_root {
            Some(p) => Some(p.to_owned()),
            None => None,
        },
        detected: DetectedProjectSignals {
            has_package_json,
            package_manager,
            has_frontend_dir: false,
            has_backend_dir: false,
        },
        recommendations,
    }
}

/// What is recommended for a project.
pub open spec fn recommended(
    repo_root: Option<Seq<char>>,
    package_json: Option<Seq<char>>,
    lockfiles: Seq<Seq<char>>,
    has_commands: bool,
    has_pipelines: bool,
) -> Result<RecommendationBundleView, AdvisorErrorView> {
    let manager = manager_from(lockfiles, 0);
    match package_json {
        None => Ok(bundle_of(repo_root, None, manager, has_commands, has_pipelines)),
        Some(raw) => match parsed_scripts(raw) {
            Err(e) => Err(e),
            Ok(s) => Ok(bundle_of(repo_root, Some(s), manager, has_commands, has_pipelines)),
        },
    }
}

/// What is recommended for a project.
pub fn recommend(input: AdvisorInput<'_>) -> (r: Result<RecommendationBundle, AdvisorError>)
    ensures
        (match r {
            Ok(b) => Ok(b@),
            Err(e) => Err(e@),
        }) == recommended(
            input.repo_root.deep_view(),
            input.package_json.deep_view(),
            input.lockfiles.deep_view(),
            input.existing_commands_json is Some,
            input.existing_pipelines is Some,
        ),
{
    let scripts = match input.package_json {
        None => None,
        Some(raw) => Some(parse_package_json_scripts(raw)?),
    };
    Ok(
        recommend_from(
            input.repo_root,
            scripts,
            detect_package_manager(input.lockfiles),
            input.existing_commands_json.is_some(),
            input.existing_pipelines.is_some(),
        ),
    )
}

/// The text of an error.
pub open spec fn advisor_error_text(e: AdvisorErrorView) -> Seq<char> {
    match e {
        AdvisorErrorView::Io(m) => "io error: "@ + m,
        AdvisorErrorView::InvalidJson(m) => "invalid json: "@ + m,
    }
}

impl AdvisorError {
    /// The error in words.
    pub fn message(&self) -> (r: String)
        ensures
            r@ == advisor_error_text(self@),
    {
        match self {
            AdvisorError::Io(m) => cat2("io error: ", m.as_str()),
            AdvisorError::InvalidJson(m) => cat2("invalid json: ", m.as_str()),
        }
    }
}

/// Whether something of a kind is recommended.
pub open spec fn suggests(b: RecommendationBundleView, kind: RecommendationKind) -> bool {
    exists|i: int| 0 <= i < b.recommendations.len() && #[trigger] b.recommendations[i].kind == kind
}

/// A catalogue of commands is recommended exactly where there are scripts and no
/// catalogue, and a pipeline that verifies exactly where a package manager is known and
/// there are no pipelines: what a project has already is never recommended.
pub proof fn only_what_is_missing_is_recommended(
    repo_root: Option<Seq<char>>,
    scripts: Option<Seq<Seq<char>>>,
    manager: Option<Seq<char>>,
    has_commands: bool,
    has_pipelines: bool,
)
    ensures
        ({
            let b = bundle_of(repo_root, scripts, manager, has_commands, has_pipelines);
            &&& suggests(b, RecommendationKind::AddCommandsCatalog) <==> !has_commands
                && scripts is Some && scripts->0.len() > 0
            &&& suggests(b, RecommendationKind::AddVerifyPipeline) <==> !has_pipelines
                && manager is Some
        }),
{
    let b = bundle_of(repo_root, scripts, manager, has_commands, has_pipelines);
    let r = b.recommendations;
    if !has_commands && scripts is Some && scripts->0.len() > 0 {
        assert(r[0].kind == RecommendationKind::AddCommandsCatalog);
    }
    if !has_pipelines && manager is Some {
        assert(r[r.len() - 1].kind == RecommendationKind::AddVerifyPipeline);
    }
}

} // verus!
