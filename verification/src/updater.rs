//! Versions, and plans to update to them.

use std::cmp::Ordering;
use vstd::prelude::*;
use crate::digest::{json_digest, sha256_json};
use crate::json::{json_object, json_str, json_strs, str_array, JsonView};
use crate::number::{number, parse_number};
use crate::text::{
    cat2, cat3, chars_of, find_char, next_char, slice_string, split, split_on, trim, trim_string,
    Duplicate, Same,
};

verus! {

/// Where updates come from.
#[derive(Debug, Clone, Copy, PartialEq, Eq, Structural)]
pub enum UpdateChannel {
    Npm,
}

impl View for UpdateChannel {
    type V = UpdateChannel;

    open spec fn view(&self) -> UpdateChannel {
        *self
    }
}

impl DeepView for UpdateChannel {
    type V = UpdateChannel;

    open spec fn deep_view(&self) -> UpdateChannel {
        *self
    }
}

impl Duplicate for UpdateChannel {
    fn dup(&self) -> (r: Self) {
        *self
    }
}

impl Same for UpdateChannel {
    fn same(&self, other: &Self) -> (b: bool) {
        *self == *other
    }
}

/// A question for updates.
#[derive(Debug, PartialEq, Eq)]
pub struct UpdateCheckRequest {
    pub channel: UpdateChannel,
    pub package: String,
    pub current_version: String,
}

/// What a [`UpdateCheckRequest`] stands for.
#[verifier::ext_equal]
pub struct UpdateCheckRequestView {
    pub channel: UpdateChannel,
    pub package: Seq<char>,
    pub current_version: Seq<char>,
}

impl View for UpdateCheckRequest {
    type V = UpdateCheckRequestView;

    open spec fn view(&self) -> UpdateCheckRequestView {
        UpdateCheckRequestView {
            channel: self.channel,
            package: self.package@,
            current_version: self.current_version@,
        }
    }
}

impl DeepView for UpdateCheckRequest {
    type V = UpdateCheckRequestView;

    open spec fn deep_view(&self) -> UpdateCheckRequestView {
        self@
    }
}

impl Duplicate for UpdateCheckRequest {
    fn dup(&self) -> (r: Self) {
        UpdateCheckRequest {
            channel: self.channel,
            package: self.package.clone(),
            current_version: self.current_version.clone(),
        }
    }
}

impl Clone for UpdateCheckRequest {
    fn clone(&self) -> (r: Self)
        ensures
            r@ == self@,
    {
        self.dup()
    }
}

/// Whether there is an update.
#[derive(Debug, PartialEq, Eq)]
pub struct UpdateCheckResult {
    pub update_available: bool,
    pub current_version: String,
    pub latest_version: String,
}

/// What a [`UpdateCheckResult`] stands for.
#[verifier::ext_equal]
pub struct UpdateCheckResultView {
    pub update_available: bool,
    pub current_version: Seq<char>,
    pub latest_version: Seq<char>,
}

impl View for UpdateCheckResult {
    type V = UpdateCheckResultView;

    open spec fn view(&self) -> UpdateCheckResultView {
        UpdateCheckResultView {
            update_available: self.update_available,
            current_version: self.current_version@,
            latest_version: self.latest_version@,
        }
    }
}

impl DeepView for UpdateCheckResult {
    type V = UpdateCheckResultView;

    open spec fn deep_view(&self) -> UpdateCheckResultView {
        self@
    }
}

impl Duplicate for UpdateCheckResult {
    fn dup(&self) -> (r: Self) {
        UpdateCheckResult {
            update_available: self.update_available,
            current_version: self.current_version.clone(),
            latest_version: self.latest_version.clone(),
        }
    }
}

impl Clone for UpdateCheckResult {
    fn clone(&self) -> (r: Self)
        ensures
            r@ == self@,
    {
        self.dup()
    }
}

/// How an update is done. The hash binds an approval to it.
#[derive(Debug, PartialEq, Eq)]
pub struct UpdatePlan {
    pub channel: UpdateChannel,
    pub package: String,
    pub current_version: String,
    pub target_version: String,
    pub action_hash: String,
    pub command: Vec<String>,
    pub notes: Vec<String>,
}

/// What a [`UpdatePlan`] stands for.
#[verifier::ext_equal]
pub struct UpdatePlanView {
    pub channel: UpdateChannel,
    pub package: Seq<char>,
    pub current_version: Seq<char>,
    pub target_version: Seq<char>,
    pub action_hash: Seq<char>,
    pub command: Seq<Seq<char>>,
    pub notes: Seq<Seq<char>>,
}

impl View for UpdatePlan {
    type V = UpdatePlanView;

    open spec fn view(&self) -> UpdatePlanView {
        UpdatePlanView {
            channel: self.channel,
            package: self.package@,
            current_version: self.current_version@,
            target_version: self.target_version@,
            action_hash: self.action_hash@,
            command: self.command.deep_view(),
            notes: self.notes.deep_view(),
        }
    }
}

impl DeepView for UpdatePlan {
    type V = UpdatePlanView;

    open spec fn deep_view(&self) -> UpdatePlanView {
        self@
    }
}

impl Duplicate for UpdatePlan {
    fn dup(&self) -> (r: Self) {
        UpdatePlan {
            channel: self.channel,
            package: self.package.clone(),
            current_version: self.current_version.clone(),
            target_version: self.target_version.clone(),
            action_hash: self.action_hash.clone(),
            command: self.command.dup(),
            notes: self.notes.dup(),
        }
    }
}

impl Clone for UpdatePlan {
    fn clone(&self) -> (r: Self)
        ensures
            r@ == self@,
    {
        self.dup()
    }
}

/// Why versions cannot be compared.
#[derive(Debug, PartialEq, Eq)]
pub enum UpdateError {
    InvalidVersion(String),
}

/// What a [`UpdateError`] stands for.
#[verifier::ext_equal]
pub enum UpdateErrorView {
    InvalidVersion(Seq<char>),
}

impl View for UpdateError {
    type V = UpdateErrorView;

    open spec fn view(&self) -> UpdateErrorView {
        match self {
            UpdateError::InvalidVersion(a) => UpdateErrorView::InvalidVersion(a@),
        }
    }
}

impl DeepView for UpdateError {
    type V = UpdateErrorView;

    open spec fn deep_view(&self) -> UpdateErrorView {
        self@
    }
}

impl Duplicate for UpdateError {
    fn dup(&self) -> (r: Self) {
        match self {
            UpdateError::InvalidVersion(a) => UpdateError::InvalidVersion(a.clone()),
        }
    }
}

impl Clone for UpdateError {
    fn clone(&self) -> (r: Self)
        ensures
            r@ == self@,
    {
        self.dup()
    }
}

/// A text without the `v`s at its start.
pub open spec fn without_v(s: Seq<char>) -> Seq<char>
    decreases s.len(),
{
    if s.len() > 0 && s[0] == 'v' {
        without_v(s.drop_first())
    } else {
        s
    }
}

/// The part of a version before its first hyphen.
pub open spec fn version_core(s: Seq<char>) -> Seq<char> {
    s.subrange(0, next_char(s, 0, '-'))
}

/// A version: its major, minor and patch numbers.
pub type Version = (u64, u64, u64);

/// A number of a version.
pub open spec fn version_number(s: Seq<char>) -> Option<u64> {
    match number(s, u64::MAX as nat) {
        Ok(n) => Some(n as u64),
        Err(_) => None,
    }
}

/// The version that a text names, with or without a `v` before it and a suffix behind it.
pub open spec fn version_of(s: Seq<char>) -> Result<Version, UpdateErrorView> {
    let bare = without_v(trim(s));
    let parts = split(version_core(bare), '.');
    if parts.len() != 3 || version_number(parts[0]) is None || version_number(parts[1]) is None
        || version_number(parts[2]) is None {
        Err(UpdateErrorView::InvalidVersion(bare))
    } else {
        Ok(
            (
                version_number(parts[0])->0,
                version_number(parts[1])->0,
                version_number(parts[2])->0,
            ),
        )
    }
}

/// Whether one version is older than another: by the first number in which they differ.
pub open spec fn older(a: Version, b: Version) -> bool {
    a.0 < b.0 || (a.0 == b.0 && (a.1 < b.1 || (a.1 == b.1 && a.2 < b.2)))
}

fn strip_v(s: &str) -> (r: String)
    ensures
        r@ == without_v(s@),
{
    let v = chars_of(s);
    let mut i: usize = 0;
    assert(v@.subrange(0, v@.len() as int) =~= v@);
    while i < v.len() && v[i] == 'v'
        invariant
            i <= v@.len(),
            v@ == s@,
            without_v(s@) == without_v(v@.subrange(i as int, v@.len() as int)),
        decreases v.len() - i,
    {
        assert(v@.subrange(i as int, v@.len() as int).drop_first() =~= v@.subrange(
            i + 1,
            v@.len() as int,
        ));
        i = i + 1;
    }
    slice_string(&v, i, v.len())
}

fn version_part(s: &str) -> (r: Option<u64>)
    ensures
        r == version_number(s@),
{
    match parse_number(s, u64::MAX) {
        Ok(n) => Some(n),
        Err(_) => None,
    }
}

/// The version that a text names.
pub fn parse_semver(s: &str) -> (r: Result<(u64, u64, u64), UpdateError>)
    ensures
        (match r {
            Ok(v) => Ok(v),
            Err(e) => Err(e@),
        }) == version_of(s@),
{
    let t = trim_string(s);
    let bare = strip_v(t.as_str());
    let v = chars_of(bare.as_str());
    let n = find_char(&v, 0, '-');
    let core = slice_string(&v, 0, n);
    let parts = split_on(core.as_str(), '.');
    let ghost all = split(core@, '.');
    assert(all.len() == parts@.len());
    if parts.len() != 3 {
        return Err(UpdateError::InvalidVersion(bare));
    }
    assert(all[0] == parts[0]@ && all[1] == parts[1]@ && all[2] == parts[2]@);
    match (
        version_part(parts[0].as_str()),
        version_part(parts[1].as_str()),
        version_part(parts[2].as_str()),
    ) {
        (Some(major), Some(minor), Some(patch)) => Ok((major, minor, patch)),
        _ => Err(UpdateError::InvalidVersion(bare)),
    }
}

/// How two versions compare.
pub open spec fn version_order(a: Version, b: Version) -> Ordering {
    if older(a, b) {
        Ordering::Less
    } else if older(b, a) {
        Ordering::Greater
    } else {
        Ordering::Equal
    }
}

/// How the versions that two texts name compare. The first text that names none is
/// reported.
pub fn compare_semver(a: &str, b: &str) -> (r: Result<Ordering, UpdateError>)
    ensures
        match (version_of(a@), version_of(b@)) {
            (Err(e), _) => r is Err && r->Err_0@ == e,
            (Ok(_), Err(e)) => r is Err && r->Err_0@ == e,
            (Ok(x), Ok(y)) => r == Ok::<Ordering, UpdateError>(version_order(x, y)),
        },
{
    let x = parse_semver(a)?;
    let y = parse_semver(b)?;
    if x.0 < y.0 || (x.0 == y.0 && (x.1 < y.1 || (x.1 == y.1 && x.2 < y.2))) {
        Ok(Ordering::Less)
    } else if y.0 < x.0 || (y.0 == x.0 && (y.1 < x.1 || (y.1 == x.1 && y.2 < x.2))) {
        Ok(Ordering::Greater)
    } else {
        Ok(Ordering::Equal)
    }
}

/// Whether the latest version is newer than the current one.
pub open spec fn update_check(req: UpdateCheckRequestView, latest: Seq<char>) -> Result<
    UpdateCheckResultView,
    UpdateErrorView,
> {
    match version_of(req.current_version) {
        Err(e) => Err(e),
        Ok(x) => match version_of(latest) {
            Err(e) => Err(e),
            Ok(y) => Ok(
                UpdateCheckResultView {
                    update_available: older(x, y),
                    current_version: req.current_version,
                    latest_version: latest,
                },
            ),
        },
    }
}

/// Whether the latest version is newer than the current one.
pub fn check_update(req: UpdateCheckRequest, latest_version: String) -> (r: Result<
    UpdateCheckResult,
    UpdateError,
>)
    ensures
        (match r {
            Ok(c) => Ok(c@),
            Err(e) => Err(e@),
        }) == update_check(req@, latest_version@),
{
    let order = compare_semver(req.current_version.as_str(), latest_version.as_str())?;
    let update_available = match order {
        Ordering::Less => true,
        _ => false,
    };
    Ok(UpdateCheckResult { update_available, current_version: req.current_version, latest_version })
}

/// The command that installs a version.
pub open spec fn install_command(package: Seq<char>, target: Seq<char>) -> Seq<Seq<char>> {
    seq!["npm"@, "install"@, "-g"@, package + "@"@ + target]
}

/// What the hash of an update is taken of.
pub open spec fn update_document(package: Seq<char>, current: Seq<char>, target: Seq<char>) -> JsonView {
    JsonView::Obj(
        seq![
            ("channel"@, JsonView::Str("npm"@)),
            ("command"@, str_array(install_command(package, target))),
            ("current_version"@, JsonView::Str(current)),
            ("package"@, JsonView::Str(package)),
            ("target_version"@, JsonView::Str(target)),
        ],
    )
}

/// The plan of an update.
pub open spec fn update_plan(package: Seq<char>, current: Seq<char>, target: Seq<char>) -> Result<
    UpdatePlanView,
    UpdateErrorView,
> {
    match version_of(current) {
        Err(e) => Err(e),
        Ok(_) => match version_of(target) {
            Err(e) => Err(e),
            Ok(_) => Ok(
                UpdatePlanView {
                    channel: UpdateChannel::Npm,
                    package,
                    current_version: current,
                    target_version: target,
                    action_hash: json_digest(update_document(package, current, target)),
                    command: install_command(package, target),
                    notes: seq![
                        "This plan installs the target version globally via npm."@,
                        "If npm is unavailable, run the equivalent command in your environment manager."@,
                    ],
                },
            ),
        },
    }
}

/// The plan of an update by way of npm.
pub fn plan_update_npm(package: &str, current_version: &str, target_version: &str) -> (r: Result<
    UpdatePlan,
    UpdateError,
>)
    ensures
        (match r {
            Ok(p) => Ok(p@),
            Err(e) => Err(e@),
        }) == update_plan(package@, current_version@, target_version@),
{
    parse_semver(current_version)?;
    parse_semver(target_version)?;
    let command = vec![
        "npm".to_owned(),
        "install".to_owned(),
        "-g".to_owned(),
        cat3(package, "@", target_version),
    ];
    assert(command.deep_view() =~= install_command(package@, target_version@));
    let payload = json_object(
        vec![
            ("channel".to_owned(), json_str("npm")),
            ("command".to_owned(), json_strs(&command)),
            ("current_version".to_owned(), json_str(current_version)),
            ("package".to_owned(), json_str(package)),
            ("target_version".to_owned(), json_str(target_version)),
        ],
    );
    assert(payload@->Obj_0 =~= update_document(
        package@,
        current_version@,
        target_version@,
    )->Obj_0);
    let action_hash = sha256_json(&payload);
    let notes = vec![
        "This plan installs the target version globally via npm.".to_owned(),
        "If npm is unavailable, run the equivalent command in your environment manager.".to_owned(),
    ];
    assert(notes.deep_view() =~= seq![
        "This plan installs the target version globally via npm."@,
        "If npm is unavailable, run the equivalent command in your environment manager."@,
    ]);
    Ok(
        UpdatePlan {
            channel: UpdateChannel::Npm,
            package: package.to_owned(),
            current_version: current_version.to_owned(),
            target_version: target_version.to_owned(),
            action_hash,
            command,
            notes,
        },
    )
}

/// Versions are totally ordered: of two either one is older or they are the same, and age
/// carries over.
pub proof fn versions_are_ordered(a: Version, b: Version, c: Version)
    ensures
        !older(a, a),
        older(a, b) || older(b, a) || a == b,
        !(older(a, b) && older(b, a)),
        older(a, b) && older(b, c) ==> older(a, c),
{
}

/// An update is offered exactly where the latest version is newer, so never to the
/// version that is installed already.
pub proof fn no_update_to_the_same_version(req: UpdateCheckRequestView, latest: Seq<char>)
    requires
        version_of(req.current_version) is Ok,
        version_of(latest) == version_of(req.current_version),
    ensures
        update_check(req, latest) matches Ok(r) && !r.update_available,
{
}

/// The text of an error.
pub open spec fn update_error_text(e: UpdateErrorView) -> Seq<char> {
    match e {
        UpdateErrorView::InvalidVersion(m) => "invalid version: "@ + m,
    }
}

impl UpdateError {
    /// The error in words.
    pub fn message(&self) -> (r: String)
        ensures
            r@ == update_error_text(self@),
    {
        match self {
            UpdateError::InvalidVersion(m) => cat2("invalid version: ", m.as_str()),
        }
    }
}

} // verus!
