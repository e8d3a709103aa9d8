//! Templates: their files, their sections, and what they ask of the policy.

use vstd::prelude::*;
use crate::profiles::resolve::at_least_as_strict;
use crate::strmap::{lookup, put, StrMap};
use crate::text::{
    blank, byte_len, byte_slice, bytes_len, cat2, cat3, chars_of, decimal, decimal_string,
    has_prefix, is_blank, lines, lines_bytes, lines_fit, lines_of, lowercased, rest, slice_bytes,
    str_eq, strip_prefix, to_lowercase, trim, trim_string, Duplicate, Same,
};
use crate::types::config::{PolicyConfig, PolicyConfigView, VerifyPolicyView};
use crate::types::profile::{no_refs, ProfileRefs, ProfileRefsView};

verus! {

/// Where a template comes from.
#[derive(Debug, Clone, Copy, PartialEq, Eq, Structural)]
pub enum TemplateSource {
    Repo,
    User,
    Draft,
}

impl View for TemplateSource {
    type V = TemplateSource;

    open spec fn view(&self) -> TemplateSource {
        *self
    }
}

impl DeepView for TemplateSource {
    type V = TemplateSource;

    open spec fn deep_view(&self) -> TemplateSource {
        *self
    }
}

impl Duplicate for TemplateSource {
    fn dup(&self) -> (r: Self) {
        *self
    }
}

impl Same for TemplateSource {
    fn same(&self, other: &Self) -> (b: bool) {
        *self == *other
    }
}

/// What is shown of a template.
#[derive(Debug, PartialEq, Eq)]
pub struct TemplateRef {
    pub id: String,
    pub name: String,
    pub source: TemplateSource,
    pub description: String,
    pub tags: Vec<String>,
}

/// What a [`TemplateRef`] stands for.
#[verifier::ext_equal]
pub struct TemplateRefView {
    pub id: Seq<char>,
    pub name: Seq<char>,
    pub source: TemplateSource,
    pub description: Seq<char>,
    pub tags: Seq<Seq<char>>,
}

impl View for TemplateRef {
    type V = TemplateRefView;

    open spec fn view(&self) -> TemplateRefView {
        TemplateRefView {
            id: self.id@,
            name: self.name@,
            source: self.source,
            description: self.description@,
            tags: self.tags.deep_view(),
        }
    }
}

impl DeepView for TemplateRef {
    type V = TemplateRefView;

    open spec fn deep_view(&self) -> TemplateRefView {
        self@
    }
}

impl Duplicate for TemplateRef {
    fn dup(&self) -> (r: Self) {
        TemplateRef {
            id: self.id.clone(),
            name: self.name.clone(),
            source: self.source,
            description: self.description.clone(),
            tags: self.tags.dup(),
        }
    }
}

impl Clone for TemplateRef {
    fn clone(&self) -> (r: Self)
        ensures
            r@ == self@,
    {
        self.dup()
    }
}

/// What a template asks of the policy.
#[derive(Debug, PartialEq, Eq)]
pub struct PolicyDefaults {
    pub deny_dangerous_always: Option<bool>,
    pub verify_required: Option<bool>,
    pub verify_max_age_ms: Option<u64>,
}

/// What a [`PolicyDefaults`] stands for.
#[verifier::ext_equal]
pub struct PolicyDefaultsView {
    pub deny_dangerous_always: Option<bool>,
    pub verify_required: Option<bool>,
    pub verify_max_age_ms: Option<u64>,
}

impl View for PolicyDefaults {
    type V = PolicyDefaultsView;

    open spec fn view(&self) -> PolicyDefaultsView {
        PolicyDefaultsView {
            deny_dangerous_always: self.deny_dangerous_always.deep_view(),
            verify_required: self.verify_required.deep_view(),
            verify_max_age_ms: self.verify_max_age_ms.deep_view(),
        }
    }
}

impl DeepView for PolicyDefaults {
    type V = PolicyDefaultsView;

    open spec fn deep_view(&self) -> PolicyDefaultsView {
        self@
    }
}

impl Duplicate for PolicyDefaults {
    fn dup(&self) -> (r: Self) {
        PolicyDefaults {
            deny_dangerous_always: self.deny_dangerous_always.dup(),
            verify_required: self.verify_required.dup(),
            verify_max_age_ms: self.verify_max_age_ms.dup(),
        }
    }
}

impl Clone for PolicyDefaults {
    fn clone(&self) -> (r: Self)
        ensures
            r@ == self@,
    {
        self.dup()
    }
}

/// What a template brings along.
#[derive(Debug, PartialEq, Eq)]
pub struct TemplateDefaults {
    pub policy: PolicyDefaults,
    pub profile_refs: ProfileRefs,
}

/// What a [`TemplateDefaults`] stands for.
#[verifier::ext_equal]
pub struct TemplateDefaultsView {
    pub policy: PolicyDefaultsView,
    pub profile_refs: ProfileRefsView,
}

impl View for TemplateDefaults {
    type V = TemplateDefaultsView;

    open spec fn view(&self) -> TemplateDefaultsView {
        TemplateDefaultsView {
            policy: self.policy@,
            profile_refs: self.profile_refs@,
        }
    }
}

impl DeepView for TemplateDefaults {
    type V = TemplateDefaultsView;

    open spec fn deep_view(&self) -> TemplateDefaultsView {
        self@
    }
}

impl Duplicate for TemplateDefaults {
    fn dup(&self) -> (r: Self) {
        TemplateDefaults {
            policy: self.policy.dup(),
            profile_refs: self.profile_refs.dup(),
        }
    }
}

impl Clone for TemplateDefaults {
    fn clone(&self) -> (r: Self)
        ensures
            r@ == self@,
    {
        self.dup()
    }
}

/// The sections that every template has.
#[derive(Debug, PartialEq, Eq)]
pub struct TemplateContract {
    pub role_objective: String,
    pub procedure: String,
    pub outputs: String,
    pub policy_defaults: String,
    pub tooling_scope: String,
}

/// What a [`TemplateContract`] stands for.
#[verifier::ext_equal]
pub struct TemplateContractView {
    pub role_objective: Seq<char>,
    pub procedure: Seq<char>,
    pub outputs: Seq<char>,
    pub policy_defaults: Seq<char>,
    pub tooling_scope: Seq<char>,
}

impl View for TemplateContract {
    type V = TemplateContractView;

    open spec fn view(&self) -> TemplateContractView {
        TemplateContractView {
            role_objective: self.role_objective@,
            procedure: self.procedure@,
            outputs: self.outputs@,
            policy_defaults: self.policy_defaults@,
            tooling_scope: self.tooling_scope@,
        }
    }
}

impl DeepView for TemplateContract {
    type V = TemplateContractView;

    open spec fn deep_view(&self) -> TemplateContractView {
        self@
    }
}

impl Duplicate for TemplateContract {
    fn dup(&self) -> (r: Self) {
        TemplateContract {
            role_objective: self.role_objective.clone(),
            procedure: self.procedure.clone(),
            outputs: self.outputs.clone(),
            policy_defaults: self.policy_defaults.clone(),
            tooling_scope: self.tooling_scope.clone(),
        }
    }
}

impl Clone for TemplateContract {
    fn clone(&self) -> (r: Self)
        ensures
            r@ == self@,
    {
        self.dup()
    }
}

/// A template.
#[derive(Debug, PartialEq, Eq)]
pub struct Template {
    pub id: String,
    pub name: String,
    pub description: String,
    pub tags: Vec<String>,
    pub source: TemplateSource,
    pub path: Option<String>,
    pub defaults: TemplateDefaults,
    pub body_markdown: String,
    pub contract: TemplateContract,
}

/// What a [`Template`] stands for.
#[verifier::ext_equal]
pub struct TemplateView {
    pub id: Seq<char>,
    pub name: Seq<char>,
    pub description: Seq<char>,
    pub tags: Seq<Seq<char>>,
    pub source: TemplateSource,
    pub path: Option<Seq<char>>,
    pub defaults: TemplateDefaultsView,
    pub body_markdown: Seq<char>,
    pub contract: TemplateContractView,
}

impl View for Template {
    type V = TemplateView;

    open spec fn view(&self) -> TemplateView {
        TemplateView {
            id: self.id@,
            name: self.name@,
            description: self.description@,
            tags: self.tags.deep_view(),
            source: self.source,
            path: self.path.deep_view(),
            defaults: self.defaults@,
            body_markdown: self.body_markdown@,
            contract: self.contract@,
        }
    }
}

impl DeepView for Template {
    type V = TemplateView;

    open spec fn deep_view(&self) -> TemplateView {
        self@
    }
}

impl Duplicate for Template {
    fn dup(&self) -> (r: Self) {
        Template {
            id: self.id.clone(),
            name: self.name.clone(),
            description: self.description.clone(),
            tags: self.tags.dup(),
            source: self.source,
            path: self.path.dup(),
            defaults: self.defaults.dup(),
            body_markdown: self.body_markdown.clone(),
            contract: self.contract.dup(),
        }
    }
}

impl Clone for Template {
    fn clone(&self) -> (r: Self)
        ensures
            r@ == self@,
    {
        self.dup()
    }
}

/// How templates are looked for.
#[derive(Debug, PartialEq, Eq)]
pub struct TemplateDiscoveryConfig {
    pub max_bytes: usize,
}

/// What a [`TemplateDiscoveryConfig`] stands for.
#[verifier::ext_equal]
pub struct TemplateDiscoveryConfigView {
    pub max_bytes: usize,
}

impl View for TemplateDiscoveryConfig {
    type V = TemplateDiscoveryConfigView;

    open spec fn view(&self) -> TemplateDiscoveryConfigView {
        TemplateDiscoveryConfigView {
            max_bytes: self.max_bytes,
        }
    }
}

impl DeepView for TemplateDiscoveryConfig {
    type V = TemplateDiscoveryConfigView;

    open spec fn deep_view(&self) -> TemplateDiscoveryConfigView {
        self@
    }
}

impl Duplicate for TemplateDiscoveryConfig {
    fn dup(&self) -> (r: Self) {
        TemplateDiscoveryConfig {
            max_bytes: self.max_bytes,
        }
    }
}

impl Clone for TemplateDiscoveryConfig {
    fn clone(&self) -> (r: Self)
        ensures
            r@ == self@,
    {
        self.dup()
    }
}

/// The templates found.
#[derive(Debug, PartialEq, Eq)]
pub struct TemplateDiscoveryResult {
    pub templates: Vec<Template>,
    pub warnings: Vec<String>,
}

/// What a [`TemplateDiscoveryResult`] stands for.
#[verifier::ext_equal]
pub struct TemplateDiscoveryResultView {
    pub templates: Seq<TemplateView>,
    pub warnings: Seq<Seq<char>>,
}

impl View for TemplateDiscoveryResult {
    type V = TemplateDiscoveryResultView;

    open spec fn view(&self) -> TemplateDiscoveryResultView {
        TemplateDiscoveryResultView {
            templates: self.templates.deep_view(),
            warnings: self.warnings.deep_view(),
        }
    }
}

impl DeepView for TemplateDiscoveryResult {
    type V = TemplateDiscoveryResultView;

    open spec fn deep_view(&self) -> TemplateDiscoveryResultView {
        self@
    }
}

impl Duplicate for TemplateDiscoveryResult {
    fn dup(&self) -> (r: Self) {
        TemplateDiscoveryResult {
            templates: self.templates.dup(),
            warnings: self.warnings.dup(),
        }
    }
}

impl Clone for TemplateDiscoveryResult {
    fn clone(&self) -> (r: Self)
        ensures
            r@ == self@,
    {
        self.dup()
    }
}

/// What stands at the head of a template file.
#[derive(Debug, PartialEq, Eq)]
pub struct Frontmatter {
    pub name: Option<String>,
    pub description: Option<String>,
    pub tags: Vec<String>,
    pub defaults: Option<TemplateDefaults>,
}

/// What a [`Frontmatter`] stands for.
#[verifier::ext_equal]
pub struct FrontmatterView {
    pub name: Option<Seq<char>>,
    pub description: Option<Seq<char>>,
    pub tags: Seq<Seq<char>>,
    pub defaults: Option<TemplateDefaultsView>,
}

impl View for Frontmatter {
    type V = FrontmatterView;

    open spec fn view(&self) -> FrontmatterView {
        FrontmatterView {
            name: self.name.deep_view(),
            description: self.description.deep_view(),
            tags: self.tags.deep_view(),
            defaults: self.defaults.deep_view(),
        }
    }
}

impl DeepView for Frontmatter {
    type V = FrontmatterView;

    open spec fn deep_view(&self) -> FrontmatterView {
        self@
    }
}

impl Duplicate for Frontmatter {
    fn dup(&self) -> (r: Self) {
        Frontmatter {
            name: self.name.dup(),
            description: self.description.dup(),
            tags: self.tags.dup(),
            defaults: self.defaults.dup(),
        }
    }
}

impl Clone for Frontmatter {
    fn clone(&self) -> (r: Self)
        ensures
            r@ == self@,
    {
        self.dup()
    }
}

/// Why a file is no template.
#[derive(Debug, PartialEq, Eq)]
pub enum TemplateError {
    MissingFrontmatter,
    InvalidFrontmatter(String),
    MissingFrontmatterKey(String),
    MissingSection(String),
    TooLarge(usize),
}

/// What a [`TemplateError`] stands for.
#[verifier::ext_equal]
pub enum TemplateErrorView {
    MissingFrontmatter,
    InvalidFrontmatter(Seq<char>),
    MissingFrontmatterKey(Seq<char>),
    MissingSection(Seq<char>),
    TooLarge(usize),
}

impl View for TemplateError {
    type V = TemplateErrorView;

    open spec fn view(&self) -> TemplateErrorView {
        match self {
            TemplateError::MissingFrontmatter => TemplateErrorView::MissingFrontmatter,
            TemplateError::InvalidFrontmatter(a) => TemplateErrorView::InvalidFrontmatter(a@),
            TemplateError::MissingFrontmatterKey(a) => TemplateErrorView::MissingFrontmatterKey(a@),
            TemplateError::MissingSection(a) => TemplateErrorView::MissingSection(a@),
            TemplateError::TooLarge(a) => TemplateErrorView::TooLarge(*a),
        }
    }
}

impl DeepView for TemplateError {
    type V = TemplateErrorView;

    open spec fn deep_view(&self) -> TemplateErrorView {
        self@
    }
}

impl Duplicate for TemplateError {
    fn dup(&self) -> (r: Self) {
        match self {
            TemplateError::MissingFrontmatter => TemplateError::MissingFrontmatter,
            TemplateError::InvalidFrontmatter(a) => TemplateError::InvalidFrontmatter(a.clone()),
            TemplateError::MissingFrontmatterKey(a) => TemplateError::MissingFrontmatterKey(a.clone()),
            TemplateError::MissingSection(a) => TemplateError::MissingSection(a.clone()),
            TemplateError::TooLarge(a) => TemplateError::TooLarge(*a),
        }
    }
}

impl Clone for TemplateError {
    fn clone(&self) -> (r: Self)
        ensures
            r@ == self@,
    {
        self.dup()
    }
}

impl Default for TemplateDiscoveryConfig {
    fn default() -> (r: Self)
        ensures
            r.max_bytes == 262144,
    {
        TemplateDiscoveryConfig { max_bytes: 262_144 }
    }
}

/// A template that asks for nothing.
pub open spec fn no_defaults() -> TemplateDefaultsView {
    TemplateDefaultsView {
        policy: PolicyDefaultsView {
            deny_dangerous_always: None,
            verify_required: None,
            verify_max_age_ms: None,
        },
        profile_refs: no_refs(),
    }
}

impl Default for TemplateDefaults {
    fn default() -> (r: Self)
        ensures
            r@ == no_defaults(),
    {
        TemplateDefaults {
            policy: PolicyDefaults {
                deny_dangerous_always: None,
                verify_required: None,
                verify_max_age_ms: None,
            },
            profile_refs: ProfileRefs::default(),
        }
    }
}

/// The text of an error.
pub open spec fn template_error_text(e: TemplateErrorView) -> Seq<char> {
    match e {
        TemplateErrorView::MissingFrontmatter => "missing or invalid YAML frontmatter"@,
        TemplateErrorView::InvalidFrontmatter(m) => "invalid YAML frontmatter: "@ + m,
        TemplateErrorView::MissingFrontmatterKey(k) => "missing required frontmatter key: "@ + k,
        TemplateErrorView::MissingSection(s) => "template missing required section heading: "@ + s,
        TemplateErrorView::TooLarge(n) => "template too large: "@ + decimal(n as nat) + " bytes"@,
    }
}

impl TemplateError {
    /// The error in words.
    pub fn message(&self) -> (r: String)
        ensures
            r@ == template_error_text(self@),
    {
        match self {
            TemplateError::MissingFrontmatter => "missing or invalid YAML frontmatter".to_owned(),
            TemplateError::InvalidFrontmatter(m) => cat2(
                "invalid YAML frontmatter: ",
                m.as_str(),
            ),
            TemplateError::MissingFrontmatterKey(k) => cat2(
                "missing required frontmatter key: ",
                k.as_str(),
            ),
            TemplateError::MissingSection(s) => cat2(
                "template missing required section heading: ",
                s.as_str(),
            ),
            TemplateError::TooLarge(n) => {
                let n = decimal_string(*n as u64);
                cat3("template too large: ", n.as_str(), " bytes")
            },
        }
    }
}

/// What is shown of a template.
pub open spec fn ref_of(t: TemplateView) -> TemplateRefView {
    TemplateRefView {
        id: t.id,
        name: t.name,
        source: t.source,
        description: t.description,
        tags: t.tags,
    }
}

pub fn template_ref(t: &Template) -> (r: TemplateRef)
    ensures
        r@ == ref_of(t@),
{
    TemplateRef {
        id: t.id.clone(),
        name: t.name.clone(),
        source: t.source,
        description: t.description.clone(),
        tags: t.tags.dup(),
    }
}

/// A policy tightened by what a template asks for; what would relax it is passed over.
pub open spec fn tightened(base: PolicyConfigView, d: PolicyDefaultsView) -> PolicyConfigView {
    PolicyConfigView {
        enabled: base.enabled,
        deny_dangerous_always: base.deny_dangerous_always || d.deny_dangerous_always == Some(true),
        verify: VerifyPolicyView {
            required: base.verify.required || d.verify_required == Some(true),
            max_age_ms: match d.verify_max_age_ms {
                Some(ms) => if ms < base.verify.max_age_ms {
                    ms
                } else {
                    base.verify.max_age_ms
                },
                None => base.verify.max_age_ms,
            },
            command_prefixes: base.verify.command_prefixes,
        },
    }
}

pub fn clamp_policy_defaults(base: &PolicyConfig, defaults: &PolicyDefaults) -> (r: PolicyConfig)
    ensures
        r@ == tightened(base@, defaults@),
{
    let mut out = base.dup();
    if let Some(deny) = defaults.deny_dangerous_always {
        if deny {
            out.deny_dangerous_always = true;
        }
    }
    if let Some(required) = defaults.verify_required {
        out.verify.required = out.verify.required || required;
    }
    if let Some(ms) = defaults.verify_max_age_ms {
        if ms < out.verify.max_age_ms {
            out.verify.max_age_ms = ms;
        }
    }
    out
}

/// A template never weakens the policy.
pub proof fn templates_only_tighten(base: PolicyConfigView, d: PolicyDefaultsView)
    ensures
        at_least_as_strict(tightened(base, d), base),
{
}

/// The mark around the head of a template file.
pub open spec fn is_mark(line: Seq<char>) -> bool {
    trim(line) == "---"@
}

/// The first line from position `j` on that is a mark, and the bytes before it.
pub open spec fn mark_from(l: Seq<Seq<char>>, j: int) -> Option<int>
    decreases l.len() - j,
{
    if j < 0 || j >= l.len() {
        None
    } else if is_mark(l[j]) {
        Some(j)
    } else {
        mark_from(l, j + 1)
    }
}

/// The head and the body of a template file, where there are any.
pub type Parts = Result<(Seq<char>, Seq<char>), TemplateErrorView>;

/// Where the mark that ends the head stands.
pub open spec fn closing_mark(raw: Seq<char>) -> Option<int> {
    let l = lines(raw);
    if l.len() == 0 || !is_mark(l[0]) {
        None
    } else {
        mark_from(l, 1)
    }
}

/// The head and the body of a template file. The bytes before a line are taken to be those
/// of the lines before it and one for each line end; there is no outcome where they do not
/// lead to the bounds of characters of the text.
pub open spec fn file_parts(raw: Seq<char>) -> Option<Parts> {
    let l = lines(raw);
    match closing_mark(raw) {
        None => Some(Err(TemplateErrorView::MissingFrontmatter)),
        Some(j) => match byte_slice(raw, lines_bytes(l, 1) as int, lines_bytes(l, j) - 1) {
            None => None,
            Some(front) => match byte_slice(
                raw,
                lines_bytes(l, j + 1) as int,
                bytes_len(raw) as int,
            ) {
                None => None,
                Some(body) => Some(Ok((front, body))),
            },
        },
    }
}

/// Where a mark stands: the number of its line, and the bytes before it and through its
/// end.
pub struct Mark {
    pub line: usize,
    pub before: u128,
    pub through: u128,
}

/// Where the mark that ends the head stands.
pub(crate) fn find_closing_mark(l: &Vec<String>, Ghost(raw): Ghost<Seq<char>>) -> (r: Option<Mark>)
    requires
        l.deep_view() == lines(raw),
        bytes_len(raw) <= usize::MAX,
    ensures
        match closing_mark(raw) {
            None => r is None,
            Some(j) => {
                &&& r matches Some(m)
                &&& m.line == j
                &&& m.before == lines_bytes(lines(raw), j)
                &&& m.through == lines_bytes(lines(raw), j + 1)
                &&& 1 <= j < lines(raw).len()
            },
        },
{
    let ghost all = lines(raw);
    assert(all.len() == l@.len());
    if l.len() == 0 {
        return None;
    }
    assert(all[0] == l[0]@);
    if !is_mark_line(l[0].as_str()) {
        return None;
    }
    proof {
        lines_fit(raw, 1);
        reveal_with_fuel(lines_bytes, 2);
    }
    let mut offset: u128 = byte_len(l[0].as_str()) as u128 + 1;
    let mut j: usize = 1;
    while j < l.len()
        invariant
            1 <= j <= l@.len(),
            all == lines(raw),
            all == l.deep_view(),
            bytes_len(raw) <= usize::MAX,
            offset == lines_bytes(all, j as int),
            offset <= usize::MAX as u128 + 1,
            closing_mark(raw) == mark_from(all, j as int),
        decreases l.len() - j,
    {
        assert(all[j as int] == l[j as int]@);
        let next: u128 = offset + byte_len(l[j].as_str()) as u128 + 1;
        proof {
            lines_fit(raw, j + 1);
        }
        if is_mark_line(l[j].as_str()) {
            return Some(Mark { line: j, before: offset, through: next });
        }
        offset = next;
        j = j + 1;
    }
    None
}

pub(crate) fn is_mark_line(line: &str) -> (r: bool)
    ensures
        r == is_mark(line@),
{
    let t = trim_string(line);
    str_eq(t.as_str(), "---")
}

/// The bytes of a text from `a` up to `b`.
pub fn slice_between(raw: &str, a: u128, b: u128) -> (r: Option<String>)
    ensures
        r.deep_view() == byte_slice(raw@, a as int, b as int),
{
    let n: u128 = byte_len(raw) as u128;
    if a > n || b > n {
        return None;
    }
    slice_bytes(raw, a as usize, b as usize)
}

fn parts_of(raw: &str) -> (r: Option<Result<(String, String), TemplateError>>)
    ensures
        (match r {
            None => None,
            Some(Ok((f, b))) => Some(Ok((f@, b@))),
            Some(Err(e)) => Some(Err(e@)),
        }) == file_parts(raw@),
{
    let l = lines_of(raw);
    let n: u128 = byte_len(raw) as u128;
    let mark = match find_closing_mark(&l, Ghost(raw@)) {
        None => {
            return Some(Err(TemplateError::MissingFrontmatter));
        },
        Some(x) => x,
    };
    proof {
        assert(lines(raw@)[0] == l[0]@);
        reveal_with_fuel(lines_bytes, 2);
        lines_bytes_grow(lines(raw@), 1, mark.line as int);
    }
    let start: u128 = byte_len(l[0].as_str()) as u128 + 1;
    let front = match slice_between(raw, start, mark.before - 1) {
        None => {
            return None;
        },
        Some(f) => f,
    };
    let body = match slice_between(raw, mark.through, n) {
        None => {
            return None;
        },
        Some(b) => b,
    };
    Some(Ok((front, body)))
}

/// More lines take more bytes.
pub proof fn lines_bytes_grow(l: Seq<Seq<char>>, a: int, b: int)
    requires
        0 <= a <= b,
    ensures
        lines_bytes(l, a) + (b - a) <= lines_bytes(l, b),
    decreases b - a,
{
    if a < b {
        lines_bytes_grow(l, a, b - 1);
    }
}

/// The head and the body of a template file.
pub fn split_frontmatter(raw: &str) -> (r: Result<(String, String), TemplateError>)
    requires
        file_parts(raw@) is Some,
    ensures
        (match r {
            Ok((f, b)) => Ok((f@, b@)),
            Err(e) => Err(e@),
        }) == file_parts(raw@)->0,
{
    match parts_of(raw) {
        Some(r) => r,
        None => Err(TemplateError::MissingFrontmatter),
    }
}

/// The head and the body of a template file, unless their bounds fall outside the text or
/// inside a character of it.
pub fn try_split_frontmatter(raw: &str) -> (r: Option<Result<(String, String), TemplateError>>)
    ensures
        (match r {
            None => None,
            Some(Ok((f, b))) => Some(Ok((f@, b@))),
            Some(Err(e)) => Some(Err(e@)),
        }) == file_parts(raw@),
{
    parts_of(raw)
}

/// The head and the body of a template file that is not too large.
pub open spec fn sized_parts(raw: Seq<char>, max_bytes: usize) -> Option<Parts> {
    if bytes_len(raw) > max_bytes {
        Some(Err(TemplateErrorView::TooLarge(bytes_len(raw) as usize)))
    } else {
        file_parts(raw)
    }
}

/// The head and the body of a template file that is not too large.
pub fn template_parts(raw: &str, max_bytes: usize) -> (r: Option<
    Result<(String, String), TemplateError>,
>)
    ensures
        (match r {
            None => None,
            Some(Ok((f, b))) => Some(Ok((f@, b@))),
            Some(Err(e)) => Some(Err(e@)),
        }) == sized_parts(raw@, max_bytes),
{
    let n = byte_len(raw);
    if n > max_bytes {
        return Some(Err(TemplateError::TooLarge(n)));
    }
    parts_of(raw)
}

/// The section that a heading, in lower case and without the space around it, opens.
pub open spec fn section_key(heading: Seq<char>) -> Option<Seq<char>> {
    if heading == "role + objective"@ || heading == "role and objective"@ {
        Some("role_objective"@)
    } else if heading == "procedure"@ {
        Some("procedure"@)
    } else if heading == "outputs"@ {
        Some("outputs"@)
    } else if heading == "policy defaults"@ {
        Some("policy_defaults"@)
    } else if heading == "tooling scope"@ {
        Some("tooling_scope"@)
    } else {
        None
    }
}

pub fn section_of(heading: &str) -> (r: Option<String>)
    ensures
        r.deep_view() == section_key(heading@),
{
    if str_eq(heading, "role + objective") || str_eq(heading, "role and objective") {
        Some("role_objective".to_owned())
    } else if str_eq(heading, "procedure") {
        Some("procedure".to_owned())
    } else if str_eq(heading, "outputs") {
        Some("outputs".to_owned())
    } else if str_eq(heading, "policy defaults") {
        Some("policy_defaults".to_owned())
    } else if str_eq(heading, "tooling scope") {
        Some("tooling_scope".to_owned())
    } else {
        None
    }
}

/// The section that a heading opens.
pub open spec fn heading_key(h: Seq<char>) -> Option<Seq<char>> {
    section_key(lowercased(trim(h)))
}

fn normalize_heading(h: &str) -> (r: Option<String>)
    ensures
        r.deep_view() == heading_key(h@),
{
    let t = trim_string(h);
    let n = to_lowercase(t.as_str());
    section_of(n.as_str())
}

/// Sections under construction.
#[verifier::ext_equal]
pub struct Reading {
    pub sections: Seq<(Seq<char>, Seq<char>)>,
    pub current: Option<Seq<char>>,
    pub text: Seq<char>,
}

/// The sections with the current one closed.
pub open spec fn closed_section(r: Reading) -> Seq<(Seq<char>, Seq<char>)> {
    match r.current {
        Some(key) => put(r.sections, key, trim(r.text)),
        None => r.sections,
    }
}

/// The reading after one more line: a heading closes the current section and opens the
/// one that it names; any other line belongs to the current section, if there is one.
pub open spec fn read_line(r: Reading, line: Seq<char>) -> Reading {
    if has_prefix(line, "## "@) {
        Reading {
            sections: closed_section(r),
            current: heading_key(rest(line, "## "@.len() as int)),
            text: Seq::empty(),
        }
    } else if r.current is Some {
        Reading { text: r.text + line + "\n"@, ..r }
    } else {
        r
    }
}

/// The reading after the lines from position `i` on.
pub open spec fn read_lines(l: Seq<Seq<char>>, i: int, r: Reading) -> Reading
    decreases l.len() - i,
{
    if i < 0 || i >= l.len() {
        r
    } else {
        read_lines(l, i + 1, read_line(r, l[i]))
    }
}

/// The sections of a body.
pub open spec fn sections_of(body: Seq<char>) -> Seq<(Seq<char>, Seq<char>)> {
    closed_section(
        read_lines(
            lines(body),
            0,
            Reading { sections: Seq::empty(), current: None, text: Seq::empty() },
        ),
    )
}

/// The heading of a section.
pub open spec fn section_heading(key: Seq<char>) -> Seq<char> {
    if key == "role_objective"@ {
        "## Role + Objective"@
    } else if key == "procedure"@ {
        "## Procedure"@
    } else if key == "outputs"@ {
        "## Outputs"@
    } else if key == "policy_defaults"@ {
        "## Policy Defaults"@
    } else if key == "tooling_scope"@ {
        "## Tooling Scope"@
    } else {
        "## <unknown>"@
    }
}

/// A section that must be there and hold something.
pub open spec fn required_section(s: Seq<(Seq<char>, Seq<char>)>, key: Seq<char>) -> Result<
    Seq<char>,
    TemplateErrorView,
> {
    match lookup(s, key) {
        Some(t) => if is_blank(t) {
            Err(TemplateErrorView::MissingSection(section_heading(key)))
        } else {
            Ok(t)
        },
        None => Err(TemplateErrorView::MissingSection(section_heading(key))),
    }
}

/// The contract of a template, or the first section that it lacks.
pub open spec fn contract_of(s: Seq<(Seq<char>, Seq<char>)>) -> Result<
    TemplateContractView,
    TemplateErrorView,
> {
    match required_section(s, "role_objective"@) {
        Err(e) => Err(e),
        Ok(role_objective) => match required_section(s, "procedure"@) {
            Err(e) => Err(e),
            Ok(procedure) => match required_section(s, "outputs"@) {
                Err(e) => Err(e),
                Ok(outputs) => match required_section(s, "policy_defaults"@) {
                    Err(e) => Err(e),
                    Ok(policy_defaults) => match required_section(s, "tooling_scope"@) {
                        Err(e) => Err(e),
                        Ok(tooling_scope) => Ok(
                            TemplateContractView {
                                role_objective,
                                procedure,
                                outputs,
                                policy_defaults,
                                tooling_scope,
                            },
                        ),
                    },
                },
            },
        },
    }
}

fn heading_of(key: &str) -> (r: String)
    ensures
        r@ == section_heading(key@),
{
    if str_eq(key, "role_objective") {
        "## Role + Objective".to_owned()
    } else if str_eq(key, "procedure") {
        "## Procedure".to_owned()
    } else if str_eq(key, "outputs") {
        "## Outputs".to_owned()
    } else if str_eq(key, "policy_defaults") {
        "## Policy Defaults".to_owned()
    } else if str_eq(key, "tooling_scope") {
        "## Tooling Scope".to_owned()
    } else {
        "## <unknown>".to_owned()
    }
}

fn must_section(map: &StrMap<String>, key: &str) -> (r: Result<String, TemplateError>)
    ensures
        (match r {
            Ok(t) => Ok(t@),
            Err(e) => Err(e@),
        }) == required_section(map@, key@),
{
    if let Some(t) = map.get(key) {
        if !blank(t.as_str()) {
            return Ok(t.clone());
        }
    }
    Err(TemplateError::MissingSection(heading_of(key)))
}

/// The contract that sections make.
pub fn contract_from_sections(sections: &StrMap<String>) -> (r: Result<
    TemplateContract,
    TemplateError,
>)
    ensures
        (match r {
            Ok(c) => Ok(c@),
            Err(e) => Err(e@),
        }) == contract_of(sections@),
{
    let role_objective = must_section(sections, "role_objective")?;
    let procedure = must_section(sections, "procedure")?;
    let outputs = must_section(sections, "outputs")?;
    let policy_defaults = must_section(sections, "policy_defaults")?;
    let tooling_scope = must_section(sections, "tooling_scope")?;
    Ok(
        TemplateContract { role_objective, procedure, outputs, policy_defaults, tooling_scope },
    )
}

/// The contract in the body of a template.
pub fn extract_contract_sections(body: &str) -> (r: Result<TemplateContract, TemplateError>)
    ensures
        (match r {
            Ok(c) => Ok(c@),
            Err(e) => Err(e@),
        }) == contract_of(sections_of(body@)),
{
    let l = lines_of(body);
    let ghost all = lines(body@);
    let ghost start = Reading { sections: Seq::empty(), current: None, text: Seq::empty() };
    let mut sections: StrMap<String> = StrMap::new();
    let mut current: Option<String> = None;
    let mut text = String::new();
    let mut i: usize = 0;
    assert(text@ =~= Seq::empty());
    while i < l.len()
        invariant
            i <= l.len(),
            all == l.deep_view(),
            read_lines(all, 0, start) == read_lines(
                all,
                i as int,
                Reading { sections: sections@, current: current.deep_view(), text: text@ },
            ),
        decreases l.len() - i,
    {
        let line = l[i].as_str();
        assert(all[i as int] == line@);
        if let Some(h) = strip_prefix(line, "## ") {
            if let Some(key) = current {
                sections.insert(key, trim_string(text.as_str()));
            }
            text = String::new();
            assert(text@ =~= Seq::empty());
            current = normalize_heading(h.as_str());
        } else if current.is_some() {
            text.append(line);
            text.append("\n");
        }
        i = i + 1;
    }
    if let Some(key) = current {
        sections.insert(key, trim_string(text.as_str()));
    }
    contract_from_sections(&sections)
}

/// A path with `/` in place of every `\`.
pub open spec fn forward_slashes(s: Seq<char>) -> Seq<char> {
    s.map_values(
        |c: char|
            if c == '\\' {
                '/'
            } else {
                c
            },
    )
}

fn with_forward_slashes(s: &str) -> (r: String)
    ensures
        r@ == forward_slashes(s@),
{
    let v = chars_of(s);
    let mut out = String::new();
    let mut i: usize = 0;
    assert(out@ =~= forward_slashes(v@).subrange(0, 0));
    while i < v.len()
        invariant
            i <= v@.len(),
            out@ == forward_slashes(v@).subrange(0, i as int),
        decreases v.len() - i,
    {
        out.push(
            if v[i] == '\\' {
                '/'
            } else {
                v[i]
            },
        );
        i = i + 1;
        assert(out@ =~= forward_slashes(v@).subrange(0, i as int));
    }
    assert(forward_slashes(v@).subrange(0, i as int) =~= forward_slashes(v@));
    out
}

/// The template that a file makes, from its head and its body.
pub open spec fn template_from(
    fm: FrontmatterView,
    body: Seq<char>,
    path: Seq<char>,
    relative: Seq<char>,
    source: TemplateSource,
    prefix: Seq<char>,
) -> Result<TemplateView, TemplateErrorView> {
    match fm.name {
        None => Err(TemplateErrorView::MissingFrontmatterKey("name"@)),
        Some(name) => match fm.description {
            None => Err(TemplateErrorView::MissingFrontmatterKey("description"@)),
            Some(description) => match contract_of(sections_of(body)) {
                Err(e) => Err(e),
                Ok(contract) => Ok(
                    TemplateView {
                        id: prefix + ":"@ + forward_slashes(relative),
                        name,
                        description,
                        tags: fm.tags,
                        source,
                        path: Some(path),
                        defaults: match fm.defaults {
                            Some(d) => d,
                            None => no_defaults(),
                        },
                        body_markdown: body,
                        contract,
                    },
                ),
            },
        },
    }
}

/// The template that a file makes, from its head and its body. `relative` is the path of
/// the file below the directory of its source.
pub fn load_template(
    fm: Frontmatter,
    body: &str,
    path: &str,
    relative: &str,
    source: TemplateSource,
    source_prefix: &str,
) -> (r: Result<Template, TemplateError>)
    ensures
        (match r {
            Ok(t) => Ok(t@),
            Err(e) => Err(e@),
        }) == template_from(fm@, body@, path@, relative@, source, source_prefix@),
{
    let name = match fm.name {
        None => {
            return Err(TemplateError::MissingFrontmatterKey("name".to_owned()));
        },
        Some(n) => n,
    };
    let description = match fm.description {
        None => {
            return Err(TemplateError::MissingFrontmatterKey("description".to_owned()));
        },
        Some(d) => d,
    };
    let contract = extract_contract_sections(body)?;
    let below = with_forward_slashes(relative);
    let defaults = match fm.defaults {
        Some(d) => d,
        None => TemplateDefaults::default(),
    };
    Ok(
        Template {
            id: cat3(source_prefix, ":", below.as_str()),
            name,
            description,
            tags: fm.tags,
            source,
            path: Some(path.to_owned()),
            defaults,
            body_markdown: body.to_owned(),
            contract,
        },
    )
}

/// The warning about a file that is no template.
pub open spec fn ignored_warning(path: Seq<char>, error: Seq<char>) -> Seq<char> {
    "ignored template "@ + path + ": "@ + error
}

/// A template found, or a warning about the file that is none.
pub fn note_loaded(
    path: &str,
    loaded: Result<Template, TemplateError>,
    out: &mut TemplateDiscoveryResult,
)
    ensures
        final(out)@ == (match loaded {
            Ok(t) => TemplateDiscoveryResultView {
                templates: old(out)@.templates.push(t@),
                ..old(out)@
            },
            Err(e) => TemplateDiscoveryResultView {
                warnings: old(out)@.warnings.push(
                    ignored_warning(path@, template_error_text(e@)),
                ),
                ..old(out)@
            },
        }),
{
    match loaded {
        Ok(t) => {
            let ghost before = out.templates.deep_view();
            out.templates.push(t);
            assert(out.templates.deep_view() =~= before.push(t@));
        },
        Err(e) => {
            let ghost before = out.warnings.deep_view();
            let m = e.message();
            let head = cat3("ignored template ", path, ": ");
            let w = cat2(head.as_str(), m.as_str());
            out.warnings.push(w);
            assert(out.warnings.deep_view() =~= before.push(w@));
        },
    }
}

/// Which directories of templates are looked into, and the warning where the one of the
/// repository is not.
pub fn template_dirs(repo_root: bool, repo_trusted: bool) -> (r: (bool, Option<String>))
    ensures
        r.0 == (repo_root && repo_trusted),
        r.1.deep_view() == (if repo_root && !repo_trusted {
            Some("repo templates are disabled (repo not trusted)"@)
        } else {
            None
        }),
{
    if repo_trusted {
        (repo_root, None)
    } else if repo_root {
        (false, Some("repo templates are disabled (repo not trusted)".to_owned()))
    } else {
        (false, None)
    }
}

/// A template that is accepted has all its sections, none of them blank.
pub proof fn accepted_template_is_complete(s: Seq<(Seq<char>, Seq<char>)>)
    ensures
        contract_of(s) matches Ok(c) ==> {
            &&& !is_blank(c.role_objective)
            &&& !is_blank(c.procedure)
            &&& !is_blank(c.outputs)
            &&& !is_blank(c.policy_defaults)
            &&& !is_blank(c.tooling_scope)
        },
{
}

} // verus!
