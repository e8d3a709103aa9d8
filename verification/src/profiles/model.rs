//! The registry of profiles, and what is resolved from it.

use vstd::prelude::*;
use crate::strmap::StrMap;
use crate::text::{cat2, cat4, Duplicate, Same};
use crate::types::config::{PolicyConfig, PolicyConfigView};
use crate::types::profile::{
    GuidelineProfileV1, GuidelineProfileV1View, PolicyProfileV1, PolicyProfileV1View,
};

verus! {

/// Where a profile comes from.
#[derive(Debug, Clone, Copy, PartialEq, Eq, Structural)]
pub enum ProfileScope {
    Global,
    Project,
}

impl View for ProfileScope {
    type V = ProfileScope;

    open spec fn view(&self) -> ProfileScope {
        *self
    }
}

impl DeepView for ProfileScope {
    type V = ProfileScope;

    open spec fn deep_view(&self) -> ProfileScope {
        *self
    }
}

impl Duplicate for ProfileScope {
    fn dup(&self) -> (r: Self) {
        *self
    }
}

impl Same for ProfileScope {
    fn same(&self, other: &Self) -> (b: bool) {
        *self == *other
    }
}

/// Why profiles cannot be had.
#[derive(Debug, PartialEq, Eq)]
pub enum ProfilesError {
    Io {
        path: String,
        message: String,
    },
    JsonParse {
        path: String,
        message: String,
    },
    Validation(String),
}

/// What a [`ProfilesError`] stands for.
#[verifier::ext_equal]
pub enum ProfilesErrorView {
    Io {
        path: Seq<char>,
        message: Seq<char>,
    },
    JsonParse {
        path: Seq<char>,
        message: Seq<char>,
    },
    Validation(Seq<char>),
}

impl View for ProfilesError {
    type V = ProfilesErrorView;

    open spec fn view(&self) -> ProfilesErrorView {
        match self {
            ProfilesError::Io { path, message } => ProfilesErrorView::Io {
                path: path@,
                message: message@,
            },
            ProfilesError::JsonParse { path, message } => ProfilesErrorView::JsonParse {
                path: path@,
                message: message@,
            },
            ProfilesError::Validation(a) => ProfilesErrorView::Validation(a@),
        }
    }
}

impl DeepView for ProfilesError {
    type V = ProfilesErrorView;

    open spec fn deep_view(&self) -> ProfilesErrorView {
        self@
    }
}

impl Duplicate for ProfilesError {
    fn dup(&self) -> (r: Self) {
        match self {
            ProfilesError::Io { path, message } => ProfilesError::Io {
                path: path.clone(),
                message: message.clone(),
            },
            ProfilesError::JsonParse { path, message } => ProfilesError::JsonParse {
                path: path.clone(),
                message: message.clone(),
            },
            ProfilesError::Validation(a) => ProfilesError::Validation(a.clone()),
        }
    }
}

impl Clone for ProfilesError {
    fn clone(&self) -> (r: Self)
        ensures
            r@ == self@,
    {
        self.dup()
    }
}

/// A profile that took part in a resolution.
#[derive(Debug, PartialEq, Eq)]
pub struct ProfileProvenanceEntry {
    pub profile_type: String,
    pub profile_id: String,
    pub scope: ProfileScope,
}

/// What a [`ProfileProvenanceEntry`] stands for.
#[verifier::ext_equal]
pub struct ProfileProvenanceEntryView {
    pub profile_type: Seq<char>,
    pub profile_id: Seq<char>,
    pub scope: ProfileScope,
}

impl View for ProfileProvenanceEntry {
    type V = ProfileProvenanceEntryView;

    open spec fn view(&self) -> ProfileProvenanceEntryView {
        ProfileProvenanceEntryView {
            profile_type: self.profile_type@,
            profile_id: self.profile_id@,
            scope: self.scope,
        }
    }
}

impl DeepView for ProfileProvenanceEntry {
    type V = ProfileProvenanceEntryView;

    open spec fn deep_view(&self) -> ProfileProvenanceEntryView {
        self@
    }
}

impl Duplicate for ProfileProvenanceEntry {
    fn dup(&self) -> (r: Self) {
        ProfileProvenanceEntry {
            profile_type: self.profile_type.clone(),
            profile_id: self.profile_id.clone(),
            scope: self.scope,
        }
    }
}

impl Clone for ProfileProvenanceEntry {
    fn clone(&self) -> (r: Self)
        ensures
            r@ == self@,
    {
        self.dup()
    }
}

/// All profiles that can be referred to.
#[derive(Debug, PartialEq, Eq)]
pub struct LoadedProfilesRegistry {
    pub policy_profiles: StrMap<PolicyProfileV1>,
    pub guideline_profiles: StrMap<GuidelineProfileV1>,
    pub policy_scope: StrMap<ProfileScope>,
    pub guideline_scope: StrMap<ProfileScope>,
    pub warnings: Vec<String>,
}

/// What a [`LoadedProfilesRegistry`] stands for.
#[verifier::ext_equal]
pub struct LoadedProfilesRegistryView {
    pub policy_profiles: Seq<(Seq<char>, PolicyProfileV1View)>,
    pub guideline_profiles: Seq<(Seq<char>, GuidelineProfileV1View)>,
    pub policy_scope: Seq<(Seq<char>, ProfileScope)>,
    pub guideline_scope: Seq<(Seq<char>, ProfileScope)>,
    pub warnings: Seq<Seq<char>>,
}

impl View for LoadedProfilesRegistry {
    type V = LoadedProfilesRegistryView;

    open spec fn view(&self) -> LoadedProfilesRegistryView {
        LoadedProfilesRegistryView {
            policy_profiles: self.policy_profiles.deep_view(),
            guideline_profiles: self.guideline_profiles.deep_view(),
            policy_scope: self.policy_scope.deep_view(),
            guideline_scope: self.guideline_scope.deep_view(),
            warnings: self.warnings.deep_view(),
        }
    }
}

impl DeepView for LoadedProfilesRegistry {
    type V = LoadedProfilesRegistryView;

    open spec fn deep_view(&self) -> LoadedProfilesRegistryView {
        self@
    }
}

impl Duplicate for LoadedProfilesRegistry {
    fn dup(&self) -> (r: Self) {
        LoadedProfilesRegistry {
            policy_profiles: self.policy_profiles.dup(),
            guideline_profiles: self.guideline_profiles.dup(),
            policy_scope: self.policy_scope.dup(),
            guideline_scope: self.guideline_scope.dup(),
            warnings: self.warnings.dup(),
        }
    }
}

impl Clone for LoadedProfilesRegistry {
    fn clone(&self) -> (r: Self)
        ensures
            r@ == self@,
    {
        self.dup()
    }
}

/// What profiles come to for one subject.
#[derive(Debug, PartialEq, Eq)]
pub struct ResolvedSubjectProfiles {
    pub effective_policy: PolicyConfig,
    pub guidelines: Vec<String>,
    pub provenance: Vec<ProfileProvenanceEntry>,
    pub warnings: Vec<String>,
    pub missing_policy_profiles: Vec<String>,
    pub missing_guideline_profiles: Vec<String>,
    pub fingerprint_sha256: String,
}

/// What a [`ResolvedSubjectProfiles`] stands for.
#[verifier::ext_equal]
pub struct ResolvedSubjectProfilesView {
    pub effective_policy: PolicyConfigView,
    pub guidelines: Seq<Seq<char>>,
    pub provenance: Seq<ProfileProvenanceEntryView>,
    pub warnings: Seq<Seq<char>>,
    pub missing_policy_profiles: Seq<Seq<char>>,
    pub missing_guideline_profiles: Seq<Seq<char>>,
    pub fingerprint_sha256: Seq<char>,
}

impl View for ResolvedSubjectProfiles {
    type V = ResolvedSubjectProfilesView;

    open spec fn view(&self) -> ResolvedSubjectProfilesView {
        ResolvedSubjectProfilesView {
            effective_policy: self.effective_policy@,
            guidelines: self.guidelines.deep_view(),
            provenance: self.provenance.deep_view(),
            warnings: self.warnings.deep_view(),
            missing_policy_profiles: self.missing_policy_profiles.deep_view(),
            missing_guideline_profiles: self.missing_guideline_profiles.deep_view(),
            fingerprint_sha256: self.fingerprint_sha256@,
        }
    }
}

impl DeepView for ResolvedSubjectProfiles {
    type V = ResolvedSubjectProfilesView;

    open spec fn deep_view(&self) -> ResolvedSubjectProfilesView {
        self@
    }
}

impl Duplicate for ResolvedSubjectProfiles {
    fn dup(&self) -> (r: Self) {
        ResolvedSubjectProfiles {
            effective_policy: self.effective_policy.dup(),
            guidelines: self.guidelines.dup(),
            provenance: self.provenance.dup(),
            warnings: self.warnings.dup(),
            missing_policy_profiles: self.missing_policy_profiles.dup(),
            missing_guideline_profiles: self.missing_guideline_profiles.dup(),
            fingerprint_sha256: self.fingerprint_sha256.clone(),
        }
    }
}

impl Clone for ResolvedSubjectProfiles {
    fn clone(&self) -> (r: Self)
        ensures
            r@ == self@,
    {
        self.dup()
    }
}

/// How long resolutions took.
#[derive(Debug, PartialEq, Eq)]
pub struct ResolverPerfResult {
    pub iterations: usize,
    pub p50_micros: u64,
    pub p95_micros: u64,
    pub p99_micros: u64,
    pub max_micros: u64,
}

/// What a [`ResolverPerfResult`] stands for.
#[verifier::ext_equal]
pub struct ResolverPerfResultView {
    pub iterations: usize,
    pub p50_micros: u64,
    pub p95_micros: u64,
    pub p99_micros: u64,
    pub max_micros: u64,
}

impl View for ResolverPerfResult {
    type V = ResolverPerfResultView;

    open spec fn view(&self) -> ResolverPerfResultView {
        ResolverPerfResultView {
            iterations: self.iterations,
            p50_micros: self.p50_micros,
            p95_micros: self.p95_micros,
            p99_micros: self.p99_micros,
            max_micros: self.max_micros,
        }
    }
}

impl DeepView for ResolverPerfResult {
    type V = ResolverPerfResultView;

    open spec fn deep_view(&self) -> ResolverPerfResultView {
        self@
    }
}

impl Duplicate for ResolverPerfResult {
    fn dup(&self) -> (r: Self) {
        ResolverPerfResult {
            iterations: self.iterations,
            p50_micros: self.p50_micros,
            p95_micros: self.p95_micros,
            p99_micros: self.p99_micros,
            max_micros: self.max_micros,
        }
    }
}

impl Clone for ResolverPerfResult {
    fn clone(&self) -> (r: Self)
        ensures
            r@ == self@,
    {
        self.dup()
    }
}

/// The text of an error.
pub open spec fn profiles_error_text(e: ProfilesErrorView) -> Seq<char> {
    match e {
        ProfilesErrorView::Io { path, message } => "io error for "@ + path + ": "@ + message,
        ProfilesErrorView::JsonParse { path, message } => "json parse error for "@ + path + ": "@ + message,
        ProfilesErrorView::Validation(m) => "validation error: "@ + m,
    }
}

impl ProfilesError {
    /// The error in words.
    pub fn message(&self) -> (r: String)
        ensures
            r@ == profiles_error_text(self@),
    {
        match self {
            ProfilesError::Io { path, message } => cat4("io error for ", path.as_str(), ": ", message.as_str()),
            ProfilesError::JsonParse { path, message } => cat4("json parse error for ", path.as_str(), ": ", message.as_str()),
            ProfilesError::Validation(m) => cat2("validation error: ", m.as_str()),
        }
    }
}

} // verus!
