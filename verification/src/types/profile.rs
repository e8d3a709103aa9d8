//! Profiles, and references to them.

use vstd::prelude::*;
use crate::strmap::StrMap;
use crate::text::Duplicate;

verus! {

/// The profiles that something refers to, in order.
#[derive(Debug, PartialEq, Eq)]
pub struct ProfileRefs {
    pub policy_profiles: Vec<String>,
    pub guideline_profiles: Vec<String>,
}

/// What a [`ProfileRefs`] stands for.
#[verifier::ext_equal]
pub struct ProfileRefsView {
    pub policy_profiles: Seq<Seq<char>>,
    pub guideline_profiles: Seq<Seq<char>>,
}

impl View for ProfileRefs {
    type V = ProfileRefsView;

    open spec fn view(&self) -> ProfileRefsView {
        ProfileRefsView {
            policy_profiles: self.policy_profiles.deep_view(),
            guideline_profiles: self.guideline_profiles.deep_view(),
        }
    }
}

impl DeepView for ProfileRefs {
    type V = ProfileRefsView;

    open spec fn deep_view(&self) -> ProfileRefsView {
        self@
    }
}

impl Duplicate for ProfileRefs {
    fn dup(&self) -> (r: Self) {
        ProfileRefs {
            policy_profiles: self.policy_profiles.dup(),
            guideline_profiles: self.guideline_profiles.dup(),
        }
    }
}

impl Clone for ProfileRefs {
    fn clone(&self) -> (r: Self)
        ensures
            r@ == self@,
    {
        self.dup()
    }
}

/// References to no profile.
pub open spec fn no_refs() -> ProfileRefsView {
    ProfileRefsView { policy_profiles: Seq::empty(), guideline_profiles: Seq::empty() }
}

impl Default for ProfileRefs {
    fn default() -> (r: Self)
        ensures
            r@ == no_refs(),
    {
        let r = ProfileRefs { policy_profiles: Vec::new(), guideline_profiles: Vec::new() };
        assert(r@ =~= no_refs());
        r
    }
}

/// What a policy profile changes.
#[derive(Debug, PartialEq, Eq)]
pub struct PolicyProfilePatchV1 {
    pub enabled: Option<bool>,
    pub deny_dangerous_always: Option<bool>,
    pub verify_required: Option<bool>,
    pub verify_max_age_ms: Option<u64>,
    pub verify_command_prefixes_add: Vec<Vec<String>>,
}

/// What a [`PolicyProfilePatchV1`] stands for.
#[verifier::ext_equal]
pub struct PolicyProfilePatchV1View {
    pub enabled: Option<bool>,
    pub deny_dangerous_always: Option<bool>,
    pub verify_required: Option<bool>,
    pub verify_max_age_ms: Option<u64>,
    pub verify_command_prefixes_add: Seq<Seq<Seq<char>>>,
}

impl View for PolicyProfilePatchV1 {
    type V = PolicyProfilePatchV1View;

    open spec fn view(&self) -> PolicyProfilePatchV1View {
        PolicyProfilePatchV1View {
            enabled: self.enabled.deep_view(),
            deny_dangerous_always: self.deny_dangerous_always.deep_view(),
            verify_required: self.verify_required.deep_view(),
            verify_max_age_ms: self.verify_max_age_ms.deep_view(),
            verify_command_prefixes_add: self.verify_command_prefixes_add.deep_view(),
        }
    }
}

impl DeepView for PolicyProfilePatchV1 {
    type V = PolicyProfilePatchV1View;

    open spec fn deep_view(&self) -> PolicyProfilePatchV1View {
        self@
    }
}

impl Duplicate for PolicyProfilePatchV1 {
    fn dup(&self) -> (r: Self) {
        PolicyProfilePatchV1 {
            enabled: self.enabled.dup(),
            deny_dangerous_always: self.deny_dangerous_always.dup(),
            verify_required: self.verify_required.dup(),
            verify_max_age_ms: self.verify_max_age_ms.dup(),
            verify_command_prefixes_add: self.verify_command_prefixes_add.dup(),
        }
    }
}

impl Clone for PolicyProfilePatchV1 {
    fn clone(&self) -> (r: Self)
        ensures
            r@ == self@,
    {
        self.dup()
    }
}

/// A named change of the policy.
#[derive(Debug, PartialEq, Eq)]
pub struct PolicyProfileV1 {
    pub description: Option<String>,
    pub includes: Vec<String>,
    pub patch: PolicyProfilePatchV1,
}

/// What a [`PolicyProfileV1`] stands for.
#[verifier::ext_equal]
pub struct PolicyProfileV1View {
    pub description: Option<Seq<char>>,
    pub includes: Seq<Seq<char>>,
    pub patch: PolicyProfilePatchV1View,
}

impl View for PolicyProfileV1 {
    type V = PolicyProfileV1View;

    open spec fn view(&self) -> PolicyProfileV1View {
        PolicyProfileV1View {
            description: self.description.deep_view(),
            includes: self.includes.deep_view(),
            patch: self.patch@,
        }
    }
}

impl DeepView for PolicyProfileV1 {
    type V = PolicyProfileV1View;

    open spec fn deep_view(&self) -> PolicyProfileV1View {
        self@
    }
}

impl Duplicate for PolicyProfileV1 {
    fn dup(&self) -> (r: Self) {
        PolicyProfileV1 {
            description: self.description.dup(),
            includes: self.includes.dup(),
            patch: self.patch.dup(),
        }
    }
}

impl Clone for PolicyProfileV1 {
    fn clone(&self) -> (r: Self)
        ensures
            r@ == self@,
    {
        self.dup()
    }
}

/// A named list of instructions.
#[derive(Debug, PartialEq, Eq)]
pub struct GuidelineProfileV1 {
    pub description: Option<String>,
    pub includes: Vec<String>,
    pub instructions: Vec<String>,
}

/// What a [`GuidelineProfileV1`] stands for.
#[verifier::ext_equal]
pub struct GuidelineProfileV1View {
    pub description: Option<Seq<char>>,
    pub includes: Seq<Seq<char>>,
    pub instructions: Seq<Seq<char>>,
}

impl View for GuidelineProfileV1 {
    type V = GuidelineProfileV1View;

    open spec fn view(&self) -> GuidelineProfileV1View {
        GuidelineProfileV1View {
            description: self.description.deep_view(),
            includes: self.includes.deep_view(),
            instructions: self.instructions.deep_view(),
        }
    }
}

impl DeepView for GuidelineProfileV1 {
    type V = GuidelineProfileV1View;

    open spec fn deep_view(&self) -> GuidelineProfileV1View {
        self@
    }
}

impl Duplicate for GuidelineProfileV1 {
    fn dup(&self) -> (r: Self) {
        GuidelineProfileV1 {
            description: self.description.dup(),
            includes: self.includes.dup(),
            instructions: self.instructions.dup(),
        }
    }
}

impl Clone for GuidelineProfileV1 {
    fn clone(&self) -> (r: Self)
        ensures
            r@ == self@,
    {
        self.dup()
    }
}

/// The contents of a policy profiles file.
#[derive(Debug, PartialEq, Eq)]
pub struct PolicyProfilesFileV1 {
    pub schema_version: String,
    pub profiles: StrMap<PolicyProfileV1>,
}

/// What a [`PolicyProfilesFileV1`] stands for.
#[verifier::ext_equal]
pub struct PolicyProfilesFileV1View {
    pub schema_version: Seq<char>,
    pub profiles: Seq<(Seq<char>, PolicyProfileV1View)>,
}

impl View for PolicyProfilesFileV1 {
    type V = PolicyProfilesFileV1View;

    open spec fn view(&self) -> PolicyProfilesFileV1View {
        PolicyProfilesFileV1View {
            schema_version: self.schema_version@,
            profiles: self.profiles.deep_view(),
        }
    }
}

impl DeepView for PolicyProfilesFileV1 {
    type V = PolicyProfilesFileV1View;

    open spec fn deep_view(&self) -> PolicyProfilesFileV1View {
        self@
    }
}

impl Duplicate for PolicyProfilesFileV1 {
    fn dup(&self) -> (r: Self) {
        PolicyProfilesFileV1 {
            schema_version: self.schema_version.clone(),
            profiles: self.profiles.dup(),
        }
    }
}

impl Clone for PolicyProfilesFileV1 {
    fn clone(&self) -> (r: Self)
        ensures
            r@ == self@,
    {
        self.dup()
    }
}

/// The contents of a guideline profiles file.
#[derive(Debug, PartialEq, Eq)]
pub struct GuidelineProfilesFileV1 {
    pub schema_version: String,
    pub profiles: StrMap<GuidelineProfileV1>,
}

/// What a [`GuidelineProfilesFileV1`] stands for.
#[verifier::ext_equal]
pub struct GuidelineProfilesFileV1View {
    pub schema_version: Seq<char>,
    pub profiles: Seq<(Seq<char>, GuidelineProfileV1View)>,
}

impl View for GuidelineProfilesFileV1 {
    type V = GuidelineProfilesFileV1View;

    open spec fn view(&self) -> GuidelineProfilesFileV1View {
        GuidelineProfilesFileV1View {
            schema_version: self.schema_version@,
            profiles: self.profiles.deep_view(),
        }
    }
}

impl DeepView for GuidelineProfilesFileV1 {
    type V = GuidelineProfilesFileV1View;

    open spec fn deep_view(&self) -> GuidelineProfilesFileV1View {
        self@
    }
}

impl Duplicate for GuidelineProfilesFileV1 {
    fn dup(&self) -> (r: Self) {
        GuidelineProfilesFileV1 {
            schema_version: self.schema_version.clone(),
            profiles: self.profiles.dup(),
        }
    }
}

impl Clone for GuidelineProfilesFileV1 {
    fn clone(&self) -> (r: Self)
        ensures
            r@ == self@,
    {
        self.dup()
    }
}

/// The default [`PolicyProfilePatchV1`].
pub open spec fn default_policy_profile_patch_v1() -> PolicyProfilePatchV1View {
    PolicyProfilePatchV1View {
        enabled: None,
        deny_dangerous_always: None,
        verify_required: None,
        verify_max_age_ms: None,
        verify_command_prefixes_add: Seq::empty(),
    }
}

impl Default for PolicyProfilePatchV1 {
    fn default() -> (r: Self)
        ensures
            r@ == default_policy_profile_patch_v1(),
    {
        let r = PolicyProfilePatchV1 {
            enabled: None,
            deny_dangerous_always: None,
            verify_required: None,
            verify_max_age_ms: None,
            verify_command_prefixes_add: Vec::new(),
        };
        assert(r@ =~= default_policy_profile_patch_v1());
        r
    }
}

/// The default [`PolicyProfileV1`].
pub open spec fn default_policy_profile_v1() -> PolicyProfileV1View {
    PolicyProfileV1View {
        description: None,
        includes: Seq::empty(),
        patch: default_policy_profile_patch_v1(),
    }
}

impl Default for PolicyProfileV1 {
    fn default() -> (r: Self)
        ensures
            r@ == default_policy_profile_v1(),
    {
        let r = PolicyProfileV1 {
            description: None,
            includes: Vec::new(),
            patch: PolicyProfilePatchV1::default(),
        };
        assert(r@ =~= default_policy_profile_v1());
        r
    }
}

/// The default [`GuidelineProfileV1`].
pub open spec fn default_guideline_profile_v1() -> GuidelineProfileV1View {
    GuidelineProfileV1View {
        description: None,
        includes: Seq::empty(),
        instructions: Seq::empty(),
    }
}

impl Default for GuidelineProfileV1 {
    fn default() -> (r: Self)
        ensures
            r@ == default_guideline_profile_v1(),
    {
        let r = GuidelineProfileV1 {
            description: None,
            includes: Vec::new(),
            instructions: Vec::new(),
        };
        assert(r@ =~= default_guideline_profile_v1());
        r
    }
}

/// The default [`PolicyProfilesFileV1`].
pub open spec fn default_policy_profiles_file_v1() -> PolicyProfilesFileV1View {
    PolicyProfilesFileV1View {
        schema_version: "1"@,
        profiles: Seq::empty(),
    }
}

impl Default for PolicyProfilesFileV1 {
    fn default() -> (r: Self)
        ensures
            r@ == default_policy_profiles_file_v1(),
    {
        let r = PolicyProfilesFileV1 {
            schema_version: "1".to_owned(),
            profiles: StrMap::new(),
        };
        assert(r@ =~= default_policy_profiles_file_v1());
        r
    }
}

/// The default [`GuidelineProfilesFileV1`].
pub open spec fn default_guideline_profiles_file_v1() -> GuidelineProfilesFileV1View {
    GuidelineProfilesFileV1View {
        schema_version: "1"@,
        profiles: Seq::empty(),
    }
}

impl Default for GuidelineProfilesFileV1 {
    fn default() -> (r: Self)
        ensures
            r@ == default_guideline_profiles_file_v1(),
    {
        let r = GuidelineProfilesFileV1 {
            schema_version: "1".to_owned(),
            profiles: StrMap::new(),
        };
        assert(r@ =~= default_guideline_profiles_file_v1());
        r
    }
}

} // verus!
